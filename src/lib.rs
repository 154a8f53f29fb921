//! Character record store: the PNG metadata codec that embeds a character
//! profile in a portrait image, the record model, the asset migrator that
//! brings historical on-disk layouts into the canonical one, and the pure
//! decisions of the record store.

pub mod bindings;
pub mod codec;
pub mod error;
pub mod migrate;
pub mod model;
pub mod state;
pub mod store;
