//! The character record as it is stored: metadata, the Tavern Card V2
//! profile with its optional world book, and the two asset paths.

use vstd::prelude::*;

verus! {

/// The file name of a record's portrait inside its directory.
pub const CARD_FILE_NAME: &'static str = "card.png";

/// The file name of a record's thumbnail inside its directory.
pub const THUMBNAIL_FILE_NAME: &'static str = "thumbnail.png";

/// The profile format that every stored card declares.
pub const CARD_SPEC: &'static str = "chara_card_v2";

/// The version of that format.
pub const CARD_SPEC_VERSION: &'static str = "2.0";

/// The version of the record layout that new records carry.
pub const RECORD_VERSION: &'static str = "1.0";

pub open spec fn card_file_name() -> Seq<char> {
    seq!['c', 'a', 'r', 'd', '.', 'p', 'n', 'g']
}

pub open spec fn thumbnail_file_name() -> Seq<char> {
    seq!['t', 'h', 'u', 'm', 'b', 'n', 'a', 'i', 'l', '.', 'p', 'n', 'g']
}

pub open spec fn card_spec() -> Seq<char> {
    seq!['c', 'h', 'a', 'r', 'a', '_', 'c', 'a', 'r', 'd', '_', 'v', '2']
}

pub open spec fn card_spec_version() -> Seq<char> {
    seq!['2', '.', '0']
}

pub open spec fn record_version() -> Seq<char> {
    seq!['1', '.', '0']
}

/// `card.png`, as an owned string.
pub fn card_file_name_string() -> (r: String)
    ensures
        r@ == card_file_name(),
{
    let r = CARD_FILE_NAME.to_owned();
    proof {
        reveal_strlit("card.png");
    }
    assert(r@ =~= card_file_name());
    r
}

/// `thumbnail.png`, as an owned string.
pub fn thumbnail_file_name_string() -> (r: String)
    ensures
        r@ == thumbnail_file_name(),
{
    let r = THUMBNAIL_FILE_NAME.to_owned();
    proof {
        reveal_strlit("thumbnail.png");
    }
    assert(r@ =~= thumbnail_file_name());
    r
}

/// Identity and timestamps of a record (ISO-8601 UTC).
#[derive(Debug, Clone)]
pub struct CharacterMeta {
    pub uuid: String,
    pub version: String,
    pub created_at: String,
    pub updated_at: String,
}

/// One lore entry of a world book.
#[derive(Debug, Clone)]
pub struct WorldBookEntry {
    pub keys: Vec<String>,
    pub content: String,
    pub extensions: serde_json::Value,
    pub enabled: bool,
    pub insertion_order: i32,
    pub case_sensitive: Option<bool>,
    pub name: Option<String>,
    pub priority: Option<i32>,
    pub id: Option<i32>,
    pub comment: Option<String>,
    pub selective: Option<bool>,
    pub secondary_keys: Option<Vec<String>>,
    pub constant: Option<bool>,
    pub position: Option<String>,
}

/// A world book: lore entries injected by keyword.
#[derive(Debug, Clone)]
pub struct CharacterBook {
    pub name: Option<String>,
    pub description: Option<String>,
    pub scan_depth: Option<i32>,
    pub token_budget: Option<i32>,
    pub recursive_scanning: Option<bool>,
    pub extensions: serde_json::Value,
    pub entries: Vec<WorldBookEntry>,
}

/// The profile fields of a Tavern Card V2.
#[derive(Debug, Clone)]
pub struct TavernCardV2Data {
    pub name: String,
    pub description: String,
    pub personality: String,
    pub scenario: String,
    pub first_mes: String,
    pub mes_example: String,
    pub creator_notes: String,
    pub system_prompt: String,
    pub post_history_instructions: String,
    pub alternate_greetings: Vec<String>,
    pub tags: Vec<String>,
    pub creator: String,
    pub character_version: String,
    pub extensions: serde_json::Value,
    pub character_book: Option<CharacterBook>,
}

/// A Tavern Card V2: the format markers and the profile.
#[derive(Debug, Clone)]
pub struct TavernCardV2 {
    pub spec: String,
    pub spec_version: String,
    pub data: TavernCardV2Data,
}

/// A stored character record.
#[derive(Debug, Clone)]
pub struct CharacterData {
    pub uuid: String,
    pub meta: CharacterMeta,
    pub card: TavernCardV2,
    pub background_path: String,
    pub thumbnail_path: String,
}

/// The portrait and thumbnail locations handed back after an upload.
#[derive(Debug, Clone)]
pub struct ImagePaths {
    pub background_path: String,
    pub thumbnail_path: String,
}

/// Relies on `serde_json::Value::Object` and `serde_json::Map::new`: the
/// empty JSON object that an absent `extensions` field stands for.
#[verifier::external_body]
pub(crate) fn default_extensions() -> serde_json::Value {
    serde_json::Value::Object(serde_json::Map::new())
}

} // verus!
