//! The session's active character: a single slot that the calling layer
//! owns and passes where it is needed.

use vstd::prelude::*;

verus! {

/// Holds the identifier of the character that the session works on, if
/// any.
pub struct CharacterStateManager {
    current_character: Option<String>,
}

impl CharacterStateManager {
    /// The identifier in the slot.
    pub closed spec fn current(&self) -> Option<Seq<char>> {
        match self.current_character {
            Some(s) => Some(s@),
            None => None,
        }
    }

    /// An empty slot.
    pub fn new() -> (r: Self)
        ensures
            r.current() is None,
    {
        CharacterStateManager { current_character: None }
    }

    /// Makes `character_uuid` the active character, replacing any other.
    pub fn set_current_character(&mut self, character_uuid: String) -> (r: Result<(), String>)
        ensures
            r is Ok,
            final(self).current() == Some(character_uuid@),
    {
        self.current_character = Some(character_uuid);
        Ok(())
    }

    /// The active character's identifier.
    pub fn get_current_character(&self) -> (r: Option<String>)
        ensures
            match r {
                Some(s) => self.current() == Some(s@),
                None => self.current() is None,
            },
    {
        match &self.current_character {
            Some(s) => Some(s.clone()),
            None => None,
        }
    }

    /// Empties the slot, as when the user leaves the character.
    pub fn clear_current_character(&mut self) -> (r: Result<(), String>)
        ensures
            r is Ok,
            final(self).current() is None,
    {
        self.current_character = None;
        Ok(())
    }

    /// Whether a character is active.
    pub fn has_active_character(&self) -> (r: bool)
        ensures
            r == self.current() is Some,
    {
        self.current_character.is_some()
    }
}

} // verus!
