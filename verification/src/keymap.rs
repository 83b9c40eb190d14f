//! Key presses as characters: a dead key waits for the next key and
//! combines with it.

use vstd::prelude::*;

verus! {

/// What a key means under the device's character map.
#[derive(Clone, Copy, Debug, PartialEq, Eq, Structural)]
pub enum KeyMapChar {
    /// No character.
    Unmapped,
    /// A character.
    Unicode(char),
    /// A dead key: an accent for the character that comes next.
    CombiningAccent(char),
}

/// What looking a key up gave.
#[derive(Clone, Copy, Debug, PartialEq, Eq, Structural)]
pub enum KeyLookup {
    /// The device has no character map.
    NoMap,
    /// The map could not be asked.
    Failed,
    /// The map's answer.
    Found(KeyMapChar),
}

/// The accent that waits for its character, if one does.
#[derive(Clone, Copy, Debug, PartialEq, Eq, Structural)]
pub struct Combiner {
    pub accent: Option<char>,
}

impl Combiner {
    /// The accent and the character to combine, where this key press
    /// completes a dead key: the key is a character, it goes down, and an
    /// accent waits.
    pub open spec fn pending(self, lookup: KeyLookup, down: bool) -> Option<(char, char)> {
        match (lookup, self.accent) {
            (KeyLookup::Found(KeyMapChar::Unicode(c)), Some(accent)) => if down {
                Some((accent, c))
            } else {
                None
            },
            _ => None,
        }
    }

    /// The accent that waits after the key.
    pub open spec fn accent_after(self, lookup: KeyLookup, down: bool) -> Option<char> {
        match lookup {
            KeyLookup::NoMap => self.accent,
            KeyLookup::Failed => None,
            KeyLookup::Found(KeyMapChar::Unmapped) => self.accent,
            KeyLookup::Found(KeyMapChar::CombiningAccent(a)) => if down {
                Some(a)
            } else {
                self.accent
            },
            KeyLookup::Found(KeyMapChar::Unicode(_)) => if down {
                None
            } else {
                self.accent
            },
        }
    }

    /// What the key gives. `combined` is the character that the map made of
    /// the waiting accent and the key's character, if it made one; it counts
    /// only where [`Combiner::pending`] asks for it.
    pub open spec fn given(self, lookup: KeyLookup, down: bool, combined: Option<char>) -> Option<
        KeyMapChar,
    > {
        match lookup {
            KeyLookup::NoMap => None,
            KeyLookup::Failed => None,
            KeyLookup::Found(KeyMapChar::Unmapped) => None,
            KeyLookup::Found(KeyMapChar::CombiningAccent(a)) => Some(
                KeyMapChar::CombiningAccent(a),
            ),
            KeyLookup::Found(KeyMapChar::Unicode(c)) => if !down {
                Some(KeyMapChar::Unicode(c))
            } else if self.accent is Some {
                match combined {
                    Some(k) => Some(KeyMapChar::Unicode(k)),
                    None => None,
                }
            } else {
                Some(KeyMapChar::Unicode(c))
            },
        }
    }

    /// No accent waits.
    pub fn new() -> (c: Combiner)
        ensures
            c.accent is None,
    {
        Combiner { accent: None }
    }

    /// The accent and the character that the map is to combine before
    /// [`Combiner::press`] is called, if this key press completes a dead
    /// key.
    pub fn to_combine(&self, lookup: KeyLookup, down: bool) -> (q: Option<(char, char)>)
        ensures
            q == self.pending(lookup, down),
    {
        match lookup {
            KeyLookup::Found(KeyMapChar::Unicode(c)) => {
                match self.accent {
                    Some(accent) => {
                        if down {
                            Some((accent, c))
                        } else {
                            None
                        }
                    },
                    None => None,
                }
            },
            _ => None,
        }
    }

    /// Takes a key event and gives the character that it stands for.
    ///
    /// A character that goes down uses up a waiting accent: it gives what
    /// the map combined, or nothing where the two do not combine. A dead key
    /// that goes down waits in place of any accent before it. A key without
    /// a character changes nothing; a map that cannot be asked drops the
    /// waiting accent.
    pub fn press(&mut self, lookup: KeyLookup, down: bool, combined: Option<char>) -> (r: Option<
        KeyMapChar,
    >)
        ensures
            r == old(self).given(lookup, down, combined),
            final(self).accent == old(self).accent_after(lookup, down),
    {
        match lookup {
            KeyLookup::NoMap => None,
            KeyLookup::Failed => {
                self.accent = None;
                None
            },
            KeyLookup::Found(KeyMapChar::Unmapped) => None,
            KeyLookup::Found(KeyMapChar::CombiningAccent(a)) => {
                if down {
                    self.accent = Some(a);
                }
                Some(KeyMapChar::CombiningAccent(a))
            },
            KeyLookup::Found(KeyMapChar::Unicode(c)) => {
                if down {
                    let r = if self.accent.is_some() {
                        match combined {
                            Some(k) => Some(KeyMapChar::Unicode(k)),
                            None => None,
                        }
                    } else {
                        Some(KeyMapChar::Unicode(c))
                    };
                    self.accent = None;
                    r
                } else {
                    Some(KeyMapChar::Unicode(c))
                }
            },
        }
    }
}

/// An accent waits for one character only: whatever character goes down
/// next, no accent waits after it.
pub proof fn law_accent_is_used_once(c: Combiner, ch: char)
    ensures
        c.accent_after(KeyLookup::Found(KeyMapChar::Unicode(ch)), true) is None,
        c.accent is None ==> c.given(KeyLookup::Found(KeyMapChar::Unicode(ch)), true, None)
            == Some(KeyMapChar::Unicode(ch)),
{
}

} // verus!
