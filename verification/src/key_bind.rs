//! The static key-binding table: a mapping from (modifier set, key) chords
//! to logical actions, scanned first-match-first on every unconsumed key
//! press.

use vstd::prelude::*;

use crate::app::Action;

verus! {

/// The set of held keyboard modifiers.
#[derive(Clone, Copy, Debug, PartialEq, Eq, Structural)]
pub struct Modifiers {
    pub ctrl: bool,
    pub alt: bool,
    pub shift: bool,
    pub logo: bool,
}

impl Modifiers {
    /// No modifier held.
    pub fn empty() -> (r: Modifiers)
        ensures
            r == (Modifiers { ctrl: false, alt: false, shift: false, logo: false }),
    {
        Modifiers { ctrl: false, alt: false, shift: false, logo: false }
    }
}

/// A logical key, as delivered by the windowing layer.
#[derive(Clone, Copy, Debug, PartialEq, Eq, Structural)]
pub enum Key {
    Character(char),
    Up,
    Down,
    Delete,
    F2,
}

/// One chord of the binding table.
#[derive(Clone, Copy, Debug, PartialEq, Eq, Structural)]
pub struct KeyBind {
    pub modifiers: Modifiers,
    pub key: Key,
}

impl KeyBind {
    /// Whether this chord is exactly the held modifiers and pressed key.
    pub open spec fn spec_matches(self, modifiers: Modifiers, key: Key) -> bool {
        self.modifiers == modifiers && self.key == key
    }

    /// Exact match of modifier set and key.
    pub fn matches(&self, modifiers: Modifiers, key: Key) -> (r: bool)
        ensures
            r == self.spec_matches(modifiers, key),
    {
        self.modifiers == modifiers && self.key == key
    }
}

/// First action bound to the chord at or after position `i`.
pub open spec fn find_action_from(
    binds: Seq<(KeyBind, Action)>,
    modifiers: Modifiers,
    key: Key,
    i: int,
) -> Option<Action>
    decreases binds.len() - i,
{
    if i < 0 || i >= binds.len() {
        None
    } else if binds[i].0.spec_matches(modifiers, key) {
        Some(binds[i].1)
    } else {
        find_action_from(binds, modifiers, key, i + 1)
    }
}

/// The action the table resolves a chord to: the first entry whose chord
/// matches, if any. A spec function, so a fixed table resolves a fixed
/// chord to one fixed answer.
pub open spec fn find_action(
    binds: Seq<(KeyBind, Action)>,
    modifiers: Modifiers,
    key: Key,
) -> Option<Action> {
    find_action_from(binds, modifiers, key, 0)
}

/// Scan the binding table for the first matching chord.
pub fn resolve_action(
    binds: &Vec<(KeyBind, Action)>,
    modifiers: Modifiers,
    key: Key,
) -> (r: Option<Action>)
    ensures
        r == find_action(binds@, modifiers, key),
{
    let mut j: usize = 0;
    while j < binds.len()
        invariant
            j <= binds.len(),
            find_action(binds@, modifiers, key) == find_action_from(
                binds@,
                modifiers,
                key,
                j as int,
            ),
        decreases binds.len() - j,
    {
        if binds[j].0.matches(modifiers, key) {
            return Some(binds[j].1);
        }
        j += 1;
    }
    None
}

/// Chord with control alone.
fn ctrl(key: Key) -> (r: KeyBind)
    ensures
        r == (KeyBind {
            modifiers: Modifiers { ctrl: true, alt: false, shift: false, logo: false },
            key,
        }),
{
    KeyBind {
        modifiers: Modifiers { ctrl: true, alt: false, shift: false, logo: false },
        key,
    }
}

/// Chord with control and shift.
fn ctrl_shift(key: Key) -> (r: KeyBind)
    ensures
        r == (KeyBind {
            modifiers: Modifiers { ctrl: true, alt: false, shift: true, logo: false },
            key,
        }),
{
    KeyBind {
        modifiers: Modifiers { ctrl: true, alt: false, shift: true, logo: false },
        key,
    }
}

/// Chord with no modifier.
fn bare(key: Key) -> (r: KeyBind)
    ensures
        r == (KeyBind {
            modifiers: Modifiers { ctrl: false, alt: false, shift: false, logo: false },
            key,
        }),
{
    KeyBind {
        modifiers: Modifiers { ctrl: false, alt: false, shift: false, logo: false },
        key,
    }
}

/// The table `key_binds` builds, as a sequence.
pub open spec fn key_binds_spec() -> Seq<(KeyBind, Action)> {
    seq![
        (
            KeyBind {
                modifiers: Modifiers { ctrl: true, alt: false, shift: false, logo: false },
                key: Key::Character('i'),
            },
            Action::About,
        ),
        (
            KeyBind {
                modifiers: Modifiers { ctrl: false, alt: false, shift: false, logo: false },
                key: Key::Down,
            },
            Action::ItemDown,
        ),
        (
            KeyBind {
                modifiers: Modifiers { ctrl: false, alt: false, shift: false, logo: false },
                key: Key::Up,
            },
            Action::ItemUp,
        ),
        (
            KeyBind {
                modifiers: Modifiers { ctrl: true, alt: false, shift: false, logo: false },
                key: Key::Character(','),
            },
            Action::Settings,
        ),
        (
            KeyBind {
                modifiers: Modifiers { ctrl: true, alt: false, shift: false, logo: false },
                key: Key::Character('w'),
            },
            Action::WindowClose,
        ),
        (
            KeyBind {
                modifiers: Modifiers { ctrl: true, alt: false, shift: true, logo: false },
                key: Key::Character('n'),
            },
            Action::WindowNew,
        ),
        (
            KeyBind {
                modifiers: Modifiers { ctrl: true, alt: false, shift: false, logo: false },
                key: Key::Character('n'),
            },
            Action::NewList,
        ),
        (
            KeyBind {
                modifiers: Modifiers { ctrl: true, alt: false, shift: false, logo: false },
                key: Key::Delete,
            },
            Action::DeleteList,
        ),
        (
            KeyBind {
                modifiers: Modifiers { ctrl: false, alt: false, shift: false, logo: false },
                key: Key::F2,
            },
            Action::RenameList,
        ),
    ]
}

/// Build the static binding table.
pub fn key_binds() -> (r: Vec<(KeyBind, Action)>)
    ensures
        r@ == key_binds_spec(),
{
    let mut binds: Vec<(KeyBind, Action)> = Vec::new();
    binds.push((ctrl(Key::Character('i')), Action::About));
    binds.push((bare(Key::Down), Action::ItemDown));
    binds.push((bare(Key::Up), Action::ItemUp));
    binds.push((ctrl(Key::Character(',')), Action::Settings));
    binds.push((ctrl(Key::Character('w')), Action::WindowClose));
    binds.push((ctrl_shift(Key::Character('n')), Action::WindowNew));
    binds.push((ctrl(Key::Character('n')), Action::NewList));
    binds.push((ctrl(Key::Delete), Action::DeleteList));
    binds.push((bare(Key::F2), Action::RenameList));
    proof {
        assert(binds@ =~= key_binds_spec());
    }
    binds
}

} // verus!
