//! Navigation model: the ordered sidebar of list entries, of which at
//! most one is active. Each entry carries the domain `List` it stands
//! for; the controller keeps the active entry and its own
//! `selected_list` in lockstep.

use vstd::prelude::*;

use crate::models::{List, ListV};

verus! {

/// One selectable sidebar row: a display label, an icon name, and the
/// list it stands for.
pub struct NavEntry {
    pub label: String,
    pub icon: Option<String>,
    pub list: List,
}

/// Mathematical image of a `NavEntry`.
#[verifier::ext_equal]
pub ghost struct NavEntryV {
    pub label: Seq<char>,
    pub icon: Option<Seq<char>>,
    pub list: ListV,
}

impl View for NavEntry {
    type V = NavEntryV;

    open spec fn view(&self) -> NavEntryV {
        NavEntryV {
            label: self.label@,
            icon: match self.icon {
                Some(s) => Some(s@),
                None => None,
            },
            list: self.list@,
        }
    }
}

impl DeepView for NavEntry {
    type V = NavEntryV;

    open spec fn deep_view(&self) -> NavEntryV {
        self.view()
    }
}

/// The sidebar model: entries in insertion order and the index of the
/// active entry, if one is active.
pub struct NavModel {
    pub entries: Vec<NavEntry>,
    pub active: Option<usize>,
}

/// Mathematical image of the sidebar model.
#[verifier::ext_equal]
pub ghost struct NavModelV {
    pub entries: Seq<NavEntryV>,
    pub active: Option<int>,
}

impl View for NavModel {
    type V = NavModelV;

    open spec fn view(&self) -> NavModelV {
        NavModelV {
            entries: self.entries.deep_view(),
            active: match self.active {
                Some(i) => Some(i as int),
                None => None,
            },
        }
    }
}

/// Whether the model is well formed: an active index points at an entry.
pub open spec fn nav_wf(n: NavModelV) -> bool {
    match n.active {
        Some(i) => 0 <= i < n.entries.len(),
        None => true,
    }
}

/// The sidebar entry made for a list: labelled with the list's name,
/// showing the list's icon, carrying the list itself.
pub open spec fn nav_entry_of(list: ListV) -> NavEntryV {
    NavEntryV { label: list.name, icon: list.icon, list }
}

/// Index of the first entry whose list has the given id, at or after
/// position `i`.
pub open spec fn find_entry_from(entries: Seq<NavEntryV>, id: Seq<char>, i: int) -> Option<int>
    decreases entries.len() - i,
{
    if i < 0 || i >= entries.len() {
        None
    } else if entries[i].list.id == id {
        Some(i)
    } else {
        find_entry_from(entries, id, i + 1)
    }
}

/// Index of the first entry whose list has the given id, if any.
pub open spec fn find_entry(entries: Seq<NavEntryV>, id: Seq<char>) -> Option<int> {
    find_entry_from(entries, id, 0)
}

/// The model after removing the entry at `i`: later entries shift down,
/// and the active index follows its entry, or clears when that entry is
/// the one removed.
pub open spec fn nav_remove(n: NavModelV, i: int) -> NavModelV {
    NavModelV {
        entries: n.entries.remove(i),
        active: match n.active {
            Some(a) => if a == i {
                None
            } else if a > i {
                Some(a - 1)
            } else {
                Some(a)
            },
            None => None,
        },
    }
}

impl NavModel {
    /// An empty sidebar.
    pub fn new() -> (r: NavModel)
        ensures
            r@ == (NavModelV { entries: Seq::<NavEntryV>::empty(), active: None::<int> }),
            nav_wf(r@),
    {
        let n = NavModel { entries: Vec::new(), active: None };
        proof {
            assert(n@ =~= NavModelV { entries: Seq::<NavEntryV>::empty(), active: None::<int> });
        }
        n
    }

    /// Number of entries.
    pub fn len(&self) -> (r: usize)
        ensures
            r == self@.entries.len(),
    {
        self.entries.len()
    }

    /// The active index, if an entry is active.
    pub fn active(&self) -> (r: Option<usize>)
        ensures
            r matches Some(i) ==> self@.active == Some(i as int),
            r is None ==> self@.active is None,
    {
        self.active
    }

    /// Append an entry at the end; the active index is unaffected.
    pub fn insert(&mut self, entry: NavEntry)
        ensures
            final(self)@ == (NavModelV {
                entries: old(self)@.entries.push(entry@),
                active: old(self)@.active,
            }),
    {
        self.entries.push(entry);
        proof {
            assert(self@ =~= NavModelV {
                entries: old(self)@.entries.push(entry@),
                active: old(self)@.active,
            });
        }
    }

    /// Make the entry at `index` the active one.
    pub fn activate(&mut self, index: usize)
        requires
            index < old(self)@.entries.len(),
        ensures
            final(self)@ == (NavModelV { entries: old(self)@.entries, active: Some(index as int) }),
            nav_wf(final(self)@),
    {
        self.active = Some(index);
        proof {
            assert(self@ =~= NavModelV {
                entries: old(self)@.entries,
                active: Some(index as int),
            });
        }
    }

    /// Remove the entry at `index`; the active index follows its entry.
    pub fn remove(&mut self, index: usize)
        requires
            index < old(self)@.entries.len(),
            nav_wf(old(self)@),
        ensures
            final(self)@ == nav_remove(old(self)@, index as int),
            nav_wf(final(self)@),
    {
        self.entries.remove(index);
        match self.active {
            Some(a) => {
                if a == index {
                    self.active = None;
                } else if a > index {
                    self.active = Some(a - 1);
                }
            },
            None => {},
        }
        proof {
            assert(self@ =~= nav_remove(old(self)@, index as int));
        }
    }

    /// Replace the list carried by the entry at `index`; the label and
    /// icon shown are left as they are.
    pub fn data_set(&mut self, index: usize, list: List)
        requires
            index < old(self)@.entries.len(),
        ensures
            final(self)@ == (NavModelV {
                entries: old(self)@.entries.update(
                    index as int,
                    NavEntryV { list: list@, ..old(self)@.entries[index as int] },
                ),
                active: old(self)@.active,
            }),
    {
        let mut entry = NavEntry {
            label: self.entries[index].label.clone(),
            icon: match &self.entries[index].icon {
                Some(s) => Some(s.clone()),
                None => None,
            },
            list,
        };
        self.entries[index] = entry;
        proof {
            assert(self@ =~= NavModelV {
                entries: old(self)@.entries.update(
                    index as int,
                    NavEntryV { list: self@.entries[index as int].list, ..old(self)@.entries[index as int] },
                ),
                active: old(self)@.active,
            });
        }
    }

    /// The list carried by the entry at `index`.
    pub fn data(&self, index: usize) -> (r: List)
        requires
            index < self@.entries.len(),
        ensures
            r@ == self@.entries[index as int].list,
    {
        self.entries[index].list.clone()
    }

    /// Index of the first entry whose list has the given id, if any.
    pub fn find_by_list_id(&self, id: &String) -> (r: Option<usize>)
        ensures
            match r {
                Some(j) => find_entry(self@.entries, id@) == Some(j as int)
                    && j < self@.entries.len(),
                None => find_entry(self@.entries, id@) is None,
            },
    {
        let mut j: usize = 0;
        while j < self.entries.len()
            invariant
                j <= self.entries.len(),
                self@.entries.len() == self.entries.len(),
                find_entry(self@.entries, id@) == find_entry_from(self@.entries, id@, j as int),
            decreases self.entries.len() - j,
        {
            assert(self@.entries[j as int] == self.entries[j as int]@);
            if self.entries[j].list.id == *id {
                return Some(j);
            }
            j += 1;
        }
        None
    }
}

} // verus!
