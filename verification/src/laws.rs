//! Laws of the reducer, proved against the transition function `step`:
//! the navigation/selection lockstep invariant, the dialog-queue depth
//! discipline, the no-op of cancelling with no dialog open, the
//! populate-then-select round trip, and key-dispatch determinism.

use vstd::prelude::*;

use crate::app::{
    AppV, CommandV, ContextPage, Flags, MessageV, content_apply, details_apply, init_state,
    msg_rank, select_step, step,
};
use crate::content;
use crate::details::DetailsV;
use crate::key_bind::{Key, Modifiers, find_action};
use crate::nav::{NavEntryV, find_entry_from, nav_wf};

verus! {

/// The navigation/selection lockstep invariant: the active index (at most
/// one entry is active by construction) points at an entry, entry ids are
/// pairwise distinct, and `selected_list` is exactly the active entry's
/// list: it is `Some(L)` if and only if the active entry carries `L`.
pub open spec fn nav_selection_ok(s: AppV) -> bool {
    &&& nav_wf(s.nav)
    &&& (forall|i: int, j: int|
        0 <= i < j < s.nav.entries.len() ==> s.nav.entries[i].list.id != s.nav.entries[
            j
        ].list.id)
    &&& match s.nav.active {
        Some(i) => s.selected_list == Some(s.nav.entries[i].list),
        None => s.selected_list is None,
    }
}

/// Whether a list id occurs in no sidebar entry.
pub open spec fn fresh_list_id(s: AppV, id: Seq<char>) -> bool {
    forall|i: int| 0 <= i < s.nav.entries.len() ==> s.nav.entries[i].list.id != id
}

/// The side condition under which a list-lifecycle message keeps the
/// lockstep invariant: added ids must be new. A duplicate id would let
/// the deletion scan match a twin of the active entry and remove that
/// twin instead, leaving an active entry behind a cleared selection.
pub open spec fn nav_msg_ok(s: AppV, m: MessageV) -> bool {
    match m {
        MessageV::AddList(l) => fresh_list_id(s, l.id),
        MessageV::PopulateLists(lists) => {
            &&& (forall|i: int| 0 <= i < lists.len() ==> fresh_list_id(s, lists[i].id))
            &&& (forall|i: int, j: int| 0 <= i < j < lists.len() ==> lists[i].id != lists[j].id)
        },
        MessageV::DeleteList => true,
        _ => false,
    }
}

/// If the entry at `j` carries the id and no earlier entry from `i` on
/// does, the scan finds exactly `j`.
proof fn lemma_find_entry_from_unique(entries: Seq<NavEntryV>, id: Seq<char>, i: int, j: int)
    requires
        0 <= i <= j < entries.len(),
        entries[j].list.id == id,
        forall|k: int| i <= k < j ==> entries[k].list.id != id,
    ensures
        find_entry_from(entries, id, i) == Some(j),
    decreases j - i,
{
    if i < j {
        lemma_find_entry_from_unique(entries, id, i + 1, j);
    }
}

/// Folding content intents touches neither the dialog queue, nor the
/// sidebar, nor the selection.
proof fn lemma_content_apply_frame(pre: AppV, intents: Seq<content::CommandV>)
    ensures
        ({
            let post = content_apply(pre, intents).0;
            &&& post.dialog_pages == pre.dialog_pages
            &&& post.nav == pre.nav
            &&& post.selected_list == pre.selected_list
        }),
    decreases intents.len(),
{
    if intents.len() > 0 {
        let s1 = match intents[0] {
            content::CommandV::DisplayTask(t) => step(
                AppV {
                    details: DetailsV { task: Some(t), priority_selected: t.priority },
                    ..pre
                },
                MessageV::ToggleContextPage(ContextPage::TaskDetails),
            ).0,
            content::CommandV::UpdateTask(t) => AppV {
                details: DetailsV { task: Some(t), ..pre.details },
                ..pre
            },
            _ => pre,
        };
        lemma_content_apply_frame(s1, intents.skip(1));
    }
}

/// A content message leaves the dialog queue, the sidebar, and the
/// selection alone.
proof fn lemma_content_msg_frame(pre: AppV, cm: content::MessageV)
    ensures
        ({
            let post = step(pre, MessageV::ContentMessage(cm)).0;
            &&& post.dialog_pages == pre.dialog_pages
            &&& post.nav == pre.nav
            &&& post.selected_list == pre.selected_list
        }),
{
    let (c1, intents) = crate::content::content_step(pre.content, cm);
    lemma_content_apply_frame(AppV { content: c1, ..pre }, intents);
}

/// Folding details intents leaves the dialog queue, the sidebar, and the
/// selection alone.
proof fn lemma_details_apply_frame(pre: AppV, intents: Seq<crate::details::CommandV>)
    ensures
        ({
            let post = details_apply(pre, intents).0;
            &&& post.dialog_pages == pre.dialog_pages
            &&& post.nav == pre.nav
            &&& post.selected_list == pre.selected_list
        }),
    decreases intents.len(),
{
    if intents.len() > 0 {
        let s1 = match intents[0] {
            crate::details::CommandV::Rename(id, title) => {
                lemma_content_msg_frame(pre, content::MessageV::Rename(id, title));
                step(pre, MessageV::ContentMessage(content::MessageV::Rename(id, title))).0
            },
            crate::details::CommandV::PriorityActivate(id, p) => {
                lemma_content_msg_frame(pre, content::MessageV::SetPriority(id, p));
                step(pre, MessageV::ContentMessage(content::MessageV::SetPriority(id, p))).0
            },
            _ => pre,
        };
        lemma_details_apply_frame(s1, intents.skip(1));
    }
}

/// Deleting the selected list leaves the dialog queue alone.
proof fn lemma_delete_list_dialog_frame(pre: AppV)
    ensures
        step(pre, MessageV::DeleteList).0.dialog_pages == pre.dialog_pages,
{
    match pre.selected_list {
        Some(l) => {
            let nav1 = match crate::nav::find_entry(pre.nav.entries, l.id) {
                Some(j) => crate::nav::nav_remove(pre.nav, j),
                None => pre.nav,
            };
            lemma_content_msg_frame(AppV { nav: nav1, ..pre }, content::MessageV::List(None));
        },
        None => {},
    }
}

/// Selecting a sidebar entry leaves the dialog queue alone.
proof fn lemma_select_dialog_frame(pre: AppV, i: int)
    ensures
        select_step(pre, i).0.dialog_pages == pre.dialog_pages,
{
    if 0 <= i < pre.nav.entries.len() {
        let list = pre.nav.entries[i].list;
        let s1 = AppV {
            nav: crate::nav::NavModelV { entries: pre.nav.entries, active: Some(i) },
            selected_list: Some(list),
            ..pre
        };
        lemma_content_msg_frame(s1, content::MessageV::List(Some(list)));
    }
}

/// The dialog-queue depth discipline: one message moves the depth by at
/// most one; an edit of the front dialog never changes it; completing or
/// cancelling with a dialog open pops exactly one.
pub proof fn lemma_dialog_depth(pre: AppV, m: MessageV)
    requires
        m is DialogUpdate ==> pre.dialog_pages.len() > 0,
    ensures
        ({
            let post = step(pre, m).0;
            let d0 = pre.dialog_pages.len() as int;
            let d1 = post.dialog_pages.len() as int;
            &&& -1 <= d1 - d0 <= 1
            &&& (m is DialogUpdate ==> d1 == d0)
            &&& ((m is DialogCancel || m is DialogComplete) && d0 > 0 ==> d1 == d0 - 1)
        }),
    decreases msg_rank(m), 1nat, 0nat,
{
    match m {
        MessageV::ContentMessage(cm) => {
            lemma_content_msg_frame(pre, cm);
        },
        MessageV::DetailsMessage(dm) => {
            let (d1, intents) = crate::details::details_step(pre.details, dm);
            lemma_details_apply_frame(AppV { details: d1, ..pre }, intents);
        },
        MessageV::Key(modifiers, key) => {
            match find_action(pre.key_binds, modifiers, key) {
                Some(action) => {
                    assert(!(action.spec_message() is DialogUpdate));
                    lemma_dialog_depth(pre, action.spec_message());
                },
                None => {},
            }
        },
        MessageV::DialogComplete => {
            if pre.dialog_pages.len() > 0 {
                let s1 = AppV { dialog_pages: pre.dialog_pages.remove(0), ..pre };
                lemma_delete_list_dialog_frame(s1);
            }
        },
        MessageV::DeleteList => {
            lemma_delete_list_dialog_frame(pre);
        },
        MessageV::PopulateLists(lists) => {
            let s1 = AppV {
                nav: crate::nav::NavModelV {
                    entries: pre.nav.entries + crate::app::nav_entries_of(lists),
                    active: pre.nav.active,
                },
                ..pre
            };
            lemma_select_dialog_frame(s1, 0);
        },
        MessageV::AddList(list) => {
            let s1 = AppV {
                nav: crate::nav::NavModelV {
                    entries: pre.nav.entries.push(crate::nav::nav_entry_of(list)),
                    active: pre.nav.active,
                },
                selected_list: Some(list),
                ..pre
            };
            lemma_select_dialog_frame(s1, s1.nav.entries.len() - 1);
        },
        _ => {},
    }
}

/// Cancelling with no dialog open is a no-op: the state is untouched and
/// nothing is scheduled.
pub proof fn lemma_dialog_cancel_empty_noop(pre: AppV)
    requires
        pre.dialog_pages.len() == 0,
    ensures
        step(pre, MessageV::DialogCancel) == (pre, Seq::<CommandV>::empty()),
{
    assert(step(pre, MessageV::DialogCancel) =~~= (pre, Seq::<CommandV>::empty()));
}

/// Keeping the lockstep invariant: one list-lifecycle message, under its
/// freshness side condition, preserves `nav_selection_ok`.
pub proof fn lemma_nav_invariant_step(pre: AppV, m: MessageV)
    requires
        nav_selection_ok(pre),
        nav_msg_ok(pre, m),
    ensures
        nav_selection_ok(step(pre, m).0),
{
    reveal_with_fuel(step, 2);
    reveal_with_fuel(select_step, 2);
    match m {
        MessageV::AddList(list) => {
            let entries1 = pre.nav.entries.push(crate::nav::nav_entry_of(list));
            assert(forall|i: int, j: int|
                0 <= i < j < entries1.len() ==> entries1[i].list.id != entries1[j].list.id);
            let s1 = AppV {
                nav: crate::nav::NavModelV { entries: entries1, active: pre.nav.active },
                selected_list: Some(list),
                ..pre
            };
            let i = entries1.len() - 1;
            let s2 = AppV {
                nav: crate::nav::NavModelV { entries: entries1, active: Some(i) },
                selected_list: Some(entries1[i].list),
                ..s1
            };
            lemma_content_msg_frame(s2, content::MessageV::List(Some(entries1[i].list)));
        },
        MessageV::PopulateLists(lists) => {
            let entries1 = pre.nav.entries + crate::app::nav_entries_of(lists);
            let s1 = AppV {
                nav: crate::nav::NavModelV { entries: entries1, active: pre.nav.active },
                ..pre
            };
            assert(forall|i: int, j: int|
                0 <= i < j < entries1.len() ==> entries1[i].list.id != entries1[j].list.id);
            if entries1.len() > 0 {
                let s2 = AppV {
                    nav: crate::nav::NavModelV { entries: entries1, active: Some(0) },
                    selected_list: Some(entries1[0].list),
                    ..s1
                };
                lemma_content_msg_frame(s2, content::MessageV::List(Some(entries1[0].list)));
            }
        },
        MessageV::DeleteList => {
            match pre.selected_list {
                Some(l) => {
                    match pre.nav.active {
                        Some(a) => {
                            lemma_find_entry_from_unique(pre.nav.entries, l.id, 0, a);
                            let nav1 = crate::nav::nav_remove(pre.nav, a);
                            lemma_content_msg_frame(
                                AppV { nav: nav1, ..pre },
                                content::MessageV::List(None),
                            );
                        },
                        None => {},
                    }
                },
                None => {},
            }
        },
        _ => {},
    }
}

/// The starting state satisfies the lockstep invariant, so
/// `lemma_nav_invariant_run` applies to any run from startup.
pub proof fn lemma_init_nav_ok(flags: Flags)
    ensures
        nav_selection_ok(init_state(flags)),
{
}

/// The state after a whole run of messages.
pub open spec fn run(s: AppV, msgs: Seq<MessageV>) -> AppV
    decreases msgs.len(),
{
    if msgs.len() == 0 {
        s
    } else {
        run(step(s, msgs[0]).0, msgs.skip(1))
    }
}

/// Whether every message of the run is a list-lifecycle message whose
/// freshness side condition holds when its turn comes.
pub open spec fn nav_msgs_ok(s: AppV, msgs: Seq<MessageV>) -> bool
    decreases msgs.len(),
{
    msgs.len() == 0 || {
        &&& nav_msg_ok(s, msgs[0])
        &&& nav_msgs_ok(step(s, msgs[0]).0, msgs.skip(1))
    }
}

/// The lockstep invariant holds after any run of list-lifecycle
/// messages: at most one sidebar entry is active, and `selected_list` is
/// `Some(L)` exactly when the active entry carries `L`.
pub proof fn lemma_nav_invariant_run(s: AppV, msgs: Seq<MessageV>)
    requires
        nav_selection_ok(s),
        nav_msgs_ok(s, msgs),
    ensures
        nav_selection_ok(run(s, msgs)),
    decreases msgs.len(),
{
    if msgs.len() > 0 {
        lemma_nav_invariant_step(s, msgs[0]);
        lemma_nav_invariant_run(step(s, msgs[0]).0, msgs.skip(1));
    }
}

/// The populate-then-select round trip: populating three lists into an
/// empty sidebar and then selecting the second entry selects exactly that
/// list and schedules exactly one task fetch, for that list's id.
pub proof fn lemma_populate_select_round_trip(pre: AppV, a: crate::models::ListV, b:
    crate::models::ListV, c: crate::models::ListV)
    requires
        pre.nav.entries.len() == 0,
    ensures
        ({
            let s1 = step(pre, MessageV::PopulateLists(seq![a, b, c])).0;
            let r = select_step(s1, 1);
            &&& s1.nav.entries.len() == 3
            &&& r.0.selected_list == Some(b)
            &&& r.1 == seq![CommandV::FetchTasks(b.id)]
        }),
{
    let lists = seq![a, b, c];
    let entries1 = pre.nav.entries + crate::app::nav_entries_of(lists);
    assert(entries1.len() == 3);
    assert(entries1[1] == crate::nav::nav_entry_of(b));
    let s1a = AppV {
        nav: crate::nav::NavModelV { entries: entries1, active: pre.nav.active },
        ..pre
    };
    lemma_select_nav_frame(s1a, 0);
    let s1 = step(pre, MessageV::PopulateLists(lists)).0;
    assert(s1.nav.entries == entries1);
    let list = s1.nav.entries[1].list;
    assert(list == b);
    let s2 = AppV {
        nav: crate::nav::NavModelV { entries: s1.nav.entries, active: Some(1) },
        selected_list: Some(list),
        ..s1
    };
    lemma_content_msg_frame(s2, content::MessageV::List(Some(list)));
    let (c1, intents) = crate::content::content_step(s2.content, content::MessageV::List(
        Some(list),
    ));
    assert(intents == seq![content::CommandV::GetTasks(b.id)]);
    let s3 = AppV { content: c1, ..s2 };
    assert(intents.skip(1) =~= Seq::<content::CommandV>::empty());
    assert(content_apply(s3, intents.skip(1)) == (s3, Seq::<CommandV>::empty()));
    assert(content_apply(s3, intents).1 =~= seq![CommandV::FetchTasks(b.id)]);
    assert(select_step(s1, 1).1 == content_apply(s3, intents).1);
}

/// Selecting a sidebar entry keeps the entries themselves.
proof fn lemma_select_nav_frame(pre: AppV, i: int)
    ensures
        select_step(pre, i).0.nav.entries == pre.nav.entries,
        ({
            0 <= i < pre.nav.entries.len() ==> {
                &&& select_step(pre, i).0.nav.active == Some(i)
                &&& select_step(pre, i).0.selected_list == Some(pre.nav.entries[i].list)
            }
        }),
{
    if 0 <= i < pre.nav.entries.len() {
        let list = pre.nav.entries[i].list;
        let s1 = AppV {
            nav: crate::nav::NavModelV { entries: pre.nav.entries, active: Some(i) },
            selected_list: Some(list),
            ..pre
        };
        lemma_content_msg_frame(s1, content::MessageV::List(Some(list)));
    }
}

/// Key-dispatch determinism: what a chord does is a function of the
/// binding table and the chord alone. The resolution goes through the
/// specification function `find_action`, so a fixed table resolves a
/// fixed chord to one fixed action, and the whole dispatch is that
/// action's message.
pub proof fn lemma_key_dispatch_deterministic(pre: AppV, modifiers: Modifiers, key: Key)
    ensures
        step(pre, MessageV::Key(modifiers, key)) == (match find_action(
            pre.key_binds,
            modifiers,
            key,
        ) {
            Some(action) => step(pre, action.spec_message()),
            None => (pre, Seq::<CommandV>::empty()),
        }),
{
}

/// Toggling the same context page twice restores the visibility flag,
/// provided the page was already the selected one or the panel was
/// hidden. (Toggling a different page while the panel shows ends with it
/// hidden: the first toggle is itself a page change.)
pub proof fn lemma_toggle_context_twice(pre: AppV, page: ContextPage)
    requires
        pre.context_page == page || !pre.show_context,
    ensures
        step(
            step(pre, MessageV::ToggleContextPage(page)).0,
            MessageV::ToggleContextPage(page),
        ).0.show_context == pre.show_context,
{
}

} // verus!
