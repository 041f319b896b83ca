//! What holds of every state of a navigator and of every move of its cursor.

use vstd::prelude::*;
use crate::action::NavAction;
use crate::cursor::{any_related, siblings, Relation};
use crate::cursor_laws::{
    lemma_correction_cursor_shaped, lemma_correction_idempotent, lemma_correction_valid,
    lemma_entry_cursor_shaped, lemma_related_in_map,
};
use crate::model::NavView;

verus! {

/// Movement boundedness: `Next` at the last sibling and `Prev` at the first
/// index of a level are no-ops; they leave the cursor where it is and log
/// one warning.
pub proof fn lemma_movement_bounded(s: NavView)
    requires
        s.cursor.len() >= 1,
    ensures
        s.action == NavAction::Next && !any_related(s.paths, s.cursor, Relation::Later)
            ==> s.moved() == s.logged(crate::log::LogType::Warning, s.action.refusal()),
        s.action == NavAction::Prev && s.cursor.last() == 0 ==> s.moved() == s.logged(
            crate::log::LogType::Warning,
            s.action.refusal(),
        ),
        s.action == NavAction::Next && !any_related(s.paths, s.cursor, Relation::Later)
            ==> s.moved().cursor == s.cursor,
        s.action == NavAction::Prev && s.cursor.last() == 0 ==> s.moved().cursor == s.cursor,
{
    if s.action == NavAction::Prev && s.cursor.last() == 0 {
        assert(!any_related(s.paths, s.cursor, Relation::Earlier)) by {
            if any_related(s.paths, s.cursor, Relation::Earlier) {
                let j = choose|j: int|
                    0 <= j < s.paths.len() && Relation::Earlier.holds(
                        #[trigger] s.paths[j],
                        s.cursor,
                    );
                assert(siblings(s.paths[j], s.cursor));
                assert(s.paths[j].last() < 0);
            }
        }
    }
}

/// A cursor that the map holds stays on the map through every cursor part of
/// an action.
pub proof fn lemma_moved_stays_valid(s: NavView)
    requires
        s.wf(),
        s.cursor_valid(),
    ensures
        s.moved().cursor_valid(),
        s.moved().paths == s.paths,
{
    match s.action {
        NavAction::MoveOut => {
            if s.cursor.len() > 1 {
                let j = choose|j: int| 0 <= j < s.paths.len() && s.paths[j] == s.cursor;
                assert(s.paths.contains(s.paths[j].take(s.cursor.len() - 1)));
                assert(s.cursor.take(s.cursor.len() - 1) =~= s.cursor.drop_last());
            }
        },
        _ => {
            match s.action.step() {
                Some((rel, first)) => {
                    if any_related(s.paths, s.cursor, rel) {
                        lemma_related_in_map(s.paths, s.cursor, rel);
                    }
                },
                None => {},
            }
        },
    }
}

/// Every cursor part of an action keeps the state well formed.
pub proof fn lemma_moved_wf(s: NavView)
    requires
        s.wf(),
    ensures
        s.moved().wf(),
{
    lemma_correction_settles(s);
    match s.action {
        NavAction::MoveOut => {
            if s.cursor.len() > 1 {
                let parent = s.cursor.drop_last();
                assert forall|k: int| 0 <= k < parent.len() implies #[trigger] parent[k]
                    < usize::MAX by {
                    assert(parent[k] == s.cursor[k]);
                }
            }
        },
        _ => {
            match s.action.step() {
                Some((rel, first)) => {
                    if any_related(s.paths, s.cursor, rel) {
                        lemma_related_in_map(s.paths, s.cursor, rel);
                        lemma_entry_cursor_shaped(s.paths, s.moved().cursor);
                    }
                },
                None => {},
            }
        },
    }
}

/// Correction keeps the state well formed, and a second correction leaves
/// the cursor where the first one put it. On a map that is not empty the
/// first correction ends on the map, and the second changes nothing at all.
pub proof fn lemma_correction_settles(s: NavView)
    requires
        s.wf(),
    ensures
        s.corrected().wf(),
        s.corrected().corrected().cursor == s.corrected().cursor,
        s.paths.len() > 0 ==> s.corrected().cursor_valid(),
        s.paths.len() > 0 ==> s.corrected().corrected() == s.corrected(),
{
    lemma_correction_cursor_shaped(s.paths, s.cursor);
    lemma_correction_idempotent(s.paths, s.cursor);
    if s.paths.len() > 0 {
        lemma_correction_valid(s.paths, s.cursor);
    }
    if !s.paths.contains(s.corrected().cursor) {
        lemma_correction_idempotent(s.paths, s.corrected().cursor);
    }
}

} // verus!
