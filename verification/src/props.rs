//! Laws of the state machine, proved once and for all states: the state
//! invariant is preserved by every step, navigation on the main screen never
//! drives the deck selection out of bounds, and entering a learning round on
//! an empty deck is refused without any change.

use vstd::prelude::*;

use crate::controller::InputEvent;
use crate::controller::Key;
use crate::controller::KeyKind;
use crate::controller::Step;
use crate::controller::step_rel;
use crate::model::AppView;

verus! {

/// Every step of the state machine keeps the state invariant: all optional
/// indices stay in bounds for the collections they point into, and the
/// per-screen flags stay in agreement with the current screen.
pub proof fn lemma_step_preserves_inv(pre: AppView, e: InputEvent, post: AppView, r: Step)
    requires
        pre.inv(),
        step_rel(pre, e, post, r),
    ensures
        post.inv(),
{
}

/// Multi-step reachability: `post` can come out of `pre` by dispatching the
/// given events in order.
pub open spec fn reaches(pre: AppView, events: Seq<InputEvent>, post: AppView) -> bool
    decreases events.len(),
{
    if events.len() == 0 {
        post == pre
    } else {
        exists|mid: AppView, r: Step|
            step_rel(pre, events[0], mid, r) && reaches(mid, events.drop_first(), post)
    }
}

/// Whether every event is a press of `j` or of `k`.
pub open spec fn all_deck_nav_presses(events: Seq<InputEvent>) -> bool {
    forall|i: int|
        0 <= i < events.len() ==> {
            &&& (#[trigger] events[i]).kind is Press
            &&& (events[i].code == Key::Char('j') || events[i].code == Key::Char('k'))
        }
}

/// Under any sequence of `j`/`k` presses on the main screen, the deck
/// selection never leaves `[0, decks.len() - 1]`, and it can still be unset
/// afterwards only if it was unset before and either there are no decks or
/// no `j` (which would set it) was pressed.
pub proof fn lemma_main_nav_bounds(pre: AppView, events: Seq<InputEvent>, post: AppView)
    requires
        pre.inv(),
        pre.current_screen is Main,
        all_deck_nav_presses(events),
        reaches(pre, events, post),
    ensures
        post.inv(),
        post.current_screen is Main,
        post.decks == pre.decks,
        post.selected_index matches Some(i) ==> 0 <= i < post.decks.len(),
        post.selected_index is None ==> pre.selected_index is None,
        (post.selected_index is None && pre.decks.len() > 0) ==> forall|i: int|
            0 <= i < events.len() ==> (#[trigger] events[i]).code == Key::Char('k'),
    decreases events.len(),
{
    if events.len() > 0 {
        let (mid, r) = choose|mid: AppView, r: Step|
            step_rel(pre, events[0], mid, r) && reaches(mid, events.drop_first(), post);
        lemma_step_preserves_inv(pre, events[0], mid, r);
        lemma_main_nav_bounds(mid, events.drop_first(), post);
        if post.selected_index is None && pre.decks.len() > 0 {
            assert forall|i: int|
                0 <= i < events.len() implies (#[trigger] events[i]).code == Key::Char('k') by {
                if i > 0 {
                    assert(events[i] == events.drop_first()[i - 1]);
                }
            }
        }
    }
}

/// Hardened entry into a learning round: pressing `s` on the deck view when
/// the selected deck has no cards is refused outright; the state is left
/// unchanged and the event loop goes on.
pub proof fn lemma_learn_refused_on_empty_deck(
    pre: AppView,
    e: InputEvent,
    post: AppView,
    r: Step,
)
    requires
        pre.inv(),
        pre.current_screen is ViewingDeck,
        e.kind is Press,
        e.code == Key::Char('s'),
        pre.selected_cards().len() == 0,
        step_rel(pre, e, post, r),
    ensures
        post == pre,
        r == Step::Continue,
{
}

} // verus!
