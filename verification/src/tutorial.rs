//! Leaving the tutorial.

use vstd::prelude::*;

use crate::events::StartEvent;
use crate::states::{next_state, AppState, ModeInput};

verus! {

/// What dismissing the tutorial leads to.
#[derive(Debug, Clone, Copy, PartialEq, Eq, Structural)]
pub struct TutorialClosing {
    /// The mode to enter, if the tutorial was dismissed at all.
    pub next: Option<AppState>,
    /// How many times the background music is to be started.
    pub music: usize,
}

/// How many of the start events ask for music.
pub open spec fn music_requests(events: Seq<StartEvent>) -> nat
    decreases events.len(),
{
    if events.len() == 0 {
        0
    } else {
        music_requests(events.drop_last()) + if events.last().0 {
            1nat
        } else {
            0nat
        }
    }
}

/// There are never more music requests than start events.
pub proof fn lemma_music_requests_bounded(events: Seq<StartEvent>)
    ensures
        music_requests(events) <= events.len(),
    decreases events.len(),
{
    if events.len() > 0 {
        lemma_music_requests_bounded(events.drop_last());
    }
}

/// Reads the start events of one tick. Any of them tears the tutorial down
/// and asks for the `Start` mode; each one that wants music starts it.
pub fn close_tutorial(events: &Vec<StartEvent>) -> (closing: TutorialClosing)
    ensures
        closing.next == if events@.len() > 0 {
            next_state(AppState::Tutorial, ModeInput::TutorialDismissed)
        } else {
            None::<AppState>
        },
        closing.music == music_requests(events@),
{
    let mut next: Option<AppState> = None;
    let mut music: usize = 0;
    let mut i: usize = 0;
    while i < events.len()
        invariant
            i <= events@.len(),
            music == music_requests(events@.take(i as int)),
            music <= i,
            next == if i > 0 {
                Some(AppState::Start)
            } else {
                None::<AppState>
            },
        decreases events@.len() - i,
    {
        proof {
            assert(events@.take(i + 1).drop_last() =~= events@.take(i as int));
            assert(events@.take(i + 1).last() == events@[i as int]);
        }
        next = Some(AppState::Start);
        if events[i].0 {
            music += 1;
        }
        i += 1;
    }
    assert(events@.take(i as int) =~= events@);
    TutorialClosing { next, music }
}

} // verus!
