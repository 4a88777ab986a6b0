use vstd::prelude::*;

verus! {

/// How long one poll for input waits before the next frame is drawn.
pub const POLL_TIMEOUT_MS: u64 = 50;

/// What happened to a key.
#[derive(Clone, Copy, Debug, PartialEq, Eq, Structural)]
pub enum KeyKind {
    Press,
    Repeat,
    Release,
}

/// Which key an event is about.
#[derive(Clone, Copy, Debug, PartialEq, Eq, Structural)]
pub enum KeyCode {
    Char(char),
    Other,
}

/// An input event seen by a poll.
#[derive(Clone, Copy, Debug, PartialEq, Eq, Structural)]
pub enum InputEvent {
    Key { code: KeyCode, kind: KeyKind },
    Other,
}

/// The two states of the render loop.
#[derive(Clone, Copy, Debug, PartialEq, Eq, Structural)]
pub enum LoopState {
    Running,
    Terminating,
}

/// The event that ends the loop: a press of the `q` key.
pub open spec fn is_quit(e: InputEvent) -> bool {
    e == InputEvent::Key { code: KeyCode::Char('q'), kind: KeyKind::Press }
}

/// A poll's outcome (`None` when it timed out) holds the quit event.
pub open spec fn polled_quit(polled: Option<InputEvent>) -> bool {
    polled matches Some(e) && is_quit(e)
}

/// The state after one poll: a running loop stops on the quit event and goes
/// on otherwise; a terminating loop stays so.
pub open spec fn step(s: LoopState, polled: Option<InputEvent>) -> LoopState {
    match s {
        LoopState::Running => if polled_quit(polled) {
            LoopState::Terminating
        } else {
            LoopState::Running
        },
        LoopState::Terminating => LoopState::Terminating,
    }
}

/// The number of frames a loop in state `s` draws when its successive polls
/// give `polls`: while running, each iteration draws one frame and then polls.
pub open spec fn frames_drawn(s: LoopState, polls: Seq<Option<InputEvent>>) -> nat
    decreases polls.len(),
{
    if s is Terminating || polls.len() == 0 {
        0
    } else {
        1 + frames_drawn(step(s, polls[0]), polls.drop_first())
    }
}

/// Tells whether an input event is the quit event.
pub fn is_quit_event(e: &InputEvent) -> (r: bool)
    ensures
        r == is_quit(*e),
{
    match e {
        InputEvent::Key { code: KeyCode::Char(c), kind: KeyKind::Press } => *c == 'q',
        _ => false,
    }
}

/// Decides on a poll's outcome (`None` when it timed out) whether to quit.
pub fn handle_events(polled: Option<InputEvent>) -> (r: bool)
    ensures
        r == polled_quit(polled),
{
    match polled {
        Some(e) => is_quit_event(&e),
        None => false,
    }
}

/// The loop's state after a poll.
pub fn next_state(s: LoopState, polled: Option<InputEvent>) -> (r: LoopState)
    ensures
        r == step(s, polled),
{
    match s {
        LoopState::Running => if handle_events(polled) {
            LoopState::Terminating
        } else {
            LoopState::Running
        },
        LoopState::Terminating => LoopState::Terminating,
    }
}

/// Whether the loop draws a frame in this state: only while running.
pub fn should_draw(s: LoopState) -> (r: bool)
    ensures
        r == (s is Running),
{
    match s {
        LoopState::Running => true,
        LoopState::Terminating => false,
    }
}

/// Once the poll that follows a frame sees the quit event, the loop is
/// terminating and that frame is the last one drawn, whatever later polls
/// would have given.
pub proof fn lemma_quit_ends_drawing(polls: Seq<Option<InputEvent>>)
    requires
        polls.len() > 0,
        polled_quit(polls[0]),
    ensures
        step(LoopState::Running, polls[0]) == LoopState::Terminating,
        frames_drawn(LoopState::Running, polls) == 1,
        forall|later: Seq<Option<InputEvent>>| frames_drawn(LoopState::Terminating, later) == 0,
{
    assert forall|later: Seq<Option<InputEvent>>| frames_drawn(LoopState::Terminating, later) == 0 by {
        reveal_with_fuel(frames_drawn, 1);
    }
    assert(frames_drawn(LoopState::Terminating, polls.drop_first()) == 0);
}

} // verus!
