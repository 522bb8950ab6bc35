//! Discrete input handling: the per-tick sequence of key events folds into
//! the controller's held-key flags, the running flag and the pipeline
//! toggle, in event order.

use vstd::prelude::*;

verus! {

#[derive(Clone, Copy, Debug, PartialEq, Eq, Structural)]
pub enum GameState {
    Playing,
}

/// The running/exit flag and the current game state.
#[derive(Clone, Copy, Debug, PartialEq, Eq, Structural)]
pub struct AppState {
    pub is_running: bool,
    pub state: GameState,
}

#[derive(Clone, Copy, Debug, PartialEq, Eq, Structural)]
pub enum Key {
    W,
    A,
    S,
    D,
    Space,
    Escape,
    Other,
}

#[derive(Clone, Copy, Debug, PartialEq, Eq, Structural)]
pub enum InputEvent {
    KeyDown(Key),
    KeyUp(Key),
    Quit,
}

/// Which movement keys are currently held.
#[derive(Clone, Copy, Debug, PartialEq, Eq, Structural)]
pub struct Controller {
    pub forward: bool,
    pub backwards: bool,
    pub left: bool,
    pub right: bool,
}

impl Controller {
    pub fn idle() -> (r: Controller)
        ensures
            !r.forward && !r.backwards && !r.left && !r.right,
    {
        Controller { forward: false, backwards: false, left: false, right: false }
    }
}

/// The effect of one event: W/S/A/D set or clear the held flags, Space
/// toggles the pipeline choice, Escape or a quit request clears the
/// running flag; anything else changes nothing.
pub open spec fn apply_event(c: Controller, a: AppState, toggle: bool, e: InputEvent) -> (
    Controller,
    AppState,
    bool,
) {
    match e {
        InputEvent::KeyDown(Key::W) => (
            Controller { forward: true, backwards: c.backwards, left: c.left, right: c.right },
            a,
            toggle,
        ),
        InputEvent::KeyUp(Key::W) => (
            Controller { forward: false, backwards: c.backwards, left: c.left, right: c.right },
            a,
            toggle,
        ),
        InputEvent::KeyDown(Key::S) => (
            Controller { forward: c.forward, backwards: true, left: c.left, right: c.right },
            a,
            toggle,
        ),
        InputEvent::KeyUp(Key::S) => (
            Controller { forward: c.forward, backwards: false, left: c.left, right: c.right },
            a,
            toggle,
        ),
        InputEvent::KeyDown(Key::A) => (
            Controller { forward: c.forward, backwards: c.backwards, left: true, right: c.right },
            a,
            toggle,
        ),
        InputEvent::KeyUp(Key::A) => (
            Controller { forward: c.forward, backwards: c.backwards, left: false, right: c.right },
            a,
            toggle,
        ),
        InputEvent::KeyDown(Key::D) => (
            Controller { forward: c.forward, backwards: c.backwards, left: c.left, right: true },
            a,
            toggle,
        ),
        InputEvent::KeyUp(Key::D) => (
            Controller { forward: c.forward, backwards: c.backwards, left: c.left, right: false },
            a,
            toggle,
        ),
        InputEvent::KeyDown(Key::Space) => (c, a, !toggle),
        InputEvent::KeyDown(Key::Escape) => (
            c,
            AppState { is_running: false, state: a.state },
            toggle,
        ),
        InputEvent::Quit => (c, AppState { is_running: false, state: a.state }, toggle),
        _ => (c, a, toggle),
    }
}

/// The events from index `i` on, folded left to right.
pub open spec fn fold_events(
    c: Controller,
    a: AppState,
    toggle: bool,
    evs: Seq<InputEvent>,
    i: nat,
) -> (Controller, AppState, bool)
    decreases evs.len() - i,
{
    if i >= evs.len() {
        (c, a, toggle)
    } else {
        let n = apply_event(c, a, toggle, evs[i as int]);
        fold_events(n.0, n.1, n.2, evs, i + 1)
    }
}

/// Process the tick's events in order against the controller, the app
/// state and the pipeline toggle.
pub fn event_handler(
    controller: &mut Controller,
    app_state: &mut AppState,
    change_pipeline: &mut bool,
    events: &Vec<InputEvent>,
)
    ensures
        ({
            let folded = fold_events(
                *old(controller),
                *old(app_state),
                *old(change_pipeline),
                events@,
                0,
            );
            let fc = *final(controller);
            let fa = *final(app_state);
            let ft = *final(change_pipeline);
            fc == folded.0 && fa == folded.1 && ft == folded.2
        }),
{
    let ghost folded = fold_events(
        *controller,
        *app_state,
        *change_pipeline,
        events@,
        0,
    );
    let n = events.len();
    let mut i: usize = 0;
    while i < n
        invariant
            i <= n,
            n == events@.len(),
            fold_events(*controller, *app_state, *change_pipeline, events@, i as nat) == folded,
        decreases n - i,
    {
        let e = events[i];
        match e {
            InputEvent::KeyDown(Key::W) => {
                controller.forward = true;
            },
            InputEvent::KeyUp(Key::W) => {
                controller.forward = false;
            },
            InputEvent::KeyDown(Key::S) => {
                controller.backwards = true;
            },
            InputEvent::KeyUp(Key::S) => {
                controller.backwards = false;
            },
            InputEvent::KeyDown(Key::A) => {
                controller.left = true;
            },
            InputEvent::KeyUp(Key::A) => {
                controller.left = false;
            },
            InputEvent::KeyDown(Key::D) => {
                controller.right = true;
            },
            InputEvent::KeyUp(Key::D) => {
                controller.right = false;
            },
            InputEvent::KeyDown(Key::Space) => {
                *change_pipeline = !*change_pipeline;
            },
            InputEvent::KeyDown(Key::Escape) => {
                app_state.is_running = false;
            },
            InputEvent::Quit => {
                app_state.is_running = false;
            },
            _ => {},
        }
        i = i + 1;
    }
}

} // verus!
