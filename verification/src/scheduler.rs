//! The poll scheduler.
//!
//! The program's loop waits for input for one poll window per frame. The
//! scheduler decides what each outcome of that wait leads to: an input is
//! handed to the navigation machine, a silent window counts towards the next
//! automatic refresh of the telemetry.

use vstd::prelude::*;

use crate::screen::Action;
use crate::screen::App;
use crate::screen::key_from_char;
use crate::screen::key_of_char;
use crate::screen::KeyInput;
use crate::screen::ViewState;

verus! {

/// Milliseconds that one wait for input lasts.
pub const POLL_WINDOW_MS: u32 = 250;

/// Milliseconds without input after which the telemetry is refreshed.
pub const REFRESH_THRESHOLD_MS: u32 = 5500;

/// Silent poll windows that make up one refresh period.
pub const WINDOWS_PER_REFRESH: u32 = 22;

/// How one wait for input ended.
#[derive(Clone, Copy, Debug, PartialEq, Eq, Structural)]
pub enum PollEvent {
    /// A key was pressed within the window.
    Input(KeyInput),
    /// Something happened that is no key press, such as a key let go or a
    /// change of the window: not an input, and not a silent window either.
    Ignored,
    /// The window passed without input.
    Timeout,
}

/// The event that a key event of the terminal stands for: a key let go is
/// ignored, a character key is read as a key of the dashboard, and any other
/// key is an input without a meaning.
pub open spec fn event_of_key(character: Option<char>, released: bool) -> PollEvent {
    if released {
        PollEvent::Ignored
    } else {
        match character {
            Some(c) => PollEvent::Input(key_of_char(c)),
            None => PollEvent::Input(KeyInput::Other),
        }
    }
}

/// Reads a key event of the terminal: `character` is the character of the
/// key, if it has one, and `released` says whether the key was let go.
pub fn event_from_key(character: Option<char>, released: bool) -> (event: PollEvent)
    ensures
        event == event_of_key(character, released),
{
    if released {
        PollEvent::Ignored
    } else {
        match character {
            Some(c) => PollEvent::Input(key_from_char(c)),
            None => PollEvent::Input(KeyInput::Other),
        }
    }
}

/// State of the loop, navigation included, as a mathematical value.
pub struct LoopState {
    /// Milliseconds of silence since the last input or refresh.
    pub idle_ms: int,
    /// The navigation state.
    pub view: ViewState,
}

impl LoopState {
    /// The states a loop can be in: a refresh is never overdue.
    pub open spec fn wf(self) -> bool {
        &&& 0 <= self.idle_ms < REFRESH_THRESHOLD_MS
        &&& self.view.wf()
    }

    /// The state after `event`.
    pub open spec fn after(self, event: PollEvent) -> LoopState {
        match event {
            PollEvent::Input(key) => LoopState { idle_ms: 0, view: self.view.after(key) },
            PollEvent::Ignored => self,
            PollEvent::Timeout => if self.idle_ms + POLL_WINDOW_MS >= REFRESH_THRESHOLD_MS {
                LoopState { idle_ms: 0, ..self }
            } else {
                LoopState { idle_ms: self.idle_ms + POLL_WINDOW_MS, ..self }
            },
        }
    }

    /// What `event` in this state asks of the caller.
    pub open spec fn action(self, event: PollEvent) -> Action {
        match event {
            PollEvent::Input(key) => self.view.action(key),
            PollEvent::Ignored => Action::Continue,
            PollEvent::Timeout => if self.idle_ms + POLL_WINDOW_MS >= REFRESH_THRESHOLD_MS {
                Action::Refresh
            } else {
                Action::Continue
            },
        }
    }

    /// The state after `n` silent windows in a row.
    pub open spec fn after_silence(self, n: nat) -> LoopState
        decreases n,
    {
        if n == 0 {
            self
        } else {
            self.after_silence((n - 1) as nat).after(PollEvent::Timeout)
        }
    }

    /// The number of refreshes that `n` silent windows in a row ask for.
    pub open spec fn refreshes_in_silence(self, n: nat) -> nat
        decreases n,
    {
        if n == 0 {
            0
        } else {
            let before = self.after_silence((n - 1) as nat);
            let earlier = self.refreshes_in_silence((n - 1) as nat);
            if before.action(PollEvent::Timeout) == Action::Refresh {
                earlier + 1
            } else {
                earlier
            }
        }
    }
}

/// Counts the silence between refreshes.
pub struct PollScheduler {
    idle_ms: u32,
}

impl PollScheduler {
    /// Milliseconds of silence since the last input or refresh.
    pub closed spec fn idle(self) -> int {
        self.idle_ms as int
    }

    /// What holds of every scheduler: a refresh is never overdue.
    #[verifier::type_invariant]
    pub open spec fn inv(self) -> bool {
        0 <= self.idle() < REFRESH_THRESHOLD_MS
    }

    /// The loop state made of this scheduler and the navigation state `view`.
    pub open spec fn state_with(self, view: ViewState) -> LoopState {
        LoopState { idle_ms: self.idle(), view }
    }

    /// A scheduler that has seen no silence yet.
    pub fn new() -> (scheduler: PollScheduler)
        ensures
            scheduler.idle() == 0,
    {
        PollScheduler { idle_ms: 0 }
    }

    /// Milliseconds of silence since the last input or refresh.
    pub fn idle_ms(&self) -> (ms: u32)
        ensures
            ms == self.idle(),
            ms < REFRESH_THRESHOLD_MS,
    {
        proof {
            use_type_invariant(self);
        }
        self.idle_ms
    }

    /// Handles the outcome of one wait for input. An input goes to the
    /// navigation machine and ends the silence; a silent window adds to it,
    /// and asks for a refresh once the threshold is reached.
    pub fn step(&mut self, app: &mut App, event: PollEvent) -> (action: Action)
        ensures
            final(self).state_with(final(app)@).wf(),
            final(self).state_with(final(app)@) == old(self).state_with(old(app)@).after(event),
            action == old(self).state_with(old(app)@).action(event),
    {
        proof {
            use_type_invariant(&*self);
            use_type_invariant(&*app);
        }
        match event {
            PollEvent::Input(key) => {
                let action = app.dispatch(key);
                self.idle_ms = 0;
                action
            },
            PollEvent::Ignored => Action::Continue,
            PollEvent::Timeout => {
                let idle: u32 = self.idle_ms + POLL_WINDOW_MS;
                if idle >= REFRESH_THRESHOLD_MS {
                    self.idle_ms = 0;
                    Action::Refresh
                } else {
                    self.idle_ms = idle;
                    Action::Continue
                }
            },
        }
    }
}

/// Every event leads from a well-formed state to a well-formed state: a
/// refresh is never overdue.
pub proof fn events_keep_state_well_formed(state: LoopState, event: PollEvent)
    requires
        state.wf(),
    ensures
        state.after(event).wf(),
{
    if let PollEvent::Input(key) = event {
        crate::screen::keys_keep_state_well_formed(state.view, key);
    }
}

/// Silence alone refreshes the telemetry once per period: from a state with
/// no silence behind it, `n` silent windows in a row ask for one refresh at
/// every 22nd window and for none in between, and leave the navigation
/// state alone. So 21 windows ask for no refresh and 22 for exactly one.
pub proof fn silence_refreshes_once_per_period(state: LoopState, n: nat)
    requires
        state.idle_ms == 0,
    ensures
        state.after_silence(n).idle_ms == (n % (WINDOWS_PER_REFRESH as nat)) * POLL_WINDOW_MS,
        state.after_silence(n).view == state.view,
        state.refreshes_in_silence(n) == n / (WINDOWS_PER_REFRESH as nat),
        n > 0 ==> (state.after_silence((n - 1) as nat).action(PollEvent::Timeout) == Action::Refresh
            <==> n % (WINDOWS_PER_REFRESH as nat) == 0),
    decreases n,
{
    if n > 0 {
        silence_refreshes_once_per_period(state, (n - 1) as nat);
    }
}

/// An input starts the period anew: whatever silence came before it, the
/// next refresh by silence alone comes at the 22nd silent window after the
/// input, and at every 22nd from then on.
pub proof fn input_restarts_the_period(state: LoopState, key: KeyInput, n: nat)
    ensures
        state.after(PollEvent::Input(key)).idle_ms == 0,
        state.after(PollEvent::Input(key)).refreshes_in_silence(n) == n / (
        WINDOWS_PER_REFRESH as nat),
        n > 0 ==> (state.after(PollEvent::Input(key)).after_silence((n - 1) as nat).action(
            PollEvent::Timeout,
        ) == Action::Refresh <==> n % (WINDOWS_PER_REFRESH as nat) == 0),
{
    silence_refreshes_once_per_period(state.after(PollEvent::Input(key)), n);
}

/// The loop ends on one event only: the confirm key on the confirmation
/// screen.
pub proof fn loop_ends_only_on_confirmed_exit(state: LoopState, event: PollEvent)
    ensures
        state.action(event) == Action::Exit <==> state.view.screen
            == crate::screen::CurrentScreen::Exiting && event == PollEvent::Input(
            KeyInput::Confirm,
        ),
{
}

} // verus!
