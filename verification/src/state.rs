//! The GUI state machine.
//!
//! It owns the window lifecycle and the counter, and applies every event —
//! native UI events and drained tray commands alike — through one `update`
//! function. Side effects are declared, not performed: `update` returns an
//! [`Action`] that the surrounding event loop carries out, and the completion
//! of a window open or close is observed later through a native event, which
//! alone changes the recorded lifecycle state.

use vstd::prelude::*;

use crate::command::Command;
use crate::queue::CommandQueue;

verus! {

/// The GUI poller's fixed cadence, in milliseconds: one `CheckTrayCommands`
/// tick per interval, which bounds the latency between a tray action and its
/// visible effect.
pub const POLL_INTERVAL_MS: u64 = 500;

/// An opaque identifier for an open window, as the windowing layer assigns
/// it. The state machine never fabricates one: it only records identifiers
/// delivered by `WindowOpened` events.
pub type WindowId = u64;

/// The application state: the counter, and the window lifecycle. The
/// lifecycle invariant is [`Example::wf`]: a window is recorded as open
/// exactly when an identifier for it is held.
#[derive(Debug, Clone, Copy, PartialEq)]
pub struct Example {
    /// The counter shown in the window; moved by `Increment` / `Decrement`.
    pub counter: i32,
    /// The identifier of the open primary window, if any.
    pub current_window_id: Option<WindowId>,
    /// Whether the primary window is open.
    pub window_is_open: bool,
}

/// An event delivered to the state machine by the GUI loop: a native UI
/// event, a window lifecycle notification, or the periodic poll tick that
/// drains one tray command.
#[derive(Debug, Clone, Copy, PartialEq)]
pub enum Message {
    /// The windowing layer finished opening a window with this identifier.
    WindowOpened(WindowId),
    /// The windowing layer closed the window with this identifier.
    WindowClosed(WindowId),
    /// The user pressed the in-window control that hides the window.
    HideToTray,
    /// The user pressed the in-window control that exits the application.
    ExitApp,
    /// The user pressed the in-window control that raises the counter.
    Increment,
    /// The user pressed the in-window control that lowers the counter.
    Decrement,
    /// The periodic poll tick: drain at most one tray command and apply it.
    CheckTrayCommands,
}

/// The side effect that the event loop must carry out after an `update`.
/// Opening and closing are requests: their completion arrives later as a
/// `WindowOpened` or `WindowClosed` message.
#[derive(Debug, Clone, Copy, PartialEq, Eq, Structural)]
pub enum Action {
    /// No side effect.
    Nothing,
    /// Request a new primary window; its identifier arrives via
    /// `WindowOpened`.
    OpenWindow,
    /// Request that the window with this identifier be closed; completion
    /// arrives via `WindowClosed`.
    CloseWindow(WindowId),
    /// Terminate the process cleanly.
    Exit,
}

/// The state and action that applying one drained tray command yields.
/// `ShowWindow` with a window already open, and `HideWindow` with none, are
/// no-ops. No command changes the state directly: `ShowWindow` and
/// `HideWindow` only request the transition, which the later native event
/// completes.
pub open spec fn apply_command(pre: Example, cmd: Command) -> (Example, Action) {
    match cmd {
        Command::ShowWindow => if !pre.window_is_open {
            (pre, Action::OpenWindow)
        } else {
            (pre, Action::Nothing)
        },
        Command::HideWindow => match pre.current_window_id {
            Some(id) => (pre, Action::CloseWindow(id)),
            None => (pre, Action::Nothing),
        },
        Command::Exit => (pre, Action::Exit),
    }
}

/// The transition relation of the state machine: for a state, a message and
/// the queue contents, the successor state, the remaining queue contents and
/// the requested side effect. Only `CheckTrayCommands` reads the queue, and
/// it consumes at most the newest entry.
pub open spec fn step(pre: Example, msg: Message, q: Seq<Command>) -> (Example, Seq<
    Command,
>, Action) {
    match msg {
        Message::WindowOpened(id) => (
            Example { counter: pre.counter, current_window_id: Some(id), window_is_open: true },
            q,
            Action::Nothing,
        ),
        Message::WindowClosed(_) => (
            Example { counter: pre.counter, current_window_id: None, window_is_open: false },
            q,
            Action::Nothing,
        ),
        Message::HideToTray => match pre.current_window_id {
            Some(id) => (pre, q, Action::CloseWindow(id)),
            None => (pre, q, Action::Nothing),
        },
        Message::ExitApp => (pre, q, Action::Exit),
        Message::Increment => (
            Example {
                counter: (pre.counter + 1) as i32,
                current_window_id: pre.current_window_id,
                window_is_open: pre.window_is_open,
            },
            q,
            Action::Nothing,
        ),
        Message::Decrement => (
            Example {
                counter: (pre.counter - 1) as i32,
                current_window_id: pre.current_window_id,
                window_is_open: pre.window_is_open,
            },
            q,
            Action::Nothing,
        ),
        Message::CheckTrayCommands => if q.len() == 0 {
            (pre, q, Action::Nothing)
        } else {
            let (post, act) = apply_command(pre, q.last());
            (post, q.drop_last(), act)
        },
    }
}

impl Example {
    /// The lifecycle invariant: the window is recorded as open exactly when
    /// a window identifier is held.
    pub open spec fn wf(self) -> bool {
        self.window_is_open <==> self.current_window_id is Some
    }

    /// The startup state — counter at zero, no window recorded open yet —
    /// together with the request to open the primary window. The state
    /// records the window only once `WindowOpened` delivers its identifier.
    pub fn new() -> (r: (Example, Action))
        ensures
            r.0 == (Example { counter: 0, current_window_id: None::<WindowId>, window_is_open: false }),
            r.0.wf(),
            r.1 == Action::OpenWindow,
    {
        (Example { counter: 0, current_window_id: None, window_is_open: false }, Action::OpenWindow)
    }

    /// Apply one message: mutate the state, consume at most one queued tray
    /// command, and return the side effect the event loop must perform. The
    /// outcome is exactly the transition relation [`step`], and the
    /// lifecycle invariant is preserved.
    pub fn update(&mut self, msg: Message, queue: &mut CommandQueue) -> (act: Action)
        requires
            msg is Increment ==> old(self).counter < i32::MAX,
            msg is Decrement ==> old(self).counter > i32::MIN,
        ensures
            (*final(self), final(queue)@, act) == step(*old(self), msg, old(queue)@),
            old(self).wf() ==> final(self).wf(),
    {
        match msg {
            Message::WindowOpened(id) => {
                self.current_window_id = Some(id);
                self.window_is_open = true;
                Action::Nothing
            },
            Message::WindowClosed(_) => {
                self.current_window_id = None;
                self.window_is_open = false;
                Action::Nothing
            },
            Message::HideToTray => {
                match self.current_window_id {
                    Some(id) => Action::CloseWindow(id),
                    None => Action::Nothing,
                }
            },
            Message::ExitApp => Action::Exit,
            Message::Increment => {
                self.counter = self.counter + 1;
                Action::Nothing
            },
            Message::Decrement => {
                self.counter = self.counter - 1;
                Action::Nothing
            },
            Message::CheckTrayCommands => {
                match queue.drain_one() {
                    Some(cmd) => match cmd {
                        Command::ShowWindow => {
                            if !self.window_is_open {
                                Action::OpenWindow
                            } else {
                                Action::Nothing
                            }
                        },
                        Command::HideWindow => {
                            match self.current_window_id {
                                Some(id) => Action::CloseWindow(id),
                                None => Action::Nothing,
                            }
                        },
                        Command::Exit => Action::Exit,
                    },
                    None => Action::Nothing,
                }
            },
        }
    }
}

/// A `ShowWindow` command drained while a window is open is a no-op: the
/// state — in particular the one valid window identifier — is unchanged, and
/// no second window is requested.
pub proof fn lemma_show_window_when_open_is_noop(pre: Example, q: Seq<Command>)
    requires
        pre.wf(),
        pre.window_is_open,
        q.len() > 0,
        q.last() == Command::ShowWindow,
    ensures
        ({
            let (post, q2, act) = step(pre, Message::CheckTrayCommands, q);
            post == pre && act == Action::Nothing && q2 == q.drop_last()
        }),
{
}

/// A `HideWindow` command drained while no window is open is a no-op: the
/// state is unchanged and no close is requested.
pub proof fn lemma_hide_window_when_closed_is_noop(pre: Example, q: Seq<Command>)
    requires
        pre.wf(),
        !pre.window_is_open,
        q.len() > 0,
        q.last() == Command::HideWindow,
    ensures
        ({
            let (post, q2, act) = step(pre, Message::CheckTrayCommands, q);
            post == pre && act == Action::Nothing && q2 == q.drop_last()
        }),
{
}

} // verus!
