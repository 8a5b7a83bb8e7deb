use trayer::command::Command;
use trayer::queue::CommandQueue;
use trayer::state::{Action, Example, Message, POLL_INTERVAL_MS};
use trayer::tray::SystemTray;

#[test]
fn poll_cadence_is_half_a_second() {
    assert_eq!(POLL_INTERVAL_MS, 500);
}

fn started() -> (Example, CommandQueue) {
    let (state, action) = Example::new();
    assert_eq!(action, Action::OpenWindow);
    (state, CommandQueue::new())
}

#[test]
fn startup_state_is_counter_zero_and_no_window() {
    let (state, action) = Example::new();
    assert_eq!(state.counter, 0);
    assert_eq!(state.current_window_id, None);
    assert!(!state.window_is_open);
    assert_eq!(action, Action::OpenWindow);
}

#[test]
fn two_increments_and_a_decrement_leave_counter_at_one() {
    let (mut state, mut q) = started();
    assert_eq!(state.update(Message::Increment, &mut q), Action::Nothing);
    assert_eq!(state.update(Message::Increment, &mut q), Action::Nothing);
    assert_eq!(state.update(Message::Decrement, &mut q), Action::Nothing);
    assert_eq!(state.counter, 1);
}

#[test]
fn window_opened_records_the_identifier() {
    let (mut state, mut q) = started();
    state.update(Message::WindowOpened(7), &mut q);
    assert!(state.window_is_open);
    assert_eq!(state.current_window_id, Some(7));
}

#[test]
fn show_window_drained_while_open_is_a_noop() {
    let (mut state, mut q) = started();
    state.update(Message::WindowOpened(7), &mut q);
    SystemTray::send_command(&mut q, Command::ShowWindow);
    let action = state.update(Message::CheckTrayCommands, &mut q);
    // No second window is requested and the one identifier stays valid.
    assert_eq!(action, Action::Nothing);
    assert!(state.window_is_open);
    assert_eq!(state.current_window_id, Some(7));
    assert!(q.is_empty());
}

#[test]
fn hide_window_drained_while_no_window_is_a_noop() {
    let (mut state, mut q) = started();
    SystemTray::send_command(&mut q, Command::HideWindow);
    let action = state.update(Message::CheckTrayCommands, &mut q);
    assert_eq!(action, Action::Nothing);
    assert!(!state.window_is_open);
    assert_eq!(state.current_window_id, None);
    assert!(q.is_empty());
}

#[test]
fn tray_hide_click_closes_the_open_window() {
    let (mut state, mut q) = started();
    state.update(Message::WindowOpened(3), &mut q);

    // Tray `Hide Window` click: the queue holds exactly [HideWindow].
    SystemTray::send_command(&mut q, Command::HideWindow);
    assert_eq!(q.len(), 1);

    // Poll tick: a close of the open window is requested.
    let action = state.update(Message::CheckTrayCommands, &mut q);
    assert_eq!(action, Action::CloseWindow(3));
    assert!(state.window_is_open);

    // The native close event arrives: only now does the state change.
    let action = state.update(Message::WindowClosed(3), &mut q);
    assert_eq!(action, Action::Nothing);
    assert!(!state.window_is_open);
    assert_eq!(state.current_window_id, None);
}

#[test]
fn tray_show_click_opens_a_window_when_none_is_open() {
    let (mut state, mut q) = started();

    SystemTray::send_command(&mut q, Command::ShowWindow);
    let action = state.update(Message::CheckTrayCommands, &mut q);
    assert_eq!(action, Action::OpenWindow);
    assert!(!state.window_is_open);

    // The windowing layer assigns a fresh identifier.
    let action = state.update(Message::WindowOpened(42), &mut q);
    assert_eq!(action, Action::Nothing);
    assert!(state.window_is_open);
    assert_eq!(state.current_window_id, Some(42));
}

#[test]
fn tray_exit_click_drained_by_a_tick_terminates() {
    let (mut state, mut q) = started();
    state.update(Message::WindowOpened(1), &mut q);

    SystemTray::send_command(&mut q, Command::Exit);
    let action = state.update(Message::CheckTrayCommands, &mut q);
    assert_eq!(action, Action::Exit);
    assert!(q.is_empty());
}

#[test]
fn hide_to_tray_requests_a_close_only_when_a_window_is_open() {
    let (mut state, mut q) = started();
    assert_eq!(state.update(Message::HideToTray, &mut q), Action::Nothing);
    state.update(Message::WindowOpened(9), &mut q);
    assert_eq!(
        state.update(Message::HideToTray, &mut q),
        Action::CloseWindow(9)
    );
}

#[test]
fn exit_message_requests_termination_in_any_state() {
    let (mut state, mut q) = started();
    assert_eq!(state.update(Message::ExitApp, &mut q), Action::Exit);
    state.update(Message::WindowOpened(5), &mut q);
    assert_eq!(state.update(Message::ExitApp, &mut q), Action::Exit);
}

#[test]
fn tick_with_empty_queue_is_a_noop() {
    let (mut state, mut q) = started();
    state.update(Message::WindowOpened(2), &mut q);
    let before = state.clone();
    assert_eq!(
        state.update(Message::CheckTrayCommands, &mut q),
        Action::Nothing
    );
    assert_eq!(state, before);
}
