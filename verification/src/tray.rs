//! The tray service adapter.
//!
//! The tray runs in its own execution context and may never touch the
//! application state or the windowing layer. Its whole interface to the rest
//! of the application is the command queue: every menu activation and the
//! icon's primary click only enqueue the corresponding [`Command`]. The
//! identity strings and the menu are fixed data, described here so the
//! hosting layer can register them with the tray protocol.

use vstd::prelude::*;

use crate::command::Command;
use crate::queue::CommandQueue;

verus! {

/// One entry of the tray menu: an activatable item carrying the command it
/// enqueues, or a separator.
#[derive(Debug, Clone, Copy, PartialEq)]
pub enum MenuEntry {
    /// An activatable menu item.
    Item {
        /// The label the menu shows.
        label: &'static str,
        /// A themed icon name for the item, if it has one.
        icon_name: Option<&'static str>,
        /// The command that activating the item enqueues.
        command: Command,
    },
    /// A visual separator.
    Separator,
}

/// The tray service: a fixed identity, a fixed three-item menu, and
/// activation handlers that only ever enqueue commands.
pub struct SystemTray;

impl SystemTray {
    /// The tray identity's id string.
    pub fn id(&self) -> (r: &'static str)
        ensures
            r@ == "trayer"@,
    {
        "trayer"
    }

    /// The tray identity's title.
    pub fn title(&self) -> (r: &'static str)
        ensures
            r@ == "Trayer"@,
    {
        "Trayer"
    }

    /// The themed fallback icon name, used where the bitmap icon cannot be.
    pub fn icon_name(&self) -> (r: &'static str)
        ensures
            r@ == "application-default-icon"@,
    {
        "application-default-icon"
    }

    /// The fixed menu: `Show Window`, `Hide Window`, a separator, and
    /// `Exit` (with a themed icon), each item bound to its command.
    pub fn menu(&self) -> (m: Vec<MenuEntry>)
        ensures
            m@.len() == 4,
            (m@[0] matches MenuEntry::Item { label, icon_name, command } && ({
                &&& label@ == "Show Window"@
                &&& icon_name is None
                &&& command == Command::ShowWindow
            })),
            (m@[1] matches MenuEntry::Item { label, icon_name, command } && ({
                &&& label@ == "Hide Window"@
                &&& icon_name is None
                &&& command == Command::HideWindow
            })),
            m@[2] == MenuEntry::Separator,
            (m@[3] matches MenuEntry::Item { label, icon_name, command } && ({
                &&& label@ == "Exit"@
                &&& icon_name matches Some(n) && n@ == "application-exit"@
                &&& command == Command::Exit
            })),
    {
        let mut m: Vec<MenuEntry> = Vec::new();
        m.push(
            MenuEntry::Item { label: "Show Window", icon_name: None, command: Command::ShowWindow },
        );
        m.push(
            MenuEntry::Item { label: "Hide Window", icon_name: None, command: Command::HideWindow },
        );
        m.push(MenuEntry::Separator);
        m.push(
            MenuEntry::Item {
                label: "Exit",
                icon_name: Some("application-exit"),
                command: Command::Exit,
            },
        );
        m
    }

    /// The icon's primary-click activation: enqueue `ShowWindow`.
    pub fn activate(&mut self, queue: &mut CommandQueue)
        ensures
            final(queue)@ == old(queue)@.push(Command::ShowWindow),
    {
        Self::send_command(queue, Command::ShowWindow);
    }

    /// Hand one tray-originated intent to the GUI loop by appending it to
    /// the shared queue. The tray context does nothing else with it.
    pub fn send_command(queue: &mut CommandQueue, cmd: Command)
        ensures
            final(queue)@ == old(queue)@.push(cmd),
    {
        queue.enqueue(cmd);
    }
}

} // verus!
