//! Starting with the login session, and the tray.

use crate::locale::{localized, ui_text, UiLocale};
use crate::text::same_text;
use vstd::prelude::*;

verus! {

/// The arguments with which the login session starts the application, by the name of the
/// operating system. Only Windows passes any.
pub fn autostart_args(os: &str) -> (arguments: Option<Vec<&'static str>>)
    ensures
        match arguments {
            Some(arguments) => os@ == "windows"@ && arguments@.len() == 1 && arguments@[0]@
                == "--autostart"@,
            None => os@ != "windows"@,
        },
{
    if same_text(os, "windows") {
        let mut arguments: Vec<&'static str> = Vec::new();
        arguments.push("--autostart");
        Some(arguments)
    } else {
        None
    }
}

/// Whether a text is among some arguments.
pub open spec fn is_passed(arguments: Seq<String>, text: Seq<char>) -> bool {
    exists|i: int| 0 <= i < arguments.len() && (#[trigger] arguments[i])@ == text
}

/// Whether the login session started the application.
pub fn launched_from_autostart(arguments: &[String]) -> (launched: bool)
    ensures
        launched == is_passed(arguments@, "--autostart"@),
{
    let mut i: usize = 0;
    while i < arguments.len()
        invariant
            i <= arguments@.len(),
            forall|k: int| 0 <= k < i ==> (#[trigger] arguments@[k])@ != "--autostart"@,
        decreases arguments@.len() - i,
    {
        if same_text(arguments[i].as_str(), "--autostart") {
            return true;
        }
        i += 1;
    }
    false
}

/// What happens to a window of the application.
#[derive(Clone, Copy, Debug, PartialEq, Eq, Structural)]
pub enum WindowEvent {
    CloseRequested,
    Resized { minimized: bool },
    Other,
}

/// What to do about it.
#[derive(Clone, Copy, Debug, PartialEq, Eq, Structural)]
pub enum WindowAction {
    Nothing,
    /// Hide the window in the tray.
    Hide,
    /// Keep the window from closing, and hide it in the tray.
    KeepAndHide,
}

/// Keeps the main window in the tray in place of closing or minimizing it.
pub fn window_action(label: &str, event: WindowEvent) -> (action: WindowAction)
    ensures
        action == if label@ != "main"@ {
            WindowAction::Nothing
        } else {
            match event {
                WindowEvent::CloseRequested => WindowAction::KeepAndHide,
                WindowEvent::Resized { minimized } => if minimized {
                    WindowAction::Hide
                } else {
                    WindowAction::Nothing
                },
                WindowEvent::Other => WindowAction::Nothing,
            }
        },
{
    if !same_text(label, "main") {
        return WindowAction::Nothing;
    }
    match event {
        WindowEvent::CloseRequested => WindowAction::KeepAndHide,
        WindowEvent::Resized { minimized } => if minimized {
            WindowAction::Hide
        } else {
            WindowAction::Nothing
        },
        WindowEvent::Other => WindowAction::Nothing,
    }
}

/// The entries of the tray menu.
#[derive(Clone, Copy, Debug, PartialEq, Eq, Structural)]
pub enum TrayCommand {
    Open,
    Quit,
}

/// The entry of the tray menu with a given id.
pub fn tray_command(id: &str) -> (command: Option<TrayCommand>)
    ensures
        command == if id@ == "tray-open"@ {
            Some(TrayCommand::Open)
        } else if id@ == "tray-quit"@ {
            Some(TrayCommand::Quit)
        } else {
            None
        },
{
    if same_text(id, "tray-open") {
        Some(TrayCommand::Open)
    } else if same_text(id, "tray-quit") {
        Some(TrayCommand::Quit)
    } else {
        None
    }
}

/// The text of an entry of the tray menu.
pub fn tray_label(locale: UiLocale, command: TrayCommand) -> (label: &'static str)
    ensures
        label@ == match command {
            TrayCommand::Open => localized(locale, "開啟 DisplayMux"@, "Open DisplayMux"@),
            TrayCommand::Quit => localized(locale, "結束 DisplayMux"@, "Quit DisplayMux"@),
        },
{
    match command {
        TrayCommand::Open => ui_text(locale, "開啟 DisplayMux", "Open DisplayMux"),
        TrayCommand::Quit => ui_text(locale, "結束 DisplayMux", "Quit DisplayMux"),
    }
}

} // verus!
