//! Laws of the login item, the windows and the tray.

use crate::domain::DestinationHost;
use crate::settings::local_host;
use crate::startup::{
    autostart_args, launched_from_autostart, tray_command, window_action, TrayCommand,
    WindowAction, WindowEvent,
};
use crate::stored::{startup_autostart, AutostartChange};
use vstd::prelude::*;

verus! {

/// The application knows that the login session started it by the argument that it asked the
/// session to pass, wherever that stands; other arguments have no influence.
pub proof fn login_argument_is_recognised(
    os: &str,
    arguments: Option<Vec<&'static str>>,
    given: &[String],
    launched: bool,
    extended: &[String],
    launched_extended: bool,
    i: int,
)
    requires
        call_ensures(autostart_args, (os,), arguments),
        call_ensures(launched_from_autostart, (given,), launched),
        call_ensures(launched_from_autostart, (extended,), launched_extended),
        extended@.len() == given@.len() + 1,
        extended@.drop_last() == given@,
    ensures
        arguments is Some <==> os@ == "windows"@,
        arguments matches Some(arguments) ==> arguments@.len() == 1 && (0 <= i < given@.len()
            && given@[i]@ == arguments@[0]@ ==> launched),
        launched ==> launched_extended,
        extended@.last()@ == "--autostart"@ ==> launched_extended,
        extended@.last()@ != "--autostart"@ ==> launched_extended == launched,
        given@.len() == 0 ==> !launched,
{
    let last = extended@.len() - 1;
    if launched {
        let k = choose|k: int| 0 <= k < given@.len() && (#[trigger] given@[k])@ == "--autostart"@;
        assert(extended@[k] == extended@.drop_last()[k]);
    }
    if extended@.last()@ == "--autostart"@ {
        assert(extended@[last]@ == "--autostart"@);
    } else if launched_extended {
        let k = choose|k: int|
            0 <= k < extended@.len() && (#[trigger] extended@[k])@ == "--autostart"@;
        assert(extended@[k] == given@[k]);
    }
}

/// Closing the main window keeps it and hides it, minimizing hides it, and nothing else does
/// anything to it; other windows are left alone.
pub proof fn only_the_main_window_goes_to_the_tray(
    label: &str,
    event: WindowEvent,
    action: WindowAction,
)
    requires
        call_ensures(window_action, (label, event), action),
    ensures
        action == WindowAction::KeepAndHide <==> label@ == "main"@ && event
            == WindowEvent::CloseRequested,
        action == WindowAction::Hide <==> label@ == "main"@ && event == (WindowEvent::Resized {
            minimized: true,
        }),
{
}

/// Each entry of the tray menu does what it says, and nothing else does.
pub proof fn tray_entries_are_told_apart(id: &str, command: Option<TrayCommand>)
    requires
        call_ensures(tray_command, (id,), command),
    ensures
        command == Some(TrayCommand::Open) <==> id@ == "tray-open"@,
        command == Some(TrayCommand::Quit) <==> id@ == "tray-quit"@,
{
    reveal_strlit("tray-open");
    reveal_strlit("tray-quit");
    assert("tray-open"@[5] != "tray-quit"@[5]);
}

/// At start a development build takes the login item away, whatever the settings say; only another
/// build on Windows that should be one puts it there.
pub proof fn login_item_at_start_follows_build_and_settings(
    os: &str,
    development: bool,
    autostart: bool,
    change: AutostartChange,
)
    requires
        call_ensures(startup_autostart, (os, development, autostart), change),
    ensures
        change == AutostartChange::Disable <==> development,
        change == AutostartChange::Enable <==> !development && autostart && os@ == "windows"@,
{
}

/// A computer is a Mac exactly under macOS.
pub proof fn only_macos_makes_a_mac(os: &str, host: DestinationHost)
    requires
        call_ensures(local_host, (os,), host),
    ensures
        host == DestinationHost::Mac <==> os@ == "macos"@,
{
}

} // verus!
