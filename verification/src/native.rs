//! The native application: the server behind a system tray.

use vstd::prelude::*;
use crate::server::address;
use crate::text::{chars_of, push_all, push_decimal, same_text, string_of};

verus! {

/// The native application, with the service that it serves from.
#[derive(Debug)]
pub struct NativeCommand<S> {
    pub service: S,
    pub bodhi_home: String,
}

/// What a click on the tray menu asks for.
#[derive(Debug, Clone, Copy, PartialEq, Eq, Structural)]
pub enum TrayAction {
    /// Open the homepage in the browser.
    OpenHomepage,
    /// Shut the server down and leave.
    Quit,
    /// Nothing.
    Ignore,
}

/// The action of a menu item, by its id.
pub open spec fn tray_action_of(id: Seq<char>) -> TrayAction {
    if id == "homepage"@ {
        TrayAction::OpenHomepage
    } else if id == "quit"@ {
        TrayAction::Quit
    } else {
        TrayAction::Ignore
    }
}

/// The address of the homepage, `http://host:port/`.
pub open spec fn homepage_of(host: Seq<char>, port: u16) -> Seq<char> {
    "http://"@ + address(host, port) + "/"@
}

impl<S> NativeCommand<S> {
    /// The native application over `service`, with its home directory.
    pub fn new(service: S, bodhi_home: String) -> (command: Self)
        ensures
            command.service == service,
            command.bodhi_home == bodhi_home,
    {
        NativeCommand { service, bodhi_home }
    }
}

/// The address of the homepage.
pub fn homepage(host: &str, port: u16) -> (url: String)
    ensures
        url@ == homepage_of(host@, port),
{
    let mut out = chars_of("http://");
    let host = chars_of(host);
    push_all(&mut out, &host);
    out.push(':');
    push_decimal(&mut out, port as u64);
    out.push('/');
    proof {
        reveal_strlit(":");
        reveal_strlit("/");
        assert(out@ =~= homepage_of(host@, port));
    }
    string_of(&out)
}

/// The action of a menu item.
pub fn tray_action(id: &str) -> (action: TrayAction)
    ensures
        action == tray_action_of(id@),
{
    if same_text(id, "homepage") {
        TrayAction::OpenHomepage
    } else if same_text(id, "quit") {
        TrayAction::Quit
    } else {
        TrayAction::Ignore
    }
}

/// The exit code after `quit`: 0 where the server's handle was there and
/// its shutdown went through, else 1.
pub fn quit_code(handle_present: bool, shutdown_ok: bool) -> (code: i32)
    ensures
        code == (if handle_present && shutdown_ok {
            0i32
        } else {
            1i32
        }),
{
    if handle_present && shutdown_ok {
        0
    } else {
        1
    }
}

} // verus!
