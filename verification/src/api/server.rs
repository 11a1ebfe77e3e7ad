//! The events of the HTTP server's poll loop, and what the loop does on each.

use vstd::prelude::*;

verus! {

/// The token of the event that tells the server to stop.
pub const EXIT_TOKEN: usize = usize::MAX;

/// The token of the event that tells the server that requests came in.
pub const REQUEST_TOKEN: usize = 1;

/// What the poll loop does on an event.
#[derive(Clone, Copy, Debug, PartialEq, Eq, Structural)]
pub enum ServerAction {
    /// Stop after the events of this round: tell the daemon, and leave.
    Exit,
    /// Take the requests that came in, serve each and send its response.
    ServeRequests,
}

/// What the poll loop does on the event with the token `token`; `None` for a
/// token that the server did not register.
pub fn server_action(token: usize) -> (r: Option<ServerAction>)
    ensures
        token == EXIT_TOKEN ==> r == Some(ServerAction::Exit),
        token == REQUEST_TOKEN ==> r == Some(ServerAction::ServeRequests),
        token != EXIT_TOKEN && token != REQUEST_TOKEN ==> r is None,
{
    if token == EXIT_TOKEN {
        Some(ServerAction::Exit)
    } else if token == REQUEST_TOKEN {
        Some(ServerAction::ServeRequests)
    } else {
        None
    }
}

} // verus!
