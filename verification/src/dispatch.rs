//! What the background processes do with a command received on their socket.
use vstd::prelude::*;

use crate::types::Command;

verus! {

/// Something the clipboard service does for a command.
#[derive(Debug, Clone, Copy, PartialEq, Eq, Structural)]
pub enum ServiceAction {
    /// Put the entry with this id back on the clipboard.
    Restore(i64),
    /// Delete the whole history.
    ClearHistory,
    /// Flip the pin status of the entry with this id.
    TogglePin(i64),
}

/// The commands that the clipboard service carries out; it has no answer to
/// any other.
pub open spec fn service_handles(c: Command) -> bool {
    match c {
        Command::Copy(_) | Command::Clear | Command::TogglePin(_) => true,
        _ => false,
    }
}

/// What the clipboard service does for `cmd`, one of the commands it carries out.
pub fn handle_command(cmd: Command) -> (r: ServiceAction)
    requires
        service_handles(cmd),
    ensures
        r == match cmd {
            Command::Copy(id) => ServiceAction::Restore(id),
            Command::TogglePin(id) => ServiceAction::TogglePin(id),
            _ => ServiceAction::ClearHistory,
        },
{
    match cmd {
        Command::Copy(id) => ServiceAction::Restore(id),
        Command::TogglePin(id) => ServiceAction::TogglePin(id),
        _ => ServiceAction::ClearHistory,
    }
}

/// What the background watcher does for `cmd`: it restores an entry on `copy`
/// and ignores every other command.
pub fn background_action(cmd: Command) -> (r: Option<ServiceAction>)
    ensures
        r == match cmd {
            Command::Copy(id) => Some(ServiceAction::Restore(id)),
            _ => None,
        },
{
    match cmd {
        Command::Copy(id) => Some(ServiceAction::Restore(id)),
        _ => None,
    }
}

/// Something the command server does for a request.
#[derive(Debug, Clone, Copy, PartialEq, Eq, Structural)]
pub enum ServerAction {
    /// Answer with the pinned items.
    SendPinnedItems,
    /// Put the entry with this id back on the clipboard.
    CopyById(i64),
}

/// What the command server does for `cmd`: it lists the pinned items on `list`,
/// restores an entry on `copy`, and ignores every other command.
pub fn server_action(cmd: Command) -> (r: Option<ServerAction>)
    ensures
        r == match cmd {
            Command::List => Some(ServerAction::SendPinnedItems),
            Command::Copy(id) => Some(ServerAction::CopyById(id)),
            _ => None,
        },
{
    match cmd {
        Command::List => Some(ServerAction::SendPinnedItems),
        Command::Copy(id) => Some(ServerAction::CopyById(id)),
        _ => None,
    }
}

} // verus!
