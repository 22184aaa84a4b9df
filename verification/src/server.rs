//! The server's decisions on the commands that a client sends: which change
//! of the map a command asks for, and who is told of its outcome.
use vstd::prelude::*;

verus! {

/// A command of the editing protocol; each carries the object it is about as
/// JSON text.
#[derive(Debug, Clone)]
pub enum Command {
    PlaceBlock(String),
    RemoveBlock(String),
    PlaceFreeBlock(String),
    RemoveFreeBlock(String),
    PlaceItem(String),
    RemoveItem(String),
}

/// The outcome of placing a block on the server's map.
#[derive(Debug, Clone, Copy, PartialEq, Eq)]
pub enum PlaceBlockResult {
    /// The block was placed.
    Success,
    /// The block cannot be placed there.
    Failed,
    /// The same block is already there.
    Occupied,
}

/// The change of the map that a command asks for.
#[derive(Debug, Clone, Copy, PartialEq, Eq)]
pub enum MapRequest {
    PlaceBlock,
    RemoveBlock,
    /// The command changes nothing on the server's map.
    Nothing,
}

/// What the map did with a request.
#[derive(Debug, Clone, Copy, PartialEq, Eq)]
pub enum MapOutcome {
    Placed(PlaceBlockResult),
    /// Whether the block was there and was removed.
    Removed(bool),
    Unchanged,
}

/// Who is told what after a command.
#[derive(Debug, Clone)]
pub enum Reply {
    /// The command's frame goes to every connected client.
    Broadcast,
    /// The command goes back to the client that sent it, and to no other.
    Respond(Command),
    /// Nobody is told anything.
    Silent,
}

/// The change of the map that `command` asks for: blocks are placed and
/// removed; free blocks and items change nothing.
pub fn map_request(command: &Command) -> (r: MapRequest)
    ensures
        r == match command {
            Command::PlaceBlock(_) => MapRequest::PlaceBlock,
            Command::RemoveBlock(_) => MapRequest::RemoveBlock,
            _ => MapRequest::Nothing,
        },
{
    match command {
        Command::PlaceBlock(_) => MapRequest::PlaceBlock,
        Command::RemoveBlock(_) => MapRequest::RemoveBlock,
        _ => MapRequest::Nothing,
    }
}

/// The reply to `command` given what the map did: a placed block and a
/// removed block are broadcast; a block that cannot be placed is answered to
/// its sender with the removal of the same block (the same JSON text); an
/// occupied place, a block that was not there, and every other command get
/// no reply.
pub fn reply(command: &Command, outcome: MapOutcome) -> (r: Reply)
    ensures
        match (command, outcome) {
            (Command::PlaceBlock(json), MapOutcome::Placed(PlaceBlockResult::Success)) => r is Broadcast,
            (Command::PlaceBlock(json), MapOutcome::Placed(PlaceBlockResult::Failed)) => (r matches Reply::Respond(
                Command::RemoveBlock(back),
            ) && back@ == json@),
            (Command::RemoveBlock(_), MapOutcome::Removed(true)) => r is Broadcast,
            _ => r is Silent,
        },
{
    match (command, outcome) {
        (Command::PlaceBlock(json), MapOutcome::Placed(PlaceBlockResult::Success)) => Reply::Broadcast,
        (Command::PlaceBlock(json), MapOutcome::Placed(PlaceBlockResult::Failed)) => {
            Reply::Respond(Command::RemoveBlock(json.clone()))
        },
        (Command::RemoveBlock(_), MapOutcome::Removed(true)) => Reply::Broadcast,
        _ => Reply::Silent,
    }
}

} // verus!
