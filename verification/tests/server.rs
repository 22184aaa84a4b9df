use sync_edit::server::{map_request, reply, Command, MapOutcome, MapRequest, PlaceBlockResult, Reply};

#[test]
fn commands_map_to_requests() {
    assert_eq!(map_request(&Command::PlaceBlock("{}".to_string())), MapRequest::PlaceBlock);
    assert_eq!(map_request(&Command::RemoveBlock("{}".to_string())), MapRequest::RemoveBlock);
    assert_eq!(map_request(&Command::PlaceItem("{}".to_string())), MapRequest::Nothing);
    assert_eq!(map_request(&Command::RemoveFreeBlock("{}".to_string())), MapRequest::Nothing);
}

#[test]
fn placed_blocks_are_broadcast() {
    let cmd = Command::PlaceBlock("{\"x\":1}".to_string());
    assert!(matches!(reply(&cmd, MapOutcome::Placed(PlaceBlockResult::Success)), Reply::Broadcast));
    assert!(matches!(reply(&cmd, MapOutcome::Placed(PlaceBlockResult::Occupied)), Reply::Silent));
}

#[test]
fn refused_blocks_are_taken_back_from_the_sender() {
    let cmd = Command::PlaceBlock("{\"x\":1}".to_string());
    match reply(&cmd, MapOutcome::Placed(PlaceBlockResult::Failed)) {
        Reply::Respond(Command::RemoveBlock(json)) => assert_eq!(json, "{\"x\":1}"),
        other => panic!("unexpected {other:?}"),
    }
}

#[test]
fn removals_and_other_commands() {
    let cmd = Command::RemoveBlock("b".to_string());
    assert!(matches!(reply(&cmd, MapOutcome::Removed(true)), Reply::Broadcast));
    assert!(matches!(reply(&cmd, MapOutcome::Removed(false)), Reply::Silent));
    assert!(matches!(reply(&Command::PlaceItem("i".to_string()), MapOutcome::Unchanged), Reply::Silent));
}
