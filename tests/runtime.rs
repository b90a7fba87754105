use beatlocker::runtime::{reply_for, Admission, CommandKind, RuntimeControl, RuntimeState, TaskReply};

#[test]
fn mod_can_spawn_task_and_shutdown() {
    let mut mgr = RuntimeControl::new();
    mgr.start();
    assert_eq!(mgr.submit(), Admission::Accepted);
    let reply = mgr.complete(CommandKind::Ping, "");
    assert!(matches!(reply, TaskReply::Pong));
    mgr.request_shutdown();
    assert_eq!(mgr.state, RuntimeState::ShuttingDown);
    assert!(mgr.finish_shutdown());
    assert_eq!(mgr.submit(), Admission::Rejected);
}

#[test]
fn shutdown_waits_for_in_flight_commands() {
    let mut mgr = RuntimeControl::new();
    assert_eq!(mgr.submit(), Admission::Rejected);
    mgr.start();
    assert_eq!(mgr.submit(), Admission::Accepted);
    assert_eq!(mgr.submit(), Admission::Accepted);
    assert_eq!(mgr.in_flight, 2);
    mgr.request_shutdown();
    assert_eq!(mgr.submit(), Admission::Rejected);
    assert!(!mgr.finish_shutdown());
    mgr.complete(CommandKind::RemoveDeletedFiles, "");
    assert!(!mgr.finish_shutdown());
    let reply = mgr.complete(CommandKind::ImportFolder, "music/a");
    assert!(matches!(reply, TaskReply::ImportFolder(ref f) if f == "music/a"));
    assert!(mgr.finish_shutdown());
    assert_eq!(mgr.state, RuntimeState::Stopped);
}

#[test]
fn every_command_gets_its_reply() {
    assert!(matches!(reply_for(CommandKind::ImportExternalMetadata, ""), TaskReply::ImportExternalMetadata));
    assert!(matches!(reply_for(CommandKind::OptimizeDatabase, ""), TaskReply::OptimizeDatabase));
    assert!(matches!(reply_for(CommandKind::RemoveDeletedFiles, ""), TaskReply::RemoveDeletedFiles));
}
