use chiselstore::codec::{
    ballot_from_proto, decode_consensus, decode_election, decode_prepare, encode_consensus,
    encode_election, proto_from_ballot, proto_from_stopsign, proto_from_sync_item,
    store_command_from_proto, stopsign_from_proto, sync_item_from_proto,
};
use chiselstore::messages::{
    Ballot, CompactionCommand, ConsensusMessage, ElectionMessage, LogSyncItem, SnapshotMarker,
    StopSign, StoreCommand,
};
use chiselstore::wire::{
    DecodeError, WireBallot, WirePrepare, WireStopSign, WireStoreCommand, WireSyncChoice,
    WireSyncItem,
};

fn ballot(n: u64, priority: u64, pid: u64) -> Ballot {
    Ballot { n, priority, pid }
}

fn command(id: u64, sql: &str) -> StoreCommand {
    StoreCommand { id, sql: String::from(sql) }
}

fn round_trip(from: u64, to: u64, msg: ConsensusMessage) -> (u64, u64, ConsensusMessage) {
    let req = encode_consensus(from, to, msg);
    let env = decode_consensus(req).expect("a freshly encoded request must decode");
    (env.from, env.to, env.payload)
}

#[test]
fn prepare_round_trip_exact() {
    let msg = ConsensusMessage::Prepare {
        n: ballot(2, 0, 1),
        ld: 5,
        n_accepted: ballot(1, 0, 1),
        la: 5,
    };
    let (from, to, payload) = round_trip(1, 2, msg);
    assert_eq!(from, 1);
    assert_eq!(to, 2);
    assert_eq!(
        payload,
        ConsensusMessage::Prepare {
            n: ballot(2, 0, 1),
            ld: 5,
            n_accepted: ballot(1, 0, 1),
            la: 5,
        }
    );
}

#[test]
fn sync_item_entries_round_trip_keeps_order() {
    let item = LogSyncItem::Entries(vec![
        command(1, "INSERT INTO t VALUES (1)"),
        command(2, "UPDATE t SET x = 2"),
    ]);
    let wire = proto_from_sync_item(item);
    let back = sync_item_from_proto(wire).expect("entries must decode");
    match back {
        LogSyncItem::Entries(es) => {
            assert_eq!(es.len(), 2);
            assert_eq!(es[0], command(1, "INSERT INTO t VALUES (1)"));
            assert_eq!(es[1], command(2, "UPDATE t SET x = 2"));
        },
        other => panic!("expected entries, got {:?}", other),
    }
}

#[test]
fn sync_item_none_variant_round_trips() {
    let wire = proto_from_sync_item(LogSyncItem::NoItem);
    assert_eq!(sync_item_from_proto(wire), Ok(LogSyncItem::NoItem));
}

#[test]
fn sync_item_snapshot_round_trips() {
    let wire = proto_from_sync_item(LogSyncItem::Snapshot(SnapshotMarker::Delta));
    assert_eq!(
        sync_item_from_proto(wire),
        Ok(LogSyncItem::Snapshot(SnapshotMarker::Delta))
    );
}

#[test]
fn sync_item_unset_tag_is_a_decode_error() {
    let wire = WireSyncItem { item: None };
    assert_eq!(sync_item_from_proto(wire), Err(DecodeError::UnsetTag));
}

#[test]
fn stop_sign_metadata_round_trips_byte_for_byte() {
    let ss = StopSign { config_id: 7, nodes: vec![1, 2, 3], metadata: Some(vec![9, 8, 7]) };
    let msg = ConsensusMessage::AcceptStopSign { n: ballot(3, 1, 2), ss };
    let (_, _, payload) = round_trip(2, 3, msg);
    match payload {
        ConsensusMessage::AcceptStopSign { n, ss } => {
            assert_eq!(n, ballot(3, 1, 2));
            assert_eq!(ss.config_id, 7);
            assert_eq!(ss.nodes, vec![1, 2, 3]);
            assert_eq!(ss.metadata, Some(vec![9, 8, 7]));
        },
        other => panic!("expected accept stop sign, got {:?}", other),
    }
}

#[test]
fn stop_sign_without_metadata_round_trips() {
    let ss = StopSign { config_id: 1, nodes: vec![4, 5], metadata: None };
    let wire = proto_from_stopsign(ss);
    let back = stopsign_from_proto(wire).expect("a freshly encoded stop sign must decode");
    assert_eq!(back, StopSign { config_id: 1, nodes: vec![4, 5], metadata: None });
}

#[test]
fn stop_sign_metadata_element_above_byte_range_is_rejected() {
    let wire = WireStopSign { config_id: 1, nodes: vec![1], metadata: Some(vec![9, 256, 7]) };
    assert_eq!(stopsign_from_proto(wire), Err(DecodeError::ByteOutOfRange));
}

#[test]
fn promise_with_every_optional_part_round_trips() {
    let msg = ConsensusMessage::Promise {
        n: ballot(4, 2, 3),
        n_accepted: ballot(3, 2, 1),
        sync_item: Some(LogSyncItem::Entries(vec![command(9, "DELETE FROM t")])),
        ld: 11,
        la: 13,
        stopsign: Some(StopSign { config_id: 2, nodes: vec![1, 2], metadata: Some(vec![0, 255]) }),
    };
    let (from, to, payload) = round_trip(3, 1, msg);
    assert_eq!((from, to), (3, 1));
    match payload {
        ConsensusMessage::Promise { n, n_accepted, sync_item, ld, la, stopsign } => {
            assert_eq!(n, ballot(4, 2, 3));
            assert_eq!(n_accepted, ballot(3, 2, 1));
            assert_eq!(
                sync_item,
                Some(LogSyncItem::Entries(vec![command(9, "DELETE FROM t")]))
            );
            assert_eq!(ld, 11);
            assert_eq!(la, 13);
            assert_eq!(
                stopsign,
                Some(StopSign { config_id: 2, nodes: vec![1, 2], metadata: Some(vec![0, 255]) })
            );
        },
        other => panic!("expected promise, got {:?}", other),
    }
}

#[test]
fn promise_with_nothing_optional_round_trips() {
    let msg = ConsensusMessage::Promise {
        n: ballot(0, 0, 0),
        n_accepted: ballot(0, 0, 0),
        sync_item: None,
        ld: 0,
        la: 0,
        stopsign: None,
    };
    let (_, _, payload) = round_trip(0, 0, msg);
    assert_eq!(
        payload,
        ConsensusMessage::Promise {
            n: ballot(0, 0, 0),
            n_accepted: ballot(0, 0, 0),
            sync_item: None,
            ld: 0,
            la: 0,
            stopsign: None,
        }
    );
}

#[test]
fn accept_sync_round_trips() {
    let msg = ConsensusMessage::AcceptSync {
        n: ballot(5, 0, 2),
        sync_item: LogSyncItem::Snapshot(SnapshotMarker::Complete),
        sync_idx: 42,
        decide_idx: Some(40),
        stopsign: None,
    };
    let (_, _, payload) = round_trip(2, 1, msg);
    assert_eq!(
        payload,
        ConsensusMessage::AcceptSync {
            n: ballot(5, 0, 2),
            sync_item: LogSyncItem::Snapshot(SnapshotMarker::Complete),
            sync_idx: 42,
            decide_idx: Some(40),
            stopsign: None,
        }
    );
}

#[test]
fn first_accept_with_empty_entries_round_trips() {
    let msg = ConsensusMessage::FirstAccept { n: ballot(1, 0, 1), entries: vec![] };
    let (_, _, payload) = round_trip(1, 3, msg);
    assert_eq!(
        payload,
        ConsensusMessage::FirstAccept { n: ballot(1, 0, 1), entries: vec![] }
    );
}

#[test]
fn accept_decide_round_trips() {
    let msg = ConsensusMessage::AcceptDecide {
        n: ballot(2, 1, 1),
        ld: 8,
        entries: vec![command(3, "SELECT 1")],
    };
    let (_, _, payload) = round_trip(1, 2, msg);
    assert_eq!(
        payload,
        ConsensusMessage::AcceptDecide {
            n: ballot(2, 1, 1),
            ld: 8,
            entries: vec![command(3, "SELECT 1")],
        }
    );
}

#[test]
fn accepted_and_decide_round_trip() {
    let (_, _, first) = round_trip(1, 2, ConsensusMessage::Accepted { n: ballot(2, 0, 1), la: 9 });
    assert_eq!(first, ConsensusMessage::Accepted { n: ballot(2, 0, 1), la: 9 });
    let (_, _, second) = round_trip(2, 1, ConsensusMessage::Decide { n: ballot(2, 0, 1), ld: 9 });
    assert_eq!(second, ConsensusMessage::Decide { n: ballot(2, 0, 1), ld: 9 });
}

#[test]
fn proposal_forward_round_trips() {
    let msg = ConsensusMessage::ProposalForward {
        entries: vec![command(1, "INSERT INTO t VALUES (1)"), command(2, "SELECT 2")],
    };
    let (_, _, payload) = round_trip(3, 1, msg);
    assert_eq!(
        payload,
        ConsensusMessage::ProposalForward {
            entries: vec![command(1, "INSERT INTO t VALUES (1)"), command(2, "SELECT 2")],
        }
    );
}

#[test]
fn compaction_round_trips_both_ways() {
    let (_, _, first) = round_trip(
        1,
        2,
        ConsensusMessage::Compaction { command: CompactionCommand::Trim(17) },
    );
    assert_eq!(first, ConsensusMessage::Compaction { command: CompactionCommand::Trim(17) });
    let (_, _, second) = round_trip(
        1,
        2,
        ConsensusMessage::ForwardCompaction {
            command: CompactionCommand::Snapshot(vec![1, 2, 3, 255]),
        },
    );
    assert_eq!(
        second,
        ConsensusMessage::ForwardCompaction {
            command: CompactionCommand::Snapshot(vec![1, 2, 3, 255]),
        }
    );
}

#[test]
fn stop_sign_phase_messages_round_trip() {
    let (_, _, first) = round_trip(1, 2, ConsensusMessage::AcceptedStopSign { n: ballot(6, 0, 3) });
    assert_eq!(first, ConsensusMessage::AcceptedStopSign { n: ballot(6, 0, 3) });
    let (_, _, second) = round_trip(2, 3, ConsensusMessage::DecideStopSign { n: ballot(6, 0, 3) });
    assert_eq!(second, ConsensusMessage::DecideStopSign { n: ballot(6, 0, 3) });
}

#[test]
fn election_messages_round_trip() {
    let req = encode_election(1, 2, ElectionMessage::HeartbeatRequest { round: 3 });
    let env = decode_election(req).expect("heartbeat request must decode");
    assert_eq!((env.from, env.to), (1, 2));
    assert_eq!(env.payload, ElectionMessage::HeartbeatRequest { round: 3 });

    let reply = ElectionMessage::HeartbeatReply {
        round: 3,
        ballot: ballot(2, 1, 1),
        majority_connected: true,
    };
    let req = encode_election(2, 1, reply);
    let env = decode_election(req).expect("heartbeat reply must decode");
    assert_eq!((env.from, env.to), (2, 1));
    assert_eq!(env.payload, reply);
}

#[test]
fn missing_ballot_is_a_missing_field_error() {
    let wire = WirePrepare { from: 1, to: 2, n: None, ld: 0, n_accepted: None, la: 0 };
    assert_eq!(decode_prepare(wire), Err(DecodeError::MissingField));
}

#[test]
fn decode_error_leaves_later_calls_untouched() {
    let malformed = WirePrepare {
        from: 1,
        to: 2,
        n: Some(WireBallot { n: 2, priority: 0, pid: 1 }),
        ld: 5,
        n_accepted: None,
        la: 5,
    };
    assert_eq!(decode_prepare(malformed), Err(DecodeError::MissingField));

    let well_formed = WirePrepare {
        from: 1,
        to: 2,
        n: Some(WireBallot { n: 2, priority: 0, pid: 1 }),
        ld: 5,
        n_accepted: Some(WireBallot { n: 1, priority: 0, pid: 1 }),
        la: 5,
    };
    let env = decode_prepare(well_formed).expect("the same kind must still decode");
    assert_eq!(
        env.payload,
        ConsensusMessage::Prepare {
            n: ballot(2, 0, 1),
            ld: 5,
            n_accepted: ballot(1, 0, 1),
            la: 5,
        }
    );
}

#[test]
fn ballot_conversions_preserve_every_field() {
    let w = proto_from_ballot(ballot(9, 8, 7));
    assert_eq!(w, WireBallot { n: 9, priority: 8, pid: 7 });
    assert_eq!(ballot_from_proto(w), ballot(9, 8, 7));
}

#[test]
fn store_command_from_proto_preserves_id_and_sql() {
    let sc = store_command_from_proto(WireStoreCommand {
        id: 4,
        sql: String::from("SELECT 1"),
    });
    assert_eq!(sc, command(4, "SELECT 1"));
}

#[test]
fn sync_item_entries_with_bad_nested_choice_survive() {
    let wire = WireSyncItem {
        item: Some(WireSyncChoice::Entries(vec![WireStoreCommand {
            id: 1,
            sql: String::from("INSERT INTO t VALUES (1)"),
        }])),
    };
    let back = sync_item_from_proto(wire).expect("entries must decode");
    assert_eq!(back, LogSyncItem::Entries(vec![command(1, "INSERT INTO t VALUES (1)")]));
}
