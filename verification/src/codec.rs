use vstd::prelude::*;
use crate::messages::{
    Ballot, CompactionCommand, CompactionCommandV, ConsensusMessage, ConsensusMessageV, ElectionMessage,
    Envelope, EnvelopeV, LogSyncItem, LogSyncItemV, StopSign, StopSignV, StoreCommand, StoreCommandV,
};
use crate::wire::{
    DecodeError, WireAcceptDecide, WireAcceptStopSign, WireAcceptSync, WireAccepted,
    WireAcceptedStopSign, WireBallot, WireCompaction, WireCompactionChoice, WireConsensusRequest,
    WireDecide, WireDecideStopSign, WireElectionRequest, WireFirstAccept, WireForwardCompaction,
    WireHeartbeatReply,
    WireHeartbeatRequest, WirePrepare, WirePromise, WireProposalForward, WireStopSign,
    WireStoreCommand, WireSyncChoice, WireSyncItem,
};

verus! {

/// The image of a `Result` under deep views: `Ok` values are abstracted,
/// errors are carried as they are.
pub open spec fn res_view<T: DeepView, E>(r: Result<T, E>) -> Result<T::V, E> {
    match r {
        Ok(v) => Ok(v.deep_view()),
        Err(e) => Err(e),
    }
}

/// What a wire ballot denotes: the same three scalars, field for field.
pub open spec fn spec_ballot(b: WireBallot) -> Ballot {
    Ballot { n: b.n, priority: b.priority, pid: b.pid }
}

/// What a run of wire metadata elements denotes: the same bytes, unless some
/// element does not fit in a byte, which is a decode error — never a silent
/// truncation.
pub open spec fn spec_metadata_bytes(md: Seq<u32>) -> Result<Seq<u8>, DecodeError> {
    if forall|i: int| 0 <= i < md.len() ==> md[i] <= 255 {
        Ok(Seq::new(md.len(), |i: int| md[i] as u8))
    } else {
        Err(DecodeError::ByteOutOfRange)
    }
}

/// What a wire stop sign denotes.
pub open spec fn spec_decode_stop_sign(ss: WireStopSign) -> Result<StopSignV, DecodeError> {
    match ss.metadata {
        Option::None => Ok(
            StopSignV { config_id: ss.config_id, nodes: ss.nodes.deep_view(), metadata: Option::None },
        ),
        Option::Some(md) => match spec_metadata_bytes(md.deep_view()) {
            Ok(bytes) => Ok(
                StopSignV {
                    config_id: ss.config_id,
                    nodes: ss.nodes.deep_view(),
                    metadata: Option::Some(bytes),
                },
            ),
            Err(e) => Err(e),
        },
    }
}

/// What an optional wire stop sign denotes: absence is allowed and stays
/// absence; a present record must decode.
pub open spec fn spec_decode_opt_stop_sign(o: Option<WireStopSign>) -> Result<
    Option<StopSignV>,
    DecodeError,
> {
    match o {
        Option::None => Ok(Option::None),
        Option::Some(ss) => match spec_decode_stop_sign(ss) {
            Ok(v) => Ok(Option::Some(v)),
            Err(e) => Err(e),
        },
    }
}

/// What a wire sync item denotes. An item whose tag is unset is a decode
/// error, not a default.
pub open spec fn spec_decode_sync_item(si: WireSyncItem) -> Result<LogSyncItemV, DecodeError> {
    match si.item {
        Option::None => Err(DecodeError::UnsetTag),
        Option::Some(WireSyncChoice::Entries(cmds)) => Ok(LogSyncItemV::Entries(cmds.deep_view())),
        Option::Some(WireSyncChoice::Snapshot(m)) => Ok(LogSyncItemV::Snapshot(m)),
        Option::Some(WireSyncChoice::NoItem) => Ok(LogSyncItemV::NoItem),
    }
}

/// What an optional wire sync item denotes.
pub open spec fn spec_decode_opt_sync_item(o: Option<WireSyncItem>) -> Result<
    Option<LogSyncItemV>,
    DecodeError,
> {
    match o {
        Option::None => Ok(Option::None),
        Option::Some(si) => match spec_decode_sync_item(si) {
            Ok(v) => Ok(Option::Some(v)),
            Err(e) => Err(e),
        },
    }
}

/// What a wire compaction payload denotes; an absent payload is a decode
/// error.
pub open spec fn spec_decode_compaction(c: Option<WireCompactionChoice>) -> Result<
    CompactionCommandV,
    DecodeError,
> {
    match c {
        Option::None => Err(DecodeError::MissingField),
        Option::Some(WireCompactionChoice::Trim(idx)) => Ok(CompactionCommandV::Trim(idx)),
        Option::Some(WireCompactionChoice::Snapshot(bytes)) => Ok(
            CompactionCommandV::Snapshot(bytes.deep_view()),
        ),
    }
}

/// Converts a wire ballot to the engine's ballot, preserving every field.
pub fn ballot_from_proto(b: WireBallot) -> (r: Ballot)
    ensures
        r == spec_ballot(b),
{
    Ballot { n: b.n, priority: b.priority, pid: b.pid }
}

/// Converts the engine's ballot to its wire form; decoding it back yields the
/// original.
pub fn proto_from_ballot(b: Ballot) -> (r: WireBallot)
    ensures
        spec_ballot(r) == b,
{
    WireBallot { n: b.n, priority: b.priority, pid: b.pid }
}

/// Converts a wire store command to the engine's store command without loss.
pub fn store_command_from_proto(sc: WireStoreCommand) -> (r: StoreCommand)
    ensures
        r.deep_view() == sc.deep_view(),
{
    StoreCommand { id: sc.id, sql: sc.sql }
}

/// Converts the engine's store command to its wire form without loss.
pub fn proto_from_store_command(sc: StoreCommand) -> (r: WireStoreCommand)
    ensures
        r.deep_view() == sc.deep_view(),
{
    WireStoreCommand { id: sc.id, sql: sc.sql }
}

/// Converts a run of wire store commands, keeping length and order.
pub fn store_commands_from_proto(v: Vec<WireStoreCommand>) -> (r: Vec<StoreCommand>)
    ensures
        r.deep_view() == v.deep_view(),
{
    let ghost goal: Seq<StoreCommandV> = v.deep_view();
    let mut rest = v;
    let mut out: Vec<StoreCommand> = Vec::new();
    while rest.len() > 0
        invariant
            goal == out.deep_view() + rest.deep_view(),
        decreases rest.len(),
    {
        let ghost pre_rest = rest.deep_view();
        let ghost pre_out = out.deep_view();
        let sc = rest.remove(0);
        out.push(store_command_from_proto(sc));
        proof {
            assert(rest.deep_view() =~= pre_rest.subrange(1, pre_rest.len() as int));
            assert(out.deep_view() =~= pre_out.push(pre_rest[0]));
            assert(out.deep_view() + rest.deep_view() =~= pre_out + pre_rest);
        }
    }
    proof {
        assert(goal =~= out.deep_view());
    }
    out
}

/// Converts a run of the engine's store commands to wire form, keeping length
/// and order.
pub fn proto_from_store_commands(v: Vec<StoreCommand>) -> (r: Vec<WireStoreCommand>)
    ensures
        r.deep_view() == v.deep_view(),
{
    let ghost goal: Seq<StoreCommandV> = v.deep_view();
    let mut rest = v;
    let mut out: Vec<WireStoreCommand> = Vec::new();
    while rest.len() > 0
        invariant
            goal == out.deep_view() + rest.deep_view(),
        decreases rest.len(),
    {
        let ghost pre_rest = rest.deep_view();
        let ghost pre_out = out.deep_view();
        let sc = rest.remove(0);
        out.push(proto_from_store_command(sc));
        proof {
            assert(rest.deep_view() =~= pre_rest.subrange(1, pre_rest.len() as int));
            assert(out.deep_view() =~= pre_out.push(pre_rest[0]));
            assert(out.deep_view() + rest.deep_view() =~= pre_out + pre_rest);
        }
    }
    proof {
        assert(goal =~= out.deep_view());
    }
    out
}

/// Reads stop-sign metadata off the wire, rejecting any element that does not
/// fit in a byte.
pub fn metadata_from_proto(md: &Vec<u32>) -> (r: Result<Vec<u8>, DecodeError>)
    ensures
        res_view(r) == spec_metadata_bytes(md.deep_view()),
{
    let mut out: Vec<u8> = Vec::new();
    let mut i: usize = 0;
    while i < md.len()
        invariant
            i <= md.len(),
            out.len() == i,
            forall|j: int| 0 <= j < i ==> md@[j] <= 255,
            forall|j: int| 0 <= j < i ==> out@[j] == md@[j] as u8,
        decreases md.len() - i,
    {
        let v = md[i];
        if v > 255 {
            proof {
                assert(md.deep_view()[i as int] > 255);
            }
            return Err(DecodeError::ByteOutOfRange);
        }
        out.push(v as u8);
        i += 1;
        proof {
            assert forall|j: int| 0 <= j < i implies out@[j] == md@[j] as u8 by {
                if j == i - 1 {
                    assert(out@[j] == v as u8);
                }
            }
        }
    }
    proof {
        assert forall|j: int| 0 <= j < md.deep_view().len() implies md.deep_view()[j] <= 255 by {
            assert(md.deep_view()[j] == md@[j]);
        }
        assert(out.deep_view() =~= Seq::new(md.deep_view().len(), |j: int| md.deep_view()[j] as u8))
            by {
            assert forall|j: int| 0 <= j < out.deep_view().len() implies out.deep_view()[j] == md@[j]
                as u8 by {
                assert(out.deep_view()[j] == out@[j]);
            }
        }
    }
    Ok(out)
}

/// Writes stop-sign metadata in wire form; every element fits in a byte, so
/// decoding it back yields the original bytes.
pub fn proto_from_metadata(md: &Vec<u8>) -> (r: Vec<u32>)
    ensures
        spec_metadata_bytes(r.deep_view()) == Ok::<Seq<u8>, DecodeError>(md.deep_view()),
{
    let mut out: Vec<u32> = Vec::new();
    let mut i: usize = 0;
    while i < md.len()
        invariant
            i <= md.len(),
            out.len() == i,
            forall|j: int| 0 <= j < i ==> out@[j] == md@[j] as u32,
        decreases md.len() - i,
    {
        let v = md[i];
        out.push(v as u32);
        i += 1;
        proof {
            assert forall|j: int| 0 <= j < i implies out@[j] == md@[j] as u32 by {
                if j == i - 1 {
                    assert(out@[j] == v as u32);
                }
            }
        }
    }
    proof {
        assert forall|j: int| 0 <= j < out.deep_view().len() implies out.deep_view()[j] <= 255 by {
            assert(out.deep_view()[j] == out@[j]);
        }
        assert(md.deep_view() =~= Seq::new(out.deep_view().len(), |j: int| out.deep_view()[j] as u8))
            by {
            assert forall|j: int| 0 <= j < md.deep_view().len() implies md.deep_view()[j] == out@[j]
                as u8 by {
                assert(md.deep_view()[j] == md@[j]);
                assert(out.deep_view()[j] == out@[j]);
            }
        }
    }
    out
}

/// Decodes a wire stop sign, as the inbound operations need it.
pub fn stopsign_from_proto(ss: WireStopSign) -> (r: Result<StopSign, DecodeError>)
    ensures
        res_view(r) == spec_decode_stop_sign(ss),
{
    let WireStopSign { config_id, nodes, metadata } = ss;
    match metadata {
        None => Ok(StopSign { config_id, nodes, metadata: None }),
        Some(md) => match metadata_from_proto(&md) {
            Ok(bytes) => Ok(StopSign { config_id, nodes, metadata: Some(bytes) }),
            Err(e) => Err(e),
        },
    }
}

/// Encodes the engine's stop sign; decoding the record yields the original.
pub fn proto_from_stopsign(ss: StopSign) -> (r: WireStopSign)
    ensures
        spec_decode_stop_sign(r) == Ok::<StopSignV, DecodeError>(ss.deep_view()),
{
    let StopSign { config_id, nodes, metadata } = ss;
    match metadata {
        None => WireStopSign { config_id, nodes, metadata: None },
        Some(md) => {
            let wire_md = proto_from_metadata(&md);
            WireStopSign { config_id, nodes, metadata: Some(wire_md) }
        },
    }
}

/// Decodes a wire sync item; an unset tag is an error, never a default.
pub fn sync_item_from_proto(si: WireSyncItem) -> (r: Result<LogSyncItem, DecodeError>)
    ensures
        res_view(r) == spec_decode_sync_item(si),
{
    match si.item {
        None => Err(DecodeError::UnsetTag),
        Some(WireSyncChoice::Entries(cmds)) => Ok(LogSyncItem::Entries(store_commands_from_proto(cmds))),
        Some(WireSyncChoice::Snapshot(m)) => Ok(LogSyncItem::Snapshot(m)),
        Some(WireSyncChoice::NoItem) => Ok(LogSyncItem::NoItem),
    }
}

/// Encodes the engine's sync item; decoding the record yields the original.
pub fn proto_from_sync_item(si: LogSyncItem) -> (r: WireSyncItem)
    ensures
        spec_decode_sync_item(r) == Ok::<LogSyncItemV, DecodeError>(si.deep_view()),
{
    match si {
        LogSyncItem::Entries(es) => WireSyncItem {
            item: Some(WireSyncChoice::Entries(proto_from_store_commands(es))),
        },
        LogSyncItem::Snapshot(m) => WireSyncItem { item: Some(WireSyncChoice::Snapshot(m)) },
        LogSyncItem::NoItem => WireSyncItem { item: Some(WireSyncChoice::NoItem) },
    }
}

/// Decodes a wire compaction payload.
pub fn compaction_from_proto(c: Option<WireCompactionChoice>) -> (r: Result<
    CompactionCommand,
    DecodeError,
>)
    ensures
        res_view(r) == spec_decode_compaction(c),
{
    match c {
        None => Err(DecodeError::MissingField),
        Some(WireCompactionChoice::Trim(idx)) => Ok(CompactionCommand::Trim(idx)),
        Some(WireCompactionChoice::Snapshot(bytes)) => Ok(CompactionCommand::Snapshot(bytes)),
    }
}

/// Encodes the engine's compaction command; decoding the payload yields the
/// original.
pub fn proto_from_compaction(c: CompactionCommand) -> (r: Option<WireCompactionChoice>)
    ensures
        spec_decode_compaction(r) == Ok::<CompactionCommandV, DecodeError>(c.deep_view()),
{
    match c {
        CompactionCommand::Trim(idx) => Some(WireCompactionChoice::Trim(idx)),
        CompactionCommand::Snapshot(bytes) => Some(WireCompactionChoice::Snapshot(bytes)),
    }
}

/// What a `Prepare` wire record denotes: an envelope around the message, or
/// the exact error when a required ballot is absent.
pub open spec fn spec_decode_prepare(w: WirePrepare) -> Result<
    EnvelopeV<ConsensusMessageV>,
    DecodeError,
> {
    match (w.n, w.n_accepted) {
        (Option::Some(n), Option::Some(na)) => Ok(
            EnvelopeV {
                from: w.from,
                to: w.to,
                payload: ConsensusMessageV::Prepare {
                    n: spec_ballot(n),
                    ld: w.ld,
                    n_accepted: spec_ballot(na),
                    la: w.la,
                },
            },
        ),
        _ => Err(DecodeError::MissingField),
    }
}

/// What a `Promise` wire record denotes. The two ballots are required; the
/// sync item and the stop sign are optional but must decode when present.
pub open spec fn spec_decode_promise(w: WirePromise) -> Result<
    EnvelopeV<ConsensusMessageV>,
    DecodeError,
> {
    match (w.n, w.n_accepted) {
        (Option::Some(n), Option::Some(na)) => match spec_decode_opt_sync_item(w.sync_item) {
            Err(e) => Err(e),
            Ok(si) => match spec_decode_opt_stop_sign(w.stop_sign) {
                Err(e) => Err(e),
                Ok(ssn) => Ok(
                    EnvelopeV {
                        from: w.from,
                        to: w.to,
                        payload: ConsensusMessageV::Promise {
                            n: spec_ballot(n),
                            n_accepted: spec_ballot(na),
                            sync_item: si,
                            ld: w.ld,
                            la: w.la,
                            stopsign: ssn,
                        },
                    },
                ),
            },
        },
        _ => Err(DecodeError::MissingField),
    }
}

/// What an `AcceptSync` wire record denotes. The ballot and the sync item are
/// required; the stop sign is optional.
pub open spec fn spec_decode_accept_sync(w: WireAcceptSync) -> Result<
    EnvelopeV<ConsensusMessageV>,
    DecodeError,
> {
    match (w.n, w.sync_item) {
        (Option::Some(n), Option::Some(si)) => match spec_decode_sync_item(si) {
            Err(e) => Err(e),
            Ok(item) => match spec_decode_opt_stop_sign(w.stop_sign) {
                Err(e) => Err(e),
                Ok(ssn) => Ok(
                    EnvelopeV {
                        from: w.from,
                        to: w.to,
                        payload: ConsensusMessageV::AcceptSync {
                            n: spec_ballot(n),
                            sync_item: item,
                            sync_idx: w.sync_idx,
                            decide_idx: w.decide_idx,
                            stopsign: ssn,
                        },
                    },
                ),
            },
        },
        _ => Err(DecodeError::MissingField),
    }
}

/// What a `FirstAccept` wire record denotes.
pub open spec fn spec_decode_first_accept(w: WireFirstAccept) -> Result<
    EnvelopeV<ConsensusMessageV>,
    DecodeError,
> {
    match w.n {
        Option::Some(n) => Ok(
            EnvelopeV {
                from: w.from,
                to: w.to,
                payload: ConsensusMessageV::FirstAccept {
                    n: spec_ballot(n),
                    entries: w.entries.deep_view(),
                },
            },
        ),
        Option::None => Err(DecodeError::MissingField),
    }
}

/// What an `AcceptDecide` wire record denotes.
pub open spec fn spec_decode_accept_decide(w: WireAcceptDecide) -> Result<
    EnvelopeV<ConsensusMessageV>,
    DecodeError,
> {
    match w.n {
        Option::Some(n) => Ok(
            EnvelopeV {
                from: w.from,
                to: w.to,
                payload: ConsensusMessageV::AcceptDecide {
                    n: spec_ballot(n),
                    ld: w.ld,
                    entries: w.entries.deep_view(),
                },
            },
        ),
        Option::None => Err(DecodeError::MissingField),
    }
}

/// What an `Accepted` wire record denotes.
pub open spec fn spec_decode_accepted(w: WireAccepted) -> Result<
    EnvelopeV<ConsensusMessageV>,
    DecodeError,
> {
    match w.n {
        Option::Some(n) => Ok(
            EnvelopeV {
                from: w.from,
                to: w.to,
                payload: ConsensusMessageV::Accepted { n: spec_ballot(n), la: w.la },
            },
        ),
        Option::None => Err(DecodeError::MissingField),
    }
}

/// What a `Decide` wire record denotes.
pub open spec fn spec_decode_decide(w: WireDecide) -> Result<
    EnvelopeV<ConsensusMessageV>,
    DecodeError,
> {
    match w.n {
        Option::Some(n) => Ok(
            EnvelopeV {
                from: w.from,
                to: w.to,
                payload: ConsensusMessageV::Decide { n: spec_ballot(n), ld: w.ld },
            },
        ),
        Option::None => Err(DecodeError::MissingField),
    }
}

/// What a `ProposalForward` wire record denotes; it has no required
/// sub-message, so it always decodes.
pub open spec fn spec_decode_proposal_forward(w: WireProposalForward) -> Result<
    EnvelopeV<ConsensusMessageV>,
    DecodeError,
> {
    Ok(
        EnvelopeV {
            from: w.from,
            to: w.to,
            payload: ConsensusMessageV::ProposalForward { entries: w.entries.deep_view() },
        },
    )
}

/// What a `Compaction` wire record denotes.
pub open spec fn spec_decode_compaction_req(w: WireCompaction) -> Result<
    EnvelopeV<ConsensusMessageV>,
    DecodeError,
> {
    match spec_decode_compaction(w.compaction) {
        Err(e) => Err(e),
        Ok(cmd) => Ok(
            EnvelopeV {
                from: w.from,
                to: w.to,
                payload: ConsensusMessageV::Compaction { command: cmd },
            },
        ),
    }
}

/// What a `ForwardCompaction` wire record denotes.
pub open spec fn spec_decode_forward_compaction_req(w: WireForwardCompaction) -> Result<
    EnvelopeV<ConsensusMessageV>,
    DecodeError,
> {
    match spec_decode_compaction(w.compaction) {
        Err(e) => Err(e),
        Ok(cmd) => Ok(
            EnvelopeV {
                from: w.from,
                to: w.to,
                payload: ConsensusMessageV::ForwardCompaction { command: cmd },
            },
        ),
    }
}

/// What an `AcceptStopSign` wire record denotes. Both the ballot and the
/// stop sign are required.
pub open spec fn spec_decode_accept_stop_sign(w: WireAcceptStopSign) -> Result<
    EnvelopeV<ConsensusMessageV>,
    DecodeError,
> {
    match (w.n, w.ss) {
        (Option::Some(n), Option::Some(ss)) => match spec_decode_stop_sign(ss) {
            Err(e) => Err(e),
            Ok(ssv) => Ok(
                EnvelopeV {
                    from: w.from,
                    to: w.to,
                    payload: ConsensusMessageV::AcceptStopSign { n: spec_ballot(n), ss: ssv },
                },
            ),
        },
        _ => Err(DecodeError::MissingField),
    }
}

/// What an `AcceptedStopSign` wire record denotes.
pub open spec fn spec_decode_accepted_stop_sign(w: WireAcceptedStopSign) -> Result<
    EnvelopeV<ConsensusMessageV>,
    DecodeError,
> {
    match w.n {
        Option::Some(n) => Ok(
            EnvelopeV {
                from: w.from,
                to: w.to,
                payload: ConsensusMessageV::AcceptedStopSign { n: spec_ballot(n) },
            },
        ),
        Option::None => Err(DecodeError::MissingField),
    }
}

/// What a `DecideStopSign` wire record denotes.
pub open spec fn spec_decode_decide_stop_sign(w: WireDecideStopSign) -> Result<
    EnvelopeV<ConsensusMessageV>,
    DecodeError,
> {
    match w.n {
        Option::Some(n) => Ok(
            EnvelopeV {
                from: w.from,
                to: w.to,
                payload: ConsensusMessageV::DecideStopSign { n: spec_ballot(n) },
            },
        ),
        Option::None => Err(DecodeError::MissingField),
    }
}

/// What an outbound consensus call denotes, over every request kind: the
/// single meaning the codec is verified against in both directions.
pub open spec fn spec_decode_consensus(req: WireConsensusRequest) -> Result<
    EnvelopeV<ConsensusMessageV>,
    DecodeError,
> {
    match req {
        WireConsensusRequest::Prepare(w) => spec_decode_prepare(w),
        WireConsensusRequest::Promise(w) => spec_decode_promise(w),
        WireConsensusRequest::AcceptSync(w) => spec_decode_accept_sync(w),
        WireConsensusRequest::FirstAccept(w) => spec_decode_first_accept(w),
        WireConsensusRequest::AcceptDecide(w) => spec_decode_accept_decide(w),
        WireConsensusRequest::Accepted(w) => spec_decode_accepted(w),
        WireConsensusRequest::Decide(w) => spec_decode_decide(w),
        WireConsensusRequest::ProposalForward(w) => spec_decode_proposal_forward(w),
        WireConsensusRequest::Compaction(w) => spec_decode_compaction_req(w),
        WireConsensusRequest::ForwardCompaction(w) => spec_decode_forward_compaction_req(w),
        WireConsensusRequest::AcceptStopSign(w) => spec_decode_accept_stop_sign(w),
        WireConsensusRequest::AcceptedStopSign(w) => spec_decode_accepted_stop_sign(w),
        WireConsensusRequest::DecideStopSign(w) => spec_decode_decide_stop_sign(w),
    }
}

/// What a `HeartbeatRequest` wire record denotes; it always decodes.
pub open spec fn spec_decode_heartbeat_request(w: WireHeartbeatRequest) -> Result<
    EnvelopeV<ElectionMessage>,
    DecodeError,
> {
    Ok(
        EnvelopeV {
            from: w.from,
            to: w.to,
            payload: ElectionMessage::HeartbeatRequest { round: w.round },
        },
    )
}

/// What a `HeartbeatReply` wire record denotes; the ballot is required.
pub open spec fn spec_decode_heartbeat_reply(w: WireHeartbeatReply) -> Result<
    EnvelopeV<ElectionMessage>,
    DecodeError,
> {
    match w.ballot {
        Option::Some(b) => Ok(
            EnvelopeV {
                from: w.from,
                to: w.to,
                payload: ElectionMessage::HeartbeatReply {
                    round: w.round,
                    ballot: spec_ballot(b),
                    majority_connected: w.majority_connected,
                },
            },
        ),
        Option::None => Err(DecodeError::MissingField),
    }
}

/// What an outbound election call denotes.
pub open spec fn spec_decode_election(req: WireElectionRequest) -> Result<
    EnvelopeV<ElectionMessage>,
    DecodeError,
> {
    match req {
        WireElectionRequest::HeartbeatRequest(w) => spec_decode_heartbeat_request(w),
        WireElectionRequest::HeartbeatReply(w) => spec_decode_heartbeat_reply(w),
    }
}

/// Decodes a `Prepare` request, exactly as `spec_decode_prepare` says.
pub fn decode_prepare(w: WirePrepare) -> (r: Result<Envelope<ConsensusMessage>, DecodeError>)
    ensures
        res_view(r) == spec_decode_prepare(w),
{
    let (n, na) = match (w.n, w.n_accepted) {
        (Some(n), Some(na)) => (n, na),
        _ => { return Err(DecodeError::MissingField); },
    };
    Ok(
        Envelope {
            from: w.from,
            to: w.to,
            payload: ConsensusMessage::Prepare {
                n: ballot_from_proto(n),
                ld: w.ld,
                n_accepted: ballot_from_proto(na),
                la: w.la,
            },
        },
    )
}

/// Decodes a `Promise` request, exactly as `spec_decode_promise` says.
pub fn decode_promise(w: WirePromise) -> (r: Result<Envelope<ConsensusMessage>, DecodeError>)
    ensures
        res_view(r) == spec_decode_promise(w),
{
    let WirePromise { from, to, n, n_accepted, sync_item, ld, la, stop_sign } = w;
    let (n, na) = match (n, n_accepted) {
        (Some(n), Some(na)) => (n, na),
        _ => { return Err(DecodeError::MissingField); },
    };
    let sync_item = match sync_item {
        Some(si) => match sync_item_from_proto(si) {
            Ok(v) => Some(v),
            Err(e) => { return Err(e); },
        },
        None => None,
    };
    let stopsign = match stop_sign {
        Some(ss) => match stopsign_from_proto(ss) {
            Ok(v) => Some(v),
            Err(e) => { return Err(e); },
        },
        None => None,
    };
    Ok(
        Envelope {
            from,
            to,
            payload: ConsensusMessage::Promise {
                n: ballot_from_proto(n),
                n_accepted: ballot_from_proto(na),
                sync_item,
                ld,
                la,
                stopsign,
            },
        },
    )
}

/// Decodes an `AcceptSync` request, exactly as `spec_decode_accept_sync`
/// says.
pub fn decode_accept_sync(w: WireAcceptSync) -> (r: Result<Envelope<ConsensusMessage>, DecodeError>)
    ensures
        res_view(r) == spec_decode_accept_sync(w),
{
    let WireAcceptSync { from, to, n, sync_item, sync_idx, decide_idx, stop_sign } = w;
    let (n, si) = match (n, sync_item) {
        (Some(n), Some(si)) => (n, si),
        _ => { return Err(DecodeError::MissingField); },
    };
    let item = match sync_item_from_proto(si) {
        Ok(v) => v,
        Err(e) => { return Err(e); },
    };
    let stopsign = match stop_sign {
        Some(ss) => match stopsign_from_proto(ss) {
            Ok(v) => Some(v),
            Err(e) => { return Err(e); },
        },
        None => None,
    };
    Ok(
        Envelope {
            from,
            to,
            payload: ConsensusMessage::AcceptSync {
                n: ballot_from_proto(n),
                sync_item: item,
                sync_idx,
                decide_idx,
                stopsign,
            },
        },
    )
}

/// Decodes a `FirstAccept` request, exactly as `spec_decode_first_accept`
/// says.
pub fn decode_first_accept(w: WireFirstAccept) -> (r: Result<
    Envelope<ConsensusMessage>,
    DecodeError,
>)
    ensures
        res_view(r) == spec_decode_first_accept(w),
{
    let WireFirstAccept { from, to, n, entries } = w;
    let n = match n {
        Some(n) => n,
        None => { return Err(DecodeError::MissingField); },
    };
    Ok(
        Envelope {
            from,
            to,
            payload: ConsensusMessage::FirstAccept {
                n: ballot_from_proto(n),
                entries: store_commands_from_proto(entries),
            },
        },
    )
}

/// Decodes an `AcceptDecide` request, exactly as `spec_decode_accept_decide`
/// says.
pub fn decode_accept_decide(w: WireAcceptDecide) -> (r: Result<
    Envelope<ConsensusMessage>,
    DecodeError,
>)
    ensures
        res_view(r) == spec_decode_accept_decide(w),
{
    let WireAcceptDecide { from, to, n, ld, entries } = w;
    let n = match n {
        Some(n) => n,
        None => { return Err(DecodeError::MissingField); },
    };
    Ok(
        Envelope {
            from,
            to,
            payload: ConsensusMessage::AcceptDecide {
                n: ballot_from_proto(n),
                ld,
                entries: store_commands_from_proto(entries),
            },
        },
    )
}

/// Decodes an `Accepted` request, exactly as `spec_decode_accepted` says.
pub fn decode_accepted(w: WireAccepted) -> (r: Result<Envelope<ConsensusMessage>, DecodeError>)
    ensures
        res_view(r) == spec_decode_accepted(w),
{
    let n = match w.n {
        Some(n) => n,
        None => { return Err(DecodeError::MissingField); },
    };
    Ok(
        Envelope {
            from: w.from,
            to: w.to,
            payload: ConsensusMessage::Accepted { n: ballot_from_proto(n), la: w.la },
        },
    )
}

/// Decodes a `Decide` request, exactly as `spec_decode_decide` says.
pub fn decode_decide(w: WireDecide) -> (r: Result<Envelope<ConsensusMessage>, DecodeError>)
    ensures
        res_view(r) == spec_decode_decide(w),
{
    let n = match w.n {
        Some(n) => n,
        None => { return Err(DecodeError::MissingField); },
    };
    Ok(
        Envelope {
            from: w.from,
            to: w.to,
            payload: ConsensusMessage::Decide { n: ballot_from_proto(n), ld: w.ld },
        },
    )
}

/// Decodes a `ProposalForward` request; it has no failure case.
pub fn decode_proposal_forward(w: WireProposalForward) -> (r: Result<
    Envelope<ConsensusMessage>,
    DecodeError,
>)
    ensures
        res_view(r) == spec_decode_proposal_forward(w),
{
    let WireProposalForward { from, to, entries } = w;
    Ok(
        Envelope {
            from,
            to,
            payload: ConsensusMessage::ProposalForward {
                entries: store_commands_from_proto(entries),
            },
        },
    )
}

/// Decodes a `Compaction` request, exactly as `spec_decode_compaction_req`
/// says.
pub fn decode_compaction(w: WireCompaction) -> (r: Result<Envelope<ConsensusMessage>, DecodeError>)
    ensures
        res_view(r) == spec_decode_compaction_req(w),
{
    let WireCompaction { from, to, compaction } = w;
    let command = match compaction_from_proto(compaction) {
        Ok(v) => v,
        Err(e) => { return Err(e); },
    };
    Ok(Envelope { from, to, payload: ConsensusMessage::Compaction { command } })
}

/// Decodes a `ForwardCompaction` request, exactly as
/// `spec_decode_forward_compaction_req` says.
pub fn decode_forward_compaction(w: WireForwardCompaction) -> (r: Result<
    Envelope<ConsensusMessage>,
    DecodeError,
>)
    ensures
        res_view(r) == spec_decode_forward_compaction_req(w),
{
    let WireForwardCompaction { from, to, compaction } = w;
    let command = match compaction_from_proto(compaction) {
        Ok(v) => v,
        Err(e) => { return Err(e); },
    };
    Ok(Envelope { from, to, payload: ConsensusMessage::ForwardCompaction { command } })
}

/// Decodes an `AcceptStopSign` request, exactly as
/// `spec_decode_accept_stop_sign` says.
pub fn decode_accept_stop_sign(w: WireAcceptStopSign) -> (r: Result<
    Envelope<ConsensusMessage>,
    DecodeError,
>)
    ensures
        res_view(r) == spec_decode_accept_stop_sign(w),
{
    let WireAcceptStopSign { from, to, n, ss } = w;
    let (n, ss) = match (n, ss) {
        (Some(n), Some(ss)) => (n, ss),
        _ => { return Err(DecodeError::MissingField); },
    };
    let ss = match stopsign_from_proto(ss) {
        Ok(v) => v,
        Err(e) => { return Err(e); },
    };
    Ok(
        Envelope {
            from,
            to,
            payload: ConsensusMessage::AcceptStopSign { n: ballot_from_proto(n), ss },
        },
    )
}

/// Decodes an `AcceptedStopSign` request, exactly as
/// `spec_decode_accepted_stop_sign` says.
pub fn decode_accepted_stop_sign(w: WireAcceptedStopSign) -> (r: Result<
    Envelope<ConsensusMessage>,
    DecodeError,
>)
    ensures
        res_view(r) == spec_decode_accepted_stop_sign(w),
{
    let n = match w.n {
        Some(n) => n,
        None => { return Err(DecodeError::MissingField); },
    };
    Ok(
        Envelope {
            from: w.from,
            to: w.to,
            payload: ConsensusMessage::AcceptedStopSign { n: ballot_from_proto(n) },
        },
    )
}

/// Decodes a `DecideStopSign` request, exactly as
/// `spec_decode_decide_stop_sign` says.
pub fn decode_decide_stop_sign(w: WireDecideStopSign) -> (r: Result<
    Envelope<ConsensusMessage>,
    DecodeError,
>)
    ensures
        res_view(r) == spec_decode_decide_stop_sign(w),
{
    let n = match w.n {
        Some(n) => n,
        None => { return Err(DecodeError::MissingField); },
    };
    Ok(
        Envelope {
            from: w.from,
            to: w.to,
            payload: ConsensusMessage::DecideStopSign { n: ballot_from_proto(n) },
        },
    )
}

/// Decodes any consensus request, dispatching on its kind.
pub fn decode_consensus(req: WireConsensusRequest) -> (r: Result<
    Envelope<ConsensusMessage>,
    DecodeError,
>)
    ensures
        res_view(r) == spec_decode_consensus(req),
{
    match req {
        WireConsensusRequest::Prepare(w) => decode_prepare(w),
        WireConsensusRequest::Promise(w) => decode_promise(w),
        WireConsensusRequest::AcceptSync(w) => decode_accept_sync(w),
        WireConsensusRequest::FirstAccept(w) => decode_first_accept(w),
        WireConsensusRequest::AcceptDecide(w) => decode_accept_decide(w),
        WireConsensusRequest::Accepted(w) => decode_accepted(w),
        WireConsensusRequest::Decide(w) => decode_decide(w),
        WireConsensusRequest::ProposalForward(w) => decode_proposal_forward(w),
        WireConsensusRequest::Compaction(w) => decode_compaction(w),
        WireConsensusRequest::ForwardCompaction(w) => decode_forward_compaction(w),
        WireConsensusRequest::AcceptStopSign(w) => decode_accept_stop_sign(w),
        WireConsensusRequest::AcceptedStopSign(w) => decode_accepted_stop_sign(w),
        WireConsensusRequest::DecideStopSign(w) => decode_decide_stop_sign(w),
    }
}

/// Decodes a `HeartbeatRequest` request; it has no failure case.
pub fn decode_heartbeat_request(w: WireHeartbeatRequest) -> (r: Result<
    Envelope<ElectionMessage>,
    DecodeError,
>)
    ensures
        res_view(r) == spec_decode_heartbeat_request(w),
{
    Ok(
        Envelope {
            from: w.from,
            to: w.to,
            payload: ElectionMessage::HeartbeatRequest { round: w.round },
        },
    )
}

/// Decodes a `HeartbeatReply` request, exactly as
/// `spec_decode_heartbeat_reply` says.
pub fn decode_heartbeat_reply(w: WireHeartbeatReply) -> (r: Result<
    Envelope<ElectionMessage>,
    DecodeError,
>)
    ensures
        res_view(r) == spec_decode_heartbeat_reply(w),
{
    let b = match w.ballot {
        Some(b) => b,
        None => { return Err(DecodeError::MissingField); },
    };
    Ok(
        Envelope {
            from: w.from,
            to: w.to,
            payload: ElectionMessage::HeartbeatReply {
                round: w.round,
                ballot: ballot_from_proto(b),
                majority_connected: w.majority_connected,
            },
        },
    )
}

/// Decodes any election request, dispatching on its kind.
pub fn decode_election(req: WireElectionRequest) -> (r: Result<
    Envelope<ElectionMessage>,
    DecodeError,
>)
    ensures
        res_view(r) == spec_decode_election(req),
{
    match req {
        WireElectionRequest::HeartbeatRequest(w) => decode_heartbeat_request(w),
        WireElectionRequest::HeartbeatReply(w) => decode_heartbeat_reply(w),
    }
}

/// Encodes a consensus message for the peer `to`, with `from` as the sender.
/// Every message kind has its dispatch case, and the record decodes back to
/// exactly the envelope that was encoded: the round-trip law, stated for
/// every constructible message.
pub fn encode_consensus(from: u64, to: u64, msg: ConsensusMessage) -> (r: WireConsensusRequest)
    ensures
        spec_decode_consensus(r) == Ok::<EnvelopeV<ConsensusMessageV>, DecodeError>(
            EnvelopeV { from, to, payload: msg.deep_view() },
        ),
{
    match msg {
        ConsensusMessage::Prepare { n, ld, n_accepted, la } => WireConsensusRequest::Prepare(
            WirePrepare {
                from,
                to,
                n: Some(proto_from_ballot(n)),
                ld,
                n_accepted: Some(proto_from_ballot(n_accepted)),
                la,
            },
        ),
        ConsensusMessage::Promise { n, n_accepted, sync_item, ld, la, stopsign } => {
            let sync_item = match sync_item {
                Some(si) => Some(proto_from_sync_item(si)),
                None => None,
            };
            let stop_sign = match stopsign {
                Some(ss) => Some(proto_from_stopsign(ss)),
                None => None,
            };
            WireConsensusRequest::Promise(
                WirePromise {
                    from,
                    to,
                    n: Some(proto_from_ballot(n)),
                    n_accepted: Some(proto_from_ballot(n_accepted)),
                    sync_item,
                    ld,
                    la,
                    stop_sign,
                },
            )
        },
        ConsensusMessage::AcceptSync { n, sync_item, sync_idx, decide_idx, stopsign } => {
            let stop_sign = match stopsign {
                Some(ss) => Some(proto_from_stopsign(ss)),
                None => None,
            };
            WireConsensusRequest::AcceptSync(
                WireAcceptSync {
                    from,
                    to,
                    n: Some(proto_from_ballot(n)),
                    sync_item: Some(proto_from_sync_item(sync_item)),
                    sync_idx,
                    decide_idx,
                    stop_sign,
                },
            )
        },
        ConsensusMessage::FirstAccept { n, entries } => WireConsensusRequest::FirstAccept(
            WireFirstAccept {
                from,
                to,
                n: Some(proto_from_ballot(n)),
                entries: proto_from_store_commands(entries),
            },
        ),
        ConsensusMessage::AcceptDecide { n, ld, entries } => WireConsensusRequest::AcceptDecide(
            WireAcceptDecide {
                from,
                to,
                n: Some(proto_from_ballot(n)),
                ld,
                entries: proto_from_store_commands(entries),
            },
        ),
        ConsensusMessage::Accepted { n, la } => WireConsensusRequest::Accepted(
            WireAccepted { from, to, n: Some(proto_from_ballot(n)), la },
        ),
        ConsensusMessage::Decide { n, ld } => WireConsensusRequest::Decide(
            WireDecide { from, to, n: Some(proto_from_ballot(n)), ld },
        ),
        ConsensusMessage::ProposalForward { entries } => WireConsensusRequest::ProposalForward(
            WireProposalForward { from, to, entries: proto_from_store_commands(entries) },
        ),
        ConsensusMessage::Compaction { command } => WireConsensusRequest::Compaction(
            WireCompaction { from, to, compaction: proto_from_compaction(command) },
        ),
        ConsensusMessage::ForwardCompaction { command } => WireConsensusRequest::ForwardCompaction(
            WireForwardCompaction { from, to, compaction: proto_from_compaction(command) },
        ),
        ConsensusMessage::AcceptStopSign { n, ss } => WireConsensusRequest::AcceptStopSign(
            WireAcceptStopSign {
                from,
                to,
                n: Some(proto_from_ballot(n)),
                ss: Some(proto_from_stopsign(ss)),
            },
        ),
        ConsensusMessage::AcceptedStopSign { n } => WireConsensusRequest::AcceptedStopSign(
            WireAcceptedStopSign { from, to, n: Some(proto_from_ballot(n)) },
        ),
        ConsensusMessage::DecideStopSign { n } => WireConsensusRequest::DecideStopSign(
            WireDecideStopSign { from, to, n: Some(proto_from_ballot(n)) },
        ),
    }
}

/// Encodes an election message for the peer `to`; the record decodes back to
/// exactly the envelope that was encoded.
pub fn encode_election(from: u64, to: u64, msg: ElectionMessage) -> (r: WireElectionRequest)
    ensures
        spec_decode_election(r) == Ok::<EnvelopeV<ElectionMessage>, DecodeError>(
            EnvelopeV { from, to, payload: msg },
        ),
{
    match msg {
        ElectionMessage::HeartbeatRequest { round } => WireElectionRequest::HeartbeatRequest(
            WireHeartbeatRequest { from, to, round },
        ),
        ElectionMessage::HeartbeatReply { round, ballot, majority_connected } =>
            WireElectionRequest::HeartbeatReply(
            WireHeartbeatReply {
                from,
                to,
                round,
                ballot: Some(proto_from_ballot(ballot)),
                majority_connected,
            },
        ),
    }
}

} // verus!
