use vstd::prelude::*;
use crate::messages::SnapshotMarker;

verus! {

/// Why a wire record failed to decode. Each inbound operation reports one of
/// these instead of crashing on a malformed request.
#[derive(Clone, Copy, Debug, PartialEq, Eq, Structural)]
pub enum DecodeError {
    /// A required sub-message (a ballot, a sync item, a stop sign, a
    /// compaction payload) is absent.
    MissingField,
    /// A sync item is present but carries none of its variants.
    UnsetTag,
    /// A stop-sign metadata element does not fit in a byte.
    ByteOutOfRange,
}

/// Ballot as it travels on the wire: three scalar fields.
#[derive(Clone, Copy, Debug, PartialEq, Eq, Structural)]
pub struct WireBallot {
    pub n: u64,
    pub priority: u64,
    pub pid: u64,
}

/// Store command as it travels on the wire.
#[derive(Debug, PartialEq)]
pub struct WireStoreCommand {
    pub id: u64,
    pub sql: String,
}

impl DeepView for WireStoreCommand {
    type V = crate::messages::StoreCommandV;

    open spec fn deep_view(&self) -> crate::messages::StoreCommandV {
        crate::messages::StoreCommandV { id: self.id, sql: self.sql.deep_view() }
    }
}

/// Stop sign as it travels on the wire. The metadata bytes are carried as a
/// repeated small-integer field; decoding rejects an element above 255.
#[derive(Debug, PartialEq)]
pub struct WireStopSign {
    pub config_id: u64,
    pub nodes: Vec<u64>,
    pub metadata: Option<Vec<u32>>,
}

/// The tagged union inside a wire sync item. A sync item whose tag is unset
/// is a decode error, never a silent default.
#[derive(Debug, PartialEq)]
pub enum WireSyncChoice {
    Entries(Vec<WireStoreCommand>),
    Snapshot(SnapshotMarker),
    NoItem,
}

/// Log-sync item as it travels on the wire.
#[derive(Debug, PartialEq)]
pub struct WireSyncItem {
    pub item: Option<WireSyncChoice>,
}

/// The tagged union inside a wire compaction request; shared by the direct
/// and the forwarded variant of the request.
#[derive(Debug, PartialEq)]
pub enum WireCompactionChoice {
    Trim(u64),
    Snapshot(Vec<u8>),
}

/// Wire record of a `Prepare` message.
#[derive(Debug, PartialEq)]
pub struct WirePrepare {
    pub from: u64,
    pub to: u64,
    pub n: Option<WireBallot>,
    pub ld: u64,
    pub n_accepted: Option<WireBallot>,
    pub la: u64,
}

/// Wire record of a `Promise` message.
#[derive(Debug, PartialEq)]
pub struct WirePromise {
    pub from: u64,
    pub to: u64,
    pub n: Option<WireBallot>,
    pub n_accepted: Option<WireBallot>,
    pub sync_item: Option<WireSyncItem>,
    pub ld: u64,
    pub la: u64,
    pub stop_sign: Option<WireStopSign>,
}

/// Wire record of an `AcceptSync` message.
#[derive(Debug, PartialEq)]
pub struct WireAcceptSync {
    pub from: u64,
    pub to: u64,
    pub n: Option<WireBallot>,
    pub sync_item: Option<WireSyncItem>,
    pub sync_idx: u64,
    pub decide_idx: Option<u64>,
    pub stop_sign: Option<WireStopSign>,
}

/// Wire record of a `FirstAccept` message.
#[derive(Debug, PartialEq)]
pub struct WireFirstAccept {
    pub from: u64,
    pub to: u64,
    pub n: Option<WireBallot>,
    pub entries: Vec<WireStoreCommand>,
}

/// Wire record of an `AcceptDecide` message.
#[derive(Debug, PartialEq)]
pub struct WireAcceptDecide {
    pub from: u64,
    pub to: u64,
    pub n: Option<WireBallot>,
    pub ld: u64,
    pub entries: Vec<WireStoreCommand>,
}

/// Wire record of an `Accepted` message.
#[derive(Debug, PartialEq)]
pub struct WireAccepted {
    pub from: u64,
    pub to: u64,
    pub n: Option<WireBallot>,
    pub la: u64,
}

/// Wire record of a `Decide` message.
#[derive(Debug, PartialEq)]
pub struct WireDecide {
    pub from: u64,
    pub to: u64,
    pub n: Option<WireBallot>,
    pub ld: u64,
}

/// Wire record of a `ProposalForward` message.
#[derive(Debug, PartialEq)]
pub struct WireProposalForward {
    pub from: u64,
    pub to: u64,
    pub entries: Vec<WireStoreCommand>,
}

/// Wire record of a `Compaction` message.
#[derive(Debug, PartialEq)]
pub struct WireCompaction {
    pub from: u64,
    pub to: u64,
    pub compaction: Option<WireCompactionChoice>,
}

/// Wire record of a `ForwardCompaction` message.
#[derive(Debug, PartialEq)]
pub struct WireForwardCompaction {
    pub from: u64,
    pub to: u64,
    pub compaction: Option<WireCompactionChoice>,
}

/// Wire record of an `AcceptStopSign` message.
#[derive(Debug, PartialEq)]
pub struct WireAcceptStopSign {
    pub from: u64,
    pub to: u64,
    pub n: Option<WireBallot>,
    pub ss: Option<WireStopSign>,
}

/// Wire record of an `AcceptedStopSign` message.
#[derive(Debug, PartialEq)]
pub struct WireAcceptedStopSign {
    pub from: u64,
    pub to: u64,
    pub n: Option<WireBallot>,
}

/// Wire record of a `DecideStopSign` message.
#[derive(Debug, PartialEq)]
pub struct WireDecideStopSign {
    pub from: u64,
    pub to: u64,
    pub n: Option<WireBallot>,
}

/// Wire record of a `HeartbeatRequest` message.
#[derive(Clone, Copy, Debug, PartialEq, Eq, Structural)]
pub struct WireHeartbeatRequest {
    pub from: u64,
    pub to: u64,
    pub round: u64,
}

/// Wire record of a `HeartbeatReply` message.
#[derive(Clone, Copy, Debug, PartialEq, Eq, Structural)]
pub struct WireHeartbeatReply {
    pub from: u64,
    pub to: u64,
    pub round: u64,
    pub ballot: Option<WireBallot>,
    pub majority_connected: bool,
}

/// One outbound consensus call: which remote operation to invoke, with its
/// request record. Every `ConsensusMessage` variant has exactly one case.
#[derive(Debug, PartialEq)]
pub enum WireConsensusRequest {
    Prepare(WirePrepare),
    Promise(WirePromise),
    AcceptSync(WireAcceptSync),
    FirstAccept(WireFirstAccept),
    AcceptDecide(WireAcceptDecide),
    Accepted(WireAccepted),
    Decide(WireDecide),
    ProposalForward(WireProposalForward),
    Compaction(WireCompaction),
    ForwardCompaction(WireForwardCompaction),
    AcceptStopSign(WireAcceptStopSign),
    AcceptedStopSign(WireAcceptedStopSign),
    DecideStopSign(WireDecideStopSign),
}

/// One outbound election call.
#[derive(Clone, Copy, Debug, PartialEq, Eq, Structural)]
pub enum WireElectionRequest {
    HeartbeatRequest(WireHeartbeatRequest),
    HeartbeatReply(WireHeartbeatReply),
}

/// A client SQL statement, as the `execute` operation receives it.
#[derive(Debug, PartialEq)]
pub struct WireQuery {
    pub sql: String,
}

/// One row of an `execute` reply.
#[derive(Debug, PartialEq)]
pub struct WireQueryRow {
    pub values: Vec<String>,
}

/// Mathematical image of a `WireQueryRow`.
pub ghost struct WireQueryRowV {
    pub values: Seq<Seq<char>>,
}

impl DeepView for WireQueryRow {
    type V = WireQueryRowV;

    open spec fn deep_view(&self) -> WireQueryRowV {
        WireQueryRowV { values: self.values.deep_view() }
    }
}

/// The full reply of an `execute` operation.
#[derive(Debug, PartialEq)]
pub struct WireQueryResults {
    pub rows: Vec<WireQueryRow>,
}

impl DeepView for WireQueryResults {
    type V = Seq<WireQueryRowV>;

    open spec fn deep_view(&self) -> Seq<WireQueryRowV> {
        self.rows.deep_view()
    }
}

} // verus!
