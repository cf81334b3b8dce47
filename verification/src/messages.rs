use vstd::prelude::*;

verus! {

/// A ballot: the totally ordered token the engine uses to establish
/// leadership recency. The order is lexicographic on `(n, priority, pid)`;
/// the transport never compares ballots, it only carries every field exactly.
#[derive(Clone, Copy, Debug, PartialEq, Eq, Structural)]
pub struct Ballot {
    pub n: u64,
    pub priority: u64,
    pub pid: u64,
}

/// One unit of replicated work: an SQL statement together with its identity.
#[derive(Debug, PartialEq)]
pub struct StoreCommand {
    pub id: u64,
    pub sql: String,
}

/// Mathematical image of a `StoreCommand`.
pub ghost struct StoreCommandV {
    pub id: u64,
    pub sql: Seq<char>,
}

impl DeepView for StoreCommand {
    type V = StoreCommandV;

    open spec fn deep_view(&self) -> StoreCommandV {
        StoreCommandV { id: self.id, sql: self.sql.deep_view() }
    }
}

/// Which kind of snapshot a log-sync item announces.
#[derive(Clone, Copy, Debug, PartialEq, Eq, Structural)]
pub enum SnapshotMarker {
    Delta,
    Complete,
}

/// What a leader sends a lagging follower to bring its log up to date:
/// a run of entries, a snapshot marker, or nothing. Exactly one variant is
/// active; a wire record that carries none of them is a decode error.
#[derive(Debug, PartialEq)]
pub enum LogSyncItem {
    Entries(Vec<StoreCommand>),
    Snapshot(SnapshotMarker),
    NoItem,
}

/// Mathematical image of a `LogSyncItem`.
pub ghost enum LogSyncItemV {
    Entries(Seq<StoreCommandV>),
    Snapshot(SnapshotMarker),
    NoItem,
}

impl DeepView for LogSyncItem {
    type V = LogSyncItemV;

    open spec fn deep_view(&self) -> LogSyncItemV {
        match self {
            LogSyncItem::Entries(es) => LogSyncItemV::Entries(es.deep_view()),
            LogSyncItem::Snapshot(m) => LogSyncItemV::Snapshot(*m),
            LogSyncItem::NoItem => LogSyncItemV::NoItem,
        }
    }
}

/// The marker entry that closes the current cluster configuration and
/// announces a pending reconfiguration. `metadata` round-trips byte for byte.
#[derive(Debug, PartialEq)]
pub struct StopSign {
    pub config_id: u64,
    pub nodes: Vec<u64>,
    pub metadata: Option<Vec<u8>>,
}

/// Mathematical image of a `StopSign`.
pub ghost struct StopSignV {
    pub config_id: u64,
    pub nodes: Seq<u64>,
    pub metadata: Option<Seq<u8>>,
}

impl DeepView for StopSign {
    type V = StopSignV;

    open spec fn deep_view(&self) -> StopSignV {
        StopSignV {
            config_id: self.config_id,
            nodes: self.nodes.deep_view(),
            metadata: self.metadata.deep_view(),
        }
    }
}

/// An instruction to discard a log prefix: trim up to an index, or replace
/// the prefix with an opaque snapshot.
#[derive(Debug, PartialEq)]
pub enum CompactionCommand {
    Trim(u64),
    Snapshot(Vec<u8>),
}

/// Mathematical image of a `CompactionCommand`.
pub ghost enum CompactionCommandV {
    Trim(u64),
    Snapshot(Seq<u8>),
}

impl DeepView for CompactionCommand {
    type V = CompactionCommandV;

    open spec fn deep_view(&self) -> CompactionCommandV {
        match self {
            CompactionCommand::Trim(idx) => CompactionCommandV::Trim(*idx),
            CompactionCommand::Snapshot(bytes) => CompactionCommandV::Snapshot(bytes.deep_view()),
        }
    }
}

/// The full vocabulary of the log-consensus sub-protocol, one variant per
/// protocol phase.
#[derive(Debug, PartialEq)]
pub enum ConsensusMessage {
    Prepare { n: Ballot, ld: u64, n_accepted: Ballot, la: u64 },
    Promise {
        n: Ballot,
        n_accepted: Ballot,
        sync_item: Option<LogSyncItem>,
        ld: u64,
        la: u64,
        stopsign: Option<StopSign>,
    },
    AcceptSync {
        n: Ballot,
        sync_item: LogSyncItem,
        sync_idx: u64,
        decide_idx: Option<u64>,
        stopsign: Option<StopSign>,
    },
    FirstAccept { n: Ballot, entries: Vec<StoreCommand> },
    AcceptDecide { n: Ballot, ld: u64, entries: Vec<StoreCommand> },
    Accepted { n: Ballot, la: u64 },
    Decide { n: Ballot, ld: u64 },
    ProposalForward { entries: Vec<StoreCommand> },
    Compaction { command: CompactionCommand },
    ForwardCompaction { command: CompactionCommand },
    AcceptStopSign { n: Ballot, ss: StopSign },
    AcceptedStopSign { n: Ballot },
    DecideStopSign { n: Ballot },
}

/// Mathematical image of a `ConsensusMessage`.
pub ghost enum ConsensusMessageV {
    Prepare { n: Ballot, ld: u64, n_accepted: Ballot, la: u64 },
    Promise {
        n: Ballot,
        n_accepted: Ballot,
        sync_item: Option<LogSyncItemV>,
        ld: u64,
        la: u64,
        stopsign: Option<StopSignV>,
    },
    AcceptSync {
        n: Ballot,
        sync_item: LogSyncItemV,
        sync_idx: u64,
        decide_idx: Option<u64>,
        stopsign: Option<StopSignV>,
    },
    FirstAccept { n: Ballot, entries: Seq<StoreCommandV> },
    AcceptDecide { n: Ballot, ld: u64, entries: Seq<StoreCommandV> },
    Accepted { n: Ballot, la: u64 },
    Decide { n: Ballot, ld: u64 },
    ProposalForward { entries: Seq<StoreCommandV> },
    Compaction { command: CompactionCommandV },
    ForwardCompaction { command: CompactionCommandV },
    AcceptStopSign { n: Ballot, ss: StopSignV },
    AcceptedStopSign { n: Ballot },
    DecideStopSign { n: Ballot },
}

impl DeepView for ConsensusMessage {
    type V = ConsensusMessageV;

    open spec fn deep_view(&self) -> ConsensusMessageV {
        match self {
            ConsensusMessage::Prepare { n, ld, n_accepted, la } => ConsensusMessageV::Prepare {
                n: *n, ld: *ld, n_accepted: *n_accepted, la: *la,
            },
            ConsensusMessage::Promise { n, n_accepted, sync_item, ld, la, stopsign } =>
                ConsensusMessageV::Promise {
                    n: *n,
                    n_accepted: *n_accepted,
                    sync_item: sync_item.deep_view(),
                    ld: *ld,
                    la: *la,
                    stopsign: stopsign.deep_view(),
                },
            ConsensusMessage::AcceptSync { n, sync_item, sync_idx, decide_idx, stopsign } =>
                ConsensusMessageV::AcceptSync {
                    n: *n,
                    sync_item: sync_item.deep_view(),
                    sync_idx: *sync_idx,
                    decide_idx: *decide_idx,
                    stopsign: stopsign.deep_view(),
                },
            ConsensusMessage::FirstAccept { n, entries } => ConsensusMessageV::FirstAccept {
                n: *n, entries: entries.deep_view(),
            },
            ConsensusMessage::AcceptDecide { n, ld, entries } => ConsensusMessageV::AcceptDecide {
                n: *n, ld: *ld, entries: entries.deep_view(),
            },
            ConsensusMessage::Accepted { n, la } => ConsensusMessageV::Accepted { n: *n, la: *la },
            ConsensusMessage::Decide { n, ld } => ConsensusMessageV::Decide { n: *n, ld: *ld },
            ConsensusMessage::ProposalForward { entries } => ConsensusMessageV::ProposalForward {
                entries: entries.deep_view(),
            },
            ConsensusMessage::Compaction { command } => ConsensusMessageV::Compaction {
                command: command.deep_view(),
            },
            ConsensusMessage::ForwardCompaction { command } => ConsensusMessageV::ForwardCompaction {
                command: command.deep_view(),
            },
            ConsensusMessage::AcceptStopSign { n, ss } => ConsensusMessageV::AcceptStopSign {
                n: *n, ss: ss.deep_view(),
            },
            ConsensusMessage::AcceptedStopSign { n } => ConsensusMessageV::AcceptedStopSign { n: *n },
            ConsensusMessage::DecideStopSign { n } => ConsensusMessageV::DecideStopSign { n: *n },
        }
    }
}

/// The vocabulary of the ballot-based leader-election sub-protocol.
#[derive(Clone, Copy, Debug, PartialEq, Eq, Structural)]
pub enum ElectionMessage {
    HeartbeatRequest { round: u64 },
    HeartbeatReply { round: u64, ballot: Ballot, majority_connected: bool },
}

impl DeepView for ElectionMessage {
    type V = ElectionMessage;

    open spec fn deep_view(&self) -> ElectionMessage {
        *self
    }
}

/// Wraps every consensus or election message with its sender and receiver.
#[derive(Debug, PartialEq)]
pub struct Envelope<T> {
    pub from: u64,
    pub to: u64,
    pub payload: T,
}

/// Mathematical image of an `Envelope`.
pub ghost struct EnvelopeV<T> {
    pub from: u64,
    pub to: u64,
    pub payload: T,
}

impl<T: DeepView> DeepView for Envelope<T> {
    type V = EnvelopeV<T::V>;

    open spec fn deep_view(&self) -> EnvelopeV<T::V> {
        EnvelopeV { from: self.from, to: self.to, payload: self.payload.deep_view() }
    }
}

} // verus!
