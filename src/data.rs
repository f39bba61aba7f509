use vstd::prelude::*;

verus! {

/// Completed requests counted at three nesting levels, in the order in which
/// the "Acc" column lists them.
#[derive(Debug, PartialEq, Eq, Structural, Clone, Copy)]
pub struct AccessCounts {
    /// Requests served on the current connection.
    pub connection: u32,
    /// Requests served by the current child process.
    pub child: u32,
    /// Requests served by the slot, across process restarts.
    pub slot: u32,
}

/// State of one worker slot, as the one-character "M" column encodes it.
#[derive(Debug, PartialEq, Eq, Structural, Clone, Copy)]
pub enum WorkerStatus {
    Dead,
    Starting,
    Ready,
    BusyRead,
    BusyWrite,
    BusyKeepAlive,
    BusyLog,
    BusyDns,
    Closing,
    Graceful,
    IdleKill,
}

} // verus!

verus! {

/// One worker slot of the scoreboard, decoded from one table row.
///
/// The data-volume and CPU columns hold the number as the page prints it
/// (white space trimmed): they are decimal fractions, which the library
/// carries as text and a consumer reads as numbers.
#[derive(Debug)]
pub struct WorkerScore {
    /// `None` where the page shows `-`: no live process backs the slot.
    pub pid: Option<i32>,
    pub generation: i32,
    pub status: WorkerStatus,
    pub access_counts: AccessCounts,
    /// Bytes of the current connection, in KiB.
    pub conn_kib: String,
    /// Bytes served by the current child process, in MiB.
    pub child_mib: String,
    /// Bytes served by the slot, in MiB.
    pub slot_mib: String,
    /// Duration of the most recent request.
    pub request_time_ms: u32,
    /// Seconds since the slot was last used.
    pub seconds_since_s: u32,
    /// CPU seconds; `0` where the page has no CPU column.
    pub cpu: String,
    pub request: String,
    pub vhost: String,
    pub protocol: String,
    pub duration_ms: u32,
    pub client: String,
}

/// A `WorkerScore` with its texts as character sequences.
pub struct WorkerScoreView {
    pub pid: Option<i32>,
    pub generation: i32,
    pub status: WorkerStatus,
    pub access_counts: AccessCounts,
    pub conn_kib: Seq<char>,
    pub child_mib: Seq<char>,
    pub slot_mib: Seq<char>,
    pub request_time_ms: u32,
    pub seconds_since_s: u32,
    pub cpu: Seq<char>,
    pub request: Seq<char>,
    pub vhost: Seq<char>,
    pub protocol: Seq<char>,
    pub duration_ms: u32,
    pub client: Seq<char>,
}

impl View for WorkerScore {
    type V = WorkerScoreView;

    open spec fn view(&self) -> WorkerScoreView {
        WorkerScoreView {
            pid: self.pid,
            generation: self.generation,
            status: self.status,
            access_counts: self.access_counts,
            conn_kib: self.conn_kib@,
            child_mib: self.child_mib@,
            slot_mib: self.slot_mib@,
            request_time_ms: self.request_time_ms,
            seconds_since_s: self.seconds_since_s,
            cpu: self.cpu@,
            request: self.request@,
            vhost: self.vhost@,
            protocol: self.protocol@,
            duration_ms: self.duration_ms,
            client: self.client@,
        }
    }
}

/// All workers of one status page, in table order.
#[derive(Debug)]
pub struct ServerStatus {
    pub workers: Vec<WorkerScore>,
}

} // verus!
