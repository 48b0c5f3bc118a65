//! The liveness probe: turning the outcome of one GET against
//! `{base}/api/stats` into a reported miner status.

use vstd::prelude::*;
use crate::http::spec_status_is_success;
use crate::http::status_is_success;

verus! {

/// What the transport observed when probing the stats endpoint.
pub enum ProbeOutcome {
    /// The node answered; the status code of its reply. The reply body is
    /// irrelevant to the probe and is not carried here.
    Response(u16),
    /// The node could not be reached (connection refused, timeout, failed
    /// name resolution, ...).
    Unreachable,
}

/// The miner status reported to the presentation layer.
///
/// The probe is a liveness signal only: the stats reply body is never read,
/// so every metric is reported as zero, whatever the node answered. The
/// metric fields are plain counts here; how they are rendered (for rewards
/// and utilization, as fractional amounts) is the presentation layer's
/// concern.
pub struct MinerStatus {
    pub running: bool,
    pub tasks_completed: u64,
    pub total_rewards: u64,
    pub gpu_utilization: u64,
}

/// Maps a probe outcome to the reported miner status. Never fails: the
/// miner is reported as running exactly when the node answered with a
/// success status, and every metric is zero in every case.
pub fn get_miner_status(probe: &ProbeOutcome) -> (r: MinerStatus)
    ensures
        r.running == (probe matches ProbeOutcome::Response(code) && spec_status_is_success(
            *code,
        )),
        r.tasks_completed == 0,
        r.total_rewards == 0,
        r.gpu_utilization == 0,
{
    let running = match probe {
        ProbeOutcome::Response(code) => status_is_success(*code),
        ProbeOutcome::Unreachable => false,
    };
    MinerStatus { running, tasks_completed: 0, total_rewards: 0, gpu_utilization: 0 }
}

} // verus!
