//! The miner start/stop operations.
//!
//! Both are stub boundaries: the responsibility for spawning or stopping a
//! miner process belongs to an external collaborator, so these operations
//! perform no I/O of any kind and never fail. Their signatures keep the
//! `Result` shape so a real backing implementation can replace them without
//! changing the calling contract.

use vstd::prelude::*;
use vstd::string::StringExecFns;

verus! {

/// The message acknowledging a start request for the given wallet.
pub open spec fn start_message(wallet: Seq<char>) -> Seq<char> {
    "Miner started for wallet: "@ + wallet
}

/// Acknowledges a start request. No network call is made; the answer is
/// always `Ok` and names the wallet verbatim.
pub fn start_miner(wallet: String) -> (r: Result<String, String>)
    ensures
        r matches Ok(m) && m@ == start_message(wallet@),
{
    let mut m = "Miner started for wallet: ".to_owned();
    m.append(wallet.as_str());
    Ok(m)
}

/// Acknowledges a stop request. No network call is made; the answer is
/// always `Ok` with the fixed message `Miner stopped`.
pub fn stop_miner() -> (r: Result<String, String>)
    ensures
        r matches Ok(m) && m@ == "Miner stopped"@,
{
    Ok("Miner stopped".to_owned())
}

} // verus!
