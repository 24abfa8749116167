//! The availability prober's decision.
//!
//! Before anything is listed or downloaded the tool polls the properties
//! endpoint until the device answers. Only a transport-level failure to
//! connect counts as unreachable: any HTTP response, whatever its status,
//! means the device is alive. The polling loop itself — issuing the GET,
//! sleeping a fixed second between attempts — is unverified plumbing; the
//! decision it takes after each attempt is here.

use vstd::prelude::*;

verus! {

/// What the prober does after one attempt: go on to the inventory fetch,
/// or warn, wait the fixed interval, and try again.
pub enum ProbeAction {
    Proceed,
    Retry,
}

/// The prober's decision for one attempt: proceed exactly when the host
/// answered at all.
pub open spec fn probe_decision_spec(reachable: bool) -> ProbeAction {
    if reachable {
        ProbeAction::Proceed
    } else {
        ProbeAction::Retry
    }
}

/// Decides one probe attempt. `reachable` is whether the GET produced any
/// response (success or HTTP-level error); only failure to connect retries.
pub fn probe_decision(reachable: bool) -> (a: ProbeAction)
    ensures
        a == probe_decision_spec(reachable),
        a is Proceed <==> reachable,
{
    if reachable {
        ProbeAction::Proceed
    } else {
        ProbeAction::Retry
    }
}

/// The decisions a whole polling run takes, one per attempt outcome.
pub open spec fn probe_run(outcomes: Seq<bool>) -> Seq<ProbeAction> {
    outcomes.map_values(|b: bool| probe_decision_spec(b))
}

/// A run whose first `k` attempts fail to connect and whose attempt `k`
/// gets an answer retries exactly `k` times and then proceeds: the tool
/// reaches the inventory fetch only after attempt `k`, having warned once
/// per failed attempt.
pub proof fn lemma_probe_retries(outcomes: Seq<bool>, k: int)
    requires
        0 <= k < outcomes.len(),
        forall|i: int| 0 <= i < k ==> !outcomes[i],
        outcomes[k],
    ensures
        forall|i: int| 0 <= i < k ==> probe_run(outcomes)[i] is Retry,
        probe_run(outcomes)[k] is Proceed,
{
}

} // verus!
