//! The reachability prober: it admits a target under its policy, and judges
//! what the transport observed of the one request that follows.

use crate::policy::{permits, AllowPolicy, ValidationError};
use vstd::prelude::*;

verus! {

/// How long the stock prober lets a request wait, in seconds.
pub const PROBE_TIMEOUT_SECS: u64 = 5;

/// What a probe reports: whether the target answered at all, and after how
/// many milliseconds.
#[derive(Clone, Copy, Debug, PartialEq, Eq, Structural)]
pub struct PingResult {
    pub success: bool,
    pub latency: u64,
}

impl PingResult {
    /// A probe that failed reports no latency.
    pub open spec fn well_formed(&self) -> bool {
        !self.success ==> self.latency == 0
    }
}

/// What the transport observed of a request.
#[derive(Clone, Copy, Debug, PartialEq, Eq, Structural)]
pub enum TransportOutcome {
    /// A response arrived; `status` is its HTTP status code.
    Responded { status: u16 },
    /// No response arrived: the request timed out, the connection was
    /// refused, the name did not resolve, the handshake failed.
    Failed,
}

/// The latency reported for a response that took `elapsed_millis`: the
/// low 64 bits of the count.
pub open spec fn latency_of(elapsed_millis: u128) -> u64 {
    (elapsed_millis % 0x1_0000_0000_0000_0000) as u64
}

/// The result of a probe whose request ended in `outcome` after
/// `elapsed_millis`. A response of any status means the target is reachable;
/// a failure reports no latency, however long it took.
pub open spec fn outcome_result(outcome: TransportOutcome, elapsed_millis: u128) -> PingResult {
    match outcome {
        TransportOutcome::Responded { .. } => PingResult {
            success: true,
            latency: latency_of(elapsed_millis),
        },
        TransportOutcome::Failed => PingResult { success: false, latency: 0 },
    }
}

/// What a probe of `target` under the policy `allowed` comes to, when the
/// request, if one is made, ends in `outcome` after `elapsed_millis`: a
/// refusal that names the policy, or the result of the request.
pub open spec fn probe_reply(
    allowed: Seq<Seq<char>>,
    target: Seq<char>,
    outcome: TransportOutcome,
    elapsed_millis: u128,
) -> Result<PingResult, Seq<Seq<char>>> {
    if permits(allowed, target) {
        Ok(outcome_result(outcome, elapsed_millis))
    } else {
        Err(allowed)
    }
}

/// A reply with its error taken by its view.
pub open spec fn reply_view(reply: Result<PingResult, ValidationError>) -> Result<
    PingResult,
    Seq<Seq<char>>,
> {
    match reply {
        Ok(result) => Ok(result),
        Err(error) => Err(error@),
    }
}

/// The abstract value of a request: what contracts say of it.
pub struct ProbeRequestView {
    pub target: Seq<char>,
    pub timeout_secs: u64,
}

/// One HEAD request that the policy has admitted and whose outcome is still
/// to be reported. Only [`Prober::begin`] makes one, and
/// [`ProbeRequest::conclude`] uses it up.
#[derive(Debug)]
pub struct ProbeRequest {
    target: String,
    timeout_secs: u64,
}

impl View for ProbeRequest {
    type V = ProbeRequestView;

    closed spec fn view(&self) -> ProbeRequestView {
        ProbeRequestView { target: self.target@, timeout_secs: self.timeout_secs }
    }
}

impl ProbeRequest {
    /// The URL to send the HEAD request to.
    pub fn target(&self) -> (target: &str)
        ensures
            target@ == self@.target,
    {
        self.target.as_str()
    }

    /// How many seconds the request may wait before it counts as failed.
    pub fn timeout_secs(&self) -> (secs: u64)
        ensures
            secs == self@.timeout_secs,
    {
        self.timeout_secs
    }

    /// Ends the probe: the request ended in `outcome`, `elapsed_millis`
    /// after it was issued.
    pub fn conclude(self, outcome: TransportOutcome, elapsed_millis: u128) -> (result: PingResult)
        ensures
            result == outcome_result(outcome, elapsed_millis),
            result.well_formed(),
    {
        match outcome {
            TransportOutcome::Responded { .. } => {
                let latency: u64 = #[verifier::truncate] (elapsed_millis as u64);
                assert(latency == latency_of(elapsed_millis)) by {
                    assert(elapsed_millis as u64 == (elapsed_millis % 0x1_0000_0000_0000_0000) as u64)
                        by (bit_vector);
                }
                PingResult { success: true, latency }
            },
            TransportOutcome::Failed => PingResult { success: false, latency: 0 },
        }
    }
}

/// A reachability prober: a policy and a timeout, fixed when it is made. It
/// keeps no state between probes.
#[derive(Debug)]
pub struct Prober {
    pub policy: AllowPolicy,
    pub timeout_secs: u64,
}

impl Prober {
    /// A prober that admits what `policy` permits and lets each request
    /// wait `timeout_secs`.
    pub fn new(policy: AllowPolicy, timeout_secs: u64) -> (prober: Self)
        ensures
            prober.policy == policy,
            prober.timeout_secs == timeout_secs,
    {
        Prober { policy, timeout_secs }
    }

    /// Validates `target`, before any request is made. A permitted target
    /// gives the one request to make; any other is refused with the policy
    /// it violates.
    pub fn begin(&self, target: &str) -> (admitted: Result<ProbeRequest, ValidationError>)
        ensures
            match admitted {
                Ok(request) => {
                    &&& permits(self.policy@, target@)
                    &&& request@ == (ProbeRequestView {
                        target: target@,
                        timeout_secs: self.timeout_secs,
                    })
                },
                Err(error) => !permits(self.policy@, target@) && error@ == self.policy@,
            },
    {
        if self.policy.allows(target) {
            Ok(ProbeRequest { target: String::from_str(target), timeout_secs: self.timeout_secs })
        } else {
            Err(ValidationError::new(self.policy.clone()))
        }
    }

    /// Probes `target`: validates it, lets `transport` carry out the one
    /// request and report how it ended and after how many milliseconds, and
    /// judges that report.
    ///
    /// A target that the policy refuses never reaches `transport`, which for
    /// such a target need not even be callable. For a permitted target the
    /// reply is built from what `transport` returned for the request; being
    /// `FnOnce`, it cannot be asked a second time.
    pub fn probe<F>(&self, target: &str, transport: F) -> (reply: Result<
        PingResult,
        ValidationError,
    >) where F: FnOnce(&ProbeRequest) -> (TransportOutcome, u128)
        requires
            permits(self.policy@, target@) ==> forall|request: ProbeRequest|
                request@ == (ProbeRequestView { target: target@, timeout_secs: self.timeout_secs })
                    ==> #[trigger] transport.requires((&request,)),
        ensures
            permits(self.policy@, target@) ==> exists|
                request: ProbeRequest,
                outcome: TransportOutcome,
                elapsed_millis: u128,
            |
                {
                    &&& request@ == (ProbeRequestView {
                        target: target@,
                        timeout_secs: self.timeout_secs,
                    })
                    &&& #[trigger] transport.ensures((&request,), (outcome, elapsed_millis))
                    &&& reply_view(reply) == probe_reply(
                        self.policy@,
                        target@,
                        outcome,
                        elapsed_millis,
                    )
                },
            !permits(self.policy@, target@) ==> reply_view(reply) == Err::<
                PingResult,
                Seq<Seq<char>>,
            >(self.policy@),
    {
        match self.begin(target) {
            Ok(request) => {
                let (outcome, elapsed_millis) = transport(&request);
                Ok(request.conclude(outcome, elapsed_millis))
            },
            Err(error) => Err(error),
        }
    }
}

impl Default for Prober {
    /// The stock prober: the stock policy, and [`PROBE_TIMEOUT_SECS`].
    fn default() -> (prober: Self)
        ensures
            prober.policy@ == seq![crate::policy::ALLOWED_DOMAIN@],
            prober.timeout_secs == PROBE_TIMEOUT_SECS,
    {
        Prober { policy: AllowPolicy::default(), timeout_secs: PROBE_TIMEOUT_SECS }
    }
}

} // verus!
