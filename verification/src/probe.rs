use vstd::prelude::*;

verus! {

/// How a target's latency is measured.
#[derive(Debug, Clone, Copy, PartialEq, Eq, Structural)]
pub enum ProbeMethod {
    /// An ICMP echo.
    Icmp,
    /// The time to open a TCP connection to this port.
    Tcp { port: u16 },
}

/// What one measurement attempt gave.
#[derive(Debug, Clone, Copy, PartialEq, Eq, Structural)]
pub enum AttemptOutcome {
    /// The target answered.
    Answered,
    /// The target did not answer in time, or refused.
    Failed,
    /// The host does not allow this kind of probe (no raw sockets).
    NotPermitted,
}

/// The order of attempts: ICMP first; only when ICMP is not permitted, a TCP
/// connect to port 80, and when that fails, to port 443.
pub open spec fn spec_next_attempt(m: ProbeMethod, o: AttemptOutcome) -> Option<ProbeMethod> {
    match (m, o) {
        (ProbeMethod::Icmp, AttemptOutcome::NotPermitted) => Some(ProbeMethod::Tcp { port: 80 }),
        (ProbeMethod::Tcp { port }, AttemptOutcome::Failed) if port == 80 => Some(
            ProbeMethod::Tcp { port: 443 },
        ),
        (ProbeMethod::Tcp { port }, AttemptOutcome::NotPermitted) if port == 80 => Some(
            ProbeMethod::Tcp { port: 443 },
        ),
        _ => None,
    }
}

/// The name a probe result is tagged with.
pub open spec fn spec_method_label(m: ProbeMethod) -> Seq<char> {
    match m {
        ProbeMethod::Icmp => "icmp"@,
        ProbeMethod::Tcp { .. } => "tcp"@,
    }
}

/// The first attempt on every target is an ICMP echo.
pub fn first_attempt() -> (m: ProbeMethod)
    ensures
        m == ProbeMethod::Icmp,
{
    ProbeMethod::Icmp
}

/// The attempt that follows `m` when it gave `o`, or `None` when probing the
/// target is over.
pub fn next_attempt(m: ProbeMethod, o: AttemptOutcome) -> (r: Option<ProbeMethod>)
    ensures
        r == spec_next_attempt(m, o),
        m == ProbeMethod::Icmp ==> (r is Some <==> o == AttemptOutcome::NotPermitted),
        m == ProbeMethod::Icmp && o == AttemptOutcome::NotPermitted ==> r == Some(
            ProbeMethod::Tcp { port: 80 },
        ),
        m == (ProbeMethod::Tcp { port: 80 }) ==> (r is Some <==> o != AttemptOutcome::Answered),
        m == (ProbeMethod::Tcp { port: 80 }) && o != AttemptOutcome::Answered ==> r == Some(
            ProbeMethod::Tcp { port: 443 },
        ),
        o == AttemptOutcome::Answered ==> r is None,
        (m matches ProbeMethod::Tcp { port } && port != 80) ==> r is None,
{
    match (m, o) {
        (ProbeMethod::Icmp, AttemptOutcome::NotPermitted) => Some(ProbeMethod::Tcp { port: 80 }),
        (ProbeMethod::Tcp { port }, AttemptOutcome::Failed) if port == 80 => Some(
            ProbeMethod::Tcp { port: 443 },
        ),
        (ProbeMethod::Tcp { port }, AttemptOutcome::NotPermitted) if port == 80 => Some(
            ProbeMethod::Tcp { port: 443 },
        ),
        _ => None,
    }
}

/// The tag of a result measured with `m`: "icmp" or "tcp".
pub fn method_label(m: ProbeMethod) -> (r: &'static str)
    ensures
        r@ == spec_method_label(m),
        m is Icmp ==> r@ == "icmp"@,
        m is Tcp ==> r@ == "tcp"@,
{
    match m {
        ProbeMethod::Icmp => "icmp",
        ProbeMethod::Tcp { .. } => "tcp",
    }
}

/// ICMP gives way to TCP only when it is not permitted; TCP on port 80 gives
/// way to port 443 when it gets no answer; an answer, and any other attempt,
/// ends probing.
pub proof fn lemma_attempt_order(m: ProbeMethod, o: AttemptOutcome)
    ensures
        spec_next_attempt(ProbeMethod::Icmp, o) is Some <==> o == AttemptOutcome::NotPermitted,
        spec_next_attempt(ProbeMethod::Icmp, AttemptOutcome::NotPermitted) == Some(
            ProbeMethod::Tcp { port: 80 },
        ),
        spec_next_attempt(ProbeMethod::Tcp { port: 80 }, o) is Some <==> o
            != AttemptOutcome::Answered,
        o != AttemptOutcome::Answered ==> spec_next_attempt(ProbeMethod::Tcp { port: 80 }, o)
            == Some(ProbeMethod::Tcp { port: 443 }),
        spec_next_attempt(m, AttemptOutcome::Answered) is None,
        (m matches ProbeMethod::Tcp { port } && port != 80) ==> spec_next_attempt(m, o) is None,
        spec_method_label(ProbeMethod::Icmp) == "icmp"@,
        (m is Tcp ==> spec_method_label(m) == "tcp"@),
{
}

/// Probing a target takes at most three attempts, and an answer ends it.
pub proof fn lemma_probing_ends(o1: AttemptOutcome, o2: AttemptOutcome, o3: AttemptOutcome)
    ensures
        spec_next_attempt(ProbeMethod::Icmp, AttemptOutcome::Answered) is None,
        spec_next_attempt(ProbeMethod::Tcp { port: 80 }, AttemptOutcome::Answered) is None,
        ({
            match spec_next_attempt(ProbeMethod::Icmp, o1) {
                None => true,
                Some(m2) => match spec_next_attempt(m2, o2) {
                    None => true,
                    Some(m3) => spec_next_attempt(m3, o3) is None,
                },
            }
        }),
{
}

} // verus!
