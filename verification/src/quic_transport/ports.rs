//! Which UDP port the transport listens on.

use vstd::prelude::*;
use vstd::string::StringExecFns;

verus! {

/// How many consecutive ports are tried.
pub const PORT_SCAN_COUNT: u16 = 64;

/// The lowest port that is tried by number.
pub const LOWEST_PORT: u16 = 1024;

/// The first port that is tried for `preferred_port`.
pub open spec fn scan_start(preferred_port: u16) -> int {
    if preferred_port >= LOWEST_PORT {
        preferred_port as int
    } else {
        LOWEST_PORT as int
    }
}

/// How many ports are tried by number: as many as the scan counts, as far as
/// there are ports.
pub open spec fn scan_length(preferred_port: u16) -> nat {
    let start = scan_start(preferred_port);
    if start + PORT_SCAN_COUNT <= 65536 {
        PORT_SCAN_COUNT as nat
    } else {
        (65536 - start) as nat
    }
}

/// The ports to try, in order; the final zero asks the system to choose.
pub open spec fn port_candidates(preferred_port: u16) -> Seq<u16> {
    Seq::new(
        scan_length(preferred_port),
        |i: int| (scan_start(preferred_port) + i) as u16,
    ).push(0)
}

/// The ports to try, in order; the final zero asks the system to choose.
pub fn candidate_ports(preferred_port: u16) -> (ports: Vec<u16>)
    ensures
        ports@ == port_candidates(preferred_port),
{
    let start: u16 = if preferred_port >= LOWEST_PORT {
        preferred_port
    } else {
        LOWEST_PORT
    };
    let mut ports: Vec<u16> = Vec::new();
    let mut offset: u16 = 0;
    while offset < PORT_SCAN_COUNT && offset <= u16::MAX - start
        invariant
            start == scan_start(preferred_port),
            offset <= PORT_SCAN_COUNT,
            offset <= scan_length(preferred_port),
            ports@ =~= Seq::new(
                offset as nat,
                |i: int| (scan_start(preferred_port) + i) as u16,
            ),
        decreases PORT_SCAN_COUNT - offset,
    {
        ports.push(start + offset);
        offset = offset + 1;
    }
    assert(offset == scan_length(preferred_port));
    ports.push(0);
    ports
}

/// The preferred port is tried first, if programs may take it; the system's
/// choice comes last; nothing is tried twice; and all the rest are ports that
/// programs may take.
pub proof fn candidates_are_sound(preferred_port: u16)
    ensures
        preferred_port >= LOWEST_PORT ==> port_candidates(preferred_port)[0] == preferred_port,
        port_candidates(preferred_port).len() >= 2,
        port_candidates(preferred_port).len() <= PORT_SCAN_COUNT + 1,
        port_candidates(preferred_port).last() == 0,
        port_candidates(preferred_port).no_duplicates(),
        forall|i: int|
            0 <= i < port_candidates(preferred_port).len() - 1 ==> (
            #[trigger] port_candidates(preferred_port)[i]) >= LOWEST_PORT,
        forall|i: int|
            0 <= i < port_candidates(preferred_port).len() - 1 ==> (
            #[trigger] port_candidates(preferred_port)[i]) == port_candidates(preferred_port)[0]
                + i,
{
    let ports = port_candidates(preferred_port);
    assert forall|i: int| 0 <= i < ports.len() - 1 implies (#[trigger] ports[i]) == scan_start(
        preferred_port,
    ) + i by {}
}

/// What became of the latest port, or that none was tried yet.
pub enum PortTry {
    /// Nothing was tried yet.
    NotYet,
    /// There is nothing that an endpoint could run on.
    NoRuntime,
    /// The endpoint could not be configured.
    ConfigFailed(String),
    /// The port could not be bound, or the endpoint not be made on it.
    Failed(String),
    /// The endpoint listens.
    Bound,
}

/// What is done next to bind a port.
#[derive(Clone, Debug)]
pub enum BindStep {
    /// Try a port; zero asks the system to choose.
    Try { port: u16 },
    /// The endpoint listens.
    Done,
    /// No endpoint can be had.
    Fail { error: String },
}

/// Where a walk through the candidate ports stands: what is still to be tried,
/// and what the latest failed try said.
pub struct ScanState {
    pub remaining: Seq<u16>,
    pub error: Option<Seq<char>>,
}

/// A `BindStep` with its text.
pub enum BindVerdict {
    Try(u16),
    Done,
    Fail(Seq<char>),
}

/// The step and its text.
pub open spec fn verdict(step: BindStep) -> BindVerdict {
    match step {
        BindStep::Try { port } => BindVerdict::Try(port),
        BindStep::Done => BindVerdict::Done,
        BindStep::Fail { error } => BindVerdict::Fail(error@),
    }
}

/// What is said when no port could be bound.
pub open spec fn bind_failure(error: Option<Seq<char>>) -> Seq<char> {
    "failed to bind QUIC port: "@ + match error {
        Some(e) => e,
        None => "no candidate ports available"@,
    }
}

/// On to the next port, if there is one.
pub open spec fn next_port(state: ScanState) -> (ScanState, BindVerdict) {
    if state.remaining.len() > 0 {
        (
            ScanState { remaining: state.remaining.drop_first(), ..state },
            BindVerdict::Try(state.remaining[0]),
        )
    } else {
        (state, BindVerdict::Fail(bind_failure(state.error)))
    }
}

/// What is done after the latest try: a port that failed gives way to the next,
/// anything else ends the walk.
pub open spec fn bind_step(state: ScanState, tried: PortTry) -> (ScanState, BindVerdict) {
    match tried {
        PortTry::NotYet => next_port(state),
        PortTry::NoRuntime => (
            state,
            BindVerdict::Fail("no async runtime available for QUIC endpoint"@),
        ),
        PortTry::ConfigFailed(error) => (
            state,
            BindVerdict::Fail("failed to build QUIC server config: "@ + error@),
        ),
        PortTry::Failed(error) => next_port(ScanState { error: Some(error@), ..state }),
        PortTry::Bound => (state, BindVerdict::Done),
    }
}

/// A walk through the candidate ports that stops at the first port that could
/// be bound.
pub struct PortScan {
    ports: Vec<u16>,
    next: usize,
    last_error: Option<String>,
}

impl View for PortScan {
    type V = ScanState;

    closed spec fn view(&self) -> ScanState {
        ScanState {
            remaining: self.ports@.skip(self.next as int),
            error: match self.last_error {
                Some(e) => Some(e@),
                None => None,
            },
        }
    }
}

impl PortScan {
    /// The walk is somewhere in the candidates.
    pub closed spec fn wf(&self) -> bool {
        self.next <= self.ports@.len()
    }

    /// A walk through the candidates for `preferred_port`.
    pub fn new(preferred_port: u16) -> (scan: Self)
        ensures
            scan.wf(),
            scan@.remaining == port_candidates(preferred_port),
            scan@.error is None,
    {
        let ports = candidate_ports(preferred_port);
        assert(ports@.skip(0) =~= ports@);
        PortScan { ports, next: 0, last_error: None }
    }

    fn advance(&mut self) -> (step: BindStep)
        requires
            old(self).wf(),
        ensures
            final(self).wf(),
            (final(self)@, verdict(step)) == next_port(old(self)@),
    {
        if self.next < self.ports.len() {
            let port: u16 = self.ports[self.next];
            self.next = self.next + 1;
            assert(self@.remaining =~= old(self)@.remaining.drop_first());
            BindStep::Try { port }
        } else {
            let error = match &self.last_error {
                Some(error) => "failed to bind QUIC port: ".to_owned().concat(error.as_str()),
                None => "failed to bind QUIC port: ".to_owned().concat(
                    "no candidate ports available",
                ),
            };
            BindStep::Fail { error }
        }
    }
}

/// Goes on with binding a port: `tried` says what became of the latest one.
pub fn bind_endpoint(scan: &mut PortScan, tried: PortTry) -> (step: BindStep)
    requires
        old(scan).wf(),
    ensures
        final(scan).wf(),
        (final(scan)@, verdict(step)) == bind_step(old(scan)@, tried),
{
    match tried {
        PortTry::NotYet => scan.advance(),
        PortTry::NoRuntime => {
            let error = "no async runtime available for QUIC endpoint".to_owned();
            BindStep::Fail { error }
        },
        PortTry::ConfigFailed(error) => {
            let error = "failed to build QUIC server config: ".to_owned().concat(error.as_str());
            BindStep::Fail { error }
        },
        PortTry::Failed(error) => {
            scan.last_error = Some(error);
            scan.advance()
        },
        PortTry::Bound => BindStep::Done,
    }
}

/// A walk through the candidates for `preferred_port` after so many ports were
/// handed out.
pub open spec fn walk(preferred_port: u16, errors: Seq<Seq<char>>) -> ScanState {
    ScanState {
        remaining: port_candidates(preferred_port).skip((errors.len() + 1) as int),
        error: if errors.len() > 0 {
            Some(errors.last())
        } else {
            None
        },
    }
}

/// While every port fails, the candidates are tried one after another, each of
/// them once and in order; after the last one the walk ends, and says what the
/// last failure was.
pub proof fn every_candidate_is_tried(preferred_port: u16, errors: Seq<Seq<char>>, error: String)
    requires
        errors.len() < port_candidates(preferred_port).len(),
    ensures
        ({
            let candidates = port_candidates(preferred_port);
            let first = bind_step(
                ScanState { remaining: candidates, error: None },
                PortTry::NotYet,
            );
            let next = bind_step(walk(preferred_port, errors), PortTry::Failed(error));
            &&& first == (walk(preferred_port, Seq::empty()), BindVerdict::Try(candidates[0]))
            &&& errors.len() + 1 < candidates.len() ==> next == (
                walk(preferred_port, errors.push(error@)),
                BindVerdict::Try(candidates[(errors.len() + 1) as int]),
            )
            &&& errors.len() + 1 == candidates.len() ==> next.1 == BindVerdict::Fail(
                bind_failure(Some(error@)),
            )
        }),
{
    let candidates = port_candidates(preferred_port);
    assert(candidates.drop_first() =~= candidates.skip(1));
    assert(Seq::<Seq<char>>::empty().len() == 0);
    let n = errors.len() as int;
    assert(errors.push(error@).last() == error@);
    if n + 1 < candidates.len() {
        assert(candidates.skip(n + 1).drop_first() =~= candidates.skip(n + 2));
    }
}

/// The ports that are tried go up by one from the preferred port, or from 1024 if
/// that is higher: 64 of them, or as many as there are up to 65535; and then the
/// system chooses.
pub proof fn candidates_go_up_from_the_preferred_port(preferred_port: u16, i: int)
    ensures
        ({
            let start = if preferred_port > 1024 {
                preferred_port as int
            } else {
                1024
            };
            let ports = port_candidates(preferred_port);
            let count = ports.len() - 1;
            &&& count == (if 65536 - start < 64 {
                65536 - start
            } else {
                64
            })
            &&& 0 <= i < count ==> ports[i] == start + i
            &&& ports[count] == 0
        }),
{
}

/// A port that failed gives way to the next one, and its error is kept for the
/// end; an endpoint that listens ends the walk, and so does one that cannot be
/// configured or run, each with what is said of it.
pub proof fn tries_decide_what_comes_next(state: ScanState, error: String)
    ensures
        bind_step(state, PortTry::Bound).1 == BindVerdict::Done,
        bind_step(state, PortTry::NoRuntime).1 == BindVerdict::Fail(
            "no async runtime available for QUIC endpoint"@,
        ),
        bind_step(state, PortTry::ConfigFailed(error)).1 == BindVerdict::Fail(
            "failed to build QUIC server config: "@ + error@,
        ),
        state.remaining.len() > 0 ==> {
            &&& bind_step(state, PortTry::NotYet).1 == BindVerdict::Try(state.remaining[0])
            &&& bind_step(state, PortTry::NotYet).0.remaining == state.remaining.drop_first()
            &&& bind_step(state, PortTry::NotYet).0.error == state.error
            &&& bind_step(state, PortTry::Failed(error)).1 == BindVerdict::Try(state.remaining[0])
            &&& bind_step(state, PortTry::Failed(error)).0.remaining
                == state.remaining.drop_first()
            &&& bind_step(state, PortTry::Failed(error)).0.error == Some(error@)
        },
        state.remaining.len() == 0 ==> {
            &&& bind_step(state, PortTry::Failed(error)).1 == BindVerdict::Fail(
                "failed to bind QUIC port: "@ + error@,
            )
            &&& bind_step(state, PortTry::NotYet).1 == BindVerdict::Fail(
                "failed to bind QUIC port: "@ + match state.error {
                    Some(e) => e,
                    None => "no candidate ports available"@,
                },
            )
        },
{
}

/// A step is judged by just what it says.
pub proof fn verdicts_say_the_step(port: u16, error: String)
    ensures
        verdict(BindStep::Try { port }) == BindVerdict::Try(port),
        verdict(BindStep::Done) == BindVerdict::Done,
        verdict(BindStep::Fail { error }) == BindVerdict::Fail(error@),
{
}

} // verus!
