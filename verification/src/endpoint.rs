//! Acquiring the listening endpoint: which port to bind next, when to give
//! up, and the URI under which a bound endpoint is advertised.
//!
//! Binding itself is the caller's work. The caller asks the binder for the
//! port to try, makes the attempt, and reports how it went; the binder
//! answers with the next port, or with the outcome.

use rand::Rng;
use vstd::prelude::*;
use vstd::string::StringExecFns;
use crate::decimal::decimal_digits;
use crate::decimal::push_decimal;
use crate::error::ErrorView;
use crate::error::ShuffleManagerError;

verus! {

/// The lowest port in the dynamic range.
pub const FIRST_DYNAMIC_PORT: u16 = 49152;

/// The end of the dynamic range, which is itself never drawn.
pub const LAST_DYNAMIC_PORT: u16 = 65535;

/// How many ports are tried before the binder gives up.
pub const MAX_BIND_ATTEMPTS: usize = 10;

/// Whether `port` is one that dynamic selection may draw.
pub open spec fn is_dynamic_port(port: u16) -> bool {
    FIRST_DYNAMIC_PORT <= port < LAST_DYNAMIC_PORT
}

/// Draws a number from `low` up to, but not including, `high`.
///
/// This is `rand::Rng::gen_range` on the thread-local generator of
/// `rand::thread_rng`. Believed of it, not proved: the number drawn lies in
/// the half-open range. Which number is drawn is left open. The call panics
/// on an empty range, which the precondition excludes, and where the
/// operating system yields nothing to seed the generator with.
#[verifier::external_body]
fn sample_range(low: u16, high: u16) -> (sample: u16)
    requires
        low < high,
    ensures
        low <= sample < high,
{
    rand::thread_rng().gen_range(low, high)
}

/// The port that lies `offset` ports into the dynamic range.
pub fn dynamic_port_at(offset: u16) -> (port: u16)
    requires
        offset < LAST_DYNAMIC_PORT - FIRST_DYNAMIC_PORT,
    ensures
        port == FIRST_DYNAMIC_PORT + offset,
        is_dynamic_port(port),
{
    FIRST_DYNAMIC_PORT + offset
}

/// Draws a port from the dynamic range.
pub fn get_dynamic_port() -> (port: u16)
    ensures
        is_dynamic_port(port),
{
    dynamic_port_at(sample_range(0, LAST_DYNAMIC_PORT - FIRST_DYNAMIC_PORT))
}

/// What the caller saw while it waited for the server to come up.
#[derive(Debug, Clone, Copy, PartialEq, Eq)]
pub enum Handshake {
    /// Nothing arrived within the grace period.
    Silent,
    /// The server reported that it failed.
    FailureReported,
    /// The server went away without a word.
    Disconnected,
}

/// Judges the readiness handshake: silence within the grace period counts
/// as a server that started, anything else as one that did not.
pub fn handshake_result(seen: Handshake) -> (result: Result<(), ShuffleManagerError>)
    ensures
        match seen {
            Handshake::Silent => result is Ok,
            _ => result is Err && result->Err_0@ == ErrorView::FailedToStart,
        },
{
    match seen {
        Handshake::Silent => Ok(()),
        Handshake::FailureReported => Err(ShuffleManagerError::FailedToStart),
        Handshake::Disconnected => Err(ShuffleManagerError::FailedToStart),
    }
}

/// How one attempt to bring the server up on a port went.
#[derive(Debug, Clone, Copy, PartialEq, Eq)]
pub enum BindEvent {
    /// The server is up on the port.
    Started,
    /// The server did not come up on the port.
    Failed,
    /// There was nothing to run the server on, so no port was tried.
    NoRuntime,
}

/// Where the acquisition of the endpoint stands.
#[derive(Debug, Clone, Copy, PartialEq, Eq)]
pub enum EndpointBinder {
    /// The caller is to try `port`. `dynamic` says whether the port was
    /// drawn, and `attempt` counts the ports tried, this one included.
    Binding { port: u16, dynamic: bool, attempt: usize },
    /// The server is up on `port`.
    Bound { port: u16 },
    /// The server did not start.
    FailedToStart,
    /// Every port drawn was refused; `port` is the last one tried.
    FreePortNotFound { port: u16 },
}

/// What a finished acquisition came to, as contracts speak of it.
pub enum BindOutcome {
    Pending,
    Port(u16),
    Failure(ErrorView),
}

impl EndpointBinder {
    /// The state in which binding begins: on the port that the caller
    /// fixed, or else on `candidate`.
    pub open spec fn begin(fixed: Option<u16>, candidate: u16) -> EndpointBinder {
        match fixed {
            Some(port) => EndpointBinder::Binding { port, dynamic: false, attempt: 1 },
            None => EndpointBinder::Binding { port: candidate, dynamic: true, attempt: 1 },
        }
    }

    /// The state that follows `self` when the attempt in progress ended
    /// with `event`. `candidate` is the port to try next, should another
    /// attempt be due.
    ///
    /// A fixed port is tried once. Drawn ports are tried until one is
    /// bound or `MAX_BIND_ATTEMPTS` of them were refused. A state in which
    /// no attempt is in progress stays as it is.
    pub open spec fn next(self, event: BindEvent, candidate: u16) -> EndpointBinder {
        match self {
            EndpointBinder::Binding { port, dynamic, attempt } => match event {
                BindEvent::Started => EndpointBinder::Bound { port },
                BindEvent::NoRuntime => EndpointBinder::FailedToStart,
                BindEvent::Failed => if !dynamic {
                    EndpointBinder::FailedToStart
                } else if attempt >= MAX_BIND_ATTEMPTS {
                    EndpointBinder::FreePortNotFound { port }
                } else {
                    EndpointBinder::Binding {
                        port: candidate,
                        dynamic: true,
                        attempt: (attempt + 1) as usize,
                    }
                },
            },
            _ => self,
        }
    }

    /// Whether the state is one that binding can reach: the attempts are
    /// counted from one and never exceed `MAX_BIND_ATTEMPTS`, and a port
    /// that was drawn lies in the dynamic range.
    pub open spec fn well_formed(self) -> bool {
        match self {
            EndpointBinder::Binding { port, dynamic, attempt } => {
                &&& 1 <= attempt <= MAX_BIND_ATTEMPTS
                &&& dynamic ==> is_dynamic_port(port)
                &&& !dynamic ==> attempt == 1
            },
            _ => true,
        }
    }

    /// What the acquisition came to.
    pub open spec fn result(self) -> BindOutcome {
        match self {
            EndpointBinder::Binding { .. } => BindOutcome::Pending,
            EndpointBinder::Bound { port } => BindOutcome::Port(port),
            EndpointBinder::FailedToStart => BindOutcome::Failure(ErrorView::FailedToStart),
            EndpointBinder::FreePortNotFound { port } => BindOutcome::Failure(
                ErrorView::FreePortNotFound(port),
            ),
        }
    }

    /// Begins binding on the port that the caller fixed, or else on
    /// `candidate`.
    pub fn start_with(fixed: Option<u16>, candidate: u16) -> (binder: Self)
        ensures
            binder == Self::begin(fixed, candidate),
    {
        match fixed {
            Some(port) => EndpointBinder::Binding { port, dynamic: false, attempt: 1 },
            None => EndpointBinder::Binding { port: candidate, dynamic: true, attempt: 1 },
        }
    }

    /// Begins binding on the port that the caller fixed, or else on a port
    /// drawn from the dynamic range.
    pub fn start(fixed: Option<u16>) -> (binder: Self)
        ensures
            binder.well_formed(),
            exists|candidate: u16|
                is_dynamic_port(candidate) && binder == #[trigger] Self::begin(fixed, candidate),
    {
        let candidate = match fixed {
            Some(_) => FIRST_DYNAMIC_PORT,
            None => get_dynamic_port(),
        };
        Self::start_with(fixed, candidate)
    }

    /// Takes note of how the attempt in progress ended. `candidate` is the
    /// port to try next, should another attempt be due.
    pub fn advance_with(self, event: BindEvent, candidate: u16) -> (binder: Self)
        ensures
            binder == self.next(event, candidate),
    {
        match self {
            EndpointBinder::Binding { port, dynamic, attempt } => match event {
                BindEvent::Started => EndpointBinder::Bound { port },
                BindEvent::NoRuntime => EndpointBinder::FailedToStart,
                BindEvent::Failed => if !dynamic {
                    EndpointBinder::FailedToStart
                } else if attempt >= MAX_BIND_ATTEMPTS {
                    EndpointBinder::FreePortNotFound { port }
                } else {
                    EndpointBinder::Binding { port: candidate, dynamic: true, attempt: attempt + 1 }
                },
            },
            _ => self,
        }
    }

    /// Takes note of how the attempt in progress ended, and draws the port
    /// to try next where another attempt is due.
    pub fn advance(self, event: BindEvent) -> (binder: Self)
        ensures
            exists|candidate: u16|
                is_dynamic_port(candidate) && binder == #[trigger] self.next(event, candidate),
            self.well_formed() ==> binder.well_formed(),
    {
        let draws = match (self, event) {
            (EndpointBinder::Binding { dynamic, attempt, .. }, BindEvent::Failed) => dynamic
                && attempt < MAX_BIND_ATTEMPTS,
            _ => false,
        };
        let candidate = if draws {
            get_dynamic_port()
        } else {
            FIRST_DYNAMIC_PORT
        };
        self.advance_with(event, candidate)
    }

    /// The port that the caller is to try now, if an attempt is due.
    pub fn pending_port(&self) -> (port: Option<u16>)
        ensures
            port == match *self {
                EndpointBinder::Binding { port, .. } => Some(port),
                _ => None::<u16>,
            },
    {
        match *self {
            EndpointBinder::Binding { port, .. } => Some(port),
            _ => None,
        }
    }

    /// What the acquisition came to: nothing while an attempt is due, then
    /// the port that was bound or the reason why none was.
    pub fn outcome(&self) -> (outcome: Option<Result<u16, ShuffleManagerError>>)
        ensures
            match outcome {
                None => self.result() == BindOutcome::Pending,
                Some(Ok(port)) => self.result() == BindOutcome::Port(port),
                Some(Err(error)) => self.result() == BindOutcome::Failure(error@),
            },
    {
        match *self {
            EndpointBinder::Binding { .. } => None,
            EndpointBinder::Bound { port } => Some(Ok(port)),
            EndpointBinder::FailedToStart => Some(Err(ShuffleManagerError::FailedToStart)),
            EndpointBinder::FreePortNotFound { port } => Some(
                Err(ShuffleManagerError::FreePortNotFound(port)),
            ),
        }
    }
}

impl EndpointBinder {
    /// The state reached from `self` by the attempts in `steps`: each step
    /// says how an attempt ended and which port was drawn for the attempt
    /// after it.
    pub open spec fn run(self, steps: Seq<(BindEvent, u16)>) -> EndpointBinder
        decreases steps.len(),
    {
        if steps.len() == 0 {
            self
        } else {
            self.run(steps.drop_last()).next(steps.last().0, steps.last().1)
        }
    }

    /// Every state that binding reaches is well formed, as long as the
    /// ports drawn lie in the dynamic range.
    pub proof fn lemma_next_well_formed(self, event: BindEvent, candidate: u16)
        requires
            self.well_formed(),
            is_dynamic_port(candidate),
        ensures
            self.next(event, candidate).well_formed(),
    {
    }

    /// A fixed port on which the server comes up is the one that the
    /// endpoint is bound to.
    pub proof fn lemma_fixed_port_started(port: u16, first: u16, candidate: u16)
        ensures
            Self::begin(Some(port), first).next(BindEvent::Started, candidate)
                == (EndpointBinder::Bound { port }),
    {
    }

    /// A fixed port on which the server does not come up is not tried
    /// again: binding fails with the failure to start.
    pub proof fn lemma_fixed_port_failed(port: u16, first: u16, candidate: u16)
        ensures
            Self::begin(Some(port), first).next(BindEvent::Failed, candidate).result()
                == BindOutcome::Failure(ErrorView::FailedToStart),
    {
    }

    /// An outcome is final. In particular, once a port is bound the binder
    /// keeps it and asks for no other.
    pub proof fn lemma_outcome_is_final(self, steps: Seq<(BindEvent, u16)>)
        requires
            !(self is Binding),
        ensures
            self.run(steps) == self,
        decreases steps.len(),
    {
        if steps.len() > 0 {
            self.lemma_outcome_is_final(steps.drop_last());
        }
    }

    /// The port tried at the given attempt, counted from one, of a run in
    /// which every earlier attempt was refused: the fixed port, or else the
    /// first port drawn, then the port drawn after each refusal.
    pub open spec fn port_tried(
        fixed: Option<u16>,
        first: u16,
        steps: Seq<(BindEvent, u16)>,
        attempt: int,
    ) -> u16 {
        match fixed {
            Some(port) => port,
            None => if attempt <= 1 {
                first
            } else {
                steps[attempt - 2].1
            },
        }
    }

    /// While an attempt is due, every earlier attempt was refused. The
    /// attempt in progress is one more than the steps taken and at most
    /// `MAX_BIND_ATTEMPTS`, a fixed port is at its only attempt, and the
    /// port to try is the one drawn last.
    pub proof fn lemma_binding_follows_refusals(
        fixed: Option<u16>,
        first: u16,
        steps: Seq<(BindEvent, u16)>,
    )
        ensures
            Self::begin(fixed, first).run(steps) is Binding ==> {
                &&& Self::begin(fixed, first).run(steps) == (EndpointBinder::Binding {
                    port: Self::port_tried(fixed, first, steps, steps.len() as int + 1),
                    dynamic: fixed is None,
                    attempt: (steps.len() + 1) as usize,
                })
                &&& steps.len() < MAX_BIND_ATTEMPTS
                &&& fixed is Some ==> steps.len() == 0
                &&& forall|i: int|
                    0 <= i < steps.len() ==> (#[trigger] steps[i]).0 == BindEvent::Failed
            },
        decreases steps.len(),
    {
        if steps.len() > 0 && Self::begin(fixed, first).run(steps) is Binding {
            let earlier = steps.drop_last();
            Self::lemma_binding_follows_refusals(fixed, first, earlier);
            assert forall|i: int| 0 <= i < steps.len() implies (#[trigger] steps[i]).0
                == BindEvent::Failed by {
                if i < earlier.len() {
                    assert(steps[i] == earlier[i]);
                }
            }
        }
    }

    /// Binding never goes on forever: after `MAX_BIND_ATTEMPTS` attempts,
    /// however they ended, no further attempt is due.
    pub proof fn lemma_settles_within_limit(
        fixed: Option<u16>,
        first: u16,
        steps: Seq<(BindEvent, u16)>,
    )
        requires
            steps.len() >= MAX_BIND_ATTEMPTS,
        ensures
            !(Self::begin(fixed, first).run(steps) is Binding),
    {
        Self::lemma_binding_follows_refusals(fixed, first, steps);
    }

    /// The port that the binder reports as bound is one on which the
    /// caller saw the server come up, after every earlier attempt was
    /// refused. A port that was refused is adopted only if it is drawn
    /// again and then binds.
    pub proof fn lemma_bound_port_was_started(
        fixed: Option<u16>,
        first: u16,
        steps: Seq<(BindEvent, u16)>,
    )
        requires
            Self::begin(fixed, first).run(steps) is Bound,
        ensures
            exists|k: int|
                {
                    &&& 0 <= k < steps.len()
                    &&& (#[trigger] steps[k]).0 == BindEvent::Started
                    &&& forall|i: int| 0 <= i < k ==> (#[trigger] steps[i]).0 == BindEvent::Failed
                    &&& Self::begin(fixed, first).run(steps)->Bound_port == Self::port_tried(
                        fixed,
                        first,
                        steps,
                        k + 1,
                    )
                },
        decreases steps.len(),
    {
        let earlier = steps.drop_last();
        let before = Self::begin(fixed, first).run(earlier);
        if before is Bound {
            Self::lemma_bound_port_was_started(fixed, first, earlier);
            let k = choose|k: int|
                {
                    &&& 0 <= k < earlier.len()
                    &&& (#[trigger] earlier[k]).0 == BindEvent::Started
                    &&& forall|i: int|
                        0 <= i < k ==> (#[trigger] earlier[i]).0 == BindEvent::Failed
                    &&& before->Bound_port == Self::port_tried(fixed, first, earlier, k + 1)
                };
            assert(steps[k] == earlier[k]);
            assert forall|i: int| 0 <= i < k implies (#[trigger] steps[i]).0
                == BindEvent::Failed by {
                assert(steps[i] == earlier[i]);
            }
        } else {
            Self::lemma_binding_follows_refusals(fixed, first, earlier);
            let k = steps.len() - 1;
            assert(steps[k].0 == BindEvent::Started);
            assert forall|i: int| 0 <= i < k implies (#[trigger] steps[i]).0
                == BindEvent::Failed by {
                assert(steps[i] == earlier[i]);
            }
        }
    }

    /// When `MAX_BIND_ATTEMPTS` drawn ports in a row are refused, binding
    /// fails for want of a free port and names the last port tried.
    pub proof fn lemma_refusals_exhaust(first: u16, steps: Seq<(BindEvent, u16)>)
        requires
            steps.len() == MAX_BIND_ATTEMPTS,
            forall|i: int| 0 <= i < steps.len() ==> (#[trigger] steps[i]).0 == BindEvent::Failed,
        ensures
            Self::begin(None, first).run(steps) == (EndpointBinder::FreePortNotFound {
                port: Self::port_tried(None, first, steps, MAX_BIND_ATTEMPTS as int),
            }),
    {
        Self::lemma_refusals_keep_binding(first, steps.drop_last());
    }

    /// As long as drawn ports are refused and attempts are left, another
    /// attempt is due.
    proof fn lemma_refusals_keep_binding(first: u16, steps: Seq<(BindEvent, u16)>)
        requires
            steps.len() < MAX_BIND_ATTEMPTS,
            forall|i: int| 0 <= i < steps.len() ==> (#[trigger] steps[i]).0 == BindEvent::Failed,
        ensures
            Self::begin(None, first).run(steps) == (EndpointBinder::Binding {
                port: Self::port_tried(None, first, steps, steps.len() as int + 1),
                dynamic: true,
                attempt: (steps.len() + 1) as usize,
            }),
        decreases steps.len(),
    {
        if steps.len() > 0 {
            Self::lemma_refusals_keep_binding(first, steps.drop_last());
        }
    }
}

/// The IPv4 address that the server binds and advertises, as its four
/// octets.
#[derive(Debug, Clone, Copy, PartialEq, Eq)]
pub struct HostAddress {
    pub octets: [u8; 4],
}

impl HostAddress {
    /// The address with the given octets.
    pub fn new(octets: [u8; 4]) -> (address: Self)
        ensures
            address.octets == octets,
    {
        HostAddress { octets }
    }

    /// The address in dotted decimal notation.
    pub open spec fn dotted(self) -> Seq<char> {
        decimal_digits(self.octets[0] as nat) + "."@ + decimal_digits(self.octets[1] as nat)
            + "."@ + decimal_digits(self.octets[2] as nat) + "."@ + decimal_digits(
            self.octets[3] as nat,
        )
    }
}

/// The URI under which a server on `address` and `port` is reached.
pub open spec fn server_uri_of(address: HostAddress, port: u16) -> Seq<char> {
    "http://"@ + address.dotted() + ":"@ + decimal_digits(port as nat)
}

/// The URI under which a server on `address` and `port` is reached:
/// `http://`, the address in dotted decimal notation, a colon and the port.
pub fn server_uri(address: &HostAddress, port: u16) -> (uri: String)
    ensures
        uri@ == server_uri_of(*address, port),
{
    let mut uri = String::from_str("http://");
    push_decimal(&mut uri, address.octets[0] as u64);
    uri.append(".");
    push_decimal(&mut uri, address.octets[1] as u64);
    uri.append(".");
    push_decimal(&mut uri, address.octets[2] as u64);
    uri.append(".");
    push_decimal(&mut uri, address.octets[3] as u64);
    uri.append(":");
    push_decimal(&mut uri, port as u64);
    uri
}

} // verus!
