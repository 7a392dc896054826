//! The striped transport between two ranks: its identity, the layout of its
//! stripes, and the order in which its connections are brought up.
//!
//! Rank 0 listens and rank 1 connects. The transport never touches a socket
//! itself. It names the next action, the embedding program performs it and
//! reports how it went, and the transport decides what follows.

use crate::fabric::{ConfigError, ConnectStage, ConnectionError, Endpoint, IoFault};
use vstd::prelude::*;

verus! {

/// How often a refused connection is tried again before the stripe fails.
pub const MAX_RETRIES: u32 = 10;

/// Pause between two attempts to connect, in milliseconds.
pub const RETRY_DELAY_MS: u64 = 50;

/// Where connection establishment stands.
#[derive(Clone, Copy, Debug, PartialEq, Eq, Structural)]
pub enum Phase {
    /// Rank 0 opens the listener of `stripe`; those before it are open.
    Binding { stripe: usize },
    /// Rank 0 waits on all its listeners at once.
    Accepting,
    /// Rank 0 takes up the connection that arrived on the listener of `stripe`.
    Collecting { stripe: usize },
    /// Rank 1 connects `stripe`, after `retries` refused attempts.
    Connecting { stripe: usize, retries: u32 },
    /// Rank 1 pauses before attempt number `retries + 1` on `stripe`.
    Backoff { stripe: usize, retries: u32 },
    /// The connection of `stripe` is tuned and split into its two halves.
    Configuring { stripe: usize },
    /// Every stripe is up.
    Ready,
    /// Establishment failed and will not be resumed.
    Failed(ConnectionError),
}

/// What the embedding program is to do next.
#[derive(Clone, Copy, Debug, PartialEq, Eq, Structural)]
pub enum Action {
    /// Open a listener for `stripe` at `endpoint`.
    Bind { stripe: usize, endpoint: Endpoint },
    /// Accept one connection on every listener, all at the same time.
    AcceptAll,
    /// Report what the listener of `stripe` accepted.
    Collect { stripe: usize },
    /// Connect `stripe` to `endpoint`.
    Connect { stripe: usize, endpoint: Endpoint },
    /// Wait for `millis` milliseconds.
    Sleep { millis: u64 },
    /// Switch off coalescing delay on the connection of `stripe` and split it
    /// into an inbound and an outbound half.
    Configure { stripe: usize },
    /// Nothing is left to do: the transport is connected.
    Ready,
    /// Nothing is left to do: construction failed with this error.
    Fail(ConnectionError),
}

/// How the last action went.
#[derive(Clone, Copy, Debug, PartialEq, Eq, Structural)]
pub enum Outcome {
    Done,
    Failed(IoFault),
}

/// The state of a transport.
#[derive(Clone, Copy, Debug, PartialEq, Eq, Structural)]
pub struct Link {
    pub rank: usize,
    pub world_size: usize,
    /// The address of rank 0; stripe `i` uses its port plus `i`.
    pub base: Endpoint,
    pub stripes: usize,
    pub phase: Phase,
}

/// The endpoint of stripe `i`: the base host, at the base port plus `i`.
pub open spec fn stripe_endpoint(base: Endpoint, i: usize) -> Endpoint {
    Endpoint { host: base.host, port: (base.port + i) as u16 }
}

/// The phase a transport starts in.
pub open spec fn first_phase(rank: usize, stripes: usize) -> Phase {
    if stripes == 0 {
        Phase::Ready
    } else if rank == 0 {
        Phase::Binding { stripe: 0 }
    } else {
        Phase::Connecting { stripe: 0, retries: 0 }
    }
}

/// The phase that follows once `stripe` is configured.
pub open spec fn after_stripe(rank: usize, stripes: usize, stripe: usize) -> Phase {
    if stripe + 1 >= stripes {
        Phase::Ready
    } else if rank == 0 {
        Phase::Collecting { stripe: (stripe + 1) as usize }
    } else {
        Phase::Connecting { stripe: (stripe + 1) as usize, retries: 0 }
    }
}

/// The failure of `stripe` at `stage`.
pub open spec fn failed(stage: ConnectStage, stripe: usize, cause: IoFault) -> Phase {
    Phase::Failed(ConnectionError { stage, stripe, cause })
}

/// The phase that follows `phase` when the pending action went as `outcome`
/// says. A reported failure ends establishment, except a refused connection
/// with retries left. `Ready` and `Failed` are final.
pub open spec fn next_phase(rank: usize, stripes: usize, phase: Phase, outcome: Outcome) -> Phase {
    match (phase, outcome) {
        (Phase::Ready, _) => phase,
        (Phase::Failed(_), _) => phase,
        (Phase::Binding { stripe }, Outcome::Done) => if stripe + 1 < stripes {
            Phase::Binding { stripe: (stripe + 1) as usize }
        } else {
            Phase::Accepting
        },
        (Phase::Binding { stripe }, Outcome::Failed(cause)) => failed(
            ConnectStage::Bind,
            stripe,
            cause,
        ),
        (Phase::Accepting, Outcome::Done) => Phase::Collecting { stripe: 0 },
        (Phase::Accepting, Outcome::Failed(cause)) => failed(ConnectStage::Accept, 0, cause),
        (Phase::Collecting { stripe }, Outcome::Done) => Phase::Configuring { stripe },
        (Phase::Collecting { stripe }, Outcome::Failed(cause)) => failed(
            ConnectStage::Accept,
            stripe,
            cause,
        ),
        (Phase::Connecting { stripe, retries }, Outcome::Done) => Phase::Configuring { stripe },
        (Phase::Connecting { stripe, retries }, Outcome::Failed(cause)) => if retries
            < MAX_RETRIES {
            Phase::Backoff { stripe, retries: (retries + 1) as u32 }
        } else {
            failed(ConnectStage::Connect, stripe, cause)
        },
        (Phase::Backoff { stripe, retries }, Outcome::Done) => Phase::Connecting {
            stripe,
            retries,
        },
        (Phase::Backoff { stripe, retries }, Outcome::Failed(cause)) => failed(
            ConnectStage::Connect,
            stripe,
            cause,
        ),
        (Phase::Configuring { stripe }, Outcome::Done) => after_stripe(rank, stripes, stripe),
        (Phase::Configuring { stripe }, Outcome::Failed(cause)) => failed(
            ConnectStage::Configure,
            stripe,
            cause,
        ),
    }
}

/// The action that `link` waits for.
pub open spec fn pending_action(link: Link) -> Action {
    match link.phase {
        Phase::Binding { stripe } => Action::Bind {
            stripe,
            endpoint: stripe_endpoint(link.base, stripe),
        },
        Phase::Accepting => Action::AcceptAll,
        Phase::Collecting { stripe } => Action::Collect { stripe },
        Phase::Connecting { stripe, retries } => Action::Connect {
            stripe,
            endpoint: stripe_endpoint(link.base, stripe),
        },
        Phase::Backoff { stripe, retries } => Action::Sleep { millis: RETRY_DELAY_MS },
        Phase::Configuring { stripe } => Action::Configure { stripe },
        Phase::Ready => Action::Ready,
        Phase::Failed(error) => Action::Fail(error),
    }
}

/// `link` after the pending action went as `outcome` says. Only the phase
/// moves.
pub open spec fn advance(link: Link, outcome: Outcome) -> Link {
    Link { phase: next_phase(link.rank, link.stripes, link.phase, outcome), ..link }
}

/// `phase` can occur in a transport of `rank` with `stripes` stripes.
pub open spec fn phase_fits(rank: usize, stripes: usize, phase: Phase) -> bool {
    match phase {
        Phase::Binding { stripe } => rank == 0 && stripe < stripes,
        Phase::Accepting => rank == 0 && stripes > 0,
        Phase::Collecting { stripe } => rank == 0 && stripe < stripes,
        Phase::Connecting { stripe, retries } => rank == 1 && stripe < stripes && retries
            <= MAX_RETRIES,
        Phase::Backoff { stripe, retries } => rank == 1 && stripe < stripes && 1 <= retries
            <= MAX_RETRIES,
        Phase::Configuring { stripe } => stripe < stripes,
        Phase::Ready => true,
        Phase::Failed(error) => true,
    }
}

/// What holds of every transport: two ranks, a rank among them, ports that
/// exist for every stripe, and a phase that fits.
pub open spec fn well_formed(link: Link) -> bool {
    &&& link.world_size == 2
    &&& link.rank < 2
    &&& link.base.port + link.stripes <= 0x1_0000
    &&& phase_fits(link.rank, link.stripes, link.phase)
}

/// What construction makes of its arguments.
pub open spec fn built(
    rank: usize,
    world_size: usize,
    addrs: Seq<Endpoint>,
    stripes: usize,
) -> Result<Link, ConfigError> {
    if world_size != 2 {
        Err(ConfigError::UnsupportedWorldSize { world_size })
    } else if addrs.len() != world_size {
        Err(ConfigError::AddressCountMismatch { addrs: addrs.len() as usize, world_size })
    } else {
        Ok(
            Link {
                rank,
                world_size,
                base: addrs[0],
                stripes,
                phase: first_phase(rank, stripes),
            },
        )
    }
}

/// `link` after a whole sequence of reports, taken in order.
pub open spec fn run(link: Link, outcomes: Seq<Outcome>) -> Link
    decreases outcomes.len(),
{
    if outcomes.len() == 0 {
        link
    } else {
        advance(run(link, outcomes.drop_last()), outcomes.last())
    }
}

/// An upper bound on the number of reports that `link` still takes before it
/// is `Ready` or `Failed`.
pub open spec fn remaining(link: Link) -> nat {
    let per_stripe = 2 * MAX_RETRIES + 2;
    match link.phase {
        Phase::Binding { stripe } => (3 * link.stripes - stripe + 1) as nat,
        Phase::Accepting => (2 * link.stripes + 1) as nat,
        Phase::Collecting { stripe } => (2 * (link.stripes - stripe)) as nat,
        Phase::Connecting { stripe, retries } => (per_stripe * (link.stripes - stripe) - 2
            * retries) as nat,
        Phase::Backoff { stripe, retries } => (per_stripe * (link.stripes - stripe) - 2 * retries
            + 1) as nat,
        Phase::Configuring { stripe } => if link.rank == 0 {
            (2 * (link.stripes - stripe) - 1) as nat
        } else {
            (per_stripe * (link.stripes - stripe - 1) + 1) as nat
        },
        Phase::Ready => 0,
        Phase::Failed(error) => 0,
    }
}

/// A report changes the phase and nothing else: rank, world size, base
/// address and stripe count are those of construction for as long as the
/// transport lives, and the transport stays well formed.
pub proof fn lemma_identity_is_stable(link: Link, outcomes: Seq<Outcome>)
    requires
        well_formed(link),
    ensures
        well_formed(run(link, outcomes)),
        run(link, outcomes).rank == link.rank,
        run(link, outcomes).world_size == link.world_size,
        run(link, outcomes).base == link.base,
        run(link, outcomes).stripes == link.stripes,
    decreases outcomes.len(),
{
    if outcomes.len() > 0 {
        lemma_identity_is_stable(link, outcomes.drop_last());
    }
}

/// Establishment cannot go on for ever: whatever is reported, each report
/// brings a transport that is neither `Ready` nor `Failed` strictly closer to
/// one of the two.
pub proof fn lemma_every_report_makes_progress(link: Link, outcome: Outcome)
    requires
        well_formed(link),
        !(link.phase is Ready),
        !(link.phase is Failed),
    ensures
        remaining(advance(link, outcome)) < remaining(link),
{
}

/// `link` after as many refused attempts to connect as `faults` holds, with
/// the pause taken after each refusal that leaves a retry.
pub open spec fn refuse_all(link: Link, faults: Seq<IoFault>) -> Link
    decreases faults.len(),
{
    if faults.len() == 0 {
        link
    } else {
        let refused = advance(link, Outcome::Failed(faults.first()));
        if refused.phase is Backoff {
            refuse_all(advance(refused, Outcome::Done), faults.drop_first())
        } else {
            refused
        }
    }
}

/// The retry budget is bounded: a stripe that has been refused `retries`
/// times fails for good at the stage `Connect` once it is refused
/// `MAX_RETRIES + 1 - retries` times more, and the error it fails with is the
/// one reported last.
pub proof fn lemma_retry_budget(link: Link, faults: Seq<IoFault>)
    requires
        well_formed(link),
        link.phase is Connecting,
        faults.len() == MAX_RETRIES + 1 - link.phase->Connecting_retries,
    ensures
        refuse_all(link, faults).phase == failed(
            ConnectStage::Connect,
            link.phase->Connecting_stripe,
            faults.last(),
        ),
    decreases faults.len(),
{
    let refused = advance(link, Outcome::Failed(faults.first()));
    if refused.phase is Backoff {
        let again = advance(refused, Outcome::Done);
        lemma_retry_budget(again, faults.drop_first());
        assert(faults.drop_first().last() == faults.last());
    } else {
        assert(faults.len() == 1);
    }
}

/// The striped transport of one rank.
pub struct TcpFabric {
    link: Link,
}

impl View for TcpFabric {
    type V = Link;

    closed spec fn view(&self) -> Link {
        self.link
    }
}

impl TcpFabric {
    #[verifier::type_invariant]
    spec fn inv(self) -> bool {
        well_formed(self.link)
    }

    /// Checks the configuration and, where it is sound, returns the transport
    /// in its first phase. Nothing has touched the network by then: a
    /// configuration error comes before the first action.
    ///
    /// `addrs` holds one address per rank; every stripe uses the host of the
    /// first and its port plus the stripe's index, so those ports must exist.
    pub fn new(rank: usize, world_size: usize, addrs: &[Endpoint], num_streams: usize) -> (made:
        Result<TcpFabric, ConfigError>)
        requires
            world_size == 2 && addrs@.len() == 2 ==> rank < 2 && addrs@[0].port + num_streams
                <= 0x1_0000,
        ensures
            made is Ok <==> built(rank, world_size, addrs@, num_streams) is Ok,
            made matches Ok(fabric) ==> Ok::<Link, ConfigError>(fabric@) == built(
                rank,
                world_size,
                addrs@,
                num_streams,
            ),
            made matches Err(error) ==> Err::<Link, ConfigError>(error) == built(
                rank,
                world_size,
                addrs@,
                num_streams,
            ),
    {
        if world_size != 2 {
            return Err(ConfigError::UnsupportedWorldSize { world_size });
        }
        if addrs.len() != world_size {
            return Err(ConfigError::AddressCountMismatch { addrs: addrs.len(), world_size });
        }
        let phase = if num_streams == 0 {
            Phase::Ready
        } else if rank == 0 {
            Phase::Binding { stripe: 0 }
        } else {
            Phase::Connecting { stripe: 0, retries: 0 }
        };
        Ok(TcpFabric { link: Link { rank, world_size, base: addrs[0], stripes: num_streams, phase } })
    }

    /// A transport with a single stripe.
    pub fn new_single(rank: usize, world_size: usize, addrs: &[Endpoint]) -> (made: Result<
        TcpFabric,
        ConfigError,
    >)
        requires
            world_size == 2 && addrs@.len() == 2 ==> rank < 2 && addrs@[0].port < 0xffff,
        ensures
            made is Ok <==> built(rank, world_size, addrs@, 1) is Ok,
            made matches Ok(fabric) ==> Ok::<Link, ConfigError>(fabric@) == built(
                rank,
                world_size,
                addrs@,
                1,
            ),
            made matches Err(error) ==> Err::<Link, ConfigError>(error) == built(
                rank,
                world_size,
                addrs@,
                1,
            ),
    {
        TcpFabric::new(rank, world_size, addrs, 1)
    }

    /// This process's rank.
    pub fn rank(&self) -> (rank: usize)
        ensures
            rank == self@.rank,
            rank < 2,
    {
        proof {
            use_type_invariant(self);
        }
        self.link.rank
    }

    /// Total number of ranks.
    pub fn world_size(&self) -> (world_size: usize)
        ensures
            world_size == self@.world_size,
            world_size == 2,
    {
        proof {
            use_type_invariant(self);
        }
        self.link.world_size
    }

    /// Number of stripes.
    pub fn num_streams(&self) -> (stripes: usize)
        ensures
            stripes == self@.stripes,
    {
        self.link.stripes
    }

    /// Whether every stripe is up.
    pub fn is_ready(&self) -> (ready: bool)
        ensures
            ready <==> self@.phase is Ready,
    {
        match self.link.phase {
            Phase::Ready => true,
            _ => false,
        }
    }

    /// The action the transport waits for.
    pub fn pending(&self) -> (action: Action)
        ensures
            action == pending_action(self@),
    {
        proof {
            use_type_invariant(self);
        }
        match self.link.phase {
            Phase::Binding { stripe } => Action::Bind {
                stripe,
                endpoint: self.endpoint_of(stripe),
            },
            Phase::Accepting => Action::AcceptAll,
            Phase::Collecting { stripe } => Action::Collect { stripe },
            Phase::Connecting { stripe, retries } => Action::Connect {
                stripe,
                endpoint: self.endpoint_of(stripe),
            },
            Phase::Backoff { stripe, retries } => Action::Sleep { millis: RETRY_DELAY_MS },
            Phase::Configuring { stripe } => Action::Configure { stripe },
            Phase::Ready => Action::Ready,
            Phase::Failed(error) => Action::Fail(error),
        }
    }

    fn endpoint_of(&self, stripe: usize) -> (endpoint: Endpoint)
        requires
            stripe < self@.stripes,
        ensures
            endpoint == stripe_endpoint(self@.base, stripe),
    {
        proof {
            use_type_invariant(self);
        }
        let offset: u16 = stripe as u16;
        Endpoint { host: self.link.base.host, port: self.link.base.port + offset }
    }

    /// Takes in how the pending action went and returns the action that
    /// follows. Rank, world size, base address and stripe count stay as they
    /// are.
    pub fn step(&mut self, outcome: Outcome) -> (action: Action)
        ensures
            final(self)@ == advance(old(self)@, outcome),
            action == pending_action(final(self)@),
    {
        proof {
            use_type_invariant(&*self);
        }
        let rank = self.link.rank;
        let stripes = self.link.stripes;
        let phase = match (self.link.phase, outcome) {
            (Phase::Ready, _) => Phase::Ready,
            (Phase::Failed(error), _) => Phase::Failed(error),
            (Phase::Binding { stripe }, Outcome::Done) => if stripe + 1 < stripes {
                Phase::Binding { stripe: stripe + 1 }
            } else {
                Phase::Accepting
            },
            (Phase::Binding { stripe }, Outcome::Failed(cause)) => Phase::Failed(
                ConnectionError { stage: ConnectStage::Bind, stripe, cause },
            ),
            (Phase::Accepting, Outcome::Done) => Phase::Collecting { stripe: 0 },
            (Phase::Accepting, Outcome::Failed(cause)) => Phase::Failed(
                ConnectionError { stage: ConnectStage::Accept, stripe: 0, cause },
            ),
            (Phase::Collecting { stripe }, Outcome::Done) => Phase::Configuring { stripe },
            (Phase::Collecting { stripe }, Outcome::Failed(cause)) => Phase::Failed(
                ConnectionError { stage: ConnectStage::Accept, stripe, cause },
            ),
            (Phase::Connecting { stripe, retries }, Outcome::Done) => Phase::Configuring {
                stripe,
            },
            (Phase::Connecting { stripe, retries }, Outcome::Failed(cause)) => if retries
                < MAX_RETRIES {
                Phase::Backoff { stripe, retries: retries + 1 }
            } else {
                Phase::Failed(ConnectionError { stage: ConnectStage::Connect, stripe, cause })
            },
            (Phase::Backoff { stripe, retries }, Outcome::Done) => Phase::Connecting {
                stripe,
                retries,
            },
            (Phase::Backoff { stripe, retries }, Outcome::Failed(cause)) => Phase::Failed(
                ConnectionError { stage: ConnectStage::Connect, stripe, cause },
            ),
            (Phase::Configuring { stripe }, Outcome::Done) => if stripe + 1 >= stripes {
                Phase::Ready
            } else if rank == 0 {
                Phase::Collecting { stripe: stripe + 1 }
            } else {
                Phase::Connecting { stripe: stripe + 1, retries: 0 }
            },
            (Phase::Configuring { stripe }, Outcome::Failed(cause)) => Phase::Failed(
                ConnectionError { stage: ConnectStage::Configure, stripe, cause },
            ),
        };
        self.link.phase = phase;
        self.pending()
    }
}

} // verus!
