//! Which backends a request is raced against, how long the secondaries wait,
//! and what the client gets back.
use vstd::prelude::*;

verus! {

/// Secondaries' head-start window when nothing better is known.
pub const DEFAULT_SECONDARY_DELAY_MS: u64 = 25;

#[derive(PartialEq, Eq, Structural, Clone, Copy, Debug)]
pub enum BackendRole {
    Primary,
    Secondary,
}

/// A configured backend. `name` identifies it.
pub struct Backend {
    pub url: String,
    pub name: String,
    pub role: BackendRole,
}

impl Backend {
    pub fn is_primary(&self) -> (r: bool)
        ensures
            r == (self.role == BackendRole::Primary),
    {
        self.role == BackendRole::Primary
    }

    pub fn duplicate(&self) -> (r: Backend)
        ensures
            r.url@ == self.url@,
            r.name@ == self.name@,
            r.role == self.role,
    {
        Backend { url: self.url.clone(), name: self.name.clone(), role: self.role }
    }
}

/// Index of the first primary backend, if any.
pub open spec fn first_primary(backends: Seq<Backend>, n: int) -> Option<usize>
    decreases n,
{
    if n <= 0 {
        None
    } else {
        match first_primary(backends, n - 1) {
            Some(p) => Some(p),
            None => if backends[n - 1].role == BackendRole::Primary { Some((n - 1) as usize) } else { None },
        }
    }
}

proof fn lemma_first_primary_stable(backends: Seq<Backend>, k: int, n: int)
    requires
        k <= n,
        first_primary(backends, k) is Some,
    ensures
        first_primary(backends, n) == first_primary(backends, k),
    decreases n - k,
{
    if k < n {
        lemma_first_primary_stable(backends, k, n - 1);
    }
}

/// Finds the primary backend.
pub fn primary_index(backends: &Vec<Backend>) -> (r: Option<usize>)
    ensures
        r == first_primary(backends@, backends@.len() as int),
        r matches Some(p) ==> p < backends@.len() && backends@[p as int].role == BackendRole::Primary,
{
    let mut i: usize = 0;
    while i < backends.len()
        invariant
            i <= backends@.len(),
            first_primary(backends@, i as int) is None,
        decreases backends@.len() - i,
    {
        if backends[i].is_primary() {
            proof {
                lemma_first_primary_stable(backends@, i + 1, backends@.len() as int);
            }
            return Some(i);
        }
        i = i + 1;
    }
    None
}

/// Whether a backend takes part in a request. A stateful request goes to the
/// primary alone; otherwise the primary always takes part, and a secondary
/// only when it is neither behind nor unavailable.
pub open spec fn admits(role: BackendRole, stateful: bool, behind: bool, available: bool) -> bool {
    if stateful {
        role == BackendRole::Primary
    } else {
        role == BackendRole::Primary || (!behind && available)
    }
}

/// Indices, in order, of the first `n` backends that take part.
pub open spec fn eligible_prefix(
    roles: Seq<BackendRole>,
    stateful: bool,
    behind: Seq<bool>,
    available: Seq<bool>,
    n: int,
) -> Seq<usize>
    decreases n,
{
    if n <= 0 {
        Seq::empty()
    } else {
        let p = eligible_prefix(roles, stateful, behind, available, n - 1);
        if admits(roles[n - 1], stateful, behind[n - 1], available[n - 1]) {
            p.push((n - 1) as usize)
        } else {
            p
        }
    }
}

pub open spec fn roles_of(backends: Seq<Backend>) -> Seq<BackendRole> {
    backends.map_values(|b: Backend| b.role)
}

/// Indices, in order, of the backends that a request is sent to.
/// `behind[i]` and `available[i]` are what height tracking and probing report
/// for backend `i`; a disabled source reports `false` and `true`.
pub fn eligible_backends(backends: &Vec<Backend>, stateful: bool, behind: &Vec<bool>, available: &Vec<bool>) -> (r: Vec<usize>)
    requires
        behind@.len() == backends@.len(),
        available@.len() == backends@.len(),
    ensures
        r@ == eligible_prefix(roles_of(backends@), stateful, behind@, available@, backends@.len() as int),
{
    let mut r: Vec<usize> = Vec::new();
    let mut i: usize = 0;
    while i < backends.len()
        invariant
            i <= backends@.len(),
            behind@.len() == backends@.len(),
            available@.len() == backends@.len(),
            r@ == eligible_prefix(roles_of(backends@), stateful, behind@, available@, i as int),
        decreases backends@.len() - i,
    {
        let is_primary = backends[i].is_primary();
        let take = if stateful { is_primary } else { is_primary || (!behind[i] && available[i]) };
        if take {
            r.push(i);
        }
        i = i + 1;
    }
    r
}

/// With no secondary behind, every secondary available and a request that
/// is not stateful, every backend takes part, in configuration order.
pub proof fn lemma_all_healthy_all_eligible(roles: Seq<BackendRole>, behind: Seq<bool>, available: Seq<bool>, n: nat)
    requires
        n <= roles.len(),
        behind.len() == roles.len(),
        available.len() == roles.len(),
        forall|i: int| 0 <= i < roles.len() && roles[i] == BackendRole::Secondary ==> !behind[i] && available[i],
    ensures
        eligible_prefix(roles, false, behind, available, n as int) == Seq::new(n, |i: int| i as usize),
    decreases n,
{
    if n > 0 {
        lemma_all_healthy_all_eligible(roles, behind, available, (n - 1) as nat);
        assert(Seq::new((n - 1) as nat, |i: int| i as usize).push((n - 1) as usize) =~= Seq::new(n, |i: int| i as usize));
    } else {
        assert(Seq::new(n, |i: int| i as usize) =~= Seq::<usize>::empty());
    }
}

/// A stateful request takes exactly the primary, whatever the heights and
/// the health of the secondaries.
pub proof fn lemma_stateful_primary_only(roles: Seq<BackendRole>, behind: Seq<bool>, available: Seq<bool>, p: nat, n: nat)
    requires
        n <= roles.len(),
        p < roles.len(),
        behind.len() == roles.len(),
        available.len() == roles.len(),
        roles[p as int] == BackendRole::Primary,
        forall|i: int| 0 <= i < roles.len() && i != p ==> roles[i] == BackendRole::Secondary,
    ensures
        eligible_prefix(roles, true, behind, available, n as int) == (if n > p { seq![p as usize] } else { Seq::<usize>::empty() }),
    decreases n,
{
    if n > 0 {
        lemma_stateful_primary_only(roles, behind, available, p, (n - 1) as nat);
        if n - 1 == p {
            assert(Seq::<usize>::empty().push(p as usize) =~= seq![p as usize]);
        }
    }
}

/// The largest of the per-method delays, or zero for none.
pub open spec fn max_delay(delays: Seq<u64>) -> u64
    decreases delays.len(),
{
    if delays.len() == 0 {
        0
    } else {
        let m = max_delay(delays.drop_last());
        if delays.last() > m { delays.last() } else { m }
    }
}

/// The head start secondaries wait: the default for a request without
/// methods; otherwise the largest per-method delay, or `fallback` when that
/// is zero.
pub open spec fn combined_delay(delays: Seq<u64>, fallback: u64) -> u64 {
    if delays.len() == 0 {
        DEFAULT_SECONDARY_DELAY_MS
    } else if max_delay(delays) == 0 {
        fallback
    } else {
        max_delay(delays)
    }
}

/// Computes `combined_delay` from one delay per method of the request.
pub fn combine_method_delays(delays: &Vec<u64>, fallback: u64) -> (r: u64)
    ensures
        r == combined_delay(delays@, fallback),
{
    if delays.len() == 0 {
        return DEFAULT_SECONDARY_DELAY_MS;
    }
    let mut m: u64 = 0;
    let mut i: usize = 0;
    while i < delays.len()
        invariant
            i <= delays@.len(),
            m == max_delay(delays@.subrange(0, i as int)),
        decreases delays@.len() - i,
    {
        assert(delays@.subrange(0, i + 1).drop_last() =~= delays@.subrange(0, i as int));
        if delays[i] > m {
            m = delays[i];
        }
        i = i + 1;
    }
    assert(delays@.subrange(0, delays@.len() as int) =~= delays@);
    if m == 0 {
        fallback
    } else {
        m
    }
}

/// How one dispatched call ended.
#[derive(PartialEq, Eq, Structural, Clone, Copy, Debug)]
pub enum LegOutcome {
    /// The backend answered with this HTTP status.
    Responded { backend: usize, status: u16 },
    /// The call failed in transport or timed out.
    Failed { backend: usize },
}

/// What the client is sent.
#[derive(PartialEq, Eq, Structural, Clone, Copy, Debug)]
pub enum ClientReply {
    /// The backend's response, status and body verbatim.
    Forward { backend: usize, status: u16 },
    /// The first call to finish failed.
    BadGateway { backend: usize },
    /// No backend was eligible.
    NoBackend,
    /// Calls were made but nothing came back.
    NoResponse,
}

pub const STATUS_BAD_GATEWAY: u16 = 502;
pub const STATUS_SERVICE_UNAVAILABLE: u16 = 503;
pub const STATUS_GATEWAY_TIMEOUT: u16 = 504;

/// The reply decided by the first call to finish; later ones only feed
/// statistics.
pub open spec fn reply_spec(dispatched: usize, first: Option<LegOutcome>) -> ClientReply {
    if dispatched == 0 {
        ClientReply::NoBackend
    } else {
        match first {
            None => ClientReply::NoResponse,
            Some(LegOutcome::Responded { backend, status }) => ClientReply::Forward { backend, status },
            Some(LegOutcome::Failed { backend }) => ClientReply::BadGateway { backend },
        }
    }
}

/// Decides the reply from the number of calls made and the first result.
pub fn reply_for_first(dispatched: usize, first: Option<LegOutcome>) -> (r: ClientReply)
    ensures
        r == reply_spec(dispatched, first),
{
    if dispatched == 0 {
        return ClientReply::NoBackend;
    }
    match first {
        None => ClientReply::NoResponse,
        Some(LegOutcome::Responded { backend, status }) => ClientReply::Forward { backend, status },
        Some(LegOutcome::Failed { backend }) => ClientReply::BadGateway { backend },
    }
}

impl ClientReply {
    /// The HTTP status the client sees.
    pub fn status_code(&self) -> (r: u16)
        ensures
            r == match *self {
                ClientReply::Forward { status, .. } => status,
                ClientReply::BadGateway { .. } => STATUS_BAD_GATEWAY,
                ClientReply::NoBackend => STATUS_SERVICE_UNAVAILABLE,
                ClientReply::NoResponse => STATUS_GATEWAY_TIMEOUT,
            },
    {
        match self {
            ClientReply::Forward { status, .. } => *status,
            ClientReply::BadGateway { .. } => STATUS_BAD_GATEWAY,
            ClientReply::NoBackend => STATUS_SERVICE_UNAVAILABLE,
            ClientReply::NoResponse => STATUS_GATEWAY_TIMEOUT,
        }
    }
}

} // verus!
