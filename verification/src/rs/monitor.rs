//! Liveness accounting. A round lies between two alarms; a peer that answers in
//! a round has its misses forgotten, one that does not has one more.
use vstd::prelude::*;
use crate::abi::endpoint::Endpoint;
use crate::table;

verus! {

/// Peers that can be monitored.
pub const CAP: usize = 8;

/// Rounds a peer may miss in a row before it counts as dead.
pub const DEAD_THRESHOLD: u32 = 3;

/// One monitored peer. A slot not in use is free.
#[derive(Copy, Clone, Debug, PartialEq, Eq, Structural)]
pub struct Server {
    pub endpoint: Endpoint,
    /// Answered during this round.
    pub seen: bool,
    /// Rounds missed in a row.
    pub missed: u32,
    pub in_use: bool,
}

impl Server {
    /// A free slot.
    pub open spec fn empty_spec() -> Server {
        Server { endpoint: 0, seen: false, missed: 0, in_use: false }
    }

    /// A free slot.
    #[verifier::when_used_as_spec(empty_spec)]
    pub fn empty() -> (s: Server)
        ensures
            s == Server::empty_spec(),
    {
        Server { endpoint: 0, seen: false, missed: 0, in_use: false }
    }
}

/// A peer just taken up.
pub open spec fn fresh(e: Endpoint) -> Server {
    Server { endpoint: e, seen: false, missed: 0, in_use: true }
}

/// The slots that watch `e`.
pub open spec fn watches(e: Endpoint) -> spec_fn(Server) -> bool {
    |s: Server| s.in_use && s.endpoint == e
}

/// The peers that count as dead.
pub open spec fn dead() -> spec_fn(Server) -> bool {
    |s: Server| s.in_use && s.missed >= DEAD_THRESHOLD
}

/// The table that watches `peers`, as many as fit.
pub open spec fn watching(peers: Seq<Endpoint>) -> Seq<Server> {
    Seq::new(
        8,
        |i: int|
            if i < peers.len() {
                fresh(peers[i])
            } else {
                Server::empty_spec()
            },
    )
}

/// The table after an answer from `e`.
pub open spec fn answered(t: Seq<Server>, e: Endpoint) -> Seq<Server> {
    let i = table::first(t, watches(e));
    if i < t.len() {
        t.update(i, Server { seen: true, ..t[i] })
    } else {
        t
    }
}

/// One slot at the end of a round.
pub open spec fn closed_out(s: Server) -> Server {
    if !s.in_use {
        s
    } else if s.seen {
        Server { missed: 0, seen: false, ..s }
    } else if s.missed < u32::MAX {
        Server { missed: (s.missed + 1) as u32, seen: false, ..s }
    } else {
        s
    }
}

/// The table at the end of a round.
pub open spec fn swept(t: Seq<Server>) -> Seq<Server> {
    Seq::new(t.len(), |i: int| closed_out(t[i]))
}

/// Watch `endpoints`, as many as fit; the result is how many that is.
pub fn init_in(t: &mut [Server; 8], endpoints: &[Endpoint]) -> (n: usize)
    ensures
        final(t)@ == watching(endpoints@),
        n == (if endpoints@.len() < 8 {
            endpoints@.len() as int
        } else {
            8
        }),
{
    *t = [Server::empty();8];
    let mut n: usize = 0;
    while n < endpoints.len() && n < 8
        invariant
            n <= 8,
            n <= endpoints@.len(),
            forall|i: int| 0 <= i < n ==> t@[i] == fresh(endpoints@[i]),
            forall|i: int| n <= i < 8 ==> t@[i] == Server::empty_spec(),
        decreases 8 - n,
    {
        t[n] = Server { endpoint: endpoints[n], seen: false, missed: 0, in_use: true };
        n = n + 1;
    }
    assert(t@ =~= watching(endpoints@));
    n
}

/// Note an answer from `endpoint`. Whether it is a peer at all.
pub fn mark_alive_in(t: &mut [Server; 8], endpoint: Endpoint) -> (known: bool)
    ensures
        known == table::any(old(t)@, watches(endpoint)),
        final(t)@ == answered(old(t)@, endpoint),
{
    let mut i: usize = 0;
    while i < 8
        invariant
            i <= 8,
            t@ == old(t)@,
            table::first(t@, watches(endpoint)) == table::first_from(
                t@,
                watches(endpoint),
                i as int,
            ),
        decreases 8 - i,
    {
        if t[i].in_use && t[i].endpoint == endpoint {
            t[i].seen = true;
            assert(t@ =~= answered(old(t)@, endpoint));
            return true;
        }
        i = i + 1;
    }
    false
}

/// Close out the round. How many peers now count as dead.
pub fn sweep_in(t: &mut [Server; 8]) -> (n: u32)
    ensures
        final(t)@ == swept(old(t)@),
        n == table::count(final(t)@, dead()),
{
    let mut n: u32 = 0;
    let mut i: usize = 0;
    let ghost goal = swept(t@);
    assert(goal.take(0).len() == 0);
    while i < 8
        invariant
            i <= 8,
            goal == swept(old(t)@),
            goal.len() == 8,
            t@ == goal.take(i as int) + old(t)@.skip(i as int),
            n == table::count(goal.take(i as int), dead()),
            n <= i,
        decreases 8 - i,
    {
        assert(t@[i as int] == old(t)@[i as int]);
        proof {
            table::lemma_count_push(goal, dead(), i as int);
        }
        if t[i].in_use {
            if t[i].seen {
                t[i].missed = 0;
            } else if t[i].missed < u32::MAX {
                t[i].missed = t[i].missed + 1;
            }
            t[i].seen = false;
            if t[i].missed >= DEAD_THRESHOLD {
                n = n + 1;
            }
        }
        assert(t@ =~= goal.take(i + 1) + old(t)@.skip(i + 1));
        i = i + 1;
    }
    assert(goal.take(8) =~= goal);
    assert(t@ =~= goal);
    n
}

/// The monitor's state.
pub struct Monitor {
    pub peers: [Server; 8],
}

/// A monitor that watches `endpoints`, as many as fit.
pub fn init(m: &mut Monitor, endpoints: &[Endpoint]) -> (n: usize)
    ensures
        final(m).peers@ == watching(endpoints@),
        n == (if endpoints@.len() < 8 {
            endpoints@.len() as int
        } else {
            8
        }),
{
    init_in(&mut m.peers, endpoints)
}

/// Note an answer from `endpoint`.
pub fn mark_alive(m: &mut Monitor, endpoint: Endpoint) -> (known: bool)
    ensures
        known == table::any(old(m).peers@, watches(endpoint)),
        final(m).peers@ == answered(old(m).peers@, endpoint),
{
    mark_alive_in(&mut m.peers, endpoint)
}

/// Close out the round.
pub fn sweep(m: &mut Monitor) -> (n: u32)
    ensures
        final(m).peers@ == swept(old(m).peers@),
        n == table::count(final(m).peers@, dead()),
{
    sweep_in(&mut m.peers)
}

/// The table after `n` rounds without any answer.
pub open spec fn silent(t: Seq<Server>, n: nat) -> Seq<Server>
    decreases n,
{
    if n == 0 {
        t
    } else {
        swept(silent(t, (n - 1) as nat))
    }
}

/// A peer that stays silent misses every round, and is dead from the threshold
/// on, never before.
pub proof fn law_silence_adds_up(t: Seq<Server>, n: nat, i: int)
    requires
        0 <= i < t.len(),
        t[i].in_use,
        !t[i].seen,
    ensures
        silent(t, n).len() == t.len(),
        silent(t, n)[i] == (Server {
            missed: if t[i].missed + n < u32::MAX {
                (t[i].missed + n) as u32
            } else {
                u32::MAX
            },
            ..t[i]
        }),
        dead()(silent(t, n)[i]) == (t[i].missed + n >= DEAD_THRESHOLD),
    decreases n,
{
    if n > 0 {
        law_silence_adds_up(t, (n - 1) as nat, i);
    }
}

/// An answer keeps a peer alive: the round ends with no misses against it, and
/// nothing is remembered of the answer in the next round. Other peers' tallies go
/// on as if it had not come.
pub proof fn law_answer_resets(t: Seq<Server>, e: Endpoint, i: int)
    requires
        i == table::first(t, watches(e)),
        i < t.len(),
    ensures
        swept(answered(t, e))[i].missed == 0,
        !swept(answered(t, e))[i].seen,
        !dead()(swept(answered(t, e))[i]),
        forall|k: int|
            0 <= k < t.len() && k != i ==> swept(answered(t, e))[k] == closed_out(#[trigger] t[k]),
{
    table::lemma_first(t, watches(e));
}

/// An answer from a stranger changes nothing.
pub proof fn law_stranger_is_ignored(t: Seq<Server>, e: Endpoint)
    requires
        !table::any(t, watches(e)),
    ensures
        answered(t, e) == t,
{
}

/// One peer at the end of a round: heard from, its misses are forgotten; not heard from,
/// it has one more. It is the same peer, and has not been heard from in the next round.
pub proof fn law_round_counts_one_miss(t: Seq<Server>, i: int)
    requires
        0 <= i < t.len(),
        t[i].in_use,
        t[i].missed < u32::MAX,
    ensures
        swept(t)[i].endpoint == t[i].endpoint,
        swept(t)[i].in_use,
        !swept(t)[i].seen,
        t[i].seen ==> swept(t)[i].missed == 0,
        !t[i].seen ==> swept(t)[i].missed == t[i].missed + 1,
        dead()(swept(t)[i]) <==> !t[i].seen && t[i].missed >= 2,
{
}

/// A free slot stays free, whatever happens.
pub proof fn law_free_slots_stay_free(t: Seq<Server>, e: Endpoint, i: int)
    requires
        0 <= i < t.len(),
        !t[i].in_use,
    ensures
        swept(t)[i] == t[i],
        answered(t, e)[i] == t[i],
        !dead()(t[i]),
{
    table::lemma_first(t, watches(e));
}

/// An answer is noted for the peer it came from, and says nothing of any other: no
/// tally changes until the round is over.
pub proof fn law_answer_marks_its_sender(t: Seq<Server>, e: Endpoint, i: int)
    requires
        0 <= i < t.len(),
        forall|k: int| 0 <= k < t.len() && k != i && (#[trigger] t[k]).in_use ==> t[k].endpoint != e,
    ensures
        answered(t, e).len() == t.len(),
        t[i].in_use && t[i].endpoint == e ==> answered(t, e)[i].seen,
        forall|k: int| 0 <= k < t.len() && k != i ==> answered(t, e)[k] == #[trigger] t[k],
        answered(t, e)[i].missed == t[i].missed,
        answered(t, e)[i].endpoint == t[i].endpoint,
        answered(t, e)[i].in_use == t[i].in_use,
        t[i].seen ==> answered(t, e)[i].seen,
{
    table::lemma_first(t, watches(e));
    let f = table::first(t, watches(e));
    if f < t.len() && f != i {
        assert(t[f].in_use);
    }
    if t[i].in_use && t[i].endpoint == e {
        assert(watches(e)(t[i]));
    }
}

/// Every peer that fits is watched from the start, under its own endpoint and with a
/// clean record.
pub proof fn law_peers_start_clean(peers: Seq<Endpoint>, i: int)
    requires
        0 <= i < 8,
    ensures
        watching(peers).len() == 8,
        watching(peers)[i].in_use <==> i < peers.len(),
        i < peers.len() ==> watching(peers)[i].endpoint == peers[i],
        watching(peers)[i].missed == 0,
        !watching(peers)[i].seen,
{
}

} // verus!
