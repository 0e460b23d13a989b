use vstd::prelude::*;

verus! {

pub open spec fn u64_max() -> nat {
    0xffff_ffff_ffff_ffff
}

pub open spec fn clamp_u64(x: nat) -> nat {
    if x > u64_max() { u64_max() } else { x }
}

/// `current - previous`, or zero when the counter went backwards.
pub open spec fn delta_spec(previous: u64, current: u64) -> nat {
    if current >= previous { (current - previous) as nat } else { 0 }
}

/// Bytes per second from a byte delta over `interval_micros` microseconds,
/// rounded down and capped at `u64::MAX`. Over no time at all, a delta of
/// zero gives zero and any other delta the cap.
pub open spec fn per_second(delta: nat, interval_micros: nat) -> nat {
    if interval_micros == 0 {
        if delta == 0 { 0 } else { u64_max() }
    } else {
        clamp_u64(delta * 1_000_000 / interval_micros)
    }
}

/// The download and upload rates between two counter snapshots; none
/// without a previous snapshot.
pub open spec fn rate_spec(
    previous: Option<(u64, u64)>,
    current: (u64, u64),
    interval_micros: u64,
) -> Option<(u64, u64)> {
    match previous {
        None => None,
        Some(p) => Some((
            per_second(delta_spec(p.0, current.0), interval_micros as nat) as u64,
            per_second(delta_spec(p.1, current.1), interval_micros as nat) as u64,
        )),
    }
}

pub open spec fn received_sum(counters: Seq<(u64, u64)>) -> nat
    decreases counters.len(),
{
    if counters.len() == 0 {
        0
    } else {
        received_sum(counters.drop_last()) + counters.last().0 as nat
    }
}

pub open spec fn transmitted_sum(counters: Seq<(u64, u64)>) -> nat
    decreases counters.len(),
{
    if counters.len() == 0 {
        0
    } else {
        transmitted_sum(counters.drop_last()) + counters.last().1 as nat
    }
}

/// The snapshot of all interfaces together: each total summed, capped at
/// `u64::MAX`.
pub open spec fn aggregate_spec(counters: Seq<(u64, u64)>) -> (u64, u64) {
    (clamp_u64(received_sum(counters)) as u64, clamp_u64(transmitted_sum(counters)) as u64)
}

/// Sums the per-interface `(received, transmitted)` byte counters into one
/// snapshot.
pub fn aggregate_counters(counters: &Vec<(u64, u64)>) -> (r: (u64, u64))
    ensures
        r == aggregate_spec(counters@),
{
    let mut received: u64 = 0;
    let mut transmitted: u64 = 0;
    let mut i: usize = 0;
    while i < counters.len()
        invariant
            i <= counters@.len(),
            received == clamp_u64(received_sum(counters@.take(i as int))),
            transmitted == clamp_u64(transmitted_sum(counters@.take(i as int))),
        decreases counters@.len() - i,
    {
        let (rx, tx) = counters[i];
        proof {
            let next = counters@.take(i + 1);
            assert(next.drop_last() =~= counters@.take(i as int));
        }
        received = received.saturating_add(rx);
        transmitted = transmitted.saturating_add(tx);
        i = i + 1;
    }
    proof {
        assert(counters@.take(i as int) =~= counters@);
    }
    (received, transmitted)
}

/// Bytes per second for `delta` bytes over `interval_micros` microseconds.
fn rate_of(delta: u64, interval_micros: u64) -> (r: u64)
    ensures
        r == per_second(delta as nat, interval_micros as nat),
{
    if interval_micros == 0 {
        if delta == 0 { 0 } else { u64::MAX }
    } else {
        assert((delta as u128) * 1_000_000 <= 0xffff_ffff_ffff_ffff * 1_000_000) by (nonlinear_arith)
            requires
                delta <= 0xffff_ffff_ffff_ffff,
        ;
        let q: u128 = (delta as u128) * 1_000_000 / (interval_micros as u128);
        if q > u64::MAX as u128 { u64::MAX } else { q as u64 }
    }
}

/// Derives the `(download, upload)` rates in bytes per second from the
/// previous and current cumulative counter snapshots.
///
/// `interval_micros` must be the time measured between the two snapshots: a
/// caller that passes an assumed interval misreports the rates in proportion
/// to how far the real elapsed time differs from it. A counter that went
/// backwards (reset, renumbered interface) counts as no traffic.
pub fn network_rate(
    previous: Option<(u64, u64)>,
    current: (u64, u64),
    interval_micros: u64,
) -> (r: Option<(u64, u64)>)
    ensures
        r == rate_spec(previous, current, interval_micros),
{
    match previous {
        None => None,
        Some((prev_rx, prev_tx)) => {
            let down = rate_of(current.0.saturating_sub(prev_rx), interval_micros);
            let up = rate_of(current.1.saturating_sub(prev_tx), interval_micros);
            Some((down, up))
        },
    }
}

/// A counter that went backwards yields a rate of zero in that direction,
/// whatever the interval, once a previous snapshot exists.
pub proof fn lemma_regression_clamp(previous: (u64, u64), current: (u64, u64), interval_micros: u64)
    ensures
        current.0 <= previous.0 ==> rate_spec(Some(previous), current, interval_micros).unwrap().0 == 0,
        current.1 <= previous.1 ==> rate_spec(Some(previous), current, interval_micros).unwrap().1 == 0,
{
    if interval_micros > 0 {
        assert(0nat * 1_000_000 / (interval_micros as nat) == 0) by (nonlinear_arith)
            requires
                interval_micros > 0,
        ;
    }
}

} // verus!
