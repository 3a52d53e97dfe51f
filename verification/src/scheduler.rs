//! Handing the replicas of a parallel step to workers.
//!
//! Replicas do not interact within a step, so the rows of the spin array can
//! be advanced in any order and on any number of workers. What must not be
//! shared is a random stream or a workpad. The assignment here is static:
//! worker `w` uses stream `w` and advances one contiguous range of rows, so
//! exclusive use holds by construction and nothing is ever contended.
use vstd::prelude::*;

verus! {

/// Number of threads in the current rayon thread pool, as
/// `rayon::current_num_threads` reports it. Nothing is claimed of the number:
/// it depends on how the pool was built and on the environment.
#[verifier::external_body]
fn pool_threads() -> (n: usize) {
    rayon::current_num_threads()
}

/// Number of workers that may run at the same time. Zero is never returned,
/// whatever the thread pool reports.
pub fn worker_count() -> (n: usize)
    ensures
        n >= 1,
{
    workers_for(pool_threads())
}

/// Number of workers to deal rows out to when the thread pool reports
/// `reported` threads: that number, or one if it reports none.
pub open spec fn workers_for_spec(reported: usize) -> usize {
    if reported == 0 {
        1
    } else {
        reported
    }
}

/// Number of workers to deal rows out to when the thread pool reports
/// `reported` threads.
pub fn workers_for(reported: usize) -> (n: usize)
    ensures
        n == workers_for_spec(reported),
        n >= 1,
{
    if reported == 0 {
        1
    } else {
        reported
    }
}

/// The rows of one worker: the half-open range from `start` to `end`, to be
/// advanced on random stream `slot`.
#[derive(Copy, Clone, PartialEq, Eq, Structural, Debug)]
pub struct Share {
    pub slot: usize,
    pub start: usize,
    pub end: usize,
}

/// First row of worker `w` when `rows` rows are dealt out to `workers`
/// workers as evenly as possible, the first `rows % workers` workers getting
/// one row more than the others. For `w == workers` this is `rows`.
pub open spec fn share_start(rows: nat, workers: nat, w: nat) -> nat {
    let q = rows / workers;
    let m = rows % workers;
    w * q + if w < m {
        w
    } else {
        m
    }
}

/// Each share begins where the one before it ends, and is `rows / workers`
/// rows long, or one more for the first `rows % workers` workers.
pub proof fn lemma_share_step(rows: nat, workers: nat, w: nat)
    requires
        workers > 0,
    ensures
        share_start(rows, workers, w + 1) == share_start(rows, workers, w) + rows / workers + if w
            < rows % workers {
            1nat
        } else {
            0nat
        },
{
    let q = rows / workers;
    assert((w + 1) * q == w * q + q) by (nonlinear_arith);
}

/// The shares begin at row 0 and end at the last row.
pub proof fn lemma_share_ends(rows: nat, workers: nat)
    requires
        workers > 0,
    ensures
        share_start(rows, workers, 0) == 0,
        share_start(rows, workers, workers) == rows,
{
    let q = rows / workers;
    assert(0 * q == 0) by (nonlinear_arith);
    assert(workers * q + rows % workers == rows) by (nonlinear_arith)
        requires
            workers > 0,
            q == rows / workers,
    ;
}

/// Later workers start at later rows.
pub proof fn lemma_share_monotone(rows: nat, workers: nat, v: nat, w: nat)
    requires
        workers > 0,
        v <= w,
    ensures
        share_start(rows, workers, v) <= share_start(rows, workers, w),
    decreases w - v,
{
    if v < w {
        lemma_share_monotone(rows, workers, v, (w - 1) as nat);
        lemma_share_step(rows, workers, (w - 1) as nat);
    }
}

/// Deal `rows` rows out to `workers` workers.
pub fn assign_rows(rows: usize, workers: usize) -> (shares: Vec<Share>)
    requires
        workers > 0,
    ensures
        shares.len() == workers,
        forall|w: int|
            0 <= w < workers ==> #[trigger] shares[w] == (Share {
                slot: w as usize,
                start: share_start(rows as nat, workers as nat, w as nat) as usize,
                end: share_start(rows as nat, workers as nat, (w + 1) as nat) as usize,
            }),
        forall|w: int|
            0 <= w <= workers ==> #[trigger] share_start(rows as nat, workers as nat, w as nat)
                <= rows,
{
    let q: usize = rows / workers;
    let m: usize = rows % workers;
    let mut shares: Vec<Share> = Vec::new();
    let mut start: usize = 0;
    let mut w: usize = 0;
    proof {
        lemma_share_ends(rows as nat, workers as nat);
        assert forall|v: int| 0 <= v <= workers implies #[trigger] share_start(
            rows as nat,
            workers as nat,
            v as nat,
        ) <= rows by {
            lemma_share_monotone(rows as nat, workers as nat, v as nat, workers as nat);
        }
    }
    while w < workers
        invariant
            workers > 0,
            w <= workers,
            q == rows / workers,
            m == rows % workers,
            shares.len() == w,
            start == share_start(rows as nat, workers as nat, w as nat),
            forall|v: int|
                0 <= v <= workers ==> #[trigger] share_start(
                    rows as nat,
                    workers as nat,
                    v as nat,
                ) <= rows,
            forall|v: int|
                0 <= v < w ==> #[trigger] shares[v] == (Share {
                    slot: v as usize,
                    start: share_start(rows as nat, workers as nat, v as nat) as usize,
                    end: share_start(rows as nat, workers as nat, (v + 1) as nat) as usize,
                }),
        decreases workers - w,
    {
        proof {
            lemma_share_step(rows as nat, workers as nat, w as nat);
            assert(share_start(rows as nat, workers as nat, (w + 1) as nat) <= rows);
        }
        let extra: usize = if w < m {
            1
        } else {
            0
        };
        let end: usize = start + q + extra;
        shares.push(Share { slot: w, start, end });
        start = end;
        w = w + 1;
    }
    shares
}

/// Every row belongs to the share of some worker.
pub proof fn law_shares_cover(rows: nat, workers: nat, row: nat) -> (w: nat)
    requires
        workers > 0,
        row < rows,
    ensures
        w < workers,
        share_start(rows, workers, w) <= row < share_start(rows, workers, w + 1),
{
    lemma_share_ends(rows, workers);
    owner_from(rows, workers, row, 0)
}

proof fn owner_from(rows: nat, workers: nat, row: nat, from: nat) -> (w: nat)
    requires
        workers > 0,
        from < workers,
        share_start(rows, workers, from) <= row < rows,
    ensures
        from <= w < workers,
        share_start(rows, workers, w) <= row < share_start(rows, workers, w + 1),
    decreases workers - from,
{
    if row < share_start(rows, workers, from + 1) {
        from
    } else {
        lemma_share_ends(rows, workers);
        owner_from(rows, workers, row, from + 1)
    }
}

/// No row belongs to the shares of two workers, and no two workers use the
/// same random stream.
pub proof fn law_shares_disjoint(rows: nat, workers: nat, v: nat, w: nat, row: nat)
    requires
        workers > 0,
        v < workers,
        w < workers,
        share_start(rows, workers, v) <= row < share_start(rows, workers, v + 1),
        share_start(rows, workers, w) <= row < share_start(rows, workers, w + 1),
    ensures
        v == w,
{
    if v < w {
        lemma_share_monotone(rows, workers, v + 1, w);
    } else if w < v {
        lemma_share_monotone(rows, workers, w + 1, v);
    }
}

/// The shares are as even as they can be: any two differ by at most one row.
pub proof fn law_shares_balanced(rows: nat, workers: nat, w: nat)
    requires
        workers > 0,
        w < workers,
    ensures
        rows / workers <= share_start(rows, workers, w + 1) - share_start(rows, workers, w)
            <= rows / workers + 1,
{
    lemma_share_step(rows, workers, w);
}

} // verus!
