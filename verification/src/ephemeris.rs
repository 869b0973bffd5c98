//! Partitioning of observers into per-worker chunks for ephemeris generation
//! and the reassembly of per-chunk results in the caller's order.
//!
//! Observers are sorted by epoch and cut into contiguous chunks, one per
//! worker, so each worker integrates forward monotonically with a single
//! reusable simulation; each result is tagged with its observer's input
//! index and scattered back afterwards.

use vstd::prelude::*;
use vstd::string::*;
use crate::status::Error;
use crate::propagate::zero_threads_message;

verus! {

/// The number of workers for `n_items` observers: the requested count (or
/// the default pool's size when none is requested), never more than the
/// observers and never less than one.
pub open spec fn worker_count(requested: usize, n_items: usize) -> nat {
    let w = if requested < n_items { requested } else { n_items };
    if w < 1 { 1 } else { w as nat }
}

/// The ceiling of `a / b`.
pub open spec fn ceil_div(a: nat, b: nat) -> nat {
    if b == 0 { 0 } else { ((a + b - 1) as int / b as int) as nat }
}

/// Number of workers and chunk length for splitting `n_items` observers.
///
/// `num_threads`: `None` uses `default_threads` (the size of the global
/// pool), `Some(n)` uses `n`, `Some(0)` is refused whatever the number of
/// observers. With no observers the plan is one worker and empty chunks.
pub fn chunk_plan(num_threads: Option<usize>, default_threads: usize, n_items: usize) -> (r: Result<
    (usize, usize),
    Error,
>)
    ensures
        num_threads == Some(0usize) ==> (r matches Err(Error::Other(m)) && m@
            == zero_threads_message()),
        num_threads != Some(0usize) ==> (r matches Ok((workers, chunk)) && ({
            let requested = match num_threads {
                Some(n) => n,
                None => if default_threads < 1 { 1 } else { default_threads },
            };
            &&& workers == worker_count(requested, n_items)
            &&& chunk == ceil_div(n_items as nat, workers as nat)
        })),
{
    let requested = match num_threads {
        Some(0) => {
            return Err(
                Error::Other(
                    String::from_str(
                        "num_threads = Some(0) is not valid; use None for the default pool",
                    ),
                ),
            );
        },
        Some(n) => n,
        None => if default_threads < 1 {
            1
        } else {
            default_threads
        },
    };
    let w0 = if requested < n_items { requested } else { n_items };
    let workers = if w0 < 1 { 1 } else { w0 };
    let q = n_items / workers;
    let chunk = if n_items % workers == 0 {
        q
    } else {
        proof {
            assert(q < usize::MAX) by (nonlinear_arith)
                requires
                    workers >= 1,
                    n_items % workers != 0,
                    q == n_items / workers,
                    n_items <= usize::MAX,
            {
                assert(workers >= 2);
                assert(q * workers <= n_items);
            }
        }
        q + 1
    };
    proof {
        assert(chunk == ceil_div(n_items as nat, workers as nat)) by (nonlinear_arith)
            requires
                workers >= 1,
                chunk == n_items / workers + if n_items % workers == 0 { 0int } else { 1int },
        {
            let q = n_items / workers;
            let r = n_items % workers;
            assert(n_items == q * workers + r);
            assert(0 <= r < workers);
        }
    }
    Ok((workers, chunk))
}

/// The `[start, end)` index ranges that `slice::chunks(chunk)` yields over
/// `len` items: consecutive, each `chunk` long except a shorter last one.
pub open spec fn is_chunk_cover(r: Seq<(usize, usize)>, len: nat, chunk: nat) -> bool {
    &&& r.len() == ceil_div(len, chunk)
    &&& forall|k: int| #![trigger r[k]] 0 <= k < r.len() ==> r[k].0 == k * chunk && r[k].1 == (if (
    k + 1) * chunk < len {
        (k + 1) * chunk
    } else {
        len as int
    })
}

proof fn lemma_ceil_div(len: nat, chunk: nat, k: nat)
    requires
        chunk > 0,
        k * chunk >= len,
        k > 0 ==> (k - 1) * chunk < len,
    ensures
        ceil_div(len, chunk) == k,
{
    if k == 0 {
        assert(len == 0);
        assert((chunk - 1) as int / chunk as int == 0) by (nonlinear_arith)
            requires chunk > 0;
    } else {
        assert((len + chunk - 1) as int / chunk as int == k) by (nonlinear_arith)
            requires
                chunk > 0,
                k > 0,
                k * chunk >= len,
                (k - 1) * chunk < len,
        {
            assert((k - 1) * chunk == k * chunk - chunk);
            assert(k * chunk <= len + chunk - 1);
            assert(len + chunk - 1 < (k + 1) * chunk);
        }
    }
}

/// The index ranges of the chunks of `len` items, `chunk` items each.
pub fn chunk_ranges(len: usize, chunk: usize) -> (r: Vec<(usize, usize)>)
    requires
        chunk > 0,
    ensures
        is_chunk_cover(r@, len as nat, chunk as nat),
{
    let mut r: Vec<(usize, usize)> = Vec::new();
    let mut start: usize = 0;
    proof {
        assert(r@.len() * chunk == 0) by (nonlinear_arith)
            requires r@.len() == 0;
    }
    while start < len
        invariant
            chunk > 0,
            start == (if r@.len() * chunk < len { r@.len() * chunk } else { len as int }),
            r@.len() > 0 ==> (r@.len() - 1) * chunk < len,
            forall|k: int| #![trigger r@[k]] 0 <= k < r@.len() ==> r@[k].0 == k * chunk && r@[k].1
                == (if (k + 1) * chunk < len {
                (k + 1) * chunk
            } else {
                len as int
            }),
        decreases len - start,
    {
        let ghost k = r@.len();
        assert(start == k * chunk);
        let end = if len - start > chunk { start + chunk } else { len };
        proof {
            assert((k + 1) * chunk == k * chunk + chunk) by (nonlinear_arith);
        }
        r.push((start, end));
        start = end;
    }
    proof {
        let k = r@.len();
        assert(k * chunk >= len);
        lemma_ceil_div(len as nat, chunk as nat, k);
    }
    r
}

/// All per-chunk results in order, chunk after chunk.
pub open spec fn flatten<T>(chunks: Seq<Vec<(usize, T)>>) -> Seq<(usize, T)>
    decreases chunks.len(),
{
    if chunks.len() == 0 {
        Seq::empty()
    } else {
        flatten(chunks.drop_last()) + chunks.last()@
    }
}

/// The last result tagged with index `i`, if any.
pub open spec fn latest<T>(items: Seq<(usize, T)>, i: usize) -> Option<T>
    decreases items.len(),
{
    if items.len() == 0 {
        None
    } else if items.last().0 == i {
        Some(items.last().1)
    } else {
        latest(items.drop_last(), i)
    }
}

/// Every observer index below `n` has at least one result.
pub open spec fn every_index_has_result<T>(items: Seq<(usize, T)>, n: usize) -> bool {
    forall|i: usize| i < n ==> #[trigger] latest(items, i) is Some
}

/// The error text when some observer received no result.
pub open spec fn missing_result_message() -> Seq<char> {
    "missing ephemeris result for observer"@
}

/// Every result is tagged with the index of an observer below `n`.
pub open spec fn tags_below<T>(chunks: Seq<Vec<(usize, T)>>, n: usize) -> bool {
    forall|c: int, k: int|
        0 <= c < chunks.len() && 0 <= k < chunks[c]@.len() ==> (#[trigger] chunks[c]@[k]).0 < n
}

/// Scatters per-chunk `(input index, result)` pairs back into caller
/// order: slot `i` of the output holds the (last) result tagged `i`, and an
/// observer without any result is an error.
pub fn reassemble<T>(n: usize, chunk_results: Vec<Vec<(usize, T)>>) -> (r: Result<Vec<T>, Error>)
    requires
        tags_below(chunk_results@, n),
    ensures
        r is Ok <==> every_index_has_result(flatten(chunk_results@), n),
        r matches Ok(v) ==> v@.len() == n && forall|i: int| 0 <= i < n ==> Some(#[trigger] v@[i])
            == latest(flatten(chunk_results@), i as usize),
        r matches Err(e) ==> (e matches Error::Other(m) && m@ == missing_result_message()),
{
    let ghost all = chunk_results@;
    assert(all == chunk_results@);
    let mut slots: Vec<Option<T>> = Vec::new();
    let mut i: usize = 0;
    while i < n
        invariant
            i <= n,
            slots@.len() == i,
            forall|k: int| 0 <= k < i ==> #[trigger] slots@[k] is None,
        decreases n - i,
    {
        slots.push(None);
        i = i + 1;
    }
    for chunk in it: chunk_results
        invariant
            it.seq() == all,
            tags_below(all, n),
            slots@.len() == n,
            forall|k: int| 0 <= k < n ==> #[trigger] slots@[k] == latest(flatten(all.take(it.index() as int)), k as usize),
    {
        let ghost c = it.index() as int;
        let ghost before = flatten(all.take(c));
        proof {
            assert(all.take(c + 1).drop_last() =~= all.take(c));
            assert(all.take(c + 1).last() == all[c]);
        }
        let ghost mut seen: Seq<(usize, T)> = Seq::empty();
        for item in jt: chunk
            invariant
                jt.seq() == all[c]@,
                seen == jt.seq().take(jt.index() as int),
                0 <= c < all.len(),
                tags_below(all, n),
                slots@.len() == n,
                forall|k: int| 0 <= k < n ==> #[trigger] slots@[k] == latest(before + jt.seq().take(jt.index() as int), k as usize),
        {
            let ghost j = jt.index() as int;
            proof {
                assert(item == jt.seq()[j]);
                assert(all[c]@[j] == item);
                let pre = before + jt.seq().take(j);
                let post = before + jt.seq().take(j + 1);
                assert(post =~= pre.push(item));
                assert(post.drop_last() =~= pre);
            }
            proof {
                seen = seen.push(item);
                assert(seen =~= jt.seq().take(j + 1));
            }
            let (idx, val) = item;
            slots.set(idx, Some(val));
        }
        proof {
            assert(seen =~= all[c]@);
        }
    }
    proof {
        assert(all.take(all.len() as int) =~= all);
    }
    let mut out: Vec<T> = Vec::new();
    let ghost full = slots@;
    for s in kt: slots
        invariant
            kt.seq() == full,
            all == chunk_results@,
            full.len() == n,
            forall|k: int| 0 <= k < n ==> #[trigger] full[k] == latest(flatten(all), k as usize),
            out@.len() == kt.index(),
            forall|k: int| 0 <= k < kt.index() ==> Some(#[trigger] out@[k]) == full[k],
    {
        let ghost j = kt.index() as int;
        proof {
            assert(s == full[j]);
        }
        match s {
            Some(v) => {
                out.push(v);
            },
            None => {
                proof {
                    assert(0 <= j < n);
                    assert(latest(flatten(all), j as usize) is None);
                    assert(!every_index_has_result(flatten(all), n));
                }
                return Err(Error::Other(String::from_str("missing ephemeris result for observer")));
            },
        }
    }
    proof {
        assert forall|i: usize| i < n implies #[trigger] latest(flatten(all), i) is Some by {
            assert(Some(out@[i as int]) == full[i as int]);
        }
        assert(every_index_has_result(flatten(all), n));
    }
    Ok(out)
}

/// The observer index of every result, in order.
pub open spec fn tags<T>(items: Seq<(usize, T)>) -> Seq<int> {
    items.map_values(|x: (usize, T)| x.0 as int)
}

proof fn lemma_latest_finds_unique_tag<T>(items: Seq<(usize, T)>, k: int)
    requires
        0 <= k < items.len(),
        tags(items).no_duplicates(),
    ensures
        latest(items, items[k].0) == Some(items[k].1),
    decreases items.len(),
{
    if k < items.len() - 1 {
        let rest = items.drop_last();
        assert(tags(items)[k] != tags(items)[items.len() - 1]);
        assert(tags(rest) =~= tags(items).drop_last());
        lemma_latest_finds_unique_tag(rest, k);
    }
}

proof fn lemma_latest_some_when_tagged<T>(items: Seq<(usize, T)>, k: int)
    requires
        0 <= k < items.len(),
    ensures
        latest(items, items[k].0) is Some,
    decreases items.len(),
{
    if k < items.len() - 1 && items.last().0 != items[k].0 {
        lemma_latest_some_when_tagged(items.drop_last(), k);
    }
}

/// When the results carry each observer index below `n` exactly once (the
/// observers were split into chunks and every observer was processed once),
/// reassembly succeeds and puts every result in its observer's slot: the
/// output order is the caller's order whatever the chunking and threading.
pub proof fn lemma_reassembly_restores_order<T>(items: Seq<(usize, T)>, n: usize)
    requires
        items.len() == n,
        forall|k: int| 0 <= k < items.len() ==> (#[trigger] items[k]).0 < n,
        tags(items).no_duplicates(),
    ensures
        every_index_has_result(items, n),
        forall|k: int| 0 <= k < items.len() ==> latest(items, (#[trigger] items[k]).0) == Some(
            items[k].1,
        ),
{
    let t = tags(items);
    t.unique_seq_to_set();
    vstd::set_lib::lemma_int_range(0, n as int);
    let range = vstd::set_lib::set_int_range(0, n as int);
    assert forall|x: int| t.to_set().contains(x) implies range.contains(x) by {
        let k = choose|k: int| 0 <= k < t.len() && t[k] == x;
        assert(items[k].0 < n);
    }
    vstd::set_lib::lemma_subset_equality(t.to_set(), range);
    assert forall|i: usize| i < n implies #[trigger] latest(items, i) is Some by {
        assert(range.contains(i as int));
        assert(t.to_set().contains(i as int));
        let k = choose|k: int| 0 <= k < t.len() && t[k] == i as int;
        lemma_latest_some_when_tagged(items, k);
    }
    assert forall|k: int| 0 <= k < items.len() implies latest(items, (#[trigger] items[k]).0)
        == Some(items[k].1) by {
        lemma_latest_finds_unique_tag(items, k);
    }
}

/// The chunk plan splits the observers evenly: there is at least one
/// worker, never more than requested nor (when there are observers) more
/// than observers, and the chunk length is the smallest whose `workers`
/// chunks hold every observer.
pub proof fn lemma_chunk_plan_shape(requested: usize, n_items: usize)
    requires
        requested >= 1,
    ensures
        1 <= worker_count(requested, n_items) <= requested,
        n_items >= 1 ==> worker_count(requested, n_items) <= n_items,
        n_items >= 1 && requested <= n_items ==> worker_count(requested, n_items) == requested,
        ceil_div(n_items as nat, worker_count(requested, n_items)) * worker_count(requested, n_items)
            >= n_items,
        n_items >= 1 ==> (ceil_div(n_items as nat, worker_count(requested, n_items)) - 1)
            * worker_count(requested, n_items) < n_items,
{
    let w = worker_count(requested, n_items);
    let c = ceil_div(n_items as nat, w);
    assert(c == (n_items + w - 1) / (w as int));
    assert(c * w >= n_items && (n_items >= 1 ==> (c - 1) * w < n_items)) by (nonlinear_arith)
        requires
            w >= 1,
            c == (n_items + w - 1) / (w as int),
    {
        let q = (n_items + w - 1) / (w as int);
        let r = (n_items + w - 1) % (w as int);
        assert(n_items + w - 1 == q * w + r);
        assert(0 <= r < w);
    }
}

/// The chunk ranges partition the items: they start at 0, each begins where
/// the previous one ends, the last ends at `len`, and every range is
/// non-empty and at most `chunk` long; there are none exactly when there are
/// no items.
pub proof fn lemma_chunk_ranges_partition(r: Seq<(usize, usize)>, len: nat, chunk: nat)
    requires
        chunk > 0,
        is_chunk_cover(r, len, chunk),
    ensures
        r.len() == 0 <==> len == 0,
        r.len() > 0 ==> r[0].0 == 0 && r.last().1 == len,
        forall|k: int| 0 <= k < r.len() - 1 ==> #[trigger] r[k].1 == r[k + 1].0,
        forall|k: int| 0 <= k < r.len() ==> #[trigger] r[k].0 < r[k].1 <= r[k].0 + chunk,
{
    let n = r.len();
    let c = ceil_div(len, chunk);
    assert(c == (len + chunk - 1) / (chunk as int));
    assert(c * chunk >= len && (len >= 1 ==> (c - 1) * chunk < len) && (len == 0 ==> c == 0))
        by (nonlinear_arith)
        requires
            chunk >= 1,
            c == (len + chunk - 1) / (chunk as int),
    {
        let q = (len + chunk - 1) / (chunk as int);
        let m = (len + chunk - 1) % (chunk as int);
        assert(len + chunk - 1 == q * chunk + m);
        assert(0 <= m < chunk);
    }
    assert forall|k: int| 0 <= k < r.len() - 1 implies #[trigger] r[k].1 == r[k + 1].0 by {
        assert((k + 1) * chunk <= (n - 1) * chunk) by (nonlinear_arith)
            requires k + 1 <= n - 1, chunk >= 0;
        assert(r[k + 1].0 == (k + 1) * chunk);
    }
    assert forall|k: int| 0 <= k < r.len() implies #[trigger] r[k].0 < r[k].1 <= r[k].0 + chunk by {
        assert(k * chunk <= (n - 1) * chunk) by (nonlinear_arith)
            requires k <= n - 1, chunk >= 0;
        assert((k + 1) * chunk == k * chunk + chunk) by (nonlinear_arith);
    }
    if n > 0 {
        assert(r[n - 1].1 == len) by {
            assert(n * chunk >= len);
        }
    }
}

} // verus!
