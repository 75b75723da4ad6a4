//! Batch grouping for the extractor.
//!
//! The extractor pulls rows from the relational store as a stream and
//! hands them on in fixed-size batches: every batch holds exactly
//! `batch_size` items except the last, which may be smaller but never
//! empty. Grouping a fully materialized run of items is pure logic and
//! lives here; pulling the rows is I/O and stays outside the library.

use vstd::prelude::*;

verus! {

/// How many batches a run of `n` items yields at `size` items per
/// batch: `n / size` rounded up.
pub open spec fn spec_batch_count(n: int, size: int) -> int {
    if n == 0 {
        0
    } else {
        (n - 1) / size + 1
    }
}

/// The half-open item range covered by batch `i`.
pub open spec fn spec_batch_end(n: int, size: int, i: int) -> int {
    if (i + 1) * size <= n {
        (i + 1) * size
    } else {
        n
    }
}

/// Groups consecutive items into batches of exactly `batch_size`,
/// except the final batch, which may be smaller. Batch `i` holds
/// exactly the items `i * batch_size .. spec_batch_end(_, _, i)` of
/// the input, in order: nothing is dropped, duplicated or reordered.
pub fn chunk_rows<T>(items: Vec<T>, batch_size: usize) -> (r: Vec<Vec<T>>)
    requires
        batch_size >= 1,
    ensures
        r@.len() == spec_batch_count(items@.len() as int, batch_size as int),
        forall|i: int|
            0 <= i < r@.len() ==> r@[i]@ == items@.subrange(
                i * batch_size,
                spec_batch_end(items@.len() as int, batch_size as int, i),
            ),
{
    let ghost orig = items@;
    let ghost bs = batch_size as int;
    let mut remaining = items;
    let mut out: Vec<Vec<T>> = Vec::new();
    let mut cur: Vec<T> = Vec::new();
    proof {
        assert(out@.len() * bs == 0);
        assert(remaining@ =~= orig.subrange(0, orig.len() as int));
        assert(cur@ =~= orig.subrange(0, 0));
    }
    while remaining.len() > 0
        invariant
            batch_size >= 1,
            bs == batch_size as int,
            cur@.len() < batch_size,
            out@.len() * bs + cur@.len() + remaining@.len() == orig.len(),
            remaining@ == orig.subrange(
                out@.len() * bs + cur@.len(),
                orig.len() as int,
            ),
            cur@ == orig.subrange(out@.len() * bs, out@.len() * bs + cur@.len()),
            forall|i: int|
                0 <= i < out@.len() ==> out@[i]@ == orig.subrange(i * bs, (i + 1) * bs),
        decreases remaining@.len(),
    {
        let ghost done = out@.len() * bs + cur@.len();
        let x = remaining.remove(0);
        proof {
            assert(x == orig[done]);
            assert(remaining@ =~= orig.subrange(done + 1, orig.len() as int));
        }
        cur.push(x);
        proof {
            assert(cur@ =~= orig.subrange(out@.len() * bs, done + 1));
        }
        if cur.len() == batch_size {
            proof {
                assert((out@.len() + 1) * bs == out@.len() * bs + bs) by (nonlinear_arith);
            }
            out.push(cur);
            cur = Vec::new();
            proof {
                assert(cur@ =~= orig.subrange(out@.len() * bs, out@.len() * bs));
            }
        }
    }
    let ghost full = out@.len() as int;
    let ghost n = orig.len() as int;
    if cur.len() > 0 {
        out.push(cur);
        proof {
            assert(n == full * bs + (n - full * bs));
            vstd::arithmetic::div_mod::lemma_fundamental_div_mod_converse(
                n - 1,
                bs,
                full,
                n - 1 - full * bs,
            );
            assert(out@.len() == spec_batch_count(n, bs));
            assert forall|i: int| 0 <= i < out@.len() implies out@[i]@ == orig.subrange(
                i * bs,
                spec_batch_end(n, bs, i),
            ) by {
                if i < full {
                    assert((i + 1) * bs <= full * bs) by (nonlinear_arith)
                        requires i + 1 <= full, bs >= 1;
                    assert(spec_batch_end(n, bs, i) == (i + 1) * bs);
                } else {
                    assert(i == full);
                    assert((full + 1) * bs == full * bs + bs) by (nonlinear_arith);
                    assert(spec_batch_end(n, bs, i) == n);
                    assert(out@[i]@ =~= orig.subrange(full * bs, n));
                }
            }
        }
    } else {
        proof {
            assert(n == full * bs);
            if n > 0 {
                assert(full >= 1) by (nonlinear_arith)
                    requires n == full * bs, n > 0, bs >= 1, full >= 0;
                assert(n - 1 == (full - 1) * bs + (bs - 1)) by (nonlinear_arith)
                    requires n == full * bs;
                vstd::arithmetic::div_mod::lemma_fundamental_div_mod_converse(
                    n - 1,
                    bs,
                    full - 1,
                    bs - 1,
                );
            } else {
                assert(full == 0) by (nonlinear_arith)
                    requires full * bs == n, n == 0, bs >= 1, full >= 0;
            }
            assert(out@.len() == spec_batch_count(n, bs));
            assert forall|i: int| 0 <= i < out@.len() implies out@[i]@ == orig.subrange(
                i * bs,
                spec_batch_end(n, bs, i),
            ) by {
                assert((i + 1) * bs <= full * bs) by (nonlinear_arith)
                    requires i + 1 <= full, bs >= 1;
                assert(spec_batch_end(n, bs, i) == (i + 1) * bs);
            }
        }
    }
    out
}

} // verus!
