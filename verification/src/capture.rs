//! The frame capturer's contract: from a call stack of raw return addresses,
//! innermost first, a capture with maximum `max` keeps exactly the first
//! `min(depth, max)` frames and preserves their order. The walking primitive
//! itself is the operating system's; this module states and checks what any
//! faithful capture must return.
use vstd::prelude::*;

verus! {

/// The fixed maximum frame count the fault interceptor captures with.
pub const DEFAULT_MAX_FRAMES: usize = 10000;

/// What capturing with maximum `max` returns from a stack of raw addresses,
/// innermost frame first: the whole stack when it is short enough, else its
/// first `max` frames.
pub open spec fn captured_spec(stack: Seq<u64>, max: nat) -> Seq<u64> {
    if stack.len() <= max {
        stack
    } else {
        stack.take(max as int)
    }
}

/// Takes up to `max` frames from the front of `stack`, innermost first.
pub fn capture_prefix(stack: &Vec<u64>, max: usize) -> (out: Vec<u64>)
    ensures
        out@ == captured_spec(stack@, max as nat),
{
    let mut out: Vec<u64> = Vec::new();
    let mut i: usize = 0;
    proof {
        assert(out@ =~= stack@.take(0));
    }
    while i < max && i < stack.len()
        invariant
            i <= max,
            i <= stack.len(),
            out@ == stack@.take(i as int),
        decreases stack.len() - i,
    {
        out.push(stack[i]);
        proof {
            assert(out@ =~= stack@.take(i + 1));
        }
        i = i + 1;
    }
    proof {
        if stack@.len() <= max as nat {
            assert(i == stack.len());
            assert(stack@.take(i as int) =~= stack@);
        } else {
            assert(i == max);
        }
    }
    out
}

/// A capture with maximum `max` on a stack of depth `k` returns exactly
/// `min(k, max)` frames, and each kept frame is the one at the same depth in
/// the original chain: innermost first, order preserved.
pub proof fn lemma_capture_exact(stack: Seq<u64>, max: nat)
    ensures
        captured_spec(stack, max).len() == if stack.len() <= max {
            stack.len()
        } else {
            max
        },
        forall|i: int|
            0 <= i < captured_spec(stack, max).len() ==> captured_spec(stack, max)[i]
                == stack[i],
{
}

} // verus!
