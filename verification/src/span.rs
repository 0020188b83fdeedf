//! Source positions: byte offsets and half-open byte ranges.

use vstd::prelude::*;

verus! {

/// An unsigned byte offset into the source buffer.
#[derive(Debug, Clone, Copy, PartialEq, Eq, Structural)]
pub struct BytePos(pub u32);

/// A half-open byte range `[lo, hi)` identifying a lexeme's source location.
#[derive(Debug, Clone, Copy, PartialEq, Eq, Structural)]
pub struct Span {
    pub lo: BytePos,
    pub hi: BytePos,
}

impl Span {
    /// The range is ordered: `lo <= hi`.
    pub open spec fn wf(self) -> bool {
        self.lo.0 <= self.hi.0
    }

    /// Extends this span to the end of `span`.
    ///
    /// The two spans must be in order: the combined range must not run
    /// backwards.
    pub fn to(&self, span: &Span) -> (r: Span)
        requires
            self.lo.0 <= span.hi.0,
        ensures
            r == (Span { lo: self.lo, hi: span.hi }),
            r.wf(),
    {
        Span { lo: self.lo, hi: span.hi }
    }
}

/// The span covering a sequence of spans: the least `lo` and the greatest
/// `hi` among them, and the zero span when the sequence is empty.
pub open spec fn joined(spans: Seq<Span>) -> Span
    decreases spans.len(),
{
    if spans.len() == 0 {
        Span { lo: BytePos(0), hi: BytePos(0) }
    } else if spans.len() == 1 {
        spans.last()
    } else {
        let rest = joined(spans.drop_last());
        let last = spans.last();
        Span {
            lo: BytePos(if last.lo.0 < rest.lo.0 { last.lo.0 } else { rest.lo.0 }),
            hi: BytePos(if last.hi.0 > rest.hi.0 { last.hi.0 } else { rest.hi.0 }),
        }
    }
}

/// Folds a sequence of spans into one span covering their union extent.
///
/// On an empty sequence the result is the designated zero span `[0, 0)`.
pub fn join_spans(spans: &Vec<Span>) -> (r: Span)
    ensures
        r == joined(spans@),
        forall|k: int|
            0 <= k < spans@.len() ==> r.lo.0 <= spans@[k].lo.0 && spans@[k].hi.0 <= r.hi.0,
{
    let mut lo: u32 = 0;
    let mut hi: u32 = 0;
    let mut i: usize = 0;
    while i < spans.len()
        invariant
            0 <= i <= spans@.len(),
            joined(spans@.take(i as int)) == (Span { lo: BytePos(lo), hi: BytePos(hi) }),
            forall|k: int| 0 <= k < i ==> lo <= spans@[k].lo.0 && spans@[k].hi.0 <= hi,
        decreases spans@.len() - i,
    {
        let s = spans[i];
        if i == 0 {
            lo = s.lo.0;
            hi = s.hi.0;
        } else {
            if s.lo.0 < lo {
                lo = s.lo.0;
            }
            if s.hi.0 > hi {
                hi = s.hi.0;
            }
        }
        proof {
            assert(spans@.take(i + 1).drop_last() =~= spans@.take(i as int));
            assert(spans@.take(i + 1).last() == spans@[i as int]);
        }
        i = i + 1;
    }
    proof {
        assert(spans@.take(spans@.len() as int) =~= spans@);
    }
    Span { lo: BytePos(lo), hi: BytePos(hi) }
}

} // verus!
