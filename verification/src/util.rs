//! Pieces that the other modules share.

use vstd::prelude::*;

verus! {

/// The bytes of `segments`, joined in order.
pub open spec fn concat(segments: Seq<Seq<u8>>) -> Seq<u8>
    decreases segments.len(),
{
    if segments.len() == 0 {
        Seq::empty()
    } else {
        concat(segments.drop_last()) + segments.last()
    }
}

/// Joining two runs of segments joins what each of them joins to.
pub proof fn lemma_concat_add(front: Seq<Seq<u8>>, back: Seq<Seq<u8>>)
    ensures
        concat(front + back) == concat(front) + concat(back),
    decreases back.len(),
{
    if back.len() == 0 {
        assert(front + back =~= front);
        assert(concat(front) + concat(back) =~= concat(front));
    } else {
        assert((front + back).drop_last() =~= front + back.drop_last());
        lemma_concat_add(front, back.drop_last());
        assert((concat(front) + concat(back.drop_last())) + back.last() =~= concat(front) + (
        concat(back.drop_last()) + back.last()));
    }
}

/// The contents of each slice of `segments`.
pub open spec fn segment_views(segments: Seq<&[u8]>) -> Seq<Seq<u8>> {
    Seq::new(segments.len(), |i: int| segments[i]@)
}

/// The payload of a reply: runs of borrowed byte slices, linked so that a run can be put in
/// front of a chain without copying one.
pub struct OutputChain<'a> {
    segments: &'a [&'a [u8]],
    next: Option<&'a OutputChain<'a>>,
}

/// A walk over the runs of a chain, front to back.
pub struct OutputChainIter<'a>(Option<&'a OutputChain<'a>>);

impl<'a> OutputChain<'a> {
    /// Every segment of the chain, front to back.
    pub closed spec fn segments(&self) -> Seq<Seq<u8>>
        decreases self,
    {
        match self.next {
            None => segment_views(self.segments@),
            Some(next) => segment_views(self.segments@) + next.segments(),
        }
    }

    /// How many runs follow the first.
    pub closed spec fn depth(&self) -> nat
        decreases self,
    {
        match self.next {
            None => 0,
            Some(next) => 1 + next.depth(),
        }
    }

    /// The bytes of the chain.
    pub open spec fn bytes(&self) -> Seq<u8> {
        concat(self.segments())
    }

    /// The chain without a segment.
    pub fn empty() -> (chain: Self)
        ensures
            chain.segments() == Seq::<Seq<u8>>::empty(),
            chain.depth() == 0,
    {
        let chain = OutputChain { segments: &[], next: None };
        assert(chain.segments() =~= Seq::<Seq<u8>>::empty());
        chain
    }

    /// The chain of one run.
    pub fn tail(segments: &'a [&'a [u8]]) -> (chain: Self)
        ensures
            chain.segments() == segment_views(segments@),
            chain.depth() == 0,
    {
        OutputChain { segments, next: None }
    }

    /// The chain that has `segments` in front of this one.
    pub fn preceded(&'a self, segments: &'a [&'a [u8]]) -> (chain: Self)
        ensures
            chain.segments() == segment_views(segments@) + self.segments(),
            chain.depth() == self.depth() + 1,
    {
        OutputChain { segments, next: Some(self) }
    }

    /// A walk over the runs of this chain.
    pub fn iter(&'a self) -> (iter: OutputChainIter<'a>)
        ensures
            iter.remaining() == self.segments(),
            iter.runs() == self.depth() + 1,
    {
        OutputChainIter(Some(self))
    }

    /// The bytes of the chain, copied into one vector.
    pub fn to_vec(&self) -> (bytes: Vec<u8>)
        ensures
            bytes@ == self.bytes(),
    {
        let mut bytes: Vec<u8> = Vec::new();
        let mut iter = OutputChainIter(Some(self));
        let ghost mut done: Seq<Seq<u8>> = Seq::empty();
        loop
            invariant
                bytes@ == concat(done),
                done + iter.remaining() == self.segments(),
            decreases iter.runs(),
        {
            let ghost before = iter.remaining();
            match iter.next() {
                None => {
                    assert(done + Seq::<Seq<u8>>::empty() =~= done);
                    return bytes;
                },
                Some(run) => {
                    let ghost run_views = segment_views(run@);
                    let mut i: usize = 0;
                    while i < run.len()
                        invariant
                            i <= run.len(),
                            run_views == segment_views(run@),
                            bytes@ == concat(done + run_views.subrange(0, i as int)),
                        decreases run.len() - i,
                    {
                        proof {
                            let grown = done + run_views.subrange(0, i + 1);
                            assert(grown.drop_last() =~= done + run_views.subrange(0, i as int));
                            assert(grown.last() == run@[i as int]@);
                        }
                        bytes.extend_from_slice(run[i]);
                        i += 1;
                    }
                    proof {
                        assert(run_views.subrange(0, i as int) =~= run_views);
                        assert((done + run_views) + iter.remaining() =~= done + (run_views
                            + iter.remaining()));
                        done = done + run_views;
                    }
                },
            }
        }
    }
}

impl<'a> OutputChainIter<'a> {
    /// The segments of the runs that the walk has not reached yet.
    pub closed spec fn remaining(&self) -> Seq<Seq<u8>> {
        match self.0 {
            None => Seq::empty(),
            Some(chain) => chain.segments(),
        }
    }

    /// How many runs the walk has not reached yet.
    pub closed spec fn runs(&self) -> nat {
        match self.0 {
            None => 0,
            Some(chain) => chain.depth() + 1,
        }
    }

    /// The next run of the chain, or `None` after the last.
    pub fn next(&mut self) -> (run: Option<&'a [&'a [u8]]>)
        ensures
            match run {
                None => old(self).runs() == 0 && final(self).runs() == 0 && old(self).remaining()
                    == Seq::<Seq<u8>>::empty(),
                Some(run) => old(self).remaining() == segment_views(run@)
                    + final(self).remaining() && old(self).runs() == final(self).runs() + 1,
            },
    {
        match self.0 {
            None => None,
            Some(chain) => {
                proof {
                    if chain.next is None {
                        assert(segment_views(chain.segments@) + Seq::<Seq<u8>>::empty()
                            =~= segment_views(chain.segments@));
                    }
                }
                self.0 = chain.next;
                Some(chain.segments)
            },
        }
    }
}

/// A run of segments joins to at least as many bytes as any of its fronts.
pub proof fn lemma_concat_prefix_len(segments: Seq<Seq<u8>>, count: int)
    requires
        0 <= count <= segments.len(),
    ensures
        concat(segments.subrange(0, count)).len() <= concat(segments).len(),
    decreases segments.len() - count,
{
    if count == segments.len() {
        assert(segments.subrange(0, count) =~= segments);
    } else {
        lemma_concat_prefix_len(segments, count + 1);
        let longer = segments.subrange(0, count + 1);
        assert(longer.drop_last() =~= segments.subrange(0, count));
    }
}

/// How many bytes the segments hold together.
pub fn total_len(segments: &[&[u8]]) -> (total: usize)
    requires
        concat(segment_views(segments@)).len() <= usize::MAX,
    ensures
        total == concat(segment_views(segments@)).len(),
{
    let ghost views = segment_views(segments@);
    let mut total: usize = 0;
    let mut i: usize = 0;
    while i < segments.len()
        invariant
            i <= segments.len(),
            views == segment_views(segments@),
            concat(views).len() <= usize::MAX,
            total == concat(views.subrange(0, i as int)).len(),
        decreases segments.len() - i,
    {
        proof {
            let longer = views.subrange(0, i + 1);
            assert(longer.drop_last() =~= views.subrange(0, i as int));
            assert(longer.last() == segments@[i as int]@);
            lemma_concat_prefix_len(views, i + 1);
        }
        total += segments[i].len();
        i += 1;
    }
    assert(views.subrange(0, i as int) =~= views);
    total
}

/// A walk over the chain of a run `back` with a run `front` put before it meets the segments
/// of `front` and then those of `back`, and so the bytes of `front` and then those of `back`.
pub proof fn lemma_tail_preceded(
    tail: OutputChain<'_>,
    chain: OutputChain<'_>,
    iter: OutputChainIter<'_>,
    front: Seq<&[u8]>,
    back: Seq<&[u8]>,
)
    requires
        tail.segments() == segment_views(back),
        chain.segments() == segment_views(front) + tail.segments(),
        iter.remaining() == chain.segments(),
    ensures
        iter.remaining() == segment_views(front + back),
        chain.bytes() == concat(segment_views(front)) + concat(segment_views(back)),
{
    assert(segment_views(front) + segment_views(back) =~= segment_views(front + back));
    lemma_concat_add(segment_views(front), segment_views(back));
}

/// `text` if there is one, else `default`.
pub fn display_or(maybe: Option<String>, default: &str) -> (shown: String)
    ensures
        shown@ == match maybe {
            Some(text) => text@,
            None => default@,
        },
{
    match maybe {
        Some(text) => text,
        None => default.to_owned(),
    }
}

} // verus!
