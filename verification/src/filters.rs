//! GPU image filters and the small algebra that composes them into a
//! sequence: `a + b` chains, `s * n` repeats, and `to_vec` flattens the
//! sequence into the order in which the filters are applied.
use vstd::prelude::*;

use vstd::std_specs::convert::FromSpec;
use vstd::std_specs::ops::{AddSpec, MulSpec};

verus! {

/// A compute shader applied to a whole image.
#[derive(Debug, Clone, Copy, PartialEq, Eq, Structural)]
pub enum GpuFilter {
    Sobel,
    Gaussian2dBlur20,
    GaussianHBlur,
    GaussianVBlur,
    BoxHBlur,
    BoxVBlur,
}

/// A composition of filters.
#[derive(Debug)]
pub enum GpuFilterSequence {
    Apply(GpuFilter),
    Chain((GpuFilter, Box<GpuFilterSequence>)),
    Repeat(u32, Box<GpuFilterSequence>),
}

/// `s` repeated `n` times.
pub open spec fn repeat_seq<A>(s: Seq<A>, n: nat) -> Seq<A>
    decreases n,
{
    if n == 0 {
        Seq::empty()
    } else {
        repeat_seq(s, (n - 1) as nat) + s
    }
}

fn append_copies(v: &mut Vec<GpuFilter>, src: &Vec<GpuFilter>)
    ensures
        final(v)@ == old(v)@ + src@,
{
    let ghost start = v@;
    let mut j: usize = 0;
    while j < src.len()
        invariant
            j <= src.len(),
            v@ == start + src@.take(j as int),
        decreases src.len() - j,
    {
        v.push(src[j]);
        j = j + 1;
        proof {
            assert(v@ == start + src@.take(j as int));
        }
    }
    proof {
        assert(src@.take(src.len() as int) == src@);
    }
}

impl GpuFilterSequence {
    /// The filters of the sequence, in the order in which they are applied.
    pub open spec fn filters(self) -> Seq<GpuFilter>
        decreases self,
    {
        match self {
            GpuFilterSequence::Apply(f) => seq![f],
            GpuFilterSequence::Chain((f, rest)) => seq![f] + (*rest).filters(),
            GpuFilterSequence::Repeat(n, inner) => repeat_seq((*inner).filters(), n as nat),
        }
    }

    /// Flattens the sequence into the list of filters to apply, in order.
    pub fn to_vec(&self) -> (v: Vec<GpuFilter>)
        ensures
            v@ == self.filters(),
        decreases self,
    {
        match self {
            GpuFilterSequence::Apply(filter) => {
                let mut v = Vec::new();
                v.push(*filter);
                v
            },
            GpuFilterSequence::Chain((filter, chain)) => {
                let mut v = Vec::new();
                v.push(*filter);
                let mut rest = chain.to_vec();
                v.append(&mut rest);
                v
            },
            GpuFilterSequence::Repeat(n, chain) => {
                let once = chain.to_vec();
                let mut v = Vec::new();
                let mut i: u32 = 0;
                while i < *n
                    invariant
                        i <= *n,
                        once@ == (**chain).filters(),
                        v@ == repeat_seq(once@, i as nat),
                    decreases *n - i,
                {
                    append_copies(&mut v, &once);
                    i = i + 1;
                }
                v
            },
        }
    }
}


/// The shader name of a filter.
pub open spec fn filter_name(f: GpuFilter) -> Seq<char> {
    match f {
        GpuFilter::Sobel => "sobel"@,
        GpuFilter::Gaussian2dBlur20 => "gaussian_2d_blur_20"@,
        GpuFilter::GaussianHBlur => "gaussian_hblur"@,
        GpuFilter::GaussianVBlur => "gaussian_vblur"@,
        GpuFilter::BoxHBlur => "box_hblur"@,
        GpuFilter::BoxVBlur => "box_vblur"@,
    }
}

impl GpuFilter {
    /// The name of the shader that implements the filter.
    pub fn to_string(&self) -> (s: String)
        ensures
            s@ == filter_name(*self),
    {
        match self {
            GpuFilter::Sobel => "sobel".to_owned(),
            GpuFilter::Gaussian2dBlur20 => "gaussian_2d_blur_20".to_owned(),
            GpuFilter::GaussianHBlur => "gaussian_hblur".to_owned(),
            GpuFilter::GaussianVBlur => "gaussian_vblur".to_owned(),
            GpuFilter::BoxHBlur => "box_hblur".to_owned(),
            GpuFilter::BoxVBlur => "box_vblur".to_owned(),
        }
    }
}

/// `filter + sequence`: the filter, then the sequence.
impl core::ops::Add<GpuFilterSequence> for GpuFilter {
    type Output = GpuFilterSequence;

    fn add(self, rhs: GpuFilterSequence) -> (r: GpuFilterSequence) {
        GpuFilterSequence::Chain((self, Box::new(rhs)))
    }
}

impl vstd::std_specs::ops::AddSpecImpl<GpuFilterSequence> for GpuFilter {
    open spec fn obeys_add_spec() -> bool {
        true
    }

    open spec fn add_req(self, rhs: GpuFilterSequence) -> bool {
        true
    }

    open spec fn add_spec(self, rhs: GpuFilterSequence) -> GpuFilterSequence {
        GpuFilterSequence::Chain((self, Box::new(rhs)))
    }
}

/// `filter + filter`: the two filters, left one first.
impl core::ops::Add<GpuFilter> for GpuFilter {
    type Output = GpuFilterSequence;

    fn add(self, rhs: GpuFilter) -> (r: GpuFilterSequence) {
        GpuFilterSequence::Chain((self, Box::new(GpuFilterSequence::Apply(rhs))))
    }
}

impl vstd::std_specs::ops::AddSpecImpl<GpuFilter> for GpuFilter {
    open spec fn obeys_add_spec() -> bool {
        true
    }

    open spec fn add_req(self, rhs: GpuFilter) -> bool {
        true
    }

    open spec fn add_spec(self, rhs: GpuFilter) -> GpuFilterSequence {
        GpuFilterSequence::Chain((self, Box::new(GpuFilterSequence::Apply(rhs))))
    }
}

/// `sequence + filter`: the added filter is put in front of the sequence.
impl core::ops::Add<GpuFilter> for GpuFilterSequence {
    type Output = GpuFilterSequence;

    fn add(self, rhs: GpuFilter) -> (r: GpuFilterSequence) {
        GpuFilterSequence::Chain((rhs, Box::new(self)))
    }
}

impl vstd::std_specs::ops::AddSpecImpl<GpuFilter> for GpuFilterSequence {
    open spec fn obeys_add_spec() -> bool {
        true
    }

    open spec fn add_req(self, rhs: GpuFilter) -> bool {
        true
    }

    open spec fn add_spec(self, rhs: GpuFilter) -> GpuFilterSequence {
        GpuFilterSequence::Chain((rhs, Box::new(self)))
    }
}

/// `sequence * n`: the sequence repeated `n` times.
impl core::ops::Mul<u32> for GpuFilterSequence {
    type Output = GpuFilterSequence;

    fn mul(self, rhs: u32) -> (r: GpuFilterSequence) {
        GpuFilterSequence::Repeat(rhs, Box::new(self))
    }
}

impl vstd::std_specs::ops::MulSpecImpl<u32> for GpuFilterSequence {
    open spec fn obeys_mul_spec() -> bool {
        true
    }

    open spec fn mul_req(self, rhs: u32) -> bool {
        true
    }

    open spec fn mul_spec(self, rhs: u32) -> GpuFilterSequence {
        GpuFilterSequence::Repeat(rhs, Box::new(self))
    }
}

/// `filter * n`: the filter applied `n` times.
impl core::ops::Mul<u32> for GpuFilter {
    type Output = GpuFilterSequence;

    fn mul(self, rhs: u32) -> (r: GpuFilterSequence) {
        GpuFilterSequence::Repeat(rhs, Box::new(GpuFilterSequence::Apply(self)))
    }
}

impl vstd::std_specs::ops::MulSpecImpl<u32> for GpuFilter {
    open spec fn obeys_mul_spec() -> bool {
        true
    }

    open spec fn mul_req(self, rhs: u32) -> bool {
        true
    }

    open spec fn mul_spec(self, rhs: u32) -> GpuFilterSequence {
        GpuFilterSequence::Repeat(rhs, Box::new(GpuFilterSequence::Apply(self)))
    }
}

/// A single filter as a sequence.
impl core::convert::From<GpuFilter> for GpuFilterSequence {
    fn from(filter: GpuFilter) -> (r: GpuFilterSequence) {
        GpuFilterSequence::Apply(filter)
    }
}

impl vstd::std_specs::convert::FromSpecImpl<GpuFilter> for GpuFilterSequence {
    open spec fn obeys_from_spec() -> bool {
        true
    }

    open spec fn from_spec(filter: GpuFilter) -> GpuFilterSequence {
        GpuFilterSequence::Apply(filter)
    }
}

/// A repetition holds `n` times as many filters as the repeated sequence.
pub proof fn lemma_repeat_len<A>(s: Seq<A>, n: nat)
    ensures
        repeat_seq(s, n).len() == n * s.len(),
    decreases n,
{
    if n > 0 {
        let m = (n - 1) as nat;
        lemma_repeat_len(s, m);
        assert(repeat_seq(s, n) == repeat_seq(s, m) + s);
        assert(n * s.len() == m * s.len() + s.len()) by (nonlinear_arith)
            requires
                n == m + 1,
        ;
    } else {
        assert(n * s.len() == 0) by (nonlinear_arith)
            requires
                n == 0,
        ;
    }
}

/// The algebra of filter sequences: `f + s` applies `f` then `s`; `f + g`
/// applies `f` then `g`; `s + f` applies `f` then `s`; `s * n` applies `s`
/// `n` times over; a lone filter is the sequence of just that filter.
pub proof fn lemma_filter_algebra(f: GpuFilter, g: GpuFilter, s: GpuFilterSequence, n: u32)
    ensures
        <GpuFilter as AddSpec<GpuFilterSequence>>::add_spec(
            f,
            s,
        ).filters() == seq![f] + s.filters(),
        <GpuFilter as AddSpec<GpuFilter>>::add_spec(f, g).filters()
            == seq![f, g],
        <GpuFilterSequence as AddSpec<GpuFilter>>::add_spec(
            s,
            f,
        ).filters() == seq![f] + s.filters(),
        <GpuFilterSequence as MulSpec<u32>>::mul_spec(s, n).filters()
            == repeat_seq(s.filters(), n as nat),
        <GpuFilterSequence as MulSpec<u32>>::mul_spec(
            s,
            n,
        ).filters().len() == n * s.filters().len(),
        <GpuFilter as MulSpec<u32>>::mul_spec(f, n).filters()
            == repeat_seq(seq![f], n as nat),
        <GpuFilterSequence as FromSpec<GpuFilter>>::from_spec(
            f,
        ).filters() == seq![f],
{
    lemma_repeat_len(s.filters(), n as nat);
    assert(GpuFilterSequence::Apply(g).filters() == seq![g]);
    assert(GpuFilterSequence::Apply(f).filters() == seq![f]);
    assert(seq![f] + seq![g] =~= seq![f, g]);
}

} // verus!
