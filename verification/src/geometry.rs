//! Rectangular regions of the viewport and the vertical splits that carve
//! them into bands: a fixed-height band at the top, the one-cell border
//! inset of a panel, and percentage-proportioned stacks.

use vstd::arithmetic::div_mod::{lemma_fundamental_div_mod, lemma_mod_bound};
use vstd::prelude::*;

verus! {

/// A rectangular area of the viewport, measured in cells.
#[derive(Clone, Copy, PartialEq, Eq, Structural, Debug)]
pub struct Region {
    pub x: u16,
    pub y: u16,
    pub width: u16,
    pub height: u16,
}

impl Region {
    /// The far edges still fit in cell coordinates.
    pub open spec fn wf(self) -> bool {
        &&& self.x + self.width <= u16::MAX
        &&& self.y + self.height <= u16::MAX
    }

    pub open spec fn right(self) -> int {
        self.x + self.width
    }

    pub open spec fn bottom(self) -> int {
        self.y + self.height
    }

    /// `other` lies entirely within `self`.
    pub open spec fn contains(self, other: Region) -> bool {
        &&& self.x <= other.x
        &&& self.y <= other.y
        &&& other.right() <= self.right()
        &&& other.bottom() <= self.bottom()
    }
}

/// The interior of a bordered panel: one cell in from every side, or empty
/// when the panel is too small to have an interior.
pub open spec fn inner_spec(r: Region) -> Region {
    if r.width >= 2 && r.height >= 2 {
        Region {
            x: (r.x + 1) as u16,
            y: (r.y + 1) as u16,
            width: (r.width - 2) as u16,
            height: (r.height - 2) as u16,
        }
    } else {
        Region { x: r.x, y: r.y, width: 0, height: 0 }
    }
}

/// The interior of a bordered panel drawn on `r`.
pub fn inner_region(r: Region) -> (res: Region)
    requires
        r.wf(),
    ensures
        res == inner_spec(r),
        r.contains(res),
        res.wf(),
{
    if r.width >= 2 && r.height >= 2 {
        Region { x: r.x + 1, y: r.y + 1, width: r.width - 2, height: r.height - 2 }
    } else {
        Region { x: r.x, y: r.y, width: 0, height: 0 }
    }
}

/// A fixed-height band at the top of `r`, and the rest of `r` below it.
pub open spec fn split_top_spec(r: Region, top: u16) -> (Region, Region) {
    let t = if top <= r.height {
        top
    } else {
        r.height
    };
    (
        Region { x: r.x, y: r.y, width: r.width, height: t },
        Region { x: r.x, y: (r.y + t) as u16, width: r.width, height: (r.height - t) as u16 },
    )
}

/// Splits off a band of height `top` (clipped to `r`) at the top of `r`;
/// the second region fills whatever is left below.
pub fn split_top(r: Region, top: u16) -> (res: (Region, Region))
    requires
        r.wf(),
    ensures
        res == split_top_spec(r, top),
        r.contains(res.0),
        r.contains(res.1),
        res.0.wf(),
        res.1.wf(),
        res.0.height + res.1.height == r.height,
{
    let t: u16 = if top <= r.height {
        top
    } else {
        r.height
    };
    (
        Region { x: r.x, y: r.y, width: r.width, height: t },
        Region { x: r.x, y: r.y + t, width: r.width, height: r.height - t },
    )
}

/// The share of `len` that `p` percent claims, rounded to the nearest whole
/// cell with halves rounding down.
pub open spec fn pct_of(len: int, p: int) -> int {
    (len * p + 49) / 100
}

pub open spec fn min_int(a: int, b: int) -> int {
    if a <= b {
        a
    } else {
        b
    }
}

/// The band heights that percentages `ps` carve out of a band of height
/// `orig` when `remaining` cells are still unassigned: every band but the
/// last takes its rounded share of `orig`, clipped to what is left, and the
/// last band takes the rest.
pub open spec fn split_heights_rec(orig: int, remaining: int, ps: Seq<u16>) -> Seq<int>
    decreases ps.len(),
{
    if ps.len() == 0 {
        Seq::empty()
    } else if ps.len() == 1 {
        seq![remaining]
    } else {
        let h = min_int(pct_of(orig, ps[0] as int), remaining);
        seq![h] + split_heights_rec(orig, remaining - h, ps.drop_first())
    }
}

/// The band heights that percentages `ps` carve out of a band of height `len`.
pub open spec fn split_heights(len: int, ps: Seq<u16>) -> Seq<int> {
    split_heights_rec(len, len, ps)
}

pub open spec fn sum_ints(s: Seq<int>) -> int
    decreases s.len(),
{
    if s.len() == 0 {
        0
    } else {
        s[0] + sum_ints(s.drop_first())
    }
}

/// The horizontal bands of heights `hs` stacked top to bottom inside `r`.
pub open spec fn stacked_spec(r: Region, hs: Seq<int>) -> Seq<Region> {
    Seq::new(
        hs.len(),
        |i: int|
            Region {
                x: r.x,
                y: (r.y + sum_ints(hs.take(i))) as u16,
                width: r.width,
                height: hs[i] as u16,
            },
    )
}

pub proof fn lemma_sum_take_succ(s: Seq<int>, i: int)
    requires
        0 <= i < s.len(),
    ensures
        sum_ints(s.take(i + 1)) == sum_ints(s.take(i)) + s[i],
    decreases i,
{
    if i == 0 {
        assert(s.take(1).drop_first() =~= Seq::<int>::empty());
        assert(s.take(0) =~= Seq::<int>::empty());
    } else {
        assert(s.take(i + 1).drop_first() =~= s.drop_first().take(i));
        assert(s.take(i).drop_first() =~= s.drop_first().take(i - 1));
        lemma_sum_take_succ(s.drop_first(), i - 1);
    }
}

pub proof fn lemma_sum_take_mono(s: Seq<int>, i: int, j: int)
    requires
        0 <= i <= j <= s.len(),
        forall|k: int| 0 <= k < s.len() ==> s[k] >= 0,
    ensures
        sum_ints(s.take(i)) <= sum_ints(s.take(j)),
    decreases j - i,
{
    if i < j {
        lemma_sum_take_succ(s, j - 1);
        lemma_sum_take_mono(s, i, j - 1);
    }
}

/// The heights carved out of a band are nonnegative, one per percentage,
/// and together they cover the band exactly.
pub proof fn lemma_split_heights_rec_bounds(orig: int, remaining: int, ps: Seq<u16>)
    requires
        0 <= orig,
        0 <= remaining,
        ps.len() >= 1,
    ensures
        split_heights_rec(orig, remaining, ps).len() == ps.len(),
        forall|i: int|
            0 <= i < ps.len() ==> 0 <= #[trigger] split_heights_rec(orig, remaining, ps)[i]
                <= remaining,
        sum_ints(split_heights_rec(orig, remaining, ps)) == remaining,
    decreases ps.len(),
{
    let res = split_heights_rec(orig, remaining, ps);
    if ps.len() == 1 {
        assert(res =~= seq![remaining]);
        assert(res.drop_first() =~= Seq::<int>::empty());
        assert(res[0] == remaining);
        assert(sum_ints(res.drop_first()) == 0);
        assert(sum_ints(res) == remaining);
    } else {
        let p = ps[0] as int;
        let q = pct_of(orig, p);
        assert(orig * p >= 0) by (nonlinear_arith)
            requires
                orig >= 0,
                p >= 0,
        ;
        assert(q >= 0) by {
            lemma_fundamental_div_mod(orig * p + 49, 100);
            lemma_mod_bound(orig * p + 49, 100);
        }
        let h = min_int(q, remaining);
        let rest = split_heights_rec(orig, remaining - h, ps.drop_first());
        lemma_split_heights_rec_bounds(orig, remaining - h, ps.drop_first());
        assert(res == seq![h] + rest);
        assert(res.drop_first() =~= rest);
        assert(res[0] == h);
        assert(sum_ints(res) == h + sum_ints(rest));
        assert forall|i: int| 0 <= i < ps.len() implies 0 <= #[trigger] res[i] <= remaining by {
            if i >= 1 {
                assert(res[i] == rest[i - 1]);
            }
        }
    }
}

/// Splits `r` into one horizontal band per entry of `ps`, top to bottom.
/// Every band but the last gets its percentage of the height rounded to the
/// nearest cell (halves rounding down) and clipped to the space left; the
/// last band takes whatever remains.
pub fn split_vertical(r: Region, ps: &Vec<u16>) -> (out: Vec<Region>)
    requires
        r.wf(),
        ps@.len() >= 1,
    ensures
        out@ == stacked_spec(r, split_heights(r.height as int, ps@)),
        out@.len() == ps@.len(),
        forall|i: int| 0 <= i < out@.len() ==> r.contains(#[trigger] out@[i]) && out@[i].wf(),
{
    let len: u16 = r.height;
    let ghost hs = split_heights(len as int, ps@);
    proof {
        lemma_split_heights_rec_bounds(len as int, len as int, ps@);
        assert(ps@.skip(0) =~= ps@);
        assert(hs.skip(0) =~= hs);
        assert(hs.take(0) =~= Seq::<int>::empty());
    }
    let n: usize = ps.len();
    let mut out: Vec<Region> = Vec::new();
    let mut used: u16 = 0;
    let mut i: usize = 0;
    while i < n - 1
        invariant
            n == ps@.len(),
            1 <= n,
            i <= n - 1,
            len == r.height,
            r.wf(),
            hs == split_heights(len as int, ps@),
            hs.len() == n,
            forall|k: int| 0 <= k < n ==> 0 <= #[trigger] hs[k] <= len,
            sum_ints(hs) == len,
            used <= len,
            used as int == sum_ints(hs.take(i as int)),
            hs.skip(i as int) == split_heights_rec(len as int, len - used, ps@.skip(i as int)),
            out@.len() == i,
            forall|k: int|
                0 <= k < i ==> #[trigger] out@[k] == stacked_spec(r, hs)[k],
        decreases n - i,
    {
        let remaining: u16 = len - used;
        let a: u32 = len as u32;
        let b: u32 = ps[i] as u32;
        proof {
            assert(a * b <= 0xfffe0001) by (nonlinear_arith)
                requires
                    a <= 0xffff,
                    b <= 0xffff,
            ;
        }
        let ideal: u32 = (a * b + 49) / 100;
        let h: u16 = if ideal >= remaining as u32 {
            remaining
        } else {
            ideal as u16
        };
        proof {
            let gi = i as int;
            let tail = ps@.skip(gi);
            assert(tail.len() >= 2);
            assert(tail[0] == ps@[gi]);
            let q = pct_of(len as int, ps@[gi] as int);
            assert(ideal as int == q) by {
                assert(a * b == (len as int) * (ps@[gi] as int)) by (nonlinear_arith)
                    requires
                        a == len as int,
                        b == ps@[gi] as int,
                ;
            }
            let hh = min_int(q, remaining as int);
            assert(h as int == hh);
            assert(split_heights_rec(len as int, remaining as int, tail) == seq![hh]
                + split_heights_rec(len as int, remaining - hh, tail.drop_first()));
            assert(hs.skip(gi)[0] == hs[gi]);
            assert(hs[gi] == hh);
            assert(hs.skip(gi).drop_first() =~= hs.skip(gi + 1));
            assert(tail.drop_first() =~= ps@.skip(gi + 1));
            lemma_sum_take_succ(hs, gi);
        }
        out.push(Region { x: r.x, y: r.y + used, width: r.width, height: h });
        used = used + h;
        i = i + 1;
        proof {
            assert(out@[i - 1] == stacked_spec(r, hs)[i - 1]);
        }
    }
    proof {
        let gi = i as int;
        assert(ps@.skip(gi).len() == 1);
        assert(split_heights_rec(len as int, len - used, ps@.skip(gi)) =~= seq![len - used]);
        assert(hs.skip(gi)[0] == hs[gi]);
        assert(hs[gi] == len - used);
        lemma_sum_take_succ(hs, gi);
    }
    out.push(Region { x: r.x, y: r.y + used, width: r.width, height: len - used });
    proof {
        assert(out@[n - 1] == stacked_spec(r, hs)[n - 1]);
        assert(out@ =~= stacked_spec(r, hs));
        assert forall|k: int| 0 <= k < out@.len() implies r.contains(#[trigger] out@[k])
            && out@[k].wf() by {
            lemma_sum_take_mono(hs, 0, k);
            lemma_sum_take_succ(hs, k);
            lemma_sum_take_mono(hs, k + 1, hs.len() as int);
            assert(hs.take(hs.len() as int) =~= hs);
            assert(hs.take(0) =~= Seq::<int>::empty());
        }
    }
    out
}

/// What `split_vertical` says of the stacked bands, stated of the spec alone
/// so that reasoning about a composition needs no executable call: each band
/// stays inside `r` and the bands cover `r`'s height exactly.
pub proof fn lemma_stacked_split(r: Region, ps: Seq<u16>)
    requires
        r.wf(),
        ps.len() >= 1,
    ensures
        ({
            let rs = stacked_spec(r, split_heights(r.height as int, ps));
            &&& rs.len() == ps.len()
            &&& forall|i: int| 0 <= i < rs.len() ==> r.contains(#[trigger] rs[i]) && rs[i].wf()
            &&& sum_ints(split_heights(r.height as int, ps)) == r.height
        }),
{
    let hs = split_heights(r.height as int, ps);
    let rs = stacked_spec(r, hs);
    lemma_split_heights_rec_bounds(r.height as int, r.height as int, ps);
    assert forall|i: int| 0 <= i < rs.len() implies r.contains(#[trigger] rs[i]) && rs[i].wf() by {
        lemma_sum_take_mono(hs, 0, i);
        lemma_sum_take_succ(hs, i);
        lemma_sum_take_mono(hs, i + 1, hs.len() as int);
        assert(hs.take(hs.len() as int) =~= hs);
        assert(hs.take(0) =~= Seq::<int>::empty());
    }
}

} // verus!
