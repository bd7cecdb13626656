use vstd::prelude::*;

use vstd::arithmetic::div_mod::lemma_div_is_ordered;
use vstd::arithmetic::div_mod::lemma_fundamental_div_mod;
use vstd::arithmetic::div_mod::lemma_fundamental_div_mod_converse;

verus! {

/// The quotient `n / d`, rounded to the nearest integer, halves away from zero.
pub open spec fn round_div(n: int, d: int) -> int
    recommends
        d > 0,
{
    (2 * n + d) / (2 * d)
}

/// The dimension derived from `a` by the ratio `num / den`, floored at one so
/// that a resolved dimension never collapses to zero.
pub open spec fn scaled_dim(a: int, num: int, den: int) -> int
    recommends
        den > 0,
{
    let r = round_div(a * num, den);
    if r < 1 {
        1
    } else {
        r
    }
}

/// A requested dimension of zero counts as absent.
pub open spec fn norm_dim(d: Option<u32>) -> Option<u32> {
    match d {
        Option::Some(v) => if v == 0 {
            Option::None
        } else {
            Option::Some(v)
        },
        Option::None => Option::None,
    }
}

/// The target box for a request, as a decision table over which dimensions
/// were requested (a zero counting as absent): neither requested keeps the
/// source box; both requested are taken verbatim; a single requested dimension
/// above its source counterpart falls back to the source box (no upscaling
/// from a bare dimension), and otherwise has the other dimension derived from
/// the source aspect ratio, rounded to nearest.
pub open spec fn spec_resolve(sw: u32, sh: u32, w: Option<u32>, h: Option<u32>) -> (int, int)
    recommends
        sw >= 1,
        sh >= 1,
{
    match (norm_dim(w), norm_dim(h)) {
        (Option::None, Option::None) => (sw as int, sh as int),
        (Option::Some(wv), Option::Some(hv)) => (wv as int, hv as int),
        (Option::Some(wv), Option::None) => if wv > sw {
            (sw as int, sh as int)
        } else {
            (wv as int, scaled_dim(wv as int, sh as int, sw as int))
        },
        (Option::None, Option::Some(hv)) => if hv > sh {
            (sw as int, sh as int)
        } else {
            (scaled_dim(hv as int, sw as int, sh as int), hv as int)
        },
    }
}

/// One derived dimension: `a` scaled by `num / den`, rounded to nearest and
/// floored at one. `a <= den` keeps the result within `num`, so it fits.
fn scale(a: u32, num: u32, den: u32) -> (r: u32)
    requires
        1 <= den,
        a <= den,
    ensures
        r as int == scaled_dim(a as int, num as int, den as int),
        1 <= r,
{
    proof {
        assert((a as u64) * (num as u64) <= 0xffff_ffffu64 * 0xffff_ffffu64) by (nonlinear_arith)
            requires
                a <= 0xffff_ffffu64,
                num <= 0xffff_ffffu64,
        ;
    }
    let n: u64 = (a as u64) * (num as u64);
    let d: u64 = den as u64;
    let q: u64 = n / d;
    let rem: u64 = n % d;
    proof {
        let ni = n as int;
        let di = d as int;
        lemma_fundamental_div_mod(ni, di);
        let qi = ni / di;
        let ri = ni % di;
        assert(qi <= ni) by (nonlinear_arith)
            requires
                ni == di * qi + ri,
                di >= 1,
                ri >= 0,
                ni >= 0,
        ;
        if 2 * ri >= di {
            assert(2 * ni + di == (qi + 1) * (2 * di) + (2 * ri - di)) by (nonlinear_arith)
                requires
                    ni == di * qi + ri,
            ;
            lemma_fundamental_div_mod_converse(2 * ni + di, 2 * di, qi + 1, 2 * ri - di);
        } else {
            assert(2 * ni + di == qi * (2 * di) + (2 * ri + di)) by (nonlinear_arith)
                requires
                    ni == di * qi + ri,
            ;
            lemma_fundamental_div_mod_converse(2 * ni + di, 2 * di, qi, 2 * ri + di);
        }
        // round_div(a * num, den) is at most num, because a <= den.
        assert(2 * ni + di <= 2 * di * (num as int) + di) by (nonlinear_arith)
            requires
                ni == (a as int) * (num as int),
                a as int <= di,
                num as int >= 0,
        ;
        assert((num as int) * (2 * di) + di == 2 * di * (num as int) + di) by (nonlinear_arith);
        lemma_fundamental_div_mod_converse(
            2 * di * (num as int) + di,
            2 * di,
            num as int,
            di,
        );
        lemma_div_is_ordered(2 * ni + di, 2 * di * (num as int) + di, 2 * di);
    }
    let rounded: u64 = if 2 * rem >= d {
        q + 1
    } else {
        q
    };
    if rounded < 1 {
        1
    } else {
        rounded as u32
    }
}

/// Resolves the requested width and height against the source dimensions,
/// establishing the target box that the resizer is asked to satisfy. Neither
/// returned dimension is ever zero.
pub fn get_size(w: Option<u32>, h: Option<u32>, source_w: u32, source_h: u32) -> (r: (u32, u32))
    requires
        1 <= source_w,
        1 <= source_h,
    ensures
        (r.0 as int, r.1 as int) == spec_resolve(source_w, source_h, w, h),
        1 <= r.0,
        1 <= r.1,
{
    let wn: Option<u32> = match w {
        Option::Some(v) => if v == 0 {
            Option::None
        } else {
            Option::Some(v)
        },
        Option::None => Option::None,
    };
    let hn: Option<u32> = match h {
        Option::Some(v) => if v == 0 {
            Option::None
        } else {
            Option::Some(v)
        },
        Option::None => Option::None,
    };
    match (wn, hn) {
        (Option::None, Option::None) => (source_w, source_h),
        (Option::Some(wv), Option::Some(hv)) => (wv, hv),
        (Option::Some(wv), Option::None) => {
            if wv > source_w {
                (source_w, source_h)
            } else {
                let hv = scale(wv, source_h, source_w);
                (wv, hv)
            }
        },
        (Option::None, Option::Some(hv)) => {
            if hv > source_h {
                (source_w, source_h)
            } else {
                let wv = scale(hv, source_w, source_h);
                (wv, hv)
            }
        },
    }
}

/// A request with neither dimension keeps the source dimensions unchanged.
pub proof fn lemma_resolve_source_unchanged(sw: u32, sh: u32)
    requires
        1 <= sw,
        1 <= sh,
    ensures
        spec_resolve(sw, sh, Option::None, Option::None) == (sw as int, sh as int),
{
}

/// A bare requested width above the source width falls back to the source
/// dimensions: the resolver never upscales from a single dimension.
pub proof fn lemma_resolve_no_upscale_width(sw: u32, sh: u32, w: u32)
    requires
        1 <= sw,
        1 <= sh,
        w > sw,
    ensures
        spec_resolve(sw, sh, Option::Some(w), Option::None) == (sw as int, sh as int),
{
}

/// The symmetric guard on a bare requested height.
pub proof fn lemma_resolve_no_upscale_height(sw: u32, sh: u32, h: u32)
    requires
        1 <= sw,
        1 <= sh,
        h > sh,
    ensures
        spec_resolve(sw, sh, Option::None, Option::Some(h)) == (sw as int, sh as int),
{
}

/// A requested dimension of zero is treated exactly as if it were absent.
pub proof fn lemma_resolve_zero_is_absent(sw: u32, sh: u32, w: Option<u32>, h: Option<u32>)
    requires
        1 <= sw,
        1 <= sh,
    ensures
        spec_resolve(sw, sh, Option::Some(0), Option::Some(0)) == (sw as int, sh as int),
        spec_resolve(sw, sh, Option::Some(0), h) == spec_resolve(sw, sh, Option::None, h),
        spec_resolve(sw, sh, w, Option::Some(0)) == spec_resolve(sw, sh, w, Option::None),
{
}

/// Two explicit nonzero dimensions are returned verbatim, unaffected by the
/// source aspect ratio.
pub proof fn lemma_resolve_verbatim(sw: u32, sh: u32, w: u32, h: u32)
    requires
        1 <= sw,
        1 <= sh,
        1 <= w,
        1 <= h,
    ensures
        spec_resolve(sw, sh, Option::Some(w), Option::Some(h)) == (w as int, h as int),
{
}

} // verus!
