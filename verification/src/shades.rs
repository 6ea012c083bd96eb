use vstd::prelude::*;

verus! {

/// The number of steps between the first and the last of `total` colors; at least one.
pub open spec fn step_count(total: u8) -> int {
    if total <= 1 {
        1
    } else {
        total - 1
    }
}

/// `a / b` rounded up, for `b > 0`.
pub open spec fn ceil_div(a: int, b: int) -> int {
    (a + b - 1) / b
}

/// Channel `k` of `total` shades of `base`: the channel goes down by the same step each time,
/// the step chosen so that it reaches zero at the last color, and stays at zero once there.
pub open spec fn shade_channel(base: u8, total: u8, k: int) -> u8 {
    let step = ceil_div(base as int, step_count(total));
    if base - k * step < 0 {
        0
    } else {
        (base - k * step) as u8
    }
}

/// Channel `k` of `total` tints of `base`: the channel goes up by the same step each time, the
/// step chosen so that it reaches 255 at the last color, and stays at 255 once there.
pub open spec fn tint_channel(base: u8, total: u8, k: int) -> u8 {
    let step = ceil_div(255 - base, step_count(total));
    if base + k * step > 255 {
        255
    } else {
        (base + k * step) as u8
    }
}

fn step_of(span: u8, total: u8) -> (r: u8)
    ensures
        r == ceil_div(span as int, step_count(total)),
{
    let count: u16 = if total <= 1 {
        1
    } else {
        (total - 1) as u16
    };
    let r = (span as u16 + count - 1) / count;
    assert(r <= span) by (nonlinear_arith)
        requires
            r as int == (span + count - 1) as int / count as int,
            count >= 1,
    ;
    r as u8
}

proof fn lemma_next_multiple(k: int, step: int)
    ensures
        (k + 1) * step == k * step + step,
{
    assert((k + 1) * step == k * step + step) by (nonlinear_arith);
}

proof fn lemma_multiple_nonneg(k: int, step: int)
    requires
        k >= 0,
        step >= 0,
    ensures
        k * step >= 0,
{
    assert(k * step >= 0) by (nonlinear_arith)
        requires
            k >= 0,
            step >= 0,
    ;
}

/// `total` colors from `base` toward black: each channel goes down by the same step each time,
/// and reaches zero at the last color. With no count asked, the base color alone.
pub fn shades_of(base: (u8, u8, u8), total: u8) -> (r: Vec<(u8, u8, u8)>)
    ensures
        total == 0 ==> r@ == seq![base],
        total > 0 ==> r@.len() == total,
        forall|k: int|
            0 <= k < total ==> #[trigger] r@[k] == (
                shade_channel(base.0, total, k),
                shade_channel(base.1, total, k),
                shade_channel(base.2, total, k),
            ),
{
    if total == 0 {
        return vec![base];
    }
    let step_r = step_of(base.0, total);
    let step_g = step_of(base.1, total);
    let step_b = step_of(base.2, total);
    let (mut r, mut g, mut b) = base;
    let mut out: Vec<(u8, u8, u8)> = Vec::new();
    let mut k: u8 = 0;
    while k < total
        invariant
            k <= total,
            out@.len() == k,
            step_r == ceil_div(base.0 as int, step_count(total)),
            step_g == ceil_div(base.1 as int, step_count(total)),
            step_b == ceil_div(base.2 as int, step_count(total)),
            r == shade_channel(base.0, total, k as int),
            g == shade_channel(base.1, total, k as int),
            b == shade_channel(base.2, total, k as int),
            forall|j: int|
                0 <= j < k ==> #[trigger] out@[j] == (
                    shade_channel(base.0, total, j),
                    shade_channel(base.1, total, j),
                    shade_channel(base.2, total, j),
                ),
        decreases total - k,
    {
        out.push((r, g, b));
        proof {
            lemma_next_multiple(k as int, step_r as int);
            lemma_next_multiple(k as int, step_g as int);
            lemma_next_multiple(k as int, step_b as int);
            lemma_multiple_nonneg(k as int, step_r as int);
            lemma_multiple_nonneg(k as int, step_g as int);
            lemma_multiple_nonneg(k as int, step_b as int);
        }
        r = r.saturating_sub(step_r);
        g = g.saturating_sub(step_g);
        b = b.saturating_sub(step_b);
        k += 1;
    }
    out
}

/// `total` colors from `base` toward white: each channel goes up by the same step each time,
/// and reaches 255 at the last color. With no count asked, the base color alone.
pub fn tints_of(base: (u8, u8, u8), total: u8) -> (r: Vec<(u8, u8, u8)>)
    ensures
        total == 0 ==> r@ == seq![base],
        total > 0 ==> r@.len() == total,
        forall|k: int|
            0 <= k < total ==> #[trigger] r@[k] == (
                tint_channel(base.0, total, k),
                tint_channel(base.1, total, k),
                tint_channel(base.2, total, k),
            ),
{
    if total == 0 {
        return vec![base];
    }
    let step_r = step_of(255 - base.0, total);
    let step_g = step_of(255 - base.1, total);
    let step_b = step_of(255 - base.2, total);
    let (mut r, mut g, mut b) = base;
    let mut out: Vec<(u8, u8, u8)> = Vec::new();
    let mut k: u8 = 0;
    while k < total
        invariant
            k <= total,
            out@.len() == k,
            step_r == ceil_div(255 - base.0, step_count(total)),
            step_g == ceil_div(255 - base.1, step_count(total)),
            step_b == ceil_div(255 - base.2, step_count(total)),
            r == tint_channel(base.0, total, k as int),
            g == tint_channel(base.1, total, k as int),
            b == tint_channel(base.2, total, k as int),
            forall|j: int|
                0 <= j < k ==> #[trigger] out@[j] == (
                    tint_channel(base.0, total, j),
                    tint_channel(base.1, total, j),
                    tint_channel(base.2, total, j),
                ),
        decreases total - k,
    {
        out.push((r, g, b));
        proof {
            lemma_next_multiple(k as int, step_r as int);
            lemma_next_multiple(k as int, step_g as int);
            lemma_next_multiple(k as int, step_b as int);
            lemma_multiple_nonneg(k as int, step_r as int);
            lemma_multiple_nonneg(k as int, step_g as int);
            lemma_multiple_nonneg(k as int, step_b as int);
        }
        r = r.saturating_add(step_r);
        g = g.saturating_add(step_g);
        b = b.saturating_add(step_b);
        k += 1;
    }
    out
}

} // verus!

verus! {

proof fn lemma_ceil_div_covers(a: int, b: int)
    requires
        a >= 0,
        b >= 1,
    ensures
        b * ceil_div(a, b) >= a,
{
    assert(b * ((a + b - 1) / b) >= a) by (nonlinear_arith)
        requires
            a >= 0,
            b >= 1,
    ;
}

/// Shades start at the base color and, with two or more of them, end at black.
pub proof fn law_shades_span(base: u8, total: u8)
    requires
        total >= 1,
    ensures
        shade_channel(base, total, 0) == base,
        total >= 2 ==> shade_channel(base, total, total - 1) == 0,
{
    if total >= 2 {
        lemma_ceil_div_covers(base as int, total - 1);
    }
}

/// Tints start at the base color and, with two or more of them, end at full intensity.
pub proof fn law_tints_span(base: u8, total: u8)
    requires
        total >= 1,
    ensures
        tint_channel(base, total, 0) == base,
        total >= 2 ==> tint_channel(base, total, total - 1) == 255,
{
    if total >= 2 {
        lemma_ceil_div_covers(255 - base, total - 1);
    }
}

} // verus!
