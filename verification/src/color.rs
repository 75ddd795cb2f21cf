//! Integer RGBA color arithmetic for the rasterizer.

use vstd::prelude::*;

verus! {

/// `a` blended over `b`, both non-premultiplied RGBA quads with alphas in
/// 0..=255. The formulas are the usual "over" operator with every fraction
/// scaled by 255 and rounded down.
pub open spec fn spec_alpha_blend(a: Seq<u8>, b: Seq<u8>) -> Seq<u8>
    recommends
        a.len() == 4,
        b.len() == 4,
{
    let aa = a[3] as int;
    let ab = (b[3] as int) * (255 - aa) / 255;
    let ao = aa + ab;
    if ao == 0 {
        seq![0u8, 0u8, 0u8, 0u8]
    } else {
        seq![
            (((a[0] as int) * aa + (b[0] as int) * ab) / ao) as u8,
            (((a[1] as int) * aa + (b[1] as int) * ab) / ao) as u8,
            (((a[2] as int) * aa + (b[2] as int) * ab) / ao) as u8,
            ao as u8,
        ]
    }
}

/// One blended channel: `(ca * aa + cb * ab) / ao`.
fn blend_channel(ca: u8, cb: u8, aa: u32, ab: u32, ao: u32) -> (r: u8)
    requires
        aa <= 255,
        ab <= 255,
        0 < ao <= 255,
        ao == aa + ab,
    ensures
        r as int == ((ca as int) * (aa as int) + (cb as int) * (ab as int)) / (ao as int),
{
    proof {
        let num = (ca as int) * (aa as int) + (cb as int) * (ab as int);
        assert(0 <= num <= 255 * (aa as int) + 255 * (ab as int)) by (nonlinear_arith)
            requires
                0 <= ca <= 255,
                0 <= cb <= 255,
                0 <= aa,
                0 <= ab,
                num == (ca as int) * (aa as int) + (cb as int) * (ab as int),
        ;
        assert(num / (ao as int) <= 255) by (nonlinear_arith)
            requires
                0 < ao,
                num <= 255 * (ao as int),
        ;
        assert(0 <= num / (ao as int)) by (nonlinear_arith)
            requires
                0 < ao,
                0 <= num,
        ;
    }
    (((ca as u32) * aa + (cb as u32) * ab) / ao) as u8
}

/// Alpha-blend the quad `a` over the quad `b`.
pub fn alpha_blend(a: [u8; 4], b: [u8; 4]) -> (r: [u8; 4])
    ensures
        r@ == spec_alpha_blend(a@, b@),
{
    proof {
        assert((b[3] as int) * (255 - (a[3] as int)) / 255 <= 255 - (a[3] as int))
            by (nonlinear_arith)
            requires
                0 <= b[3] <= 255,
                0 <= a[3] <= 255,
        ;
        assert(0 <= (b[3] as int) * (255 - (a[3] as int)) <= 255 * 255) by (nonlinear_arith)
            requires
                0 <= b[3] <= 255,
                0 <= a[3] <= 255,
        ;
    }
    let aa: u32 = a[3] as u32;
    let ab: u32 = (b[3] as u32) * (255 - aa) / 255;
    let ao: u32 = aa + ab;
    if ao == 0 {
        [0, 0, 0, 0]
    } else {
        let r = [
            blend_channel(a[0], b[0], aa, ab, ao),
            blend_channel(a[1], b[1], aa, ab, ao),
            blend_channel(a[2], b[2], aa, ab, ao),
            ao as u8,
        ];
        proof {
            assert(r@ =~= spec_alpha_blend(a@, b@));
        }
        r
    }
}

/// The point `t/255` of the way from `a` to `b`, per channel.
pub open spec fn spec_interpolate(a: Seq<u8>, b: Seq<u8>, t: int) -> Seq<u8>
    recommends
        a.len() == 4,
        b.len() == 4,
        0 <= t <= 255,
{
    Seq::new(4, |i: int| (((a[i] as int) * (255 - t) + (b[i] as int) * t) / 255) as u8)
}

/// Interpolate two colors; `t` runs from 0 (all `a`) to 255 (all `b`).
pub fn interpolate_colors(a: [u8; 4], b: [u8; 4], t: u8) -> (r: [u8; 4])
    ensures
        r@ == spec_interpolate(a@, b@, t as int),
{
    let r = [
        lerp_channel(a[0], b[0], t),
        lerp_channel(a[1], b[1], t),
        lerp_channel(a[2], b[2], t),
        lerp_channel(a[3], b[3], t),
    ];
    proof {
        assert(r@ =~= spec_interpolate(a@, b@, t as int));
    }
    r
}

/// One interpolated channel.
fn lerp_channel(ca: u8, cb: u8, t: u8) -> (r: u8)
    ensures
        r as int == ((ca as int) * (255 - (t as int)) + (cb as int) * (t as int)) / 255,
{
    proof {
        let num = (ca as int) * (255 - (t as int)) + (cb as int) * (t as int);
        assert(0 <= num <= 255 * 255) by (nonlinear_arith)
            requires
                0 <= ca <= 255,
                0 <= cb <= 255,
                0 <= t <= 255,
                num == (ca as int) * (255 - (t as int)) + (cb as int) * (t as int),
        ;
        assert(0 <= num / 255 <= 255) by (nonlinear_arith)
            requires
                0 <= num <= 255 * 255,
        ;
    }
    (((ca as u32) * (255 - (t as u32)) + (cb as u32) * (t as u32)) / 255) as u8
}

} // verus!
