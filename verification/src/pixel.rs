//! Pixels of premultiplied BGRA buffers, `0xAARRGGBB`, and how a colour is
//! laid over one.
use vstd::prelude::*;

verus! {

/// The channel of `p` that starts at bit `8 * k` (0 blue, 1 green, 2 red, 3 alpha).
pub open spec fn channel(p: u32, k: nat) -> int {
    (p as int / pow256(k)) % 256
}

pub open spec fn pow256(k: nat) -> int
    decreases k,
{
    if k == 0 {
        1
    } else {
        256 * pow256((k - 1) as nat)
    }
}

/// The pixel with the given alpha, red, green and blue channels.
pub open spec fn pack(a: int, r: int, g: int, b: int) -> int {
    a * 0x100_0000 + r * 0x1_0000 + g * 0x100 + b
}

/// No colour channel of the premultiplied pixel `p` is above its alpha.
pub open spec fn premultiplied(p: u32) -> bool {
    channel(p, 0) <= channel(p, 3) && channel(p, 1) <= channel(p, 3) && channel(p, 2) <= channel(
        p,
        3,
    )
}

pub open spec fn min255(x: int) -> int {
    if x < 255 {
        x
    } else {
        255
    }
}

/// A colour channel `src` laid with alpha `a` over the channel `dst`.
pub open spec fn over(src: int, dst: int, a: int) -> int {
    min255(src * a / 255 + dst * (255 - a) / 255)
}

/// The pixel `d` with the colour `(r, g, b)` laid over it at alpha `a`
/// (alphas above 255 count as 255; alpha 0 leaves the pixel as it is).
pub open spec fn blended(d: u32, r: u8, g: u8, b: u8, a: u16) -> u32 {
    if a == 0 {
        d
    } else {
        let a = min255(a as int);
        pack(
            min255(a + channel(d, 3) * (255 - a) / 255),
            over(r as int, channel(d, 2), a),
            over(g as int, channel(d, 1), a),
            over(b as int, channel(d, 0), a),
        ) as u32
    }
}

proof fn lemma_channels(d: u32)
    ensures
        (d >> 24) & 0xff == channel(d, 3),
        (d >> 16) & 0xff == channel(d, 2),
        (d >> 8) & 0xff == channel(d, 1),
        d & 0xff == channel(d, 0),
{
    assert(pow256(3) == 0x100_0000) by {
        reveal_with_fuel(pow256, 4);
    }
    assert(pow256(2) == 0x1_0000) by {
        reveal_with_fuel(pow256, 3);
    }
    assert(pow256(1) == 0x100) by {
        reveal_with_fuel(pow256, 2);
    }
    assert(pow256(0) == 1);
    assert((d >> 24) & 0xff == (d / 0x100_0000) % 256) by (bit_vector);
    assert((d >> 16) & 0xff == (d / 0x1_0000) % 256) by (bit_vector);
    assert((d >> 8) & 0xff == (d / 0x100) % 256) by (bit_vector);
    assert(d & 0xff == d % 256) by (bit_vector);
}

proof fn lemma_pack(a: u32, r: u32, g: u32, b: u32)
    requires
        a < 256,
        r < 256,
        g < 256,
        b < 256,
    ensures
        (a << 24) | (r << 16) | (g << 8) | b == pack(a as int, r as int, g as int, b as int),
{
    assert((a << 24) | (r << 16) | (g << 8) | b == a * 0x100_0000 + r * 0x1_0000 + g * 0x100 + b)
        by (bit_vector)
        requires
            a < 256,
            r < 256,
            g < 256,
            b < 256,
    ;
}

fn over_exec(src: u8, dst: u32, a: u16) -> (r: u32)
    requires
        dst < 256,
        a <= 255,
    ensures
        r == over(src as int, dst as int, a as int),
        r <= 255,
{
    let inv = 255 - a;
    assert(src * a <= 255 * 255) by (nonlinear_arith)
        requires
            src <= 255,
            a <= 255,
    ;
    assert(dst * inv <= 255 * 255) by (nonlinear_arith)
        requires
            dst <= 255,
            inv <= 255,
    ;
    let x: u16 = (src as u16 * a) / 255 + (dst as u16 * inv) / 255;
    if x < 255 {
        x as u32
    } else {
        255
    }
}

/// Lays the colour `(r, g, b)` at alpha `a` over the premultiplied pixel `dst`.
pub fn blend(dst: &mut u32, r: u8, g: u8, b: u8, a: u16)
    ensures
        *final(dst) == blended(*old(dst), r, g, b, a),
{
    if a == 0 {
        return;
    }
    let a = if a < 255 {
        a
    } else {
        255
    };
    let inv = 255 - a;
    let d = *dst;
    let da = (d >> 24) & 0xff;
    let dr = (d >> 16) & 0xff;
    let dg = (d >> 8) & 0xff;
    let db = d & 0xff;
    proof {
        lemma_channels(d);
    }
    let nr = over_exec(r, dr, a);
    let ng = over_exec(g, dg, a);
    let nb = over_exec(b, db, a);
    assert(da * inv <= 255 * 255) by (nonlinear_arith)
        requires
            da <= 255,
            inv <= 255,
    ;
    let x: u16 = a + (da as u16 * inv) / 255;
    let na: u32 = if x < 255 {
        x as u32
    } else {
        255
    };
    proof {
        lemma_pack(na, nr, ng, nb);
    }
    *dst = (na << 24) | (nr << 16) | (ng << 8) | nb;
}

/// Laying a colour over a pixel at alpha 0 leaves the pixel as it is.
pub proof fn lemma_blend_transparent(d: u32, r: u8, g: u8, b: u8)
    ensures
        blended(d, r, g, b, 0) == d,
{
}

/// Laying a colour over a pixel at full alpha (255 or more) gives the opaque colour.
pub proof fn lemma_blend_opaque(d: u32, r: u8, g: u8, b: u8, a: u16)
    requires
        a >= 255,
    ensures
        blended(d, r, g, b, a) == pack(255, r as int, g as int, b as int),
{
    assert((r as int) * 255 / 255 == r as int);
    assert((g as int) * 255 / 255 == g as int);
    assert((b as int) * 255 / 255 == b as int);
}

/// Laying a colour over a pixel never makes it more transparent, and leaves it
/// at least as opaque as the colour.
pub proof fn lemma_blend_alpha(d: u32, r: u8, g: u8, b: u8, a: u16)
    ensures
        channel(blended(d, r, g, b, a), 3) >= channel(d, 3),
        channel(blended(d, r, g, b, a), 3) >= min255(a as int) || a == 0,
{
    if a != 0 {
        let a2 = min255(a as int);
        let da = channel(d, 3);
        assert(0 <= da < 256);
        assert(da * (255 - a2) >= 0) by (nonlinear_arith)
            requires
                0 <= da,
                0 <= 255 - a2,
        ;
        let na = min255(a2 + da * (255 - a2) / 255);
        assert(da * (255 - a2) / 255 >= da - a2) by (nonlinear_arith)
            requires
                0 <= da <= 255,
                0 <= a2 <= 255,
        ;
        let nr = over(r as int, channel(d, 2), a2);
        let ng = over(g as int, channel(d, 1), a2);
        let nb = over(b as int, channel(d, 0), a2);
        lemma_over_range(r as int, channel(d, 2), a2);
        lemma_over_range(g as int, channel(d, 1), a2);
        lemma_over_range(b as int, channel(d, 0), a2);
        lemma_channel_of_pack(na, nr, ng, nb);
    }
}

/// A valid premultiplied pixel (no colour channel above its alpha) stays valid
/// when a colour is laid over it.
pub proof fn lemma_blend_premultiplied(d: u32, r: u8, g: u8, b: u8, a: u16)
    requires
        premultiplied(d),
    ensures
        premultiplied(blended(d, r, g, b, a)),
{
    if a != 0 {
        let a2 = min255(a as int);
        let da = channel(d, 3);
        let na = min255(a2 + da * (255 - a2) / 255);
        lemma_over_below(r as int, channel(d, 2), da, a2);
        lemma_over_below(g as int, channel(d, 1), da, a2);
        lemma_over_below(b as int, channel(d, 0), da, a2);
        lemma_over_range(r as int, channel(d, 2), a2);
        lemma_over_range(g as int, channel(d, 1), a2);
        lemma_over_range(b as int, channel(d, 0), a2);
        assert(da * (255 - a2) >= 0) by (nonlinear_arith)
            requires
                0 <= da,
                0 <= 255 - a2,
        ;
        lemma_channel_of_pack(
            na,
            over(r as int, channel(d, 2), a2),
            over(g as int, channel(d, 1), a2),
            over(b as int, channel(d, 0), a2),
        );
    }
}

/// A colour channel laid over one at or below the alpha `da` stays at or below
/// the alpha that the same laying gives.
proof fn lemma_over_below(src: int, dst: int, da: int, a: int)
    requires
        0 <= src < 256,
        0 <= dst <= da < 256,
        0 <= a <= 255,
    ensures
        over(src, dst, a) <= min255(a + da * (255 - a) / 255),
{
    assert(src * a / 255 <= a) by (nonlinear_arith)
        requires
            0 <= src <= 255,
            0 <= a <= 255,
    ;
    assert(dst * (255 - a) / 255 <= da * (255 - a) / 255) by (nonlinear_arith)
        requires
            0 <= dst <= da,
            0 <= 255 - a,
    ;
}

proof fn lemma_over_range(src: int, dst: int, a: int)
    requires
        0 <= src < 256,
        0 <= dst < 256,
        0 <= a <= 255,
    ensures
        0 <= over(src, dst, a) <= 255,
{
    assert(src * a >= 0) by (nonlinear_arith)
        requires
            0 <= src,
            0 <= a,
    ;
    assert(dst * (255 - a) >= 0) by (nonlinear_arith)
        requires
            0 <= dst,
            0 <= 255 - a,
    ;
}

proof fn lemma_channel_of_pack(a: int, r: int, g: int, b: int)
    requires
        0 <= a < 256,
        0 <= r < 256,
        0 <= g < 256,
        0 <= b < 256,
    ensures
        channel(pack(a, r, g, b) as u32, 3) == a,
        channel(pack(a, r, g, b) as u32, 2) == r,
        channel(pack(a, r, g, b) as u32, 1) == g,
        channel(pack(a, r, g, b) as u32, 0) == b,
{
    assert(pow256(3) == 0x100_0000) by {
        reveal_with_fuel(pow256, 4);
    }
    assert(pow256(2) == 0x1_0000) by {
        reveal_with_fuel(pow256, 3);
    }
    assert(pow256(1) == 0x100) by {
        reveal_with_fuel(pow256, 2);
    }
    let p = pack(a, r, g, b);
    assert(0 <= p < 0x1_0000_0000);
    assert(p / 0x100_0000 == a);
    assert(p / 0x1_0000 == a * 0x100 + r);
    assert(p / 0x100 == a * 0x1_0000 + r * 0x100 + g);
    assert((a * 0x100 + r) % 256 == r);
    assert((a * 0x1_0000 + r * 0x100 + g) % 256 == g);
    assert(p % 256 == b);
}

/// A fully black pixel at alpha `a`, as the spotlight's veil uses.
pub fn shade(a: u8) -> (r: u32)
    ensures
        r == pack(a as int, 0, 0, 0),
{
    let x = a as u32;
    assert(x << 24 == x * 0x100_0000) by (bit_vector)
        requires
            x < 256,
    ;
    x << 24
}

/// A colour as the colour dialog takes it: `0x00BBGGRR`.
pub open spec fn colorref(rgb: (u8, u8, u8)) -> int {
    rgb.0 as int + rgb.1 as int * 0x100 + rgb.2 as int * 0x1_0000
}

/// The red, green and blue of a colour as the colour dialog gives it.
pub open spec fn rgb_of(cr: u32) -> (u8, u8, u8) {
    ((cr % 256) as u8, ((cr / 0x100) % 256) as u8, ((cr / 0x1_0000) % 256) as u8)
}

pub fn to_colorref(rgb: (u8, u8, u8)) -> (r: u32)
    ensures
        r == colorref(rgb),
{
    let (a, b, c) = rgb;
    let (x, y, z) = (a as u32, b as u32, c as u32);
    assert(x | (y << 8) | (z << 16) == x + y * 0x100 + z * 0x1_0000) by (bit_vector)
        requires
            x < 256,
            y < 256,
            z < 256,
    ;
    x | (y << 8) | (z << 16)
}

pub fn from_colorref(cr: u32) -> (r: (u8, u8, u8))
    ensures
        r == rgb_of(cr),
{
    assert(cr & 0xff == cr % 256) by (bit_vector);
    assert((cr >> 8) & 0xff == (cr / 0x100) % 256) by (bit_vector);
    assert((cr >> 16) & 0xff == (cr / 0x1_0000) % 256) by (bit_vector);
    ((cr & 0xff) as u8, ((cr >> 8) & 0xff) as u8, ((cr >> 16) & 0xff) as u8)
}

/// A colour handed to the colour dialog and given back unchanged is the same colour.
pub proof fn lemma_colorref_round_trip(rgb: (u8, u8, u8))
    ensures
        0 <= colorref(rgb) < 0x1_0000_0000,
        rgb_of(colorref(rgb) as u32) == rgb,
{
    let c = colorref(rgb);
    let (a, b, d) = (rgb.0 as int, rgb.1 as int, rgb.2 as int);
    assert(c % 256 == a);
    assert((c / 0x100) % 256 == b);
    assert((c / 0x1_0000) % 256 == d);
}

} // verus!
