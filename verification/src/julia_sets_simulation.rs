//! The escape-time fractal compute engine and its configuration.
//!
//! For every pixel the engine maps the grid coordinate to a point of
//! the complex plane, iterates `z -> z*z + c` until the squared
//! magnitude exceeds the squared escape radius or an iteration cap is
//! reached, and maps the step count to a color. The whole computation
//! is defined pixel-exactly by the spec functions in this module, and
//! `render` is proved to return precisely those colors.

use vstd::prelude::*;
use vstd::arithmetic::div_mod::{
    lemma_div_is_ordered, lemma_div_is_ordered_by_denominator, lemma_div_nonincreasing,
    lemma_div_pos_is_pos, lemma_fundamental_div_mod, lemma_fundamental_div_mod_converse,
    lemma_mod_bound,
};
use vstd::arithmetic::mul::lemma_mul_inequality;
use crate::complex::{Complex, complex_mul_im, complex_mul_re, complex_norm_squared};
use crate::fixed::{Fixed, FX_ONE_BITS, fx_add_bits, fx_mul_bits, fx_sat, fx_tdiv};
use crate::parameters::{
    Parameter, ParameterDescription, ParameterType, SimulationParameters, last_set_fixed,
    last_set_u32, lemma_field_names_distinct, lemma_last_set_step, or_fixed, or_u32,
};
use crate::image_out::{image_dims, image_rgb, raster_to_image, rgb_of};
use crate::raster::{Raster, Rgba, lemma_row_major_index};
use vstd::string::StringExecFns;

verus! {

pub const DEFAULT_WIDTH: u32 = 800;

pub const DEFAULT_HEIGHT: u32 = 800;

pub const DEFAULT_C_REAL_BITS: i64 = 0;

pub const DEFAULT_C_IMAGINARY_BITS: i64 = 0;

pub const DEFAULT_MAX_ITER: u32 = 1000;

/// The bits of the fixed-point value 2.0, the default escape radius.
pub const DEFAULT_ESCAPE_RADIUS_BITS: i64 = 0x2_0000_0000;

/// The configuration of one Julia-set run: raster dimensions, the
/// complex constant of the recurrence, the iteration cap and the
/// escape radius.
#[derive(Clone, Copy, PartialEq, Eq, Structural, Debug)]
pub struct JuliaSetParameters {
    pub width: u32,
    pub height: u32,
    pub c_real: Fixed,
    pub c_imaginary: Fixed,
    pub max_iter: u32,
    pub escape_radius: Fixed,
}

/// The horizontal plane coordinate of pixel column `x`: the value
/// `3 * (x - width/2) / width` carried to fixed-point bits exactly,
/// as `3 * (2x - width) / (2 * width)`.
pub open spec fn plane_x_bits(x: int, w: int) -> int {
    fx_sat(fx_tdiv(3 * (2 * x - w) * (FX_ONE_BITS as int), 2 * w))
}

/// The vertical plane coordinate of pixel row `y`: the value
/// `2 * (y - height/2) / height` as `2 * (2y - height) / (2 * height)`.
pub open spec fn plane_y_bits(y: int, h: int) -> int {
    fx_sat(fx_tdiv(2 * (2 * y - h) * (FX_ONE_BITS as int), 2 * h))
}

/// Real part of one recurrence step `z*z + c`.
pub open spec fn julia_step_re(zr: int, zi: int, cr: int) -> int {
    fx_add_bits(complex_mul_re(zr, zi, zr, zi), cr)
}

/// Imaginary part of one recurrence step.
pub open spec fn julia_step_im(zr: int, zi: int, ci: int) -> int {
    fx_add_bits(complex_mul_im(zr, zi, zr, zi), ci)
}

/// The number of recurrence steps taken from `z` before the squared
/// magnitude exceeds `r2`, capped at `fuel`. A point that never
/// exceeds the bound within the cap counts exactly `fuel` steps.
pub open spec fn escape_count(zr: int, zi: int, cr: int, ci: int, r2: int, fuel: nat) -> nat
    decreases fuel,
{
    if fuel == 0 {
        0
    } else if complex_norm_squared(zr, zi) > r2 {
        0
    } else {
        (1 + escape_count(
            julia_step_re(zr, zi, cr),
            julia_step_im(zr, zi, ci),
            cr,
            ci,
            r2,
            (fuel - 1) as nat,
        )) as nat
    }
}

/// `255 * i / max` rounded to the nearest integer, halves away from
/// zero, computed exactly as `(510*i + max) / (2*max)`.
pub open spec fn ratio_round_255(i: int, max: int) -> int {
    (510 * i + max) / (2 * max)
}

/// The color of a pixel whose point took `n` of at most `max` steps.
/// A point that reached the cap is presumed in the set and is fully
/// transparent black; an iteration cap of zero classifies every point
/// as escaped with a ratio of zero. An escaped point blends from green
/// to red as the ratio `n / max` grows.
pub open spec fn color_for_count(n: nat, max: nat) -> Rgba {
    if max == 0 {
        Rgba { r: 0, g: 255, b: 0, a: 255 }
    } else if n == max {
        Rgba { r: 0, g: 0, b: 0, a: 0 }
    } else {
        Rgba {
            r: ratio_round_255(n as int, max as int) as u8,
            g: ratio_round_255(max - n, max as int) as u8,
            b: 0,
            a: 255,
        }
    }
}

/// The squared escape radius of a configuration.
pub open spec fn spec_r2(cfg: JuliaSetParameters) -> int {
    fx_mul_bits(cfg.escape_radius.bits as int, cfg.escape_radius.bits as int)
}

/// The color `render` owes the pixel at column `x` of row `y`.
pub open spec fn julia_pixel(cfg: JuliaSetParameters, x: int, y: int) -> Rgba {
    color_for_count(
        escape_count(
            plane_x_bits(x, cfg.width as int),
            plane_y_bits(y, cfg.height as int),
            cfg.c_real.bits as int,
            cfg.c_imaginary.bits as int,
            spec_r2(cfg),
            cfg.max_iter as nat,
        ),
        cfg.max_iter as nat,
    )
}

/// A raster is exactly the one `render` owes for this configuration.
pub open spec fn julia_raster_matches(r: Raster, cfg: JuliaSetParameters) -> bool {
    &&& r.width == cfg.width
    &&& r.height == cfg.height
    &&& r.well_formed()
    &&& forall|x: int, y: int|
        0 <= x < cfg.width as int && 0 <= y < cfg.height as int ==> r.pixels@[y
            * cfg.width as int + x] == #[trigger] julia_pixel(cfg, x, y)
}

/// The configuration that applying a bundle to `c` produces: for each
/// field, the last bundle entry with the field's name and expected
/// variant wins, and fields with no applicable entry keep their value.
pub open spec fn apply_bundle(c: JuliaSetParameters, ps: Seq<Parameter>) -> JuliaSetParameters {
    JuliaSetParameters {
        width: or_u32(last_set_u32(ps, "width"@), c.width),
        height: or_u32(last_set_u32(ps, "height"@), c.height),
        c_real: or_fixed(last_set_fixed(ps, "c_real"@), c.c_real),
        c_imaginary: or_fixed(last_set_fixed(ps, "c_imaginary"@), c.c_imaginary),
        max_iter: or_u32(last_set_u32(ps, "max_iter"@), c.max_iter),
        escape_radius: or_fixed(last_set_fixed(ps, "escape_radius"@), c.escape_radius),
    }
}

/// A bundle entry either names no field of this simulation or
/// carries the named field's expected variant.
pub open spec fn entry_well_typed(p: Parameter) -> bool {
    &&& p.name@ == "width"@ ==> p.value is UnsignedInteger
    &&& p.name@ == "height"@ ==> p.value is UnsignedInteger
    &&& p.name@ == "c_real"@ ==> p.value is Float
    &&& p.name@ == "c_imaginary"@ ==> p.value is Float
    &&& p.name@ == "max_iter"@ ==> p.value is UnsignedInteger
    &&& p.name@ == "escape_radius"@ ==> p.value is Float
}

/// Every entry of the bundle is well typed for this simulation.
pub open spec fn bundle_well_typed(ps: Seq<Parameter>) -> bool {
    forall|i: int| 0 <= i < ps.len() ==> entry_well_typed(#[trigger] ps[i])
}

/// The published description of configurable input `i` of this
/// simulation: one entry per configuration field, in field order,
/// with the compile-time default and the advisory bounds and step.
pub open spec fn julia_descriptor_ok(d: ParameterDescription, i: int) -> bool {
    if i == 0 {
        &&& d.name@ == "width"@
        &&& d.description@ == "Width of the image"@
        &&& d.data_type@ == "integer"@
        &&& d.default == ParameterType::UnsignedInteger(DEFAULT_WIDTH)
        &&& d.required
        &&& d.lower_bound == Some(ParameterType::Integer(0))
        &&& d.upper_bound is None
        &&& d.step == Some(ParameterType::Integer(1))
    } else if i == 1 {
        &&& d.name@ == "height"@
        &&& d.description@ == "Height of the image"@
        &&& d.data_type@ == "integer"@
        &&& d.default == ParameterType::UnsignedInteger(DEFAULT_HEIGHT)
        &&& d.required
        &&& d.lower_bound == Some(ParameterType::Integer(0))
        &&& d.upper_bound is None
        &&& d.step == Some(ParameterType::Integer(1))
    } else if i == 2 {
        &&& d.name@ == "c_real"@
        &&& d.description@ == "Real part of the constant c"@
        &&& d.data_type@ == "float"@
        &&& d.default == ParameterType::Float(Fixed { bits: DEFAULT_C_REAL_BITS })
        &&& d.required
        &&& d.lower_bound is None
        &&& d.upper_bound is None
        &&& d.step is None
    } else if i == 3 {
        &&& d.name@ == "c_imaginary"@
        &&& d.description@ == "Imaginary part of the constant c"@
        &&& d.data_type@ == "float"@
        &&& d.default == ParameterType::Float(Fixed { bits: DEFAULT_C_IMAGINARY_BITS })
        &&& d.required
        &&& d.lower_bound is None
        &&& d.upper_bound is None
        &&& d.step is None
    } else if i == 4 {
        &&& d.name@ == "max_iter"@
        &&& d.description@ == "Maximum number of iterations"@
        &&& d.data_type@ == "integer"@
        &&& d.default == ParameterType::UnsignedInteger(DEFAULT_MAX_ITER)
        &&& d.required
        &&& d.lower_bound == Some(ParameterType::Integer(10))
        &&& d.upper_bound == Some(ParameterType::Integer(10000))
        &&& d.step == Some(ParameterType::Integer(10))
    } else {
        &&& d.name@ == "escape_radius"@
        &&& d.description@ == "Escape radius"@
        &&& d.data_type@ == "float"@
        &&& d.default == ParameterType::Float(Fixed { bits: DEFAULT_ESCAPE_RADIUS_BITS })
        &&& d.required
        &&& d.lower_bound == Some(ParameterType::Integer(1))
        &&& d.upper_bound is None
        &&& d.step is None
    }
}

/// A name is one of this simulation's configurable fields.
pub open spec fn is_julia_field_name(n: Seq<char>) -> bool {
    ||| n == "width"@
    ||| n == "height"@
    ||| n == "c_real"@
    ||| n == "c_imaginary"@
    ||| n == "max_iter"@
    ||| n == "escape_radius"@
}

/// Applying one bundle twice, from any starting configuration, gives
/// the same configuration as applying it once: for each field either
/// the bundle assigns a value, the same one both times, or it touches
/// the field neither time.
pub proof fn lemma_apply_bundle_idempotent(c: JuliaSetParameters, ps: Seq<Parameter>)
    ensures
        apply_bundle(apply_bundle(c, ps), ps) == apply_bundle(c, ps),
{
}

/// A bundle containing only unrecognized names leaves the
/// configuration exactly as it was.
pub proof fn lemma_unknown_names_noop(c: JuliaSetParameters, ps: Seq<Parameter>)
    requires
        forall|i: int| 0 <= i < ps.len() ==> !is_julia_field_name(#[trigger] ps[i].name@),
    ensures
        apply_bundle(c, ps) == c,
{
    crate::parameters::lemma_last_set_u32_none(ps, "width"@);
    crate::parameters::lemma_last_set_u32_none(ps, "height"@);
    crate::parameters::lemma_last_set_fixed_none(ps, "c_real"@);
    crate::parameters::lemma_last_set_fixed_none(ps, "c_imaginary"@);
    crate::parameters::lemma_last_set_u32_none(ps, "max_iter"@);
    crate::parameters::lemma_last_set_fixed_none(ps, "escape_radius"@);
}

/// In the lenient merge a value of the wrong variant is a no-op: a
/// field keeps its value whenever every entry bearing its name holds
/// some other variant than the field expects, for example a text
/// value submitted for a numeric field.
pub proof fn lemma_mismatched_value_noop(c: JuliaSetParameters, ps: Seq<Parameter>)
    ensures
        (forall|i: int|
            0 <= i < ps.len() ==> ((#[trigger] ps[i].name@) == "width"@ ==> !(ps[i].value
                is UnsignedInteger))) ==> apply_bundle(c, ps).width == c.width,
        (forall|i: int|
            0 <= i < ps.len() ==> ((#[trigger] ps[i].name@) == "height"@ ==> !(ps[i].value
                is UnsignedInteger))) ==> apply_bundle(c, ps).height == c.height,
        (forall|i: int|
            0 <= i < ps.len() ==> ((#[trigger] ps[i].name@) == "c_real"@ ==> !(ps[i].value
                is Float))) ==> apply_bundle(c, ps).c_real == c.c_real,
        (forall|i: int|
            0 <= i < ps.len() ==> ((#[trigger] ps[i].name@) == "c_imaginary"@ ==> !(ps[i].value
                is Float))) ==> apply_bundle(c, ps).c_imaginary == c.c_imaginary,
        (forall|i: int|
            0 <= i < ps.len() ==> ((#[trigger] ps[i].name@) == "max_iter"@ ==> !(ps[i].value
                is UnsignedInteger))) ==> apply_bundle(c, ps).max_iter == c.max_iter,
        (forall|i: int|
            0 <= i < ps.len() ==> ((#[trigger] ps[i].name@) == "escape_radius"@ ==> !(ps[i].value
                is Float))) ==> apply_bundle(c, ps).escape_radius == c.escape_radius,
{
    if forall|i: int|
        0 <= i < ps.len() ==> ((#[trigger] ps[i].name@) == "width"@ ==> !(ps[i].value
            is UnsignedInteger)) {
        crate::parameters::lemma_last_set_u32_none(ps, "width"@);
    }
    if forall|i: int|
        0 <= i < ps.len() ==> ((#[trigger] ps[i].name@) == "height"@ ==> !(ps[i].value
            is UnsignedInteger)) {
        crate::parameters::lemma_last_set_u32_none(ps, "height"@);
    }
    if forall|i: int|
        0 <= i < ps.len() ==> ((#[trigger] ps[i].name@) == "c_real"@ ==> !(ps[i].value
            is Float)) {
        crate::parameters::lemma_last_set_fixed_none(ps, "c_real"@);
    }
    if forall|i: int|
        0 <= i < ps.len() ==> ((#[trigger] ps[i].name@) == "c_imaginary"@ ==> !(ps[i].value
            is Float)) {
        crate::parameters::lemma_last_set_fixed_none(ps, "c_imaginary"@);
    }
    if forall|i: int|
        0 <= i < ps.len() ==> ((#[trigger] ps[i].name@) == "max_iter"@ ==> !(ps[i].value
            is UnsignedInteger)) {
        crate::parameters::lemma_last_set_u32_none(ps, "max_iter"@);
    }
    if forall|i: int|
        0 <= i < ps.len() ==> ((#[trigger] ps[i].name@) == "escape_radius"@ ==> !(ps[i].value
            is Float)) {
        crate::parameters::lemma_last_set_fixed_none(ps, "escape_radius"@);
    }
}

/// The catalogue and the merge agree, entry by entry: each described
/// input names a configurable field, and the described default
/// carries exactly the variant the merge expects for that field, so
/// the two cannot drift apart silently.
pub proof fn lemma_catalogue_matches_merge(d: ParameterDescription, i: int)
    requires
        0 <= i < 6,
        julia_descriptor_ok(d, i),
    ensures
        is_julia_field_name(d.name@),
        entry_well_typed(Parameter { name: d.name, value: d.default }),
{
    lemma_field_names_distinct();
}

/// Determinism: the raster contract pins every cell, so any two
/// rasters it allows for one configuration are the same grid.
pub proof fn lemma_render_deterministic(a: Raster, b: Raster, cfg: JuliaSetParameters)
    requires
        julia_raster_matches(a, cfg),
        julia_raster_matches(b, cfg),
    ensures
        a.width == b.width,
        a.height == b.height,
        a.pixels@ =~= b.pixels@,
{
    let w = cfg.width as int;
    let h = cfg.height as int;
    assert(a.pixels@.len() == w * h);
    assert(b.pixels@.len() == w * h);
    if w > 0 {
        assert forall|k: int| 0 <= k < w * h implies a.pixels@[k] == b.pixels@[k] by {
            let y = k / w;
            let x = k % w;
            lemma_fundamental_div_mod(k, w);
            lemma_mod_bound(k, w);
            assert(y * w + x == k) by (nonlinear_arith)
                requires
                    k == w * y + x,
            ;
            assert(h > 0) by (nonlinear_arith)
                requires
                    0 <= k < w * h,
                    w > 0,
            ;
            assert(w * h - 1 == (h - 1) * w + (w - 1)) by (nonlinear_arith)
                requires
                    w >= 1,
                    h >= 1,
            ;
            lemma_fundamental_div_mod_converse(w * h - 1, w, h - 1, w - 1);
            vstd::arithmetic::div_mod::lemma_div_is_ordered(k, w * h - 1, w);
            assert(0 <= y < h);
            assert(a.pixels@[y * w + x] == julia_pixel(cfg, x, y));
            assert(b.pixels@[y * w + x] == julia_pixel(cfg, x, y));
        }
    } else {
        assert(w * h == 0) by (nonlinear_arith)
            requires
                w == 0,
        ;
    }
}

/// With an iteration cap of zero every pixel is classified as escaped
/// with a ratio of zero, never an undefined division.
pub proof fn lemma_zero_cap_color(cfg: JuliaSetParameters, x: int, y: int)
    requires
        cfg.max_iter == 0,
    ensures
        julia_pixel(cfg, x, y) == (Rgba { r: 0, g: 255, b: 0, a: 255 }),
{
}

/// A product of two fixed-point values of magnitude at most one half
/// stays within magnitude one quarter, and a product of a value with
/// itself is never negative.
proof fn lemma_fx_mul_small(a: int, b: int)
    requires
        -0x8000_0000 <= a <= 0x8000_0000,
        -0x8000_0000 <= b <= 0x8000_0000,
    ensures
        -0x4000_0000 <= fx_mul_bits(a, b) <= 0x4000_0000,
        0 <= a * b ==> 0 <= fx_mul_bits(a, b),
{
    let s = FX_ONE_BITS as int;
    let p = a * b;
    assert(-0x4000_0000_0000_0000 <= p <= 0x4000_0000_0000_0000) by (nonlinear_arith)
        requires
            p == a * b,
            -0x8000_0000 <= a <= 0x8000_0000,
            -0x8000_0000 <= b <= 0x8000_0000,
    ;
    if p >= 0 {
        lemma_div_pos_is_pos(p, s);
        lemma_div_is_ordered(p, 0x4000_0000_0000_0000, s);
    } else {
        lemma_div_pos_is_pos(-p, s);
        lemma_div_is_ordered(-p, 0x4000_0000_0000_0000, s);
    }
}

/// With `c = 0`, a point whose coordinates have magnitude at most one
/// half never escapes a squared radius of at least one half: its
/// square keeps both coordinate magnitudes within one half, so it
/// spends the whole iteration budget inside the bound.
proof fn lemma_small_point_never_escapes(zr: int, zi: int, r2: int, fuel: nat)
    requires
        -0x8000_0000 <= zr <= 0x8000_0000,
        -0x8000_0000 <= zi <= 0x8000_0000,
        r2 >= 0x8000_0000,
    ensures
        escape_count(zr, zi, 0, 0, r2, fuel) == fuel,
    decreases fuel,
{
    lemma_fx_mul_small(zr, zr);
    lemma_fx_mul_small(zi, zi);
    lemma_fx_mul_small(zr, zi);
    assert(0 <= zr * zr && 0 <= zi * zi) by (nonlinear_arith);
    if fuel > 0 {
        lemma_small_point_never_escapes(
            julia_step_re(zr, zi, 0),
            julia_step_im(zr, zi, 0),
            r2,
            (fuel - 1) as nat,
        );
    }
}

/// With `c = (0, 0)` the pixel at the center of the grid maps to a
/// plane point of magnitude at most one half, which never escapes a
/// radius of at least one: it gets the "did not escape" color for
/// any dimensions of at least two, any iteration cap and any such
/// radius. A one-pixel-wide grid is excluded: there the center
/// column maps away from the origin and escapes.
pub proof fn lemma_center_pixel_in_set(cfg: JuliaSetParameters)
    requires
        cfg.width >= 2,
        cfg.height >= 2,
        cfg.c_real.bits == 0,
        cfg.c_imaginary.bits == 0,
        cfg.max_iter >= 1,
        cfg.escape_radius.bits >= FX_ONE_BITS,
    ensures
        julia_pixel(cfg, cfg.width as int / 2, cfg.height as int / 2) == (Rgba {
            r: 0,
            g: 0,
            b: 0,
            a: 0,
        }),
{
    let w = cfg.width as int;
    let h = cfg.height as int;
    let s = FX_ONE_BITS as int;
    let rb = cfg.escape_radius.bits as int;
    lemma_fundamental_div_mod(w, 2);
    lemma_mod_bound(w, 2);
    lemma_fundamental_div_mod(h, 2);
    lemma_mod_bound(h, 2);
    let tx = 2 * (w / 2) - w;
    let ty = 2 * (h / 2) - h;
    assert(tx == -(w % 2) && ty == -(h % 2));
    let zx = plane_x_bits(w / 2, w);
    if tx == 0 {
        lemma_div_pos_is_pos(0, 2 * w);
        lemma_div_nonincreasing(0, 2 * w);
        assert(zx == 0);
    } else {
        assert(w % 2 == 1 && w >= 3);
        assert(3 * tx * s == -(3 * s));
        lemma_div_pos_is_pos(3 * s, 2 * w);
        lemma_div_is_ordered_by_denominator(3 * s, 6, 2 * w);
        assert(-0x8000_0000 <= zx <= 0);
    }
    let zy = plane_y_bits(h / 2, h);
    if ty == 0 {
        lemma_div_pos_is_pos(0, 2 * h);
        lemma_div_nonincreasing(0, 2 * h);
        assert(zy == 0);
    } else {
        assert(h % 2 == 1 && h >= 3);
        assert(2 * ty * s == -(2 * s));
        lemma_div_pos_is_pos(2 * s, 2 * h);
        lemma_div_is_ordered_by_denominator(2 * s, 4, 2 * h);
        assert(-0x8000_0000 <= zy <= 0);
    }
    assert(s * s <= rb * rb) by (nonlinear_arith)
        requires
            s <= rb,
            0 < s,
    ;
    lemma_div_is_ordered(s * s, rb * rb, s);
    assert(spec_r2(cfg) >= 0x8000_0000);
    lemma_small_point_never_escapes(zx, zy, spec_r2(cfg), cfg.max_iter as nat);
}

/// The rounded color ratio always fits a color channel.
proof fn lemma_ratio_bound(i: int, max: int)
    requires
        0 <= i <= max,
        1 <= max,
    ensures
        0 <= ratio_round_255(i, max) <= 255,
{
    let num = 510 * i + max;
    let den = 2 * max;
    let q = num / den;
    lemma_fundamental_div_mod(num, den);
    lemma_mod_bound(num, den);
    if q < 0 {
        lemma_mul_inequality(q, -1, den);
        assert(false);
    }
    if q > 255 {
        lemma_mul_inequality(256, q, den);
        assert(den * q == q * den) by (nonlinear_arith);
        assert(256 * den == 512 * max) by (nonlinear_arith)
            requires
                den == 2 * max,
        ;
        assert(510 * i <= 510 * max) by (nonlinear_arith)
            requires
                i <= max,
        ;
        assert(false);
    }
}

/// Map a step count to its color.
fn color_for(n: u32, max: u32) -> (c: Rgba)
    requires
        n <= max,
    ensures
        c == color_for_count(n as nat, max as nat),
{
    if max == 0 {
        Rgba { r: 0, g: 255, b: 0, a: 255 }
    } else if n == max {
        Rgba { r: 0, g: 0, b: 0, a: 0 }
    } else {
        let num_r: u64 = 510u64 * (n as u64) + (max as u64);
        let num_g: u64 = 510u64 * ((max - n) as u64) + (max as u64);
        let den: u64 = 2u64 * (max as u64);
        let rq: u64 = num_r / den;
        let gq: u64 = num_g / den;
        proof {
            lemma_ratio_bound(n as int, max as int);
            lemma_ratio_bound(max as int - n as int, max as int);
        }
        Rgba { r: rq as u8, g: gq as u8, b: 0, a: 255 }
    }
}

/// Map pixel column `x` to its plane coordinate.
fn plane_x(x: u32, w: u32) -> (r: Fixed)
    requires
        w > 0,
    ensures
        r.bits as int == plane_x_bits(x as int, w as int),
{
    let d: i128 = 2 * (x as i128) - (w as i128);
    proof {
        assert(3 * d * (FX_ONE_BITS as i128) <= i128::MAX && 3 * d * (FX_ONE_BITS as i128)
            > i128::MIN) by (nonlinear_arith)
            requires
                -0x1_0000_0000 <= d <= 0x2_0000_0000,
                FX_ONE_BITS == 0x1_0000_0000,
        ;
    }
    let num: i128 = 3 * d * (FX_ONE_BITS as i128);
    let den: i128 = 2 * (w as i128);
    let q: i128 = crate::fixed::tdiv_i128(num, den);
    Fixed { bits: crate::fixed::sat_to_i64(q) }
}

/// Map pixel row `y` to its plane coordinate.
fn plane_y(y: u32, h: u32) -> (r: Fixed)
    requires
        h > 0,
    ensures
        r.bits as int == plane_y_bits(y as int, h as int),
{
    let d: i128 = 2 * (y as i128) - (h as i128);
    proof {
        assert(2 * d * (FX_ONE_BITS as i128) <= i128::MAX && 2 * d * (FX_ONE_BITS as i128)
            > i128::MIN) by (nonlinear_arith)
            requires
                -0x1_0000_0000 <= d <= 0x2_0000_0000,
                FX_ONE_BITS == 0x1_0000_0000,
        ;
    }
    let num: i128 = 2 * d * (FX_ONE_BITS as i128);
    let den: i128 = 2 * (h as i128);
    let q: i128 = crate::fixed::tdiv_i128(num, den);
    Fixed { bits: crate::fixed::sat_to_i64(q) }
}

/// Run the recurrence from `z0` and count the steps until escape.
fn escape_steps(z0: Complex, c: Complex, r2: Fixed, max_iter: u32) -> (n: u32)
    ensures
        n as nat == escape_count(
            z0.real.bits as int,
            z0.imag.bits as int,
            c.real.bits as int,
            c.imag.bits as int,
            r2.bits as int,
            max_iter as nat,
        ),
        n <= max_iter,
{
    let mut z = z0;
    let mut i: u32 = 0;
    while i < max_iter && z.norm_squared().bits <= r2.bits
        invariant
            i <= max_iter,
            escape_count(
                z0.real.bits as int,
                z0.imag.bits as int,
                c.real.bits as int,
                c.imag.bits as int,
                r2.bits as int,
                max_iter as nat,
            ) == i as nat + escape_count(
                z.real.bits as int,
                z.imag.bits as int,
                c.real.bits as int,
                c.imag.bits as int,
                r2.bits as int,
                (max_iter - i) as nat,
            ),
        decreases max_iter - i,
    {
        z = z.square().add(c);
        i = i + 1;
    }
    i
}

impl JuliaSetParameters {
    /// The compile-time defaults of this simulation kind.
    pub open spec fn spec_default() -> JuliaSetParameters {
        JuliaSetParameters {
            width: DEFAULT_WIDTH,
            height: DEFAULT_HEIGHT,
            c_real: Fixed { bits: DEFAULT_C_REAL_BITS },
            c_imaginary: Fixed { bits: DEFAULT_C_IMAGINARY_BITS },
            max_iter: DEFAULT_MAX_ITER,
            escape_radius: Fixed { bits: DEFAULT_ESCAPE_RADIUS_BITS },
        }
    }

    /// The fixed, ordered catalogue of configurable inputs, one entry
    /// per configuration field, for introspection and UI generation.
    pub fn parameter_descriptions() -> (r: Vec<ParameterDescription>)
        ensures
            r@.len() == 6,
            julia_descriptor_ok(r@[0], 0),
            julia_descriptor_ok(r@[1], 1),
            julia_descriptor_ok(r@[2], 2),
            julia_descriptor_ok(r@[3], 3),
            julia_descriptor_ok(r@[4], 4),
            julia_descriptor_ok(r@[5], 5),
    {
        let mut r: Vec<ParameterDescription> = Vec::new();
        r.push(
            ParameterDescription {
                name: String::from_str("width"),
                description: String::from_str("Width of the image"),
                data_type: String::from_str("integer"),
                default: ParameterType::UnsignedInteger(DEFAULT_WIDTH),
                required: true,
                lower_bound: Some(ParameterType::Integer(0)),
                upper_bound: None,
                step: Some(ParameterType::Integer(1)),
            },
        );
        r.push(
            ParameterDescription {
                name: String::from_str("height"),
                description: String::from_str("Height of the image"),
                data_type: String::from_str("integer"),
                default: ParameterType::UnsignedInteger(DEFAULT_HEIGHT),
                required: true,
                lower_bound: Some(ParameterType::Integer(0)),
                upper_bound: None,
                step: Some(ParameterType::Integer(1)),
            },
        );
        r.push(
            ParameterDescription {
                name: String::from_str("c_real"),
                description: String::from_str("Real part of the constant c"),
                data_type: String::from_str("float"),
                default: ParameterType::Float(Fixed { bits: DEFAULT_C_REAL_BITS }),
                required: true,
                lower_bound: None,
                upper_bound: None,
                step: None,
            },
        );
        r.push(
            ParameterDescription {
                name: String::from_str("c_imaginary"),
                description: String::from_str("Imaginary part of the constant c"),
                data_type: String::from_str("float"),
                default: ParameterType::Float(Fixed { bits: DEFAULT_C_IMAGINARY_BITS }),
                required: true,
                lower_bound: None,
                upper_bound: None,
                step: None,
            },
        );
        r.push(
            ParameterDescription {
                name: String::from_str("max_iter"),
                description: String::from_str("Maximum number of iterations"),
                data_type: String::from_str("integer"),
                default: ParameterType::UnsignedInteger(DEFAULT_MAX_ITER),
                required: true,
                lower_bound: Some(ParameterType::Integer(10)),
                upper_bound: Some(ParameterType::Integer(10000)),
                step: Some(ParameterType::Integer(10)),
            },
        );
        r.push(
            ParameterDescription {
                name: String::from_str("escape_radius"),
                description: String::from_str("Escape radius"),
                data_type: String::from_str("float"),
                default: ParameterType::Float(Fixed { bits: DEFAULT_ESCAPE_RADIUS_BITS }),
                required: true,
                lower_bound: Some(ParameterType::Integer(1)),
                upper_bound: None,
                step: None,
            },
        );
        r
    }

    /// Apply a submitted bundle to this configuration in place: a
    /// permissive merge where unknown names and mismatched variants
    /// are skipped silently and the last applicable entry of each
    /// field wins.
    pub fn from_parameters(&mut self, params: SimulationParameters)
        ensures
            *final(self) == apply_bundle(*old(self), params.params@),
    {
        proof {
            reveal_strlit("width");
            reveal_strlit("height");
            reveal_strlit("c_real");
            reveal_strlit("c_imaginary");
            reveal_strlit("max_iter");
            reveal_strlit("escape_radius");
        }
        let name_width = String::from_str("width");
        let name_height = String::from_str("height");
        let name_c_real = String::from_str("c_real");
        let name_c_imaginary = String::from_str("c_imaginary");
        let name_max_iter = String::from_str("max_iter");
        let name_escape_radius = String::from_str("escape_radius");
        let ghost ps = params.params@;
        let ghost c0 = *self;
        let n: usize = params.params.len();
        let mut i: usize = 0;
        while i < n
            invariant
                n == ps.len(),
                i <= n,
                params.params@ == ps,
                name_width@ == "width"@,
                name_height@ == "height"@,
                name_c_real@ == "c_real"@,
                name_c_imaginary@ == "c_imaginary"@,
                name_max_iter@ == "max_iter"@,
                name_escape_radius@ == "escape_radius"@,
                self.width == or_u32(last_set_u32(ps.take(i as int), "width"@), c0.width),
                self.height == or_u32(last_set_u32(ps.take(i as int), "height"@), c0.height),
                self.c_real == or_fixed(last_set_fixed(ps.take(i as int), "c_real"@), c0.c_real),
                self.c_imaginary == or_fixed(
                    last_set_fixed(ps.take(i as int), "c_imaginary"@),
                    c0.c_imaginary,
                ),
                self.max_iter == or_u32(last_set_u32(ps.take(i as int), "max_iter"@), c0.max_iter),
                self.escape_radius == or_fixed(
                    last_set_fixed(ps.take(i as int), "escape_radius"@),
                    c0.escape_radius,
                ),
            decreases n - i,
        {
            let p = &params.params[i];
            if p.name == name_width {
                match &p.value {
                    ParameterType::UnsignedInteger(v) => { self.width = *v; },
                    _ => {},
                }
            } else if p.name == name_height {
                match &p.value {
                    ParameterType::UnsignedInteger(v) => { self.height = *v; },
                    _ => {},
                }
            } else if p.name == name_c_real {
                match &p.value {
                    ParameterType::Float(v) => { self.c_real = *v; },
                    _ => {},
                }
            } else if p.name == name_c_imaginary {
                match &p.value {
                    ParameterType::Float(v) => { self.c_imaginary = *v; },
                    _ => {},
                }
            } else if p.name == name_max_iter {
                match &p.value {
                    ParameterType::UnsignedInteger(v) => { self.max_iter = *v; },
                    _ => {},
                }
            } else if p.name == name_escape_radius {
                match &p.value {
                    ParameterType::Float(v) => { self.escape_radius = *v; },
                    _ => {},
                }
            }
            proof {
                lemma_field_names_distinct();
                lemma_last_set_step(ps, i as int, "width"@);
                lemma_last_set_step(ps, i as int, "height"@);
                lemma_last_set_step(ps, i as int, "c_real"@);
                lemma_last_set_step(ps, i as int, "c_imaginary"@);
                lemma_last_set_step(ps, i as int, "max_iter"@);
                lemma_last_set_step(ps, i as int, "escape_radius"@);
            }
            i = i + 1;
        }
        proof {
            assert(ps.take(n as int) =~= ps);
        }
    }

    /// The strict counterpart of `from_parameters`: when any entry
    /// names a field but carries the wrong variant, nothing is
    /// applied and `InvalidParameter` is reported; otherwise the
    /// bundle is applied exactly as the lenient merge applies it.
    pub fn from_parameters_strict(&mut self, params: SimulationParameters) -> (r: Result<
        (),
        crate::simulation::ErrorKind,
    >)
        ensures
            r is Ok <==> bundle_well_typed(params.params@),
            r is Ok ==> *final(self) == apply_bundle(*old(self), params.params@),
            r is Err ==> *final(self) == *old(self) && r == Err::<
                (),
                crate::simulation::ErrorKind,
            >(crate::simulation::ErrorKind::InvalidParameter),
    {
        let name_width = String::from_str("width");
        let name_height = String::from_str("height");
        let name_c_real = String::from_str("c_real");
        let name_c_imaginary = String::from_str("c_imaginary");
        let name_max_iter = String::from_str("max_iter");
        let name_escape_radius = String::from_str("escape_radius");
        let ghost ps = params.params@;
        let n: usize = params.params.len();
        let mut i: usize = 0;
        while i < n
            invariant
                n == ps.len(),
                i <= n,
                params.params@ == ps,
                name_width@ == "width"@,
                name_height@ == "height"@,
                name_c_real@ == "c_real"@,
                name_c_imaginary@ == "c_imaginary"@,
                name_max_iter@ == "max_iter"@,
                name_escape_radius@ == "escape_radius"@,
                forall|k: int| 0 <= k < i as int ==> entry_well_typed(#[trigger] ps[k]),
            decreases n - i,
        {
            let p = &params.params[i];
            let well: bool = if p.name == name_width || p.name == name_height || p.name
                == name_max_iter {
                matches!(p.value, ParameterType::UnsignedInteger(_))
            } else if p.name == name_c_real || p.name == name_c_imaginary || p.name
                == name_escape_radius {
                matches!(p.value, ParameterType::Float(_))
            } else {
                true
            };
            proof {
                lemma_field_names_distinct();
            }
            if !well {
                proof {
                    assert(!entry_well_typed(ps[i as int]));
                }
                return Err(crate::simulation::ErrorKind::InvalidParameter);
            }
            i = i + 1;
        }
        self.from_parameters(params);
        Ok(())
    }

    /// Compute the whole raster, pixel-exactly as `julia_pixel` owes.
    /// Total and deterministic: any dimensions whose pixel count fits
    /// memory, any constant, cap and radius are accepted.
    pub fn render(&self) -> (r: Raster)
        requires
            self.width as int * self.height as int <= usize::MAX as int,
        ensures
            julia_raster_matches(r, *self),
    {
        let mut pixels: Vec<Rgba> = Vec::new();
        let c = Complex::new(self.c_real, self.c_imaginary);
        let r2 = self.escape_radius.mul(self.escape_radius);
        let mut y: u32 = 0;
        while y < self.height
            invariant
                y <= self.height,
                r2.bits as int == spec_r2(*self),
                c.real == self.c_real,
                c.imag == self.c_imaginary,
                pixels@.len() == y as int * self.width as int,
                forall|xx: int, yy: int|
                    0 <= xx < self.width as int && 0 <= yy < y as int ==> pixels@[yy
                        * self.width as int + xx] == #[trigger] julia_pixel(*self, xx, yy),
            decreases self.height - y,
        {
            let mut x: u32 = 0;
            while x < self.width
                invariant
                    y < self.height,
                    x <= self.width,
                    r2.bits as int == spec_r2(*self),
                    c.real == self.c_real,
                    c.imag == self.c_imaginary,
                    pixels@.len() == y as int * self.width as int + x as int,
                    forall|xx: int, yy: int|
                        0 <= xx < self.width as int && 0 <= yy < y as int ==> pixels@[yy
                            * self.width as int + xx] == #[trigger] julia_pixel(*self, xx, yy),
                    forall|xx: int|
                        0 <= xx < x as int ==> pixels@[y as int * self.width as int + xx]
                            == #[trigger] julia_pixel(*self, xx, y as int),
                decreases self.width - x,
            {
                let zx = plane_x(x, self.width);
                let zy = plane_y(y, self.height);
                let z0 = Complex::new(zx, zy);
                let n = escape_steps(z0, c, r2, self.max_iter);
                let col = color_for(n, self.max_iter);
                let ghost prev = pixels@;
                pixels.push(col);
                proof {
                    let w = self.width as int;
                    let yi = y as int;
                    assert(col == julia_pixel(*self, x as int, yi));
                    assert forall|xx: int| 0 <= xx < x as int + 1 implies pixels@[yi * w + xx]
                        == julia_pixel(*self, xx, yi) by {
                        if xx < x as int {
                            assert(0 <= yi * w + xx < prev.len());
                            assert(pixels@[yi * w + xx] == prev[yi * w + xx]);
                        } else {
                            assert(yi * w + xx == prev.len());
                        }
                    }
                    assert forall|xx: int, yy: int|
                        0 <= xx < w && 0 <= yy < yi implies pixels@[yy * w + xx] == julia_pixel(
                        *self,
                        xx,
                        yy,
                    ) by {
                        assert(0 <= yy * w + xx < yi * w) by (nonlinear_arith)
                            requires
                                0 <= xx < w,
                                0 <= yy < yi,
                        ;
                        assert(pixels@[yy * w + xx] == prev[yy * w + xx]);
                    }
                }
                x = x + 1;
            }
            proof {
                assert(y as int * self.width as int + self.width as int == (y as int + 1)
                    * self.width as int) by (nonlinear_arith);
            }
            y = y + 1;
        }
        proof {
            assert(pixels@.len() == self.width as int * self.height as int) by (nonlinear_arith)
                requires
                    pixels@.len() == self.height as int * self.width as int,
            ;
        }
        Raster { width: self.width, height: self.height, pixels }
    }
}

impl JuliaSetParameters {
    /// Compute the raster and hand it over in the outside image
    /// representation, the artifact format the host consumes.
    pub fn run(&self) -> (img: image::DynamicImage)
        requires
            3 * (self.width as int) <= usize::MAX as int,
            3 * (self.width as int) * (self.height as int) <= usize::MAX as int,
        ensures
            image_dims(img) == (self.width as int, self.height as int),
            forall|x: int, y: int|
                0 <= x < self.width as int && 0 <= y < self.height as int ==> image_rgb(
                    img,
                ).contains_pair((x, y), rgb_of(#[trigger] julia_pixel(*self, x, y))),
    {
        proof {
            assert((self.width as int) * (self.height as int) <= 3 * (self.width as int) * (
            self.height as int)) by (nonlinear_arith)
                requires
                    self.width >= 0,
                    self.height >= 0,
            ;
        }
        let raster = self.render();
        let img = raster_to_image(&raster);
        proof {
            assert forall|x: int, y: int|
                0 <= x < self.width as int && 0 <= y < self.height as int implies image_rgb(
                img,
            ).contains_pair((x, y), rgb_of(#[trigger] julia_pixel(*self, x, y))) by {
                assert(raster.spec_pixel_at(x, y) == julia_pixel(*self, x, y));
            }
        }
        img
    }
}

impl Default for JuliaSetParameters {
    /// A configuration holding every compile-time default.
    fn default() -> (r: JuliaSetParameters)
        ensures
            r == JuliaSetParameters::spec_default(),
    {
        JuliaSetParameters {
            width: DEFAULT_WIDTH,
            height: DEFAULT_HEIGHT,
            c_real: Fixed { bits: DEFAULT_C_REAL_BITS },
            c_imaginary: Fixed { bits: DEFAULT_C_IMAGINARY_BITS },
            max_iter: DEFAULT_MAX_ITER,
            escape_radius: Fixed { bits: DEFAULT_ESCAPE_RADIUS_BITS },
        }
    }
}

} // verus!
