//! The bird-flock simulation. Its compute step is a placeholder whose
//! only contract is to register as a simulation and produce a blank
//! raster of the configured size; the parameter handling, however, is
//! the same permissive merge the other simulations use, and is
//! specified and verified in full.

use vstd::prelude::*;
use crate::parameters::{
    Parameter, ParameterDescription, ParameterType, SimulationParameters, last_set_u32,
    lemma_field_names_distinct, lemma_last_set_step, lemma_last_set_u32_none, or_u32,
};
use crate::image_out::{image_dims, image_rgb, raster_to_image};
use crate::raster::{Raster, Rgba, lemma_row_major_index};
use vstd::string::StringExecFns;

verus! {

pub const BIRD_DEFAULT_WIDTH: u32 = 800;

pub const BIRD_DEFAULT_HEIGHT: u32 = 800;

pub const BIRD_DEFAULT_MAX_ITER: u32 = 1000;

pub const BIRD_DEFAULT_N_BIRDS: u32 = 50;

pub const BIRD_DEFAULT_N_ITER: u32 = 1000;

/// The configuration of one bird-flock run.
#[derive(Clone, Copy, PartialEq, Eq, Structural, Debug)]
pub struct BirdSimulationParameters {
    pub width: u32,
    pub height: u32,
    pub max_iter: u32,
    pub n_birds: u32,
    pub n_iter: u32,
}

/// The configuration that applying a bundle produces. Only the four
/// described fields are settable; `n_iter` has no descriptor and no
/// merge rule, so a bundle never changes it.
pub open spec fn apply_bird_bundle(
    c: BirdSimulationParameters,
    ps: Seq<Parameter>,
) -> BirdSimulationParameters {
    BirdSimulationParameters {
        width: or_u32(last_set_u32(ps, "width"@), c.width),
        height: or_u32(last_set_u32(ps, "height"@), c.height),
        max_iter: or_u32(last_set_u32(ps, "max_iter"@), c.max_iter),
        n_birds: or_u32(last_set_u32(ps, "n_birds"@), c.n_birds),
        n_iter: c.n_iter,
    }
}

/// A name is one of this simulation's configurable fields.
pub open spec fn is_bird_field_name(n: Seq<char>) -> bool {
    ||| n == "width"@
    ||| n == "height"@
    ||| n == "max_iter"@
    ||| n == "n_birds"@
}

/// The published description of configurable input `i`.
pub open spec fn bird_descriptor_ok(d: ParameterDescription, i: int) -> bool {
    if i == 0 {
        &&& d.name@ == "width"@
        &&& d.description@ == "Width of the image"@
        &&& d.data_type@ == "integer"@
        &&& d.default == ParameterType::UnsignedInteger(BIRD_DEFAULT_WIDTH)
        &&& d.required
        &&& d.lower_bound == Some(ParameterType::Integer(0))
        &&& d.upper_bound is None
        &&& d.step == Some(ParameterType::Integer(1))
    } else if i == 1 {
        &&& d.name@ == "height"@
        &&& d.description@ == "Height of the image"@
        &&& d.data_type@ == "integer"@
        &&& d.default == ParameterType::UnsignedInteger(BIRD_DEFAULT_HEIGHT)
        &&& d.required
        &&& d.lower_bound == Some(ParameterType::Integer(0))
        &&& d.upper_bound is None
        &&& d.step == Some(ParameterType::Integer(1))
    } else if i == 2 {
        &&& d.name@ == "max_iter"@
        &&& d.description@ == "Maximum number of iterations"@
        &&& d.data_type@ == "integer"@
        &&& d.default == ParameterType::UnsignedInteger(BIRD_DEFAULT_MAX_ITER)
        &&& d.required
        &&& d.lower_bound == Some(ParameterType::Integer(10))
        &&& d.upper_bound == Some(ParameterType::Integer(10000))
        &&& d.step == Some(ParameterType::Integer(10))
    } else {
        &&& d.name@ == "n_birds"@
        &&& d.description@ == "The number of birds to be used in the simulation"@
        &&& d.data_type@ == "integer"@
        &&& d.default == ParameterType::UnsignedInteger(BIRD_DEFAULT_N_BIRDS)
        &&& d.required
        &&& d.lower_bound == Some(ParameterType::Integer(0))
        &&& d.upper_bound == Some(ParameterType::Integer(1000))
        &&& d.step == Some(ParameterType::Integer(1))
    }
}

/// A raster is the blank artifact the placeholder compute step owes:
/// the configured size, every pixel fully transparent black.
pub open spec fn blank_raster_matches(r: Raster, w: u32, h: u32) -> bool {
    &&& r.width == w
    &&& r.height == h
    &&& r.well_formed()
    &&& forall|x: int, y: int|
        0 <= x < w as int && 0 <= y < h as int ==> #[trigger] r.spec_pixel_at(x, y) == (Rgba {
            r: 0,
            g: 0,
            b: 0,
            a: 0,
        })
}

/// Applying one bundle twice, from any starting configuration, gives
/// the same configuration as applying it once.
pub proof fn lemma_apply_bird_bundle_idempotent(c: BirdSimulationParameters, ps: Seq<Parameter>)
    ensures
        apply_bird_bundle(apply_bird_bundle(c, ps), ps) == apply_bird_bundle(c, ps),
{
}

/// A bundle containing only unrecognized names leaves the
/// configuration exactly as it was.
pub proof fn lemma_bird_unknown_names_noop(c: BirdSimulationParameters, ps: Seq<Parameter>)
    requires
        forall|i: int| 0 <= i < ps.len() ==> !is_bird_field_name(#[trigger] ps[i].name@),
    ensures
        apply_bird_bundle(c, ps) == c,
{
    lemma_last_set_u32_none(ps, "width"@);
    lemma_last_set_u32_none(ps, "height"@);
    lemma_last_set_u32_none(ps, "max_iter"@);
    lemma_last_set_u32_none(ps, "n_birds"@);
}

impl BirdSimulationParameters {
    /// The compile-time defaults of this simulation kind.
    pub open spec fn spec_default() -> BirdSimulationParameters {
        BirdSimulationParameters {
            width: BIRD_DEFAULT_WIDTH,
            height: BIRD_DEFAULT_HEIGHT,
            max_iter: BIRD_DEFAULT_MAX_ITER,
            n_birds: BIRD_DEFAULT_N_BIRDS,
            n_iter: BIRD_DEFAULT_N_ITER,
        }
    }

    /// The fixed, ordered catalogue of configurable inputs.
    pub fn parameter_descriptions() -> (r: Vec<ParameterDescription>)
        ensures
            r@.len() == 4,
            bird_descriptor_ok(r@[0], 0),
            bird_descriptor_ok(r@[1], 1),
            bird_descriptor_ok(r@[2], 2),
            bird_descriptor_ok(r@[3], 3),
    {
        let mut r: Vec<ParameterDescription> = Vec::new();
        r.push(
            ParameterDescription {
                name: String::from_str("width"),
                description: String::from_str("Width of the image"),
                data_type: String::from_str("integer"),
                default: ParameterType::UnsignedInteger(BIRD_DEFAULT_WIDTH),
                required: true,
                lower_bound: Some(ParameterType::Integer(0)),
                upper_bound: None,
                step: Some(ParameterType::Integer(1)),
            },
        );
        r.push(
            ParameterDescription {
                name: String::from_str("height"),
                description: String::from_str("Height of the image"),
                data_type: String::from_str("integer"),
                default: ParameterType::UnsignedInteger(BIRD_DEFAULT_HEIGHT),
                required: true,
                lower_bound: Some(ParameterType::Integer(0)),
                upper_bound: None,
                step: Some(ParameterType::Integer(1)),
            },
        );
        r.push(
            ParameterDescription {
                name: String::from_str("max_iter"),
                description: String::from_str("Maximum number of iterations"),
                data_type: String::from_str("integer"),
                default: ParameterType::UnsignedInteger(BIRD_DEFAULT_MAX_ITER),
                required: true,
                lower_bound: Some(ParameterType::Integer(10)),
                upper_bound: Some(ParameterType::Integer(10000)),
                step: Some(ParameterType::Integer(10)),
            },
        );
        r.push(
            ParameterDescription {
                name: String::from_str("n_birds"),
                description: String::from_str("The number of birds to be used in the simulation"),
                data_type: String::from_str("integer"),
                default: ParameterType::UnsignedInteger(BIRD_DEFAULT_N_BIRDS),
                required: true,
                lower_bound: Some(ParameterType::Integer(0)),
                upper_bound: Some(ParameterType::Integer(1000)),
                step: Some(ParameterType::Integer(1)),
            },
        );
        r
    }

    /// Apply a submitted bundle to this configuration in place, with
    /// the same permissive merge the other simulations use.
    pub fn from_parameters(&mut self, params: SimulationParameters)
        ensures
            *final(self) == apply_bird_bundle(*old(self), params.params@),
    {
        let name_width = String::from_str("width");
        let name_height = String::from_str("height");
        let name_max_iter = String::from_str("max_iter");
        let name_n_birds = String::from_str("n_birds");
        let ghost ps = params.params@;
        let ghost c0 = *self;
        let n: usize = params.params.len();
        let mut i: usize = 0;
        while i < n
            invariant
                n == ps.len(),
                i <= n,
                params.params@ == ps,
                name_width@ == "width"@,
                name_height@ == "height"@,
                name_max_iter@ == "max_iter"@,
                name_n_birds@ == "n_birds"@,
                self.width == or_u32(last_set_u32(ps.take(i as int), "width"@), c0.width),
                self.height == or_u32(last_set_u32(ps.take(i as int), "height"@), c0.height),
                self.max_iter == or_u32(last_set_u32(ps.take(i as int), "max_iter"@), c0.max_iter),
                self.n_birds == or_u32(last_set_u32(ps.take(i as int), "n_birds"@), c0.n_birds),
                self.n_iter == c0.n_iter,
            decreases n - i,
        {
            let p = &params.params[i];
            if p.name == name_width {
                match &p.value {
                    ParameterType::UnsignedInteger(v) => { self.width = *v; },
                    _ => {},
                }
            } else if p.name == name_height {
                match &p.value {
                    ParameterType::UnsignedInteger(v) => { self.height = *v; },
                    _ => {},
                }
            } else if p.name == name_max_iter {
                match &p.value {
                    ParameterType::UnsignedInteger(v) => { self.max_iter = *v; },
                    _ => {},
                }
            } else if p.name == name_n_birds {
                match &p.value {
                    ParameterType::UnsignedInteger(v) => { self.n_birds = *v; },
                    _ => {},
                }
            }
            proof {
                lemma_field_names_distinct();
                lemma_last_set_step(ps, i as int, "width"@);
                lemma_last_set_step(ps, i as int, "height"@);
                lemma_last_set_step(ps, i as int, "max_iter"@);
                lemma_last_set_step(ps, i as int, "n_birds"@);
            }
            i = i + 1;
        }
        proof {
            assert(ps.take(n as int) =~= ps);
        }
    }

    /// The placeholder compute step: a blank raster of the configured
    /// size, every pixel fully transparent black.
    pub fn render(&self) -> (r: Raster)
        requires
            self.width as int * self.height as int <= usize::MAX as int,
        ensures
            blank_raster_matches(r, self.width, self.height),
    {
        let mut pixels: Vec<Rgba> = Vec::new();
        let mut y: u32 = 0;
        while y < self.height
            invariant
                y <= self.height,
                pixels@.len() == y as int * self.width as int,
                forall|k: int|
                    0 <= k < pixels@.len() ==> pixels@[k] == (Rgba { r: 0, g: 0, b: 0, a: 0 }),
            decreases self.height - y,
        {
            let mut x: u32 = 0;
            while x < self.width
                invariant
                    y < self.height,
                    x <= self.width,
                    pixels@.len() == y as int * self.width as int + x as int,
                    forall|k: int|
                        0 <= k < pixels@.len() ==> pixels@[k] == (Rgba { r: 0, g: 0, b: 0, a: 0 }),
                decreases self.width - x,
            {
                pixels.push(Rgba { r: 0, g: 0, b: 0, a: 0 });
                x = x + 1;
            }
            proof {
                assert(y as int * self.width as int + self.width as int == (y as int + 1)
                    * self.width as int) by (nonlinear_arith);
            }
            y = y + 1;
        }
        let r = Raster { width: self.width, height: self.height, pixels };
        proof {
            assert(r.pixels@.len() == self.width as int * self.height as int) by (nonlinear_arith)
                requires
                    r.pixels@.len() == self.height as int * self.width as int,
            ;
            assert forall|x: int, y2: int|
                0 <= x < self.width as int && 0 <= y2 < self.height as int implies #[trigger] r
                .spec_pixel_at(x, y2) == (Rgba { r: 0, g: 0, b: 0, a: 0 }) by {
                lemma_row_major_index(self.width as int, self.height as int, x, y2);
            }
        }
        r
    }
}

impl BirdSimulationParameters {
    /// The placeholder artifact in the outside image representation:
    /// a blank image of the configured size.
    pub fn run(&self) -> (img: image::DynamicImage)
        requires
            3 * (self.width as int) <= usize::MAX as int,
            3 * (self.width as int) * (self.height as int) <= usize::MAX as int,
        ensures
            image_dims(img) == (self.width as int, self.height as int),
            forall|x: int, y: int|
                0 <= x < self.width as int && 0 <= y < self.height as int ==> image_rgb(
                    img,
                ).contains_pair((x, y), (0u8, 0u8, 0u8)),
    {
        proof {
            assert((self.width as int) * (self.height as int) <= 3 * (self.width as int) * (
            self.height as int)) by (nonlinear_arith)
                requires
                    self.width >= 0,
                    self.height >= 0,
            ;
        }
        let raster = self.render();
        let img = raster_to_image(&raster);
        proof {
            assert forall|x: int, y: int|
                0 <= x < self.width as int && 0 <= y < self.height as int implies image_rgb(
                img,
            ).contains_pair((x, y), (0u8, 0u8, 0u8)) by {
                assert(raster.spec_pixel_at(x, y) == (Rgba { r: 0, g: 0, b: 0, a: 0 }));
            }
        }
        img
    }
}

impl Default for BirdSimulationParameters {
    /// A configuration holding every compile-time default.
    fn default() -> (r: BirdSimulationParameters)
        ensures
            r == BirdSimulationParameters::spec_default(),
    {
        BirdSimulationParameters {
            width: BIRD_DEFAULT_WIDTH,
            height: BIRD_DEFAULT_HEIGHT,
            max_iter: BIRD_DEFAULT_MAX_ITER,
            n_birds: BIRD_DEFAULT_N_BIRDS,
            n_iter: BIRD_DEFAULT_N_ITER,
        }
    }
}

} // verus!
