//! The simulation abstraction and the registry.
//!
//! `Simulation` is the polymorphic contract every simulation kind
//! implements: accept a parameter bundle, report descriptive metadata,
//! run to produce a result. The registry resolves a simulation name by
//! case-sensitive exact match against the closed set of kinds — an
//! unresolvable name is reported as an error, never silently mapped to
//! a default kind — applies the bundle to that kind's defaults, and
//! executes the compute step.

use vstd::prelude::*;
use crate::birds::{
    BirdSimulationParameters, apply_bird_bundle, bird_descriptor_ok, blank_raster_matches,
};
use crate::julia_sets_simulation::{
    JuliaSetParameters, apply_bundle, julia_descriptor_ok, julia_raster_matches,
};
use crate::parameters::{Parameter, ParameterDescription, SimulationDetails, SimulationParameters};
use crate::raster::Raster;
use vstd::string::StringExecFns;

verus! {

/// The ways a run can fail before any pixel is computed.
#[derive(Clone, Copy, PartialEq, Eq, Structural, Debug)]
pub enum ErrorKind {
    /// The submitted name resolves to no simulation kind.
    UnknownSimulation,
    /// Strict mode only: a submitted value's variant does not match
    /// the named field's expected type.
    InvalidParameter,
    /// A zero-area image, a zero iteration cap, or more pixels than
    /// memory can address.
    DegenerateConfig,
}

/// A configuration that cannot be safely executed: nothing to
/// compute, or a raster too large to address.
pub open spec fn julia_degenerate(c: JuliaSetParameters) -> bool {
    ||| c.width == 0
    ||| c.height == 0
    ||| c.max_iter == 0
    ||| (c.width as int) * (c.height as int) > usize::MAX as int
}

/// The analogous bound for the bird-flock placeholder.
pub open spec fn bird_degenerate(c: BirdSimulationParameters) -> bool {
    ||| c.width == 0
    ||| c.height == 0
    ||| c.max_iter == 0
    ||| (c.width as int) * (c.height as int) > usize::MAX as int
}

/// The pixel count of a grid, computed exactly in 64 bits.
fn grid_area(w: u32, h: u32) -> (a: u64)
    ensures
        a == (w as int) * (h as int),
{
    proof {
        assert((w as int) * (h as int) <= 0xffff_ffff * 0xffff_ffff) by (nonlinear_arith)
            requires
                w <= 0xffff_ffffu32,
                h <= 0xffff_ffffu32,
        ;
    }
    (w as u64) * (h as u64)
}

/// The polymorphic contract of a simulation kind.
pub trait Simulation: Sized {
    /// The registry name of this simulation kind.
    spec fn spec_name(&self) -> Seq<char>;

    /// The state this simulation holds after a bundle is applied.
    spec fn spec_apply(&self, ps: Seq<Parameter>) -> Self;

    /// Whether the held configuration can be executed within memory.
    spec fn spec_can_run(&self) -> bool;

    /// Execute the compute step, discarding the artifact; it succeeds
    /// exactly when the held configuration fits in memory.
    fn run(&self) -> (r: Result<(), String>)
        ensures
            r is Ok <==> self.spec_can_run(),
    ;

    /// Apply a submitted bundle to the held configuration.
    fn set_parameters(&mut self, params: SimulationParameters)
        ensures
            *final(self) == old(self).spec_apply(params.params@),
    ;

    /// The registry name.
    fn get_name(&self) -> (r: String)
        ensures
            r@ == self.spec_name(),
    ;

    /// The catalogue this simulation kind owes for introspection: a
    /// sequence is the catalogue exactly when this predicate holds.
    spec fn spec_describes(&self, ds: Seq<ParameterDescription>) -> bool;

    /// The catalogue of configurable inputs.
    fn parameter_descriptions(&self) -> (r: Vec<ParameterDescription>)
        ensures
            self.spec_describes(r@),
    ;

    /// The full self-description: the name and the catalogue.
    fn get_simulation_details(&self) -> (r: SimulationDetails)
        ensures
            r.name@ == self.spec_name(),
            self.spec_describes(r.parameters@),
    {
        SimulationDetails { name: self.get_name(), parameters: self.parameter_descriptions() }
    }
}

/// The bird-flock simulation kind with its held configuration.
#[derive(Clone, Copy, PartialEq, Eq, Structural, Debug)]
pub struct BirdSimulation {
    pub params: BirdSimulationParameters,
}

/// The Julia-set simulation kind with its held configuration.
#[derive(Clone, Copy, PartialEq, Eq, Structural, Debug)]
pub struct JuliaSetSimulation {
    pub params: JuliaSetParameters,
}

impl Default for BirdSimulation {
    /// A simulation holding the default configuration.
    fn default() -> (r: BirdSimulation)
        ensures
            r.params == BirdSimulationParameters::spec_default(),
    {
        BirdSimulation { params: BirdSimulationParameters::default() }
    }
}

impl Default for JuliaSetSimulation {
    /// A simulation holding the default configuration.
    fn default() -> (r: JuliaSetSimulation)
        ensures
            r.params == JuliaSetParameters::spec_default(),
    {
        JuliaSetSimulation { params: JuliaSetParameters::default() }
    }
}

impl Simulation for BirdSimulation {
    open spec fn spec_name(&self) -> Seq<char> {
        "Birds"@
    }

    open spec fn spec_apply(&self, ps: Seq<Parameter>) -> BirdSimulation {
        BirdSimulation { params: apply_bird_bundle(self.params, ps) }
    }

    open spec fn spec_describes(&self, ds: Seq<ParameterDescription>) -> bool {
        &&& ds.len() == 4
        &&& forall|i: int| 0 <= i < 4 ==> bird_descriptor_ok(#[trigger] ds[i], i)
    }

    open spec fn spec_can_run(&self) -> bool {
        &&& 3 * (self.params.width as int) <= usize::MAX as int
        &&& 3 * (self.params.width as int) * (self.params.height as int) <= usize::MAX as int
    }

    fn run(&self) -> (r: Result<(), String>) {
        let area: u64 = grid_area(self.params.width, self.params.height);
        let row: u64 = 3u64 * (self.params.width as u64);
        let t: u128 = 3u128 * (area as u128);
        proof {
            let w = self.params.width as int;
            let h = self.params.height as int;
            assert(3 * w * h == 3 * (w * h)) by (nonlinear_arith);
        }
        if row <= usize::MAX as u64 && t <= usize::MAX as u128 {
            let _ = self.params.run();
            Ok(())
        } else {
            Err(String::from_str("the configured image does not fit in memory"))
        }
    }

    fn set_parameters(&mut self, params: SimulationParameters) {
        self.params.from_parameters(params);
    }

    fn get_name(&self) -> (r: String) {
        String::from_str("Birds")
    }

    fn parameter_descriptions(&self) -> (r: Vec<ParameterDescription>) {
        let r = BirdSimulationParameters::parameter_descriptions();
        proof {
            assert forall|i: int| 0 <= i < 4 implies bird_descriptor_ok(#[trigger] r@[i], i) by {}
        }
        r
    }
}

impl Simulation for JuliaSetSimulation {
    open spec fn spec_name(&self) -> Seq<char> {
        "JuliaSets"@
    }

    open spec fn spec_apply(&self, ps: Seq<Parameter>) -> JuliaSetSimulation {
        JuliaSetSimulation { params: apply_bundle(self.params, ps) }
    }

    open spec fn spec_describes(&self, ds: Seq<ParameterDescription>) -> bool {
        &&& ds.len() == 6
        &&& forall|i: int| 0 <= i < 6 ==> julia_descriptor_ok(#[trigger] ds[i], i)
    }

    open spec fn spec_can_run(&self) -> bool {
        &&& 3 * (self.params.width as int) <= usize::MAX as int
        &&& 3 * (self.params.width as int) * (self.params.height as int) <= usize::MAX as int
    }

    fn run(&self) -> (r: Result<(), String>) {
        let area: u64 = grid_area(self.params.width, self.params.height);
        let row: u64 = 3u64 * (self.params.width as u64);
        let t: u128 = 3u128 * (area as u128);
        proof {
            let w = self.params.width as int;
            let h = self.params.height as int;
            assert(3 * w * h == 3 * (w * h)) by (nonlinear_arith);
        }
        if row <= usize::MAX as u64 && t <= usize::MAX as u128 {
            let _ = self.params.run();
            Ok(())
        } else {
            Err(String::from_str("the configured image does not fit in memory"))
        }
    }

    fn set_parameters(&mut self, params: SimulationParameters) {
        self.params.from_parameters(params);
    }

    fn get_name(&self) -> (r: String) {
        String::from_str("JuliaSets")
    }

    fn parameter_descriptions(&self) -> (r: Vec<ParameterDescription>) {
        let r = JuliaSetParameters::parameter_descriptions();
        proof {
            assert forall|i: int| 0 <= i < 6 implies julia_descriptor_ok(#[trigger] r@[i], i) by {}
        }
        r
    }
}

/// Resolve a simulation name, apply the bundle to that kind's default
/// configuration, and compute the raster. The name must match a
/// registered kind exactly; a configuration left degenerate by the
/// merge is rejected before any pixel is computed, so the caller gets
/// either a complete raster or an error, never a partial result.
pub fn run(name: String, params: SimulationParameters) -> (r: Result<Raster, ErrorKind>)
    ensures
        ({
            let jcfg = apply_bundle(JuliaSetParameters::spec_default(), params.params@);
            let bcfg = apply_bird_bundle(BirdSimulationParameters::spec_default(), params.params@);
            if name@ == "JuliaSets"@ {
                if julia_degenerate(jcfg) {
                    r == Err::<Raster, ErrorKind>(ErrorKind::DegenerateConfig)
                } else {
                    r is Ok && julia_raster_matches(r->Ok_0, jcfg)
                }
            } else if name@ == "Birds"@ {
                if bird_degenerate(bcfg) {
                    r == Err::<Raster, ErrorKind>(ErrorKind::DegenerateConfig)
                } else {
                    r is Ok && blank_raster_matches(r->Ok_0, bcfg.width, bcfg.height)
                }
            } else {
                r == Err::<Raster, ErrorKind>(ErrorKind::UnknownSimulation)
            }
        }),
{
    let name_julia = String::from_str("JuliaSets");
    let name_birds = String::from_str("Birds");
    if name == name_julia {
        let mut cfg = JuliaSetParameters::default();
        cfg.from_parameters(params);
        if cfg.width == 0 || cfg.height == 0 || cfg.max_iter == 0 {
            return Err(ErrorKind::DegenerateConfig);
        }
        let area: u64 = grid_area(cfg.width, cfg.height);
        if area > usize::MAX as u64 {
            return Err(ErrorKind::DegenerateConfig);
        }
        Ok(cfg.render())
    } else if name == name_birds {
        let mut cfg = BirdSimulationParameters::default();
        cfg.from_parameters(params);
        if cfg.width == 0 || cfg.height == 0 || cfg.max_iter == 0 {
            return Err(ErrorKind::DegenerateConfig);
        }
        let area: u64 = grid_area(cfg.width, cfg.height);
        if area > usize::MAX as u64 {
            return Err(ErrorKind::DegenerateConfig);
        }
        Ok(cfg.render())
    } else {
        Err(ErrorKind::UnknownSimulation)
    }
}

/// Resolve and execute a simulation, reporting only completion: the
/// textual completion marker when the run produced a raster, nothing
/// when the name is unknown or the configuration degenerate.
pub fn simulate(simulation_type: String, params: SimulationParameters) -> (r: Option<String>)
    ensures
        ({
            let jcfg = apply_bundle(JuliaSetParameters::spec_default(), params.params@);
            let bcfg = apply_bird_bundle(BirdSimulationParameters::spec_default(), params.params@);
            if simulation_type@ == "JuliaSets"@ {
                if julia_degenerate(jcfg) {
                    r is None
                } else {
                    r is Some && r->0@ == "Simulation completed"@
                }
            } else if simulation_type@ == "Birds"@ {
                if bird_degenerate(bcfg) {
                    r is None
                } else {
                    r is Some && r->0@ == "Simulation completed"@
                }
            } else {
                r is None
            }
        }),
{
    match run(simulation_type, params) {
        Ok(_) => Some(String::from_str("Simulation completed")),
        Err(_) => None,
    }
}

/// The discovery call: the self-description of every registered
/// simulation kind, in registry order.
pub fn list_simulations() -> (r: Vec<SimulationDetails>)
    ensures
        r@.len() == 2,
        r@[0].name@ == "Birds"@,
        r@[0].parameters@.len() == 4,
        forall|i: int| 0 <= i < 4 ==> bird_descriptor_ok(#[trigger] r@[0].parameters@[i], i),
        r@[1].name@ == "JuliaSets"@,
        r@[1].parameters@.len() == 6,
        forall|i: int| 0 <= i < 6 ==> julia_descriptor_ok(#[trigger] r@[1].parameters@[i], i),
{
    let mut r: Vec<SimulationDetails> = Vec::new();
    r.push(
        SimulationDetails {
            name: String::from_str("Birds"),
            parameters: BirdSimulationParameters::parameter_descriptions(),
        },
    );
    r.push(
        SimulationDetails {
            name: String::from_str("JuliaSets"),
            parameters: JuliaSetParameters::parameter_descriptions(),
        },
    );
    r
}

} // verus!
