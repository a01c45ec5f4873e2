use simulations::birds::BirdSimulationParameters;
use simulations::fixed::Fixed;
use simulations::julia_sets_simulation::JuliaSetParameters;
use simulations::parameters::{
    Parameter, ParameterDescription, ParameterType, SimulationParameters,
};
use simulations::simulation::{
    ErrorKind, JuliaSetSimulation, Simulation, list_simulations, run, simulate,
};

fn named(name: &str, value: ParameterType) -> Parameter {
    Parameter { name: String::from(name), value }
}

fn bundle(entries: Vec<Parameter>) -> SimulationParameters {
    SimulationParameters { params: entries }
}

#[test]
fn apply_overrides_named_fields() {
    let mut cfg = JuliaSetParameters::default();
    cfg.from_parameters(bundle(vec![
        named("width", ParameterType::UnsignedInteger(10)),
        named("c_real", ParameterType::Float(Fixed::from_bits(0x1_8000_0000))),
    ]));
    assert_eq!(cfg.width, 10);
    assert_eq!(cfg.height, 800);
    assert_eq!(cfg.c_real, Fixed::from_bits(0x1_8000_0000));
    assert_eq!(cfg.max_iter, 1000);
}

#[test]
fn apply_twice_equals_apply_once() {
    let entries = vec![
        named("width", ParameterType::UnsignedInteger(12)),
        named("escape_radius", ParameterType::Float(Fixed::from_int(3))),
        named("stray", ParameterType::Boolean(true)),
    ];
    let mut once = JuliaSetParameters::default();
    once.from_parameters(bundle(entries.clone()));
    let mut twice = JuliaSetParameters::default();
    twice.from_parameters(bundle(entries.clone()));
    twice.from_parameters(bundle(entries));
    assert_eq!(once, twice);
}

#[test]
fn unknown_names_are_ignored() {
    let mut cfg = JuliaSetParameters::default();
    cfg.from_parameters(bundle(vec![
        named("frame_rate", ParameterType::UnsignedInteger(60)),
        named("palette", ParameterType::Text(String::from("inferno"))),
    ]));
    assert_eq!(cfg, JuliaSetParameters::default());
}

#[test]
fn mismatched_variant_is_ignored() {
    let mut cfg = JuliaSetParameters::default();
    cfg.from_parameters(bundle(vec![
        named("width", ParameterType::Text(String::from("wide"))),
        named("escape_radius", ParameterType::UnsignedInteger(9)),
    ]));
    assert_eq!(cfg, JuliaSetParameters::default());
}

#[test]
fn duplicate_names_last_wins() {
    let mut cfg = JuliaSetParameters::default();
    cfg.from_parameters(bundle(vec![
        named("width", ParameterType::UnsignedInteger(5)),
        named("width", ParameterType::UnsignedInteger(7)),
    ]));
    assert_eq!(cfg.width, 7);
}

#[test]
fn strict_mode_rejects_mismatch() {
    let mut cfg = JuliaSetParameters::default();
    let r = cfg.from_parameters_strict(bundle(vec![
        named("height", ParameterType::UnsignedInteger(32)),
        named("width", ParameterType::Text(String::from("wide"))),
    ]));
    assert_eq!(r, Err(ErrorKind::InvalidParameter));
    assert_eq!(cfg, JuliaSetParameters::default());
}

#[test]
fn strict_mode_applies_well_typed_bundle() {
    let mut cfg = JuliaSetParameters::default();
    let r = cfg.from_parameters_strict(bundle(vec![
        named("height", ParameterType::UnsignedInteger(32)),
        named("ignored_name", ParameterType::Boolean(false)),
    ]));
    assert_eq!(r, Ok(()));
    assert_eq!(cfg.height, 32);
    assert_eq!(cfg.width, 800);
}

#[test]
fn julia_descriptions_catalogue() {
    let ds = JuliaSetParameters::parameter_descriptions();
    assert_eq!(ds.len(), 6);
    let names: Vec<&str> = ds.iter().map(|d| d.name.as_str()).collect();
    assert_eq!(
        names,
        vec!["width", "height", "c_real", "c_imaginary", "max_iter", "escape_radius"]
    );
    assert_eq!(ds[0].default, ParameterType::UnsignedInteger(800));
    assert_eq!(ds[4].default, ParameterType::UnsignedInteger(1000));
    assert_eq!(ds[5].default, ParameterType::Float(Fixed::from_int(2)));
    assert_eq!(ds[4].lower_bound, Some(ParameterType::Integer(10)));
    assert_eq!(ds[4].upper_bound, Some(ParameterType::Integer(10000)));
    assert!(ds.iter().all(|d| d.required));
}

#[test]
fn bird_descriptions_catalogue() {
    let ds = BirdSimulationParameters::parameter_descriptions();
    assert_eq!(ds.len(), 4);
    let names: Vec<&str> = ds.iter().map(|d| d.name.as_str()).collect();
    assert_eq!(names, vec!["width", "height", "max_iter", "n_birds"]);
    assert_eq!(ds[3].default, ParameterType::UnsignedInteger(50));
    assert_eq!(ds[3].upper_bound, Some(ParameterType::Integer(1000)));
}

#[test]
fn descriptor_to_string_rendering() {
    let ds = JuliaSetParameters::parameter_descriptions();
    // A descriptor with a lower bound renders its bounds and step,
    // absent ones included.
    assert_eq!(
        ds[0].to_string(),
        "width(integer): Width of the image. Between Some(Integer(0)) and None in steps of Some(Integer(1))."
    );
    assert_eq!(
        ds[4].to_string(),
        "max_iter(integer): Maximum number of iterations. Between Some(Integer(10)) and Some(Integer(10000)) in steps of Some(Integer(10))."
    );
    // A descriptor without a lower bound renders the short form.
    assert_eq!(ds[2].to_string(), "c_real(float): Real part of the constant c.");
}

#[test]
fn descriptor_to_string_renders_values() {
    let d = ParameterDescription {
        name: String::from("zoom"),
        description: String::from("Magnification"),
        default: ParameterType::Float(Fixed::from_int(1)),
        required: false,
        data_type: String::from("float"),
        lower_bound: Some(ParameterType::Float(Fixed::from_bits(-0x1_8000_0000))),
        upper_bound: Some(ParameterType::Float(Fixed::from_int(2))),
        step: Some(ParameterType::Boolean(true)),
    };
    assert_eq!(
        d.to_string(),
        "zoom(float): Magnification. Between Some(Float(-1.5)) and Some(Float(2.0)) in steps of Some(Boolean(true))."
    );
}

#[test]
fn list_simulations_catalogue() {
    let sims = list_simulations();
    assert_eq!(sims.len(), 2);
    assert_eq!(sims[0].name, "Birds");
    assert_eq!(sims[0].parameters.len(), 4);
    assert_eq!(sims[1].name, "JuliaSets");
    assert_eq!(sims[1].parameters.len(), 6);
}

#[test]
fn registry_runs_julia_with_overrides() {
    let r = run(
        String::from("JuliaSets"),
        bundle(vec![
            named("width", ParameterType::UnsignedInteger(10)),
            named("height", ParameterType::UnsignedInteger(10)),
        ]),
    );
    let raster = r.expect("a well-formed configuration must produce a raster");
    assert_eq!(raster.width, 10);
    assert_eq!(raster.height, 10);
    assert_eq!(raster.pixels.len(), 100);
}

#[test]
fn registry_unknown_name_is_consistent() {
    let first = run(String::from("unknown-name"), bundle(vec![]));
    let second = run(String::from("unknown-name"), bundle(vec![]));
    assert_eq!(first, Err(ErrorKind::UnknownSimulation));
    assert_eq!(second, Err(ErrorKind::UnknownSimulation));
}

#[test]
fn registry_rejects_degenerate_config() {
    let zero_width = run(
        String::from("JuliaSets"),
        bundle(vec![named("width", ParameterType::UnsignedInteger(0))]),
    );
    assert_eq!(zero_width, Err(ErrorKind::DegenerateConfig));
    let zero_iter = run(
        String::from("JuliaSets"),
        bundle(vec![named("max_iter", ParameterType::UnsignedInteger(0))]),
    );
    assert_eq!(zero_iter, Err(ErrorKind::DegenerateConfig));
}

#[test]
fn registry_runs_birds_blank() {
    let r = run(
        String::from("Birds"),
        bundle(vec![
            named("width", ParameterType::UnsignedInteger(3)),
            named("height", ParameterType::UnsignedInteger(3)),
        ]),
    );
    let raster = r.expect("the placeholder must produce a blank raster");
    assert_eq!(raster.pixels.len(), 9);
    assert!(raster.pixels.iter().all(|p| p.r == 0 && p.g == 0 && p.b == 0 && p.a == 0));
}

#[test]
fn bird_apply_sets_n_birds() {
    let mut cfg = BirdSimulationParameters::default();
    cfg.from_parameters(bundle(vec![named("n_birds", ParameterType::UnsignedInteger(10))]));
    assert_eq!(cfg.n_birds, 10);
    assert_eq!(cfg.n_iter, 1000);
}

#[test]
fn simulate_reports_completion() {
    let done = simulate(
        String::from("JuliaSets"),
        bundle(vec![
            named("width", ParameterType::UnsignedInteger(2)),
            named("height", ParameterType::UnsignedInteger(2)),
        ]),
    );
    assert_eq!(done, Some(String::from("Simulation completed")));
    let missing = simulate(String::from("nope"), bundle(vec![]));
    assert_eq!(missing, None);
}

#[test]
fn simulation_trait_surface() {
    let mut sim = JuliaSetSimulation::default();
    assert_eq!(sim.get_name(), "JuliaSets");
    sim.set_parameters(bundle(vec![
        named("width", ParameterType::UnsignedInteger(2)),
        named("height", ParameterType::UnsignedInteger(2)),
    ]));
    assert_eq!(sim.params.width, 2);
    assert_eq!(sim.run(), Ok(()));
    let details = sim.get_simulation_details();
    assert_eq!(details.name, "JuliaSets");
    assert_eq!(details.parameters.len(), 6);
}
