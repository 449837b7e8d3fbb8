use transmission_line::coefficients::{compute_decay, compute_gain, derive_coefficients};
use transmission_line::engine::{
    configure, configure_simulator, get_currents, get_driving_subcircuit_voltage, get_tick,
    get_time, get_voltages, reset_simulation, step_simultion, SimulationEngine,
};
use transmission_line::kernel::Operation;
use transmission_line::model::{
    BoundaryModel, ConfigurationError, InvalidModelError, LineParameters, Parameter,
    SimulationError, SourceModel, Termination,
};
use transmission_line::settings::SimulationSettings;

fn ieee(operation: Operation, a: u64, b: u64) -> u64 {
    let x = f64::from_bits(a);
    let y = f64::from_bits(b);
    let r = match operation {
        Operation::Add => x + y,
        Operation::Sub => x - y,
        Operation::Mul => x * y,
        Operation::Div => x / y,
        Operation::Rem => x % y,
        Operation::Sin => x.sin(),
    };
    r.to_bits()
}

fn w(x: f64) -> u64 {
    x.to_bits()
}

fn words(line: &[f64]) -> Vec<u64> {
    line.iter().map(|x| x.to_bits()).collect()
}

fn numbers(line: &[u64]) -> Vec<f64> {
    line.iter().map(|x| f64::from_bits(*x)).collect()
}

fn line(segments: usize) -> LineParameters {
    LineParameters {
        resistance: w(75.0),
        conductance: w(1e-6),
        inductance: w(1.75e-4),
        capacitance: w(1.5e-8),
        segments,
        timestep: w(5e-15),
    }
}

fn lively_line(segments: usize) -> LineParameters {
    LineParameters {
        resistance: w(0.1),
        conductance: w(0.001),
        inductance: w(0.5),
        capacitance: w(0.5),
        segments,
        timestep: w(0.1),
    }
}

fn steady(amplitude: f64) -> BoundaryModel {
    BoundaryModel {
        source: SourceModel::Constant { amplitude: w(amplitude) },
        start: Termination::Short,
        end: Termination::Open,
    }
}

fn by_selectors(
    engine: &mut SimulationEngine,
    source: i32,
    start: i32,
    end: i32,
    timestep: f64,
    segments: usize,
    r: f64,
    g: f64,
    l: f64,
    c: f64,
) -> Result<(), SimulationError> {
    configure_simulator(
        engine,
        &ieee,
        0,
        source,
        start,
        end,
        w(timestep),
        segments,
        w(r),
        w(g),
        w(l),
        w(c),
        w(5.0),
        w(2.0),
        w(0.5),
        w(50.0),
        w(1e-9),
        w(1e-6),
        w(60.0),
        w(2e-9),
        w(2e-6),
    )
}

fn good(engine: &mut SimulationEngine, source: i32, start: i32, end: i32, segments: usize) -> Result<(), SimulationError> {
    by_selectors(engine, source, start, end, 5e-15, segments, 75.0, 1e-6, 1.75e-4, 1.5e-8)
}

#[test]
fn a_new_engine_is_empty_and_unconfigured() {
    let engine = SimulationEngine::new();
    assert_eq!(get_tick(&engine), 0);
    assert_eq!(get_voltages(&engine), Vec::<u64>::new());
    assert_eq!(get_currents(&engine), Vec::<u64>::new());
    assert_eq!(f64::from_bits(get_time(&engine, &ieee)), 0.0);
    assert_eq!(engine.settings(), SimulationSettings::unconfigured());
    assert!(!engine.settings().simulator_configured);
    assert_eq!(engine.settings().line.segments, 0);
}

#[test]
fn a_step_before_any_configuration_is_turned_down() {
    let mut engine = SimulationEngine::new();
    assert_eq!(step_simultion(&mut engine, &ieee), Err(InvalidModelError::Unset));
    assert_eq!(get_tick(&engine), 0);
    assert_eq!(get_voltages(&engine).len(), 0);
    assert_eq!(get_driving_subcircuit_voltage(&engine, &ieee), Err(InvalidModelError::Unset));
}

#[test]
fn a_reset_before_any_configuration_keeps_the_engine_empty() {
    let mut engine = SimulationEngine::new();
    reset_simulation(&mut engine);
    assert_eq!(get_tick(&engine), 0);
    assert_eq!(get_voltages(&engine).len(), 0);
    assert_eq!(get_currents(&engine).len(), 0);
    assert_eq!(engine.settings(), SimulationSettings::unconfigured());
}

#[test]
fn selectors_name_the_models() {
    assert_eq!(
        SourceModel::from_selector(1, 10, 20, 30),
        Ok(SourceModel::Constant { amplitude: 10 })
    );
    assert_eq!(
        SourceModel::from_selector(2, 10, 20, 30),
        Ok(SourceModel::Pulse { amplitude: 10, period: 20, width: 30 })
    );
    assert_eq!(
        SourceModel::from_selector(3, 10, 20, 30),
        Ok(SourceModel::Sinusoidal { amplitude: 10, period: 20 })
    );
    assert_eq!(Termination::start_from_selector(1, 10, 20, 30), Ok(Termination::Short));
    assert_eq!(
        Termination::start_from_selector(2, 10, 20, 30),
        Ok(Termination::Resistor { resistance: 10 })
    );
    assert_eq!(
        Termination::start_from_selector(3, 10, 20, 30),
        Ok(Termination::Capacitor { capacitance: 20 })
    );
    assert_eq!(
        Termination::start_from_selector(4, 10, 20, 30),
        Ok(Termination::Inductor { inductance: 30 })
    );
    assert_eq!(Termination::end_from_selector(1, 10, 20, 30), Ok(Termination::Open));
    assert_eq!(Termination::end_from_selector(2, 10, 20, 30), Ok(Termination::Short));
    assert_eq!(
        Termination::end_from_selector(3, 10, 20, 30),
        Ok(Termination::Resistor { resistance: 10 })
    );
    assert_eq!(
        Termination::end_from_selector(4, 10, 20, 30),
        Ok(Termination::Capacitor { capacitance: 20 })
    );
    assert_eq!(
        Termination::end_from_selector(5, 10, 20, 30),
        Ok(Termination::Inductor { inductance: 30 })
    );
}

#[test]
fn an_unknown_source_selector_is_reported_with_its_code() {
    for code in [0, 4, -1, 17, i32::MAX, i32::MIN] {
        let mut engine = SimulationEngine::new();
        assert_eq!(
            good(&mut engine, code, 1, 1, 10),
            Err(SimulationError::InvalidModel(InvalidModelError::Source(code)))
        );
        assert_eq!(engine.settings(), SimulationSettings::unconfigured());
        assert_eq!(get_voltages(&engine).len(), 0);
        assert_eq!(SourceModel::from_selector(code, 1, 2, 3), Err(InvalidModelError::Source(code)));
    }
}

#[test]
fn an_unknown_start_selector_is_reported_with_its_code() {
    for code in [0, 5, -1, 6, i32::MAX, i32::MIN] {
        let mut engine = SimulationEngine::new();
        assert_eq!(
            good(&mut engine, 1, code, 1, 10),
            Err(SimulationError::InvalidModel(InvalidModelError::StartTermination(code)))
        );
        assert_eq!(engine.settings(), SimulationSettings::unconfigured());
        assert_eq!(
            Termination::start_from_selector(code, 1, 2, 3),
            Err(InvalidModelError::StartTermination(code))
        );
    }
}

#[test]
fn an_unknown_end_selector_is_reported_with_its_code() {
    for code in [0, 6, -1, 7, i32::MAX, i32::MIN] {
        let mut engine = SimulationEngine::new();
        assert_eq!(
            good(&mut engine, 1, 1, code, 10),
            Err(SimulationError::InvalidModel(InvalidModelError::EndTermination(code)))
        );
        assert_eq!(engine.settings(), SimulationSettings::unconfigured());
        assert_eq!(
            Termination::end_from_selector(code, 1, 2, 3),
            Err(InvalidModelError::EndTermination(code))
        );
    }
}

#[test]
fn selectors_are_read_in_the_order_source_start_end() {
    let mut engine = SimulationEngine::new();
    assert_eq!(
        good(&mut engine, 9, 8, 7, 10),
        Err(SimulationError::InvalidModel(InvalidModelError::Source(9)))
    );
    assert_eq!(
        good(&mut engine, 1, 8, 7, 10),
        Err(SimulationError::InvalidModel(InvalidModelError::StartTermination(8)))
    );
    assert_eq!(
        good(&mut engine, 1, 1, 7, 10),
        Err(SimulationError::InvalidModel(InvalidModelError::EndTermination(7)))
    );
    assert_eq!(good(&mut engine, 1, 1, 1, 10), Ok(()));
}

#[test]
fn selectors_are_read_before_the_line_is_checked() {
    let mut engine = SimulationEngine::new();
    assert_eq!(
        by_selectors(&mut engine, 0, 1, 1, 0.0, 0, 0.0, 0.0, 0.0, 0.0),
        Err(SimulationError::InvalidModel(InvalidModelError::Source(0)))
    );
}

#[test]
fn fewer_than_two_segments_are_turned_down() {
    for segments in [0usize, 1usize] {
        let mut engine = SimulationEngine::new();
        assert_eq!(
            good(&mut engine, 1, 1, 1, segments),
            Err(SimulationError::Configuration(ConfigurationError { parameter: Parameter::Segments }))
        );
        assert_eq!(
            configure(&mut engine, &ieee, 0, line(segments), steady(5.0)),
            Err(ConfigurationError { parameter: Parameter::Segments })
        );
        assert_eq!(engine.settings(), SimulationSettings::unconfigured());
    }
    let mut engine = SimulationEngine::new();
    assert_eq!(good(&mut engine, 1, 1, 1, 2), Ok(()));
    assert_eq!(get_voltages(&engine).len(), 2);
}

#[test]
fn a_time_step_that_is_not_positive_is_turned_down() {
    for timestep in [0.0, -0.0, -5e-15, f64::NAN, f64::NEG_INFINITY] {
        let mut engine = SimulationEngine::new();
        assert_eq!(
            by_selectors(&mut engine, 1, 1, 1, timestep, 10, 75.0, 1e-6, 1.75e-4, 1.5e-8),
            Err(SimulationError::Configuration(ConfigurationError { parameter: Parameter::Timestep }))
        );
        assert_eq!(engine.settings(), SimulationSettings::unconfigured());
    }
}

#[test]
fn a_line_constant_that_is_not_positive_is_turned_down_by_name() {
    for bad in [0.0, -0.0, -1.0, f64::NAN] {
        let mut engine = SimulationEngine::new();
        assert_eq!(
            by_selectors(&mut engine, 1, 1, 1, 5e-15, 10, bad, 1e-6, 1.75e-4, 1.5e-8),
            Err(SimulationError::Configuration(ConfigurationError { parameter: Parameter::Resistance }))
        );
        assert_eq!(
            by_selectors(&mut engine, 1, 1, 1, 5e-15, 10, 75.0, bad, 1.75e-4, 1.5e-8),
            Err(SimulationError::Configuration(ConfigurationError { parameter: Parameter::Conductance }))
        );
        assert_eq!(
            by_selectors(&mut engine, 1, 1, 1, 5e-15, 10, 75.0, 1e-6, bad, 1.5e-8),
            Err(SimulationError::Configuration(ConfigurationError { parameter: Parameter::Inductance }))
        );
        assert_eq!(
            by_selectors(&mut engine, 1, 1, 1, 5e-15, 10, 75.0, 1e-6, 1.75e-4, bad),
            Err(SimulationError::Configuration(ConfigurationError { parameter: Parameter::Capacitance }))
        );
        assert_eq!(engine.settings(), SimulationSettings::unconfigured());
    }
}

#[test]
fn the_first_fault_of_a_line_is_the_one_reported() {
    let mut faulty = LineParameters {
        resistance: w(0.0),
        conductance: w(0.0),
        inductance: w(0.0),
        capacitance: w(0.0),
        segments: 0,
        timestep: w(0.0),
    };
    assert!(!matches!(faulty.first_fault(), None));
    assert_eq!(faulty.first_fault(), Some(Parameter::Timestep));
    faulty.timestep = w(1.0);
    assert_eq!(faulty.first_fault(), Some(Parameter::Segments));
    faulty.segments = 2;
    assert_eq!(faulty.first_fault(), Some(Parameter::Resistance));
    faulty.resistance = w(1.0);
    assert_eq!(faulty.first_fault(), Some(Parameter::Conductance));
    faulty.conductance = w(1.0);
    assert_eq!(faulty.first_fault(), Some(Parameter::Inductance));
    faulty.inductance = w(1.0);
    assert_eq!(faulty.first_fault(), Some(Parameter::Capacitance));
    faulty.capacitance = w(1.0);
    assert_eq!(faulty.first_fault(), None);
}

#[test]
fn the_smallest_positive_number_and_infinity_pass_as_positive() {
    let tiny = LineParameters {
        resistance: 1,
        conductance: 1,
        inductance: 1,
        capacitance: 1,
        segments: 2,
        timestep: 1,
    };
    assert_eq!(tiny.first_fault(), None);
    let huge = LineParameters {
        resistance: w(f64::INFINITY),
        conductance: w(f64::INFINITY),
        inductance: w(f64::INFINITY),
        capacitance: w(f64::INFINITY),
        segments: usize::MAX,
        timestep: w(f64::INFINITY),
    };
    assert_eq!(huge.first_fault(), None);
}

#[test]
fn the_coefficients_are_those_of_the_discretised_equations() {
    let dt: f64 = 5e-15;
    let r: f64 = 75.0;
    let g: f64 = 1e-6;
    let l: f64 = 1.75e-4;
    let c: f64 = 1.5e-8;
    let mut engine = SimulationEngine::new();
    assert_eq!(good(&mut engine, 1, 1, 1, 10), Ok(()));
    let found = engine.settings().coefficients;
    assert_eq!(f64::from_bits(found.voltage_gain), (-2.0 * dt) / (dt * g + 2.0 * c));
    assert_eq!(f64::from_bits(found.voltage_decay), (2.0 * c - dt * g) / (2.0 * c + dt * g));
    assert_eq!(f64::from_bits(found.current_gain), (-2.0 * dt) / (dt * r + 2.0 * l));
    assert_eq!(f64::from_bits(found.current_decay), (2.0 * l - dt * r) / (2.0 * l + dt * r));
    assert_eq!(found, derive_coefficients(&ieee, &line(10)));
}

#[test]
fn gain_and_decay_have_exact_values() {
    assert_eq!(f64::from_bits(compute_gain(&ieee, w(0.5), w(2.0), w(1.5))), -0.25);
    assert_eq!(f64::from_bits(compute_decay(&ieee, w(0.5), w(2.0), w(1.5))), 0.5);
    assert_eq!(f64::from_bits(compute_gain(&ieee, w(1.0), w(2.0), w(3.0))), -0.25);
    assert_eq!(f64::from_bits(compute_decay(&ieee, w(1.0), w(2.0), w(3.0))), 0.5);
    assert_eq!(f64::from_bits(compute_decay(&ieee, w(1.0), w(6.0), w(1.0))), -0.5);
}

#[test]
fn a_configuration_is_kept_as_given() {
    let mut engine = SimulationEngine::new();
    assert_eq!(by_selectors(&mut engine, 2, 3, 5, 0.1, 7, 0.1, 0.001, 0.5, 0.25), Ok(()));
    let settings = engine.settings();
    assert!(settings.simulator_configured);
    assert_eq!(settings.simulation_type, 0);
    assert_eq!(
        settings.line,
        LineParameters {
            resistance: w(0.1),
            conductance: w(0.001),
            inductance: w(0.5),
            capacitance: w(0.25),
            segments: 7,
            timestep: w(0.1),
        }
    );
    assert_eq!(
        settings.boundary,
        BoundaryModel {
            source: SourceModel::Pulse { amplitude: w(5.0), period: w(2.0), width: w(0.5) },
            start: Termination::Capacitor { capacitance: w(1e-9) },
            end: Termination::Inductor { inductance: w(2e-6) },
        }
    );
    assert_eq!(get_voltages(&engine), words(&[0.0; 7]));
    assert_eq!(get_currents(&engine), words(&[0.0; 7]));
    assert_eq!(get_tick(&engine), 0);
}

#[test]
fn the_simulation_type_is_kept_and_changes_nothing() {
    let mut plain = SimulationEngine::new();
    let mut tagged = SimulationEngine::new();
    assert_eq!(configure(&mut plain, &ieee, 0, lively_line(6), steady(5.0)), Ok(()));
    assert_eq!(configure(&mut tagged, &ieee, 3, lively_line(6), steady(5.0)), Ok(()));
    assert_eq!(tagged.settings().simulation_type, 3);
    for _ in 0..20 {
        assert_eq!(step_simultion(&mut plain, &ieee), Ok(()));
        assert_eq!(step_simultion(&mut tagged, &ieee), Ok(()));
    }
    assert_eq!(get_voltages(&plain), get_voltages(&tagged));
    assert_eq!(get_currents(&plain), get_currents(&tagged));
}

#[test]
fn configuring_again_with_the_same_segments_keeps_the_state() {
    let mut engine = SimulationEngine::new();
    assert_eq!(configure(&mut engine, &ieee, 0, lively_line(8), steady(5.0)), Ok(()));
    for _ in 0..12 {
        assert_eq!(step_simultion(&mut engine, &ieee), Ok(()));
    }
    let voltages = get_voltages(&engine);
    let currents = get_currents(&engine);
    assert!(numbers(&voltages).iter().any(|x| *x != 0.0));
    assert!(numbers(&currents).iter().any(|x| *x != 0.0));
    let mut other = lively_line(8);
    other.resistance = w(0.2);
    assert_eq!(configure(&mut engine, &ieee, 0, other, steady(1.0)), Ok(()));
    assert_eq!(get_voltages(&engine), voltages);
    assert_eq!(get_currents(&engine), currents);
    assert_eq!(get_tick(&engine), 12);
    assert_eq!(engine.settings().boundary, steady(1.0));
    assert_eq!(engine.settings().coefficients, derive_coefficients(&ieee, &other));
}

#[test]
fn configuring_with_other_segments_puts_the_line_at_rest() {
    let mut engine = SimulationEngine::new();
    assert_eq!(configure(&mut engine, &ieee, 0, lively_line(8), steady(5.0)), Ok(()));
    for _ in 0..12 {
        assert_eq!(step_simultion(&mut engine, &ieee), Ok(()));
    }
    assert_eq!(configure(&mut engine, &ieee, 0, lively_line(5), steady(5.0)), Ok(()));
    assert_eq!(get_voltages(&engine), words(&[0.0; 5]));
    assert_eq!(get_currents(&engine), words(&[0.0; 5]));
    assert_eq!(get_tick(&engine), 0);
    assert_eq!(f64::from_bits(get_time(&engine, &ieee)), 0.0);
    assert_eq!(configure(&mut engine, &ieee, 0, lively_line(9), steady(5.0)), Ok(()));
    assert_eq!(get_voltages(&engine), words(&[0.0; 9]));
    assert_eq!(get_currents(&engine), words(&[0.0; 9]));
    assert_eq!(get_tick(&engine), 0);
}

#[test]
fn configuring_by_selectors_with_other_segments_resets_the_tick() {
    let mut engine = SimulationEngine::new();
    assert_eq!(good(&mut engine, 1, 1, 1, 10), Ok(()));
    for _ in 0..7 {
        assert_eq!(step_simultion(&mut engine, &ieee), Ok(()));
    }
    assert_eq!(get_tick(&engine), 7);
    assert_eq!(good(&mut engine, 1, 1, 1, 10), Ok(()));
    assert_eq!(get_tick(&engine), 7);
    assert_eq!(f64::from_bits(get_voltages(&engine)[0]), 5.0);
    assert_eq!(good(&mut engine, 1, 1, 1, 11), Ok(()));
    assert_eq!(get_tick(&engine), 0);
    assert_eq!(get_voltages(&engine), vec![0u64; 11]);
    assert_eq!(get_currents(&engine), vec![0u64; 11]);
}

#[test]
fn a_run_after_a_resize_is_the_run_of_a_new_engine() {
    let pulse = BoundaryModel {
        source: SourceModel::Pulse { amplitude: w(3.0), period: w(0.7), width: w(0.25) },
        start: Termination::Resistor { resistance: w(0.5) },
        end: Termination::Short,
    };
    let mut used = SimulationEngine::new();
    assert_eq!(configure(&mut used, &ieee, 0, lively_line(8), pulse), Ok(()));
    for _ in 0..5 {
        assert_eq!(step_simultion(&mut used, &ieee), Ok(()));
    }
    assert_eq!(configure(&mut used, &ieee, 0, lively_line(6), pulse), Ok(()));
    let mut fresh = SimulationEngine::new();
    assert_eq!(configure(&mut fresh, &ieee, 0, lively_line(6), pulse), Ok(()));
    for _ in 0..25 {
        assert_eq!(step_simultion(&mut used, &ieee), Ok(()));
        assert_eq!(step_simultion(&mut fresh, &ieee), Ok(()));
        assert_eq!(get_tick(&used), get_tick(&fresh));
        assert_eq!(get_voltages(&used), get_voltages(&fresh));
        assert_eq!(get_currents(&used), get_currents(&fresh));
    }
    assert!(numbers(&get_voltages(&used)).iter().any(|x| *x != 0.0));
}

#[test]
fn a_configuration_that_is_turned_down_changes_nothing() {
    let mut engine = SimulationEngine::new();
    assert_eq!(configure(&mut engine, &ieee, 0, lively_line(8), steady(5.0)), Ok(()));
    for _ in 0..5 {
        assert_eq!(step_simultion(&mut engine, &ieee), Ok(()));
    }
    let settings = engine.settings();
    let voltages = get_voltages(&engine);
    let currents = get_currents(&engine);
    assert_eq!(
        by_selectors(&mut engine, 1, 1, 1, 0.1, 3, 0.1, 0.001, -0.5, 0.5),
        Err(SimulationError::Configuration(ConfigurationError { parameter: Parameter::Inductance }))
    );
    assert_eq!(
        by_selectors(&mut engine, 1, 9, 1, 0.1, 3, 0.1, 0.001, 0.5, 0.5),
        Err(SimulationError::InvalidModel(InvalidModelError::StartTermination(9)))
    );
    assert_eq!(engine.settings(), settings);
    assert_eq!(get_voltages(&engine), voltages);
    assert_eq!(get_currents(&engine), currents);
    assert_eq!(get_tick(&engine), 5);
}

#[test]
fn a_reset_puts_the_line_at_rest_and_keeps_the_settings() {
    let mut engine = SimulationEngine::new();
    assert_eq!(configure(&mut engine, &ieee, 0, lively_line(8), steady(5.0)), Ok(()));
    for _ in 0..12 {
        assert_eq!(step_simultion(&mut engine, &ieee), Ok(()));
    }
    let settings = engine.settings();
    reset_simulation(&mut engine);
    assert_eq!(get_tick(&engine), 0);
    assert_eq!(get_voltages(&engine), vec![0u64; 8]);
    assert_eq!(get_currents(&engine), vec![0u64; 8]);
    assert_eq!(f64::from_bits(get_time(&engine, &ieee)), 0.0);
    assert_eq!(engine.settings(), settings);
}

#[test]
fn the_copies_handed_out_are_the_callers_own() {
    let mut engine = SimulationEngine::new();
    assert_eq!(configure(&mut engine, &ieee, 0, lively_line(4), steady(5.0)), Ok(()));
    assert_eq!(step_simultion(&mut engine, &ieee), Ok(()));
    let mut voltages = get_voltages(&engine);
    let mut currents = get_currents(&engine);
    voltages[0] = w(99.0);
    currents[0] = w(99.0);
    assert_eq!(f64::from_bits(get_voltages(&engine)[0]), 5.0);
    assert_ne!(get_currents(&engine)[0], w(99.0));
}
