//! The engine: one set of settings and one state, and the operations on them.

use vstd::prelude::*;
use crate::kernel::{is_kernel, Operation};
use crate::model::{
    BoundaryModel, ConfigurationError, InvalidModelError, LineParameters, SimulationError,
};
use crate::settings::SimulationSettings;
use crate::source::{compute_driving_voltage, compute_elapsed, driving_voltage, elapsed};
use crate::state::{line_at_rest, rest_state, SimulationState, StateView};
use crate::step::{advance_currents, advance_voltages, next_currents, next_voltages};

verus! {

/// A simulation: its settings and its state. The host keeps one and hands it
/// to each operation.
pub struct SimulationEngine {
    settings: SimulationSettings,
    state: SimulationState,
}

/// An engine as a mathematical value.
pub struct EngineView {
    pub settings: SimulationSettings,
    pub state: StateView,
}

impl View for SimulationEngine {
    type V = EngineView;

    closed spec fn view(&self) -> EngineView {
        EngineView { settings: self.settings, state: self.state@ }
    }
}

/// Whether settings and state fit together: both lines of samples are as long
/// as the line has segments, the tick is one that the counter can hold, and
/// the settings are either valid or those of an engine never configured.
pub open spec fn is_well_formed(engine: EngineView) -> bool {
    &&& engine.state.voltages.len() == engine.settings.line.segments
    &&& engine.state.currents.len() == engine.settings.line.segments
    &&& 0 <= engine.state.tick <= i32::MAX
    &&& if engine.settings.simulator_configured {
        engine.settings.line.is_valid()
    } else {
        engine.settings == SimulationSettings::unconfigured()
    }
}

/// The state that a tick leads to.
/// The source is read at the tick that the step starts from. The voltages
/// take their step from the currents of that tick; the currents then take
/// theirs from the new voltages.
pub open spec fn stepped<K: Fn(Operation, u64, u64) -> u64>(
    kernel: &K,
    settings: SimulationSettings,
    state: StateView,
) -> StateView {
    let drive = driving_voltage(kernel, settings.boundary.source, settings.line.timestep, state.tick);
    let voltages = next_voltages(
        kernel,
        settings.coefficients,
        settings.boundary.start,
        settings.boundary.end,
        settings.line.timestep,
        drive,
        state.voltages,
        state.currents,
    );
    let currents = next_currents(
        kernel,
        settings.coefficients,
        settings.boundary.start,
        settings.boundary.end,
        settings.line.timestep,
        drive,
        voltages,
        state.currents,
    );
    StateView { tick: state.tick + 1, voltages, currents }
}

/// The state under new settings. Where the number of segments stays, the
/// state stays as it was, tick included. Where it changes, the state is made
/// anew: both lines at rest at their new length, and the tick at 0.
pub open spec fn resized(state: StateView, old_segments: usize, new_segments: usize) -> StateView {
    if new_segments == old_segments {
        state
    } else {
        rest_state(new_segments as nat)
    }
}

/// The engine after a valid configuration.
pub open spec fn configured<K: Fn(Operation, u64, u64) -> u64>(
    kernel: &K,
    before: EngineView,
    simulation_type: i32,
    line: LineParameters,
    boundary: BoundaryModel,
) -> EngineView {
    EngineView {
        settings: SimulationSettings::resolved(kernel, simulation_type, line, boundary),
        state: resized(before.state, before.settings.line.segments, line.segments),
    }
}

impl SimulationEngine {
    /// Whether settings and state fit together. Every engine that `new`
    /// made and the operations of this module changed is well formed.
    pub open spec fn wf(&self) -> bool {
        is_well_formed(self@)
    }

    /// An engine that is not configured yet: an empty line at tick 0.
    pub fn new() -> (engine: SimulationEngine)
        ensures
            engine.wf(),
            engine@.settings == SimulationSettings::unconfigured(),
            engine@.state == rest_state(0),
    {
        SimulationEngine {
            settings: SimulationSettings::unconfigured(),
            state: SimulationState::at_rest(0),
        }
    }

    /// The settings in force.
    pub fn settings(&self) -> (settings: SimulationSettings)
        ensures
            settings == self@.settings,
    {
        self.settings
    }
}

/// Configures the engine with a line and a boundary model.
/// A line with a fault is turned down with its first fault, and the engine
/// stays as it was. Otherwise the settings are replaced, with coefficients
/// derived from the new line. The state is kept where the number of segments
/// stays; where it changes, the state is reset: both lines at rest at their
/// new length, and the tick at 0.
pub fn configure<K: Fn(Operation, u64, u64) -> u64>(
    engine: &mut SimulationEngine,
    kernel: &K,
    simulation_type: i32,
    line: LineParameters,
    boundary: BoundaryModel,
) -> (r: Result<(), ConfigurationError>)
    requires
        old(engine).wf(),
        is_kernel(kernel),
    ensures
        final(engine).wf(),
        match line.first_fault() {
            Some(parameter) => r == Err::<(), ConfigurationError>(ConfigurationError { parameter })
                && final(engine)@ == old(engine)@,
            None => r == Ok::<(), ConfigurationError>(()) && final(engine)@ == configured(
                kernel,
                old(engine)@,
                simulation_type,
                line,
                boundary,
            ),
        },
{
    match SimulationSettings::resolve(kernel, simulation_type, line, boundary) {
        Err(e) => Err(e),
        Ok(settings) => {
            if line.segments != engine.settings.line.segments {
                engine.state.current_tick = 0;
                engine.state.voltages = line_at_rest(line.segments);
                engine.state.currents = line_at_rest(line.segments);
            }
            engine.settings = settings;
            Ok(())
        },
    }
}

/// Configures the engine from selectors and numbers.
/// The selectors are read first, in the order source, start, end; one that
/// names no model is reported with its code. Then the line is checked, and
/// the engine configured, as `configure` does. On any error the engine stays
/// as it was.
pub fn configure_simulator<K: Fn(Operation, u64, u64) -> u64>(
    engine: &mut SimulationEngine,
    kernel: &K,
    simulation_type: i32,
    source_type: i32,
    start_termination_type: i32,
    end_termination_type: i32,
    timestep: u64,
    transmission_line_segments: usize,
    transmission_line_resistance: u64,
    transmission_line_conductance: u64,
    transmission_line_inductance: u64,
    transmission_line_capacitance: u64,
    voltage_source_voltage: u64,
    voltage_source_period: u64,
    voltage_source_pulse_length: u64,
    start_terminating_resistance: u64,
    start_terminating_capacitance: u64,
    start_terminating_inductance: u64,
    end_terminating_resistance: u64,
    end_terminating_capacitance: u64,
    end_terminating_inductance: u64,
) -> (r: Result<(), SimulationError>)
    requires
        old(engine).wf(),
        is_kernel(kernel),
    ensures
        final(engine).wf(),
        ({
            let line = LineParameters {
                resistance: transmission_line_resistance,
                conductance: transmission_line_conductance,
                inductance: transmission_line_inductance,
                capacitance: transmission_line_capacitance,
                segments: transmission_line_segments,
                timestep,
            };
            match BoundaryModel::from_selectors(
                source_type,
                start_termination_type,
                end_termination_type,
                voltage_source_voltage,
                voltage_source_period,
                voltage_source_pulse_length,
                start_terminating_resistance,
                start_terminating_capacitance,
                start_terminating_inductance,
                end_terminating_resistance,
                end_terminating_capacitance,
                end_terminating_inductance,
            ) {
                Err(e) => r == Err::<(), SimulationError>(SimulationError::InvalidModel(e))
                    && final(engine)@ == old(engine)@,
                Ok(boundary) => match line.first_fault() {
                    Some(parameter) => r == Err::<(), SimulationError>(
                        SimulationError::Configuration(ConfigurationError { parameter }),
                    ) && final(engine)@ == old(engine)@,
                    None => r == Ok::<(), SimulationError>(()) && final(engine)@ == configured(
                        kernel,
                        old(engine)@,
                        simulation_type,
                        line,
                        boundary,
                    ),
                },
            }
        }),
{
    let boundary = match BoundaryModel::from_selectors(
        source_type,
        start_termination_type,
        end_termination_type,
        voltage_source_voltage,
        voltage_source_period,
        voltage_source_pulse_length,
        start_terminating_resistance,
        start_terminating_capacitance,
        start_terminating_inductance,
        end_terminating_resistance,
        end_terminating_capacitance,
        end_terminating_inductance,
    ) {
        Ok(boundary) => boundary,
        Err(e) => {
            return Err(SimulationError::InvalidModel(e));
        },
    };
    let line = LineParameters {
        resistance: transmission_line_resistance,
        conductance: transmission_line_conductance,
        inductance: transmission_line_inductance,
        capacitance: transmission_line_capacitance,
        segments: transmission_line_segments,
        timestep,
    };
    match configure(engine, kernel, simulation_type, line, boundary) {
        Ok(()) => Ok(()),
        Err(e) => Err(SimulationError::Configuration(e)),
    }
}

/// Puts the line at rest and the tick at 0. The settings stay.
pub fn reset_simulation(engine: &mut SimulationEngine)
    requires
        old(engine).wf(),
    ensures
        final(engine).wf(),
        final(engine)@.settings == old(engine)@.settings,
        final(engine)@.state == rest_state(old(engine)@.settings.line.segments as nat),
{
    engine.state.current_tick = 0;
    engine.state.voltages = line_at_rest(engine.settings.line.segments);
    engine.state.currents = line_at_rest(engine.settings.line.segments);
}

/// Takes one tick.
/// An engine that was never configured has no model to step with: it is
/// turned down and stays as it was. Otherwise the state becomes the one that
/// `stepped` gives, and the settings stay.
pub fn step_simultion<K: Fn(Operation, u64, u64) -> u64>(
    engine: &mut SimulationEngine,
    kernel: &K,
) -> (r: Result<(), InvalidModelError>)
    requires
        old(engine).wf(),
        is_kernel(kernel),
        old(engine)@.state.tick < i32::MAX,
    ensures
        final(engine).wf(),
        final(engine)@.settings == old(engine)@.settings,
        if old(engine)@.settings.simulator_configured {
            r == Ok::<(), InvalidModelError>(()) && final(engine)@.state == stepped(
                kernel,
                old(engine)@.settings,
                old(engine)@.state,
            )
        } else {
            r == Err::<(), InvalidModelError>(InvalidModelError::Unset) && final(engine)@.state
                == old(engine)@.state
        },
{
    if !engine.settings.simulator_configured {
        return Err(InvalidModelError::Unset);
    }
    let timestep: u64 = engine.settings.line.timestep;
    let drive: u64 = compute_driving_voltage(
        kernel,
        &engine.settings.boundary.source,
        timestep,
        engine.state.current_tick,
    );
    advance_voltages(
        kernel,
        &engine.settings.coefficients,
        &engine.settings.boundary.start,
        &engine.settings.boundary.end,
        timestep,
        drive,
        &mut engine.state.voltages,
        &engine.state.currents,
    );
    advance_currents(
        kernel,
        &engine.settings.coefficients,
        &engine.settings.boundary.start,
        &engine.settings.boundary.end,
        timestep,
        drive,
        &engine.state.voltages,
        &mut engine.state.currents,
    );
    engine.state.current_tick = engine.state.current_tick + 1;
    Ok(())
}

/// The number of ticks taken since the last reset.
pub fn get_tick(engine: &SimulationEngine) -> (tick: i32)
    ensures
        tick == engine@.state.tick,
{
    engine.state.current_tick
}

/// The simulated time: the tick as a number, times the time step.
pub fn get_time<K: Fn(Operation, u64, u64) -> u64>(engine: &SimulationEngine, kernel: &K) -> (time:
    u64)
    requires
        engine.wf(),
        is_kernel(kernel),
    ensures
        time == elapsed(kernel, engine@.settings.line.timestep, engine@.state.tick),
{
    compute_elapsed(kernel, engine.settings.line.timestep, engine.state.current_tick)
}

/// A copy of the voltages along the line.
pub fn get_voltages(engine: &SimulationEngine) -> (voltages: Vec<u64>)
    ensures
        voltages@ == engine@.state.voltages,
{
    let copy = engine.state.voltages.clone();
    assert(copy@ =~= engine.state.voltages@);
    copy
}

/// A copy of the currents along the line.
pub fn get_currents(engine: &SimulationEngine) -> (currents: Vec<u64>)
    ensures
        currents@ == engine@.state.currents,
{
    let copy = engine.state.currents.clone();
    assert(copy@ =~= engine.state.currents@);
    copy
}

/// The voltage that the source puts on the line at the present tick, or
/// nothing on an engine that has no source yet.
pub fn get_driving_subcircuit_voltage<K: Fn(Operation, u64, u64) -> u64>(
    engine: &SimulationEngine,
    kernel: &K,
) -> (r: Result<u64, InvalidModelError>)
    requires
        engine.wf(),
        is_kernel(kernel),
    ensures
        if engine@.settings.simulator_configured {
            r == Ok::<u64, InvalidModelError>(
                driving_voltage(
                    kernel,
                    engine@.settings.boundary.source,
                    engine@.settings.line.timestep,
                    engine@.state.tick,
                ),
            )
        } else {
            r == Err::<u64, InvalidModelError>(InvalidModelError::Unset)
        },
{
    if !engine.settings.simulator_configured {
        return Err(InvalidModelError::Unset);
    }
    Ok(
        compute_driving_voltage(
            kernel,
            &engine.settings.boundary.source,
            engine.settings.line.timestep,
            engine.state.current_tick,
        ),
    )
}

} // verus!
