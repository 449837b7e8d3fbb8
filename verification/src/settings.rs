//! The settings of a simulation, resolved from a line and a boundary model.

use vstd::prelude::*;
use crate::coefficients::{coefficients_of, derive_coefficients, DerivedCoefficients};
use crate::kernel::{is_kernel, Operation};
use crate::model::{
    BoundaryModel, ConfigurationError, LineParameters, SourceModel, Termination,
};

verus! {

/// Everything that a step reads besides the state.
#[derive(Clone, Copy, PartialEq, Eq, Structural, Debug)]
pub struct SimulationSettings {
    /// The caller's tag for the discretisation. It is kept and has no effect:
    /// the engine has the one staggered scheme.
    pub simulation_type: i32,
    pub line: LineParameters,
    pub boundary: BoundaryModel,
    pub coefficients: DerivedCoefficients,
    /// Whether a configuration has been accepted yet.
    pub simulator_configured: bool,
}

impl SimulationSettings {
    /// The settings of an engine that was never configured: a line of no
    /// segments, every number `+0.0`.
    pub open spec fn spec_unconfigured() -> SimulationSettings {
        SimulationSettings {
            simulation_type: 0,
            line: LineParameters {
                resistance: 0,
                conductance: 0,
                inductance: 0,
                capacitance: 0,
                segments: 0,
                timestep: 0,
            },
            boundary: BoundaryModel {
                source: SourceModel::Constant { amplitude: 0 },
                start: Termination::Open,
                end: Termination::Open,
            },
            coefficients: DerivedCoefficients {
                voltage_gain: 0,
                voltage_decay: 0,
                current_gain: 0,
                current_decay: 0,
            },
            simulator_configured: false,
        }
    }

    #[verifier::when_used_as_spec(spec_unconfigured)]
    pub fn unconfigured() -> (settings: SimulationSettings)
        ensures
            settings == Self::spec_unconfigured(),
    {
        SimulationSettings {
            simulation_type: 0,
            line: LineParameters {
                resistance: 0,
                conductance: 0,
                inductance: 0,
                capacitance: 0,
                segments: 0,
                timestep: 0,
            },
            boundary: BoundaryModel {
                source: SourceModel::Constant { amplitude: 0 },
                start: Termination::Open,
                end: Termination::Open,
            },
            coefficients: DerivedCoefficients {
                voltage_gain: 0,
                voltage_decay: 0,
                current_gain: 0,
                current_decay: 0,
            },
            simulator_configured: false,
        }
    }

    /// The settings that a valid line and a boundary model resolve to: the
    /// two as given, with the coefficients that belong to the line.
    pub open spec fn resolved<K: Fn(Operation, u64, u64) -> u64>(
        kernel: &K,
        simulation_type: i32,
        line: LineParameters,
        boundary: BoundaryModel,
    ) -> SimulationSettings {
        SimulationSettings {
            simulation_type,
            line,
            boundary,
            coefficients: coefficients_of(kernel, line),
            simulator_configured: true,
        }
    }

    /// Whether the coefficients are those that `kernel` derives from the
    /// line.
    pub open spec fn is_resolved_by<K: Fn(Operation, u64, u64) -> u64>(&self, kernel: &K) -> bool {
        self.coefficients == coefficients_of(kernel, self.line)
    }

    /// Checks the line and derives its coefficients. A line with a fault gives
    /// the first fault and no settings.
    pub fn resolve<K: Fn(Operation, u64, u64) -> u64>(
        kernel: &K,
        simulation_type: i32,
        line: LineParameters,
        boundary: BoundaryModel,
    ) -> (r: Result<SimulationSettings, ConfigurationError>)
        requires
            is_kernel(kernel),
        ensures
            match line.first_fault() {
                Some(parameter) => r == Err::<SimulationSettings, ConfigurationError>(
                    ConfigurationError { parameter },
                ),
                None => r == Ok::<SimulationSettings, ConfigurationError>(
                    Self::resolved(kernel, simulation_type, line, boundary),
                ),
            },
    {
        match line.first_fault() {
            Some(parameter) => Err(ConfigurationError { parameter }),
            None => Ok(
                SimulationSettings {
                    simulation_type,
                    line,
                    boundary,
                    coefficients: derive_coefficients(kernel, &line),
                    simulator_configured: true,
                },
            ),
        }
    }
}

} // verus!
