//! What a simulation is configured with: the line, the source that drives its
//! start, the terminations at its two ends, and the faults a configuration
//! can have.

use vstd::prelude::*;
use crate::binary64::is_strictly_positive;

verus! {

/// The voltage source at the start of the line. Every field is a binary64
/// word.
#[derive(Clone, Copy, PartialEq, Eq, Structural, Debug)]
pub enum SourceModel {
    /// A step: the amplitude at every tick.
    Constant { amplitude: u64 },
    /// A pulse train: the amplitude during the first `width` of each `period`,
    /// zero for the rest of it.
    Pulse { amplitude: u64, period: u64, width: u64 },
    /// A sine wave that passes half a cycle in each `period`.
    Sinusoidal { amplitude: u64, period: u64 },
}

/// The component at one end of the line, with its value as a binary64 word.
#[derive(Clone, Copy, PartialEq, Eq, Structural, Debug)]
pub enum Termination {
    Open,
    Short,
    Resistor { resistance: u64 },
    Capacitor { capacitance: u64 },
    Inductor { inductance: u64 },
}

/// One source and the terminations of the two ends.
#[derive(Clone, Copy, PartialEq, Eq, Structural, Debug)]
pub struct BoundaryModel {
    pub source: SourceModel,
    pub start: Termination,
    pub end: Termination,
}

/// The line itself: its constants per unit length, the number of segments it
/// is cut into, and the time that one tick advances. All but `segments` are
/// binary64 words.
#[derive(Clone, Copy, PartialEq, Eq, Structural, Debug)]
pub struct LineParameters {
    pub resistance: u64,
    pub conductance: u64,
    pub inductance: u64,
    pub capacitance: u64,
    pub segments: usize,
    pub timestep: u64,
}

/// A parameter of the line that a configuration can get wrong.
#[derive(Clone, Copy, PartialEq, Eq, Structural, Debug)]
pub enum Parameter {
    Timestep,
    Segments,
    Resistance,
    Conductance,
    Inductance,
    Capacitance,
}

/// A line parameter that is not strictly positive, or fewer than two segments.
#[derive(Clone, Copy, PartialEq, Eq, Structural, Debug)]
pub struct ConfigurationError {
    pub parameter: Parameter,
}

/// A selector that names no model, with the code that was given; or no model
/// at all, on an engine that was never configured.
#[derive(Clone, Copy, PartialEq, Eq, Structural, Debug)]
pub enum InvalidModelError {
    Source(i32),
    StartTermination(i32),
    EndTermination(i32),
    Unset,
}

/// Why a configuration was turned down.
#[derive(Clone, Copy, PartialEq, Eq, Structural, Debug)]
pub enum SimulationError {
    InvalidModel(InvalidModelError),
    Configuration(ConfigurationError),
}

impl SourceModel {
    /// The source that a selector names: 1 is the constant source, 2 the
    /// pulse train, 3 the sine wave. Each keeps the parameters it uses.
    pub open spec fn spec_from_selector(code: i32, amplitude: u64, period: u64, width: u64) -> Result<
        SourceModel,
        InvalidModelError,
    > {
        if code == 1 {
            Ok(SourceModel::Constant { amplitude })
        } else if code == 2 {
            Ok(SourceModel::Pulse { amplitude, period, width })
        } else if code == 3 {
            Ok(SourceModel::Sinusoidal { amplitude, period })
        } else {
            Err(InvalidModelError::Source(code))
        }
    }

    #[verifier::when_used_as_spec(spec_from_selector)]
    pub fn from_selector(code: i32, amplitude: u64, period: u64, width: u64) -> (r: Result<
        SourceModel,
        InvalidModelError,
    >)
        ensures
            r == Self::spec_from_selector(code, amplitude, period, width),
    {
        if code == 1 {
            Ok(SourceModel::Constant { amplitude })
        } else if code == 2 {
            Ok(SourceModel::Pulse { amplitude, period, width })
        } else if code == 3 {
            Ok(SourceModel::Sinusoidal { amplitude, period })
        } else {
            Err(InvalidModelError::Source(code))
        }
    }

    /// The amplitude, which every source has.
    pub open spec fn amplitude(self) -> u64 {
        match self {
            SourceModel::Constant { amplitude } => amplitude,
            SourceModel::Pulse { amplitude, .. } => amplitude,
            SourceModel::Sinusoidal { amplitude, .. } => amplitude,
        }
    }
}

impl Termination {
    /// The termination that a selector names at the start of the line, where
    /// the source sits: 1 joins the source to the line directly, 2 puts a
    /// resistor between them, 3 a capacitor, 4 an inductor.
    pub open spec fn spec_start_from_selector(
        code: i32,
        resistance: u64,
        capacitance: u64,
        inductance: u64,
    ) -> Result<Termination, InvalidModelError> {
        if code == 1 {
            Ok(Termination::Short)
        } else if code == 2 {
            Ok(Termination::Resistor { resistance })
        } else if code == 3 {
            Ok(Termination::Capacitor { capacitance })
        } else if code == 4 {
            Ok(Termination::Inductor { inductance })
        } else {
            Err(InvalidModelError::StartTermination(code))
        }
    }

    #[verifier::when_used_as_spec(spec_start_from_selector)]
    pub fn start_from_selector(code: i32, resistance: u64, capacitance: u64, inductance: u64) -> (r:
        Result<Termination, InvalidModelError>)
        ensures
            r == Self::spec_start_from_selector(code, resistance, capacitance, inductance),
    {
        if code == 1 {
            Ok(Termination::Short)
        } else if code == 2 {
            Ok(Termination::Resistor { resistance })
        } else if code == 3 {
            Ok(Termination::Capacitor { capacitance })
        } else if code == 4 {
            Ok(Termination::Inductor { inductance })
        } else {
            Err(InvalidModelError::StartTermination(code))
        }
    }

    /// The termination that a selector names at the far end of the line:
    /// 1 leaves it open, 2 shorts it, 3 loads it with a resistor, 4 with a
    /// capacitor, 5 with an inductor.
    pub open spec fn spec_end_from_selector(
        code: i32,
        resistance: u64,
        capacitance: u64,
        inductance: u64,
    ) -> Result<Termination, InvalidModelError> {
        if code == 1 {
            Ok(Termination::Open)
        } else if code == 2 {
            Ok(Termination::Short)
        } else if code == 3 {
            Ok(Termination::Resistor { resistance })
        } else if code == 4 {
            Ok(Termination::Capacitor { capacitance })
        } else if code == 5 {
            Ok(Termination::Inductor { inductance })
        } else {
            Err(InvalidModelError::EndTermination(code))
        }
    }

    #[verifier::when_used_as_spec(spec_end_from_selector)]
    pub fn end_from_selector(code: i32, resistance: u64, capacitance: u64, inductance: u64) -> (r:
        Result<Termination, InvalidModelError>)
        ensures
            r == Self::spec_end_from_selector(code, resistance, capacitance, inductance),
    {
        if code == 1 {
            Ok(Termination::Open)
        } else if code == 2 {
            Ok(Termination::Short)
        } else if code == 3 {
            Ok(Termination::Resistor { resistance })
        } else if code == 4 {
            Ok(Termination::Capacitor { capacitance })
        } else if code == 5 {
            Ok(Termination::Inductor { inductance })
        } else {
            Err(InvalidModelError::EndTermination(code))
        }
    }
}

impl BoundaryModel {
    /// The boundary model that three selectors name, or the first selector
    /// among source, start and end that names nothing.
    pub open spec fn spec_from_selectors(
        source_type: i32,
        start_termination_type: i32,
        end_termination_type: i32,
        voltage_source_voltage: u64,
        voltage_source_period: u64,
        voltage_source_pulse_length: u64,
        start_terminating_resistance: u64,
        start_terminating_capacitance: u64,
        start_terminating_inductance: u64,
        end_terminating_resistance: u64,
        end_terminating_capacitance: u64,
        end_terminating_inductance: u64,
    ) -> Result<BoundaryModel, InvalidModelError> {
        match SourceModel::from_selector(
            source_type,
            voltage_source_voltage,
            voltage_source_period,
            voltage_source_pulse_length,
        ) {
            Err(e) => Err(e),
            Ok(source) => match Termination::start_from_selector(
                start_termination_type,
                start_terminating_resistance,
                start_terminating_capacitance,
                start_terminating_inductance,
            ) {
                Err(e) => Err(e),
                Ok(start) => match Termination::end_from_selector(
                    end_termination_type,
                    end_terminating_resistance,
                    end_terminating_capacitance,
                    end_terminating_inductance,
                ) {
                    Err(e) => Err(e),
                    Ok(end) => Ok(BoundaryModel { source, start, end }),
                },
            },
        }
    }

    #[verifier::when_used_as_spec(spec_from_selectors)]
    pub fn from_selectors(
        source_type: i32,
        start_termination_type: i32,
        end_termination_type: i32,
        voltage_source_voltage: u64,
        voltage_source_period: u64,
        voltage_source_pulse_length: u64,
        start_terminating_resistance: u64,
        start_terminating_capacitance: u64,
        start_terminating_inductance: u64,
        end_terminating_resistance: u64,
        end_terminating_capacitance: u64,
        end_terminating_inductance: u64,
    ) -> (r: Result<BoundaryModel, InvalidModelError>)
        ensures
            r == Self::spec_from_selectors(
                source_type,
                start_termination_type,
                end_termination_type,
                voltage_source_voltage,
                voltage_source_period,
                voltage_source_pulse_length,
                start_terminating_resistance,
                start_terminating_capacitance,
                start_terminating_inductance,
                end_terminating_resistance,
                end_terminating_capacitance,
                end_terminating_inductance,
            ),
    {
        let source = match SourceModel::from_selector(
            source_type,
            voltage_source_voltage,
            voltage_source_period,
            voltage_source_pulse_length,
        ) {
            Ok(source) => source,
            Err(e) => {
                return Err(e);
            },
        };
        let start = match Termination::start_from_selector(
            start_termination_type,
            start_terminating_resistance,
            start_terminating_capacitance,
            start_terminating_inductance,
        ) {
            Ok(start) => start,
            Err(e) => {
                return Err(e);
            },
        };
        let end = match Termination::end_from_selector(
            end_termination_type,
            end_terminating_resistance,
            end_terminating_capacitance,
            end_terminating_inductance,
        ) {
            Ok(end) => end,
            Err(e) => {
                return Err(e);
            },
        };
        Ok(BoundaryModel { source, start, end })
    }
}

impl LineParameters {
    /// The first parameter that is out of range, in the order time step,
    /// segments, resistance, conductance, inductance, capacitance. The numbers
    /// must be strictly positive, and a line has at least two segments.
    pub open spec fn spec_first_fault(&self) -> Option<Parameter> {
        if !is_strictly_positive(self.timestep) {
            Some(Parameter::Timestep)
        } else if self.segments < 2 {
            Some(Parameter::Segments)
        } else if !is_strictly_positive(self.resistance) {
            Some(Parameter::Resistance)
        } else if !is_strictly_positive(self.conductance) {
            Some(Parameter::Conductance)
        } else if !is_strictly_positive(self.inductance) {
            Some(Parameter::Inductance)
        } else if !is_strictly_positive(self.capacitance) {
            Some(Parameter::Capacitance)
        } else {
            None
        }
    }

    /// Every number strictly positive, and at least two segments.
    pub open spec fn is_valid(&self) -> bool {
        &&& is_strictly_positive(self.timestep)
        &&& self.segments >= 2
        &&& is_strictly_positive(self.resistance)
        &&& is_strictly_positive(self.conductance)
        &&& is_strictly_positive(self.inductance)
        &&& is_strictly_positive(self.capacitance)
    }

    #[verifier::when_used_as_spec(spec_first_fault)]
    pub fn first_fault(&self) -> (r: Option<Parameter>)
        ensures
            r == self.spec_first_fault(),
            r.is_none() <==> self.is_valid(),
    {
        if !is_strictly_positive(self.timestep) {
            Some(Parameter::Timestep)
        } else if self.segments < 2 {
            Some(Parameter::Segments)
        } else if !is_strictly_positive(self.resistance) {
            Some(Parameter::Resistance)
        } else if !is_strictly_positive(self.conductance) {
            Some(Parameter::Conductance)
        } else if !is_strictly_positive(self.inductance) {
            Some(Parameter::Inductance)
        } else if !is_strictly_positive(self.capacitance) {
            Some(Parameter::Capacitance)
        } else {
            None
        }
    }
}

} // verus!
