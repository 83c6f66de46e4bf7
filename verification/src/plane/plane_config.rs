//! The per-type configuration record of an aircraft and its validation.

#![allow(non_snake_case)]

use vstd::prelude::*;
use crate::geometry::Vec3;
use crate::util::sorted;

verus! {

/// What the aircraft type is called.
pub struct Unit {
    pub name: String,
}

/// Dimensions in metres, masses in kilograms, moments of inertia in
/// kilogram square metres.
pub struct Basic {
    pub wing_area: i64,
    pub wingspan: i64,
    pub length: i64,
    pub height: i64,
    pub mach_max: i64,
    pub center_of_mass: [i64; 3],
    pub moment_of_inertia: [i64; 4],
    pub empty_mass: i64,
    pub gross_mass: i64,
    pub number_of_engines: u8,
}

/// Aerodynamic coefficients: lift at zero angle of attack, sideforce per
/// degree of sideslip, the drag of gear, airbrake and flaps, the lift of
/// the flaps, and the tables over Mach number.
pub struct Aerodynamics {
    pub Cy0: i64,
    pub Czbe: i64,
    pub cx_gear: i64,
    pub cx_brk: i64,
    pub cx_flap: i64,
    pub cy_flap: i64,
    pub tables: AeroTables,
}

/// Aerodynamic coefficients sampled over Mach number.
pub struct AeroTables {
    pub mach: Vec<i64>,
    pub cx0: Vec<i64>,
    pub Cya: Vec<i64>,
    pub OmxMax: Vec<i64>,
    pub Aldop: Vec<i64>,
    pub CyMax: Vec<i64>,
}

/// Engine constants and tables.
pub struct Engine {
    pub idle_rpm: i64,
    pub fuel_consumption: i64,
    pub engine_start_time: i64,
    pub tables: EngineTables,
}

/// Maximum thrust sampled over Mach number, and engine power and its
/// readout sampled over throttle input.
pub struct EngineTables {
    pub mach: Vec<i64>,
    pub max_thrust: Vec<i64>,
    pub throttle_input: Vec<i64>,
    pub engine_power: Vec<i64>,
    pub engine_power_readout: Vec<i64>,
}

/// Attachment points in the aircraft's local frame.
#[derive(Clone, Copy, Debug)]
pub struct Structure {
    pub front_wheel: Vec3,
    pub back_left_wheel: Vec3,
    pub back_right_wheel: Vec3,
    pub left_wing_pos: Vec3,
    pub right_wing_pos: Vec3,
    pub tail_pos: Vec3,
    pub elevator_pos: Vec3,
    pub left_aileron_pos: Vec3,
    pub right_aileron_pos: Vec3,
    pub rudder_pos: Vec3,
    pub left_engine_pos: Vec3,
    pub right_engine_pos: Vec3,
}

/// Everything that is fixed for one type of aircraft. A record exists only
/// once its sections have been found well formed: its tables are
/// non-empty, of matching lengths and sorted, and its mass properties
/// strictly positive.
pub struct PlaneConfig {
    unit: Unit,
    basic: Basic,
    aerodynamics: Aerodynamics,
    engine: Engine,
    structure: Structure,
}

/// Why a configuration record was rejected.
#[derive(Clone, Copy, Debug, PartialEq, Eq, Structural)]
pub enum ConfigError {
    /// A table has no samples.
    EmptyTable,
    /// A table's ordinates differ in number from its abscissas.
    LengthMismatch,
    /// A table's abscissas decrease somewhere.
    UnsortedTable,
    /// The empty or the gross mass is not strictly positive.
    NonPositiveMass,
    /// A moment of inertia is not strictly positive.
    NonPositiveInertia,
}

/// What is wrong with the table `(xs, ys)`, if anything.
pub open spec fn table_error(xs: Seq<i64>, ys: Seq<i64>) -> Option<ConfigError> {
    if xs.len() == 0 {
        Some(ConfigError::EmptyTable)
    } else if xs.len() != ys.len() {
        Some(ConfigError::LengthMismatch)
    } else if !sorted(xs) {
        Some(ConfigError::UnsortedTable)
    } else {
        None
    }
}

/// The first of two findings.
pub open spec fn or_else(first: Option<ConfigError>, second: Option<ConfigError>) -> Option<
    ConfigError,
> {
    if first.is_some() {
        first
    } else {
        second
    }
}

impl AeroTables {
    /// The first fault among the tables, taken in the order of the fields.
    pub open spec fn error(&self) -> Option<ConfigError> {
        or_else(
            table_error(self.mach@, self.cx0@),
            or_else(
                table_error(self.mach@, self.Cya@),
                or_else(
                    table_error(self.mach@, self.OmxMax@),
                    or_else(
                        table_error(self.mach@, self.Aldop@),
                        table_error(self.mach@, self.CyMax@),
                    ),
                ),
            ),
        )
    }

    /// Every table is non-empty, of matching lengths, over sorted Mach numbers.
    pub open spec fn valid(&self) -> bool {
        &&& self.mach@.len() > 0
        &&& sorted(self.mach@)
        &&& self.cx0@.len() == self.mach@.len()
        &&& self.Cya@.len() == self.mach@.len()
        &&& self.OmxMax@.len() == self.mach@.len()
        &&& self.Aldop@.len() == self.mach@.len()
        &&& self.CyMax@.len() == self.mach@.len()
    }

    pub fn check(&self) -> (e: Option<ConfigError>)
        ensures
            e == self.error(),
            e.is_none() <==> self.valid(),
    {
        let e: Option<ConfigError> = check_table(&self.mach, &self.cx0);
        if e.is_some() {
            return e;
        }
        let e: Option<ConfigError> = check_table(&self.mach, &self.Cya);
        if e.is_some() {
            return e;
        }
        let e: Option<ConfigError> = check_table(&self.mach, &self.OmxMax);
        if e.is_some() {
            return e;
        }
        let e: Option<ConfigError> = check_table(&self.mach, &self.Aldop);
        if e.is_some() {
            return e;
        }
        check_table(&self.mach, &self.CyMax)
    }
}

impl EngineTables {
    /// The first fault among the tables, taken in the order of the fields.
    pub open spec fn error(&self) -> Option<ConfigError> {
        or_else(
            table_error(self.mach@, self.max_thrust@),
            or_else(
                table_error(self.throttle_input@, self.engine_power@),
                table_error(self.throttle_input@, self.engine_power_readout@),
            ),
        )
    }

    /// Every table is non-empty, of matching lengths, over sorted abscissas.
    pub open spec fn valid(&self) -> bool {
        &&& self.mach@.len() > 0
        &&& sorted(self.mach@)
        &&& self.max_thrust@.len() == self.mach@.len()
        &&& self.throttle_input@.len() > 0
        &&& sorted(self.throttle_input@)
        &&& self.engine_power@.len() == self.throttle_input@.len()
        &&& self.engine_power_readout@.len() == self.throttle_input@.len()
    }

    pub fn check(&self) -> (e: Option<ConfigError>)
        ensures
            e == self.error(),
            e.is_none() <==> self.valid(),
    {
        let e: Option<ConfigError> = check_table(&self.mach, &self.max_thrust);
        if e.is_some() {
            return e;
        }
        let e: Option<ConfigError> = check_table(&self.throttle_input, &self.engine_power);
        if e.is_some() {
            return e;
        }
        check_table(&self.throttle_input, &self.engine_power_readout)
    }
}

impl Basic {
    /// The first fault among the mass properties: masses before inertia.
    pub open spec fn error(&self) -> Option<ConfigError> {
        if self.empty_mass <= 0 || self.gross_mass <= 0 {
            Some(ConfigError::NonPositiveMass)
        } else if self.moment_of_inertia[0] <= 0 || self.moment_of_inertia[1] <= 0
            || self.moment_of_inertia[2] <= 0 || self.moment_of_inertia[3] <= 0 {
            Some(ConfigError::NonPositiveInertia)
        } else {
            None
        }
    }

    /// Both masses and every moment of inertia are strictly positive.
    pub open spec fn valid(&self) -> bool {
        &&& self.empty_mass > 0
        &&& self.gross_mass > 0
        &&& forall|i: int| 0 <= i < 4 ==> self.moment_of_inertia[i] > 0
    }

    pub fn check(&self) -> (e: Option<ConfigError>)
        ensures
            e == self.error(),
            e.is_none() <==> self.valid(),
    {
        if self.empty_mass <= 0 || self.gross_mass <= 0 {
            Some(ConfigError::NonPositiveMass)
        } else if self.moment_of_inertia[0] <= 0 || self.moment_of_inertia[1] <= 0
            || self.moment_of_inertia[2] <= 0 || self.moment_of_inertia[3] <= 0 {
            Some(ConfigError::NonPositiveInertia)
        } else {
            None
        }
    }
}

impl PlaneConfig {
    #[verifier::type_invariant]
    spec fn well_formed(self) -> bool {
        &&& self.aerodynamics.tables.valid()
        &&& self.engine.tables.valid()
        &&& self.basic.valid()
    }

    /// The name section of the record.
    pub closed spec fn spec_unit(&self) -> &Unit {
        &self.unit
    }

    /// The dimensions and mass properties of the record.
    pub closed spec fn spec_basic(&self) -> &Basic {
        &self.basic
    }

    /// The aerodynamic section of the record.
    pub closed spec fn spec_aerodynamics(&self) -> &Aerodynamics {
        &self.aerodynamics
    }

    /// The engine section of the record.
    pub closed spec fn spec_engine(&self) -> &Engine {
        &self.engine
    }

    /// The attachment points of the record.
    pub closed spec fn spec_structure(&self) -> &Structure {
        &self.structure
    }

    /// The first fault of the sections of a record: aerodynamic tables,
    /// then engine tables, then mass properties.
    pub open spec fn error_of(basic: Basic, aerodynamics: Aerodynamics, engine: Engine) -> Option<
        ConfigError,
    > {
        or_else(aerodynamics.tables.error(), or_else(engine.tables.error(), basic.error()))
    }

    /// The record may drive a simulation: its tables are well formed and
    /// its mass properties strictly positive. This holds of every record
    /// that a program holds.
    pub open spec fn valid(&self) -> bool {
        &&& self.aerodynamics().tables.valid()
        &&& self.engine().tables.valid()
        &&& self.basic().valid()
    }

    /// The name of the aircraft type.
    #[verifier::when_used_as_spec(spec_unit)]
    pub fn unit(&self) -> (r: &Unit)
        ensures
            r == self.spec_unit(),
    {
        &self.unit
    }

    /// Dimensions and mass properties.
    #[verifier::when_used_as_spec(spec_basic)]
    pub fn basic(&self) -> (r: &Basic)
        ensures
            r == self.spec_basic(),
            r.valid(),
    {
        proof {
            use_type_invariant(self);
        }
        &self.basic
    }

    /// Aerodynamic coefficients and tables.
    #[verifier::when_used_as_spec(spec_aerodynamics)]
    pub fn aerodynamics(&self) -> (r: &Aerodynamics)
        ensures
            r == self.spec_aerodynamics(),
            r.tables.valid(),
    {
        proof {
            use_type_invariant(self);
        }
        &self.aerodynamics
    }

    /// Engine constants and tables.
    #[verifier::when_used_as_spec(spec_engine)]
    pub fn engine(&self) -> (r: &Engine)
        ensures
            r == self.spec_engine(),
            r.tables.valid(),
    {
        proof {
            use_type_invariant(self);
        }
        &self.engine
    }

    /// Attachment points.
    #[verifier::when_used_as_spec(spec_structure)]
    pub fn structure(&self) -> (r: &Structure)
        ensures
            r == self.spec_structure(),
    {
        &self.structure
    }

    /// Builds the configuration record from its sections, or says what is
    /// wrong with them.
    pub fn new(
        unit: Unit,
        basic: Basic,
        aerodynamics: Aerodynamics,
        engine: Engine,
        structure: Structure,
    ) -> (r: Result<PlaneConfig, ConfigError>)
        ensures
            match r {
                Ok(config) => {
                    &&& config.valid()
                    &&& config.unit() == unit
                    &&& config.basic() == basic
                    &&& config.aerodynamics() == aerodynamics
                    &&& config.engine() == engine
                    &&& config.structure() == structure
                    &&& Self::error_of(basic, aerodynamics, engine).is_none()
                },
                Err(e) => Self::error_of(basic, aerodynamics, engine) == Some(e),
            },
    {
        let e: Option<ConfigError> = aerodynamics.tables.check();
        if let Some(error) = e {
            return Err(error);
        }
        let e: Option<ConfigError> = engine.tables.check();
        if let Some(error) = e {
            return Err(error);
        }
        let e: Option<ConfigError> = basic.check();
        if let Some(error) = e {
            return Err(error);
        }
        Ok(PlaneConfig { unit, basic, aerodynamics, engine, structure })
    }
}

/// A sequence whose neighbours never decrease is sorted.
pub proof fn lemma_neighbours_sorted(xs: Seq<i64>, i: int, j: int)
    requires
        forall|k: int| 0 <= k && k + 1 < xs.len() ==> xs[k] <= #[trigger] xs[k + 1],
        0 <= i <= j < xs.len(),
    ensures
        xs[i] <= xs[j],
    decreases j - i,
{
    if i < j {
        lemma_neighbours_sorted(xs, i, j - 1);
        assert(xs[j - 1] <= xs[j - 1 + 1]);
    }
}

/// Checks one table: the abscissas `xs` against the ordinates `ys`.
pub fn check_table(xs: &Vec<i64>, ys: &Vec<i64>) -> (e: Option<ConfigError>)
    ensures
        e == table_error(xs@, ys@),
        e.is_none() <==> xs@.len() > 0 && xs@.len() == ys@.len() && sorted(xs@),
{
    let n: usize = xs.len();
    if n == 0 {
        return Some(ConfigError::EmptyTable);
    }
    if n != ys.len() {
        return Some(ConfigError::LengthMismatch);
    }
    let mut i: usize = 0;
    while i + 1 < n
        invariant
            n == xs@.len(),
            n == ys@.len(),
            i < n,
            forall|k: int| 0 <= k && k + 1 <= i ==> xs@[k] <= #[trigger] xs@[k + 1],
        decreases n - i,
    {
        if xs[i] > xs[i + 1] {
            assert(!sorted(xs@)) by {
                if sorted(xs@) {
                    assert(xs@[i as int] <= xs@[i as int + 1]);
                }
            }
            return Some(ConfigError::UnsortedTable);
        }
        i = i + 1;
    }
    assert(sorted(xs@)) by {
        assert forall|a: int, b: int| 0 <= a <= b < xs@.len() implies xs@[a] <= xs@[b] by {
            lemma_neighbours_sorted(xs@, a, b);
        }
    }
    None
}

} // verus!
