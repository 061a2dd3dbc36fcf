//! Measurement systems and the unit names that go with them.

use vstd::prelude::*;
use vstd::string::*;

verus! {

/// The measurement system in which a forecast is asked for and shown.
#[derive(Debug, Clone, Copy, PartialEq, Eq, Structural)]
pub enum Units {
    Metric,
    Imperial,
}

impl Units {
    /// The provider's name for the temperature unit.
    pub open spec fn temperature_token(self) -> Seq<char> {
        match self {
            Units::Metric => "celsius"@,
            Units::Imperial => "fahrenheit"@,
        }
    }

    /// The provider's name for the speed unit.
    pub open spec fn speed_token(self) -> Seq<char> {
        match self {
            Units::Metric => "kmh"@,
            Units::Imperial => "mph"@,
        }
    }

    /// The letter shown after a temperature.
    pub open spec fn temperature_symbol(self) -> Seq<char> {
        match self {
            Units::Metric => "C"@,
            Units::Imperial => "F"@,
        }
    }

    /// The abbreviation shown after a speed.
    pub open spec fn speed_symbol(self) -> Seq<char> {
        match self {
            Units::Metric => "km/h"@,
            Units::Imperial => "mph"@,
        }
    }

    /// The temperature unit as the forecast provider spells it.
    pub fn temperature(&self) -> (token: String)
        ensures
            token@ == self.temperature_token(),
    {
        match self {
            Units::Metric => String::from_str("celsius"),
            Units::Imperial => String::from_str("fahrenheit"),
        }
    }

    /// The speed unit as the forecast provider spells it.
    pub fn speed(&self) -> (token: String)
        ensures
            token@ == self.speed_token(),
    {
        match self {
            Units::Metric => String::from_str("kmh"),
            Units::Imperial => String::from_str("mph"),
        }
    }

    /// The temperature unit as it is displayed.
    pub fn temperature_display(&self) -> (symbol: &'static str)
        ensures
            symbol@ == self.temperature_symbol(),
    {
        match self {
            Units::Metric => "C",
            Units::Imperial => "F",
        }
    }

    /// The speed unit as it is displayed.
    pub fn speed_display(&self) -> (symbol: &'static str)
        ensures
            symbol@ == self.speed_symbol(),
    {
        match self {
            Units::Metric => "km/h",
            Units::Imperial => "mph",
        }
    }
}

} // verus!
