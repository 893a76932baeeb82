//! What the user asked for.

use vstd::prelude::*;

verus! {

/// The user's choices: the place, the units, and whether to show the
/// workings.
#[derive(Debug)]
pub struct WeatherConfig {
    location: String,
    units: Option<String>,
    debug: bool,
}

/// What a configuration holds.
pub struct ConfigView {
    pub location: Seq<char>,
    pub units: Option<Seq<char>>,
    pub debug: bool,
}

impl View for WeatherConfig {
    type V = ConfigView;

    closed spec fn view(&self) -> ConfigView {
        ConfigView {
            location: self.location@,
            units: match self.units {
                Some(units) => Some(units@),
                None => None,
            },
            debug: self.debug,
        }
    }
}

impl WeatherConfig {
    /// The configuration with the given choices.
    pub fn new(location: String, units: Option<String>, debug: bool) -> (r: WeatherConfig)
        ensures
            r@.location == location@,
            r@.units == match units {
                Some(units) => Some(units@),
                None => None,
            },
            r@.debug == debug,
    {
        WeatherConfig { location, units, debug }
    }

    /// Whether to show the workings.
    #[inline]
    pub fn debug(&self) -> (r: bool)
        ensures
            r == self@.debug,
    {
        self.debug
    }

    /// The place that was asked for.
    #[inline]
    pub fn location(&self) -> (r: &str)
        ensures
            r@ == self@.location,
    {
        self.location.as_str()
    }

    /// The units that were asked for, if any were.
    #[inline]
    pub fn units(&self) -> (r: Option<&str>)
        ensures
            match r {
                Some(units) => self@.units == Some(units@),
                None => self@.units is None,
            },
    {
        match &self.units {
            Some(units) => Some(units.as_str()),
            None => None,
        }
    }
}

} // verus!
