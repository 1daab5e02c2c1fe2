//! The data model of the widget path: a place, a weather observation
//! snapshot for it, and the error a fetch can end in.

use vstd::prelude::*;

verus! {

/// A human-readable location name. The only validation is that the name is
/// non-empty.
#[derive(Debug)]
pub struct Place {
    pub name: String,
}

impl Place {
    /// A place name is well-formed when it is non-empty.
    pub open spec fn wf(self) -> bool {
        self.name@.len() > 0
    }

    /// Accepts any non-empty name and rejects the empty one.
    pub fn new(name: String) -> (r: Option<Place>)
        ensures
            match r {
                Some(p) => name@.len() > 0 && p.name@ == name@ && p.wf(),
                None => name@.len() == 0,
            },
    {
        if name.as_str().is_empty() {
            None
        } else {
            Some(Place { name })
        }
    }
}

/// The one place the server currently renders a widget for.
pub fn fixed_place() -> (p: Place)
    ensures
        p.name@ == "Bengaluru"@,
        p.wf(),
{
    proof {
        reveal_strlit("Bengaluru");
    }
    Place { name: String::from_str("Bengaluru") }
}

/// A snapshot of weather attributes for a place at fetch time. Created
/// fresh per request and discarded after rendering.
#[derive(Debug)]
pub struct WeatherObservation {
    /// The place the observation is for.
    pub place: String,
    /// Temperature in whole degrees Celsius.
    pub temperature_c: i32,
    /// A short description of the current condition; may be empty, in which
    /// case the renderer substitutes a placeholder.
    pub condition: String,
    /// Relative humidity in percent.
    pub humidity_pct: u8,
}

/// Why a fetch failed: the external source was unreachable, returned
/// unusable data, or did not recognize the place. Each variant carries the
/// underlying failure's description.
#[derive(Debug)]
pub enum FetchError {
    Unreachable(String),
    MalformedData(String),
    UnrecognizedPlace(String),
}

impl FetchError {
    /// The detail text the error was built with.
    pub open spec fn detail(&self) -> Seq<char> {
        match self {
            FetchError::Unreachable(d) => d@,
            FetchError::MalformedData(d) => d@,
            FetchError::UnrecognizedPlace(d) => d@,
        }
    }

    /// The human-readable description: a fixed phrase for the variant,
    /// followed by the detail text verbatim.
    pub open spec fn desc(&self) -> Seq<char> {
        match self {
            FetchError::Unreachable(d) => "weather source unreachable: "@ + d@,
            FetchError::MalformedData(d) => "weather source returned malformed data: "@ + d@,
            FetchError::UnrecognizedPlace(d) => "unrecognized place: "@ + d@,
        }
    }

    /// Builds the description text.
    pub fn description(&self) -> (s: String)
        ensures
            s@ == self.desc(),
    {
        match self {
            FetchError::Unreachable(d) => {
                let mut s = String::from_str("weather source unreachable: ");
                s.append(d.as_str());
                s
            },
            FetchError::MalformedData(d) => {
                let mut s = String::from_str("weather source returned malformed data: ");
                s.append(d.as_str());
                s
            },
            FetchError::UnrecognizedPlace(d) => {
                let mut s = String::from_str("unrecognized place: ");
                s.append(d.as_str());
                s
            },
        }
    }
}

} // verus!
