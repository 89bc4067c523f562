//! A place on the map, and the answers of the two services that find one.

use vstd::prelude::*;
use vstd::std_specs::convert::FromSpecImpl;

verus! {

/// A resolved place. Coordinates are in millionths of a degree.
#[derive(Debug, Clone, PartialEq, Eq)]
pub struct Location {
    pub latitude: i32,
    pub longitude: i32,
    pub city: String,
    pub region: Option<String>,
    pub country: String,
    pub timezone: String,
}

impl Location {
    /// The city with its region, or with its country where no region is known.
    pub open spec fn display_text(&self) -> Seq<char> {
        match self.region {
            Some(region) => self.city@ + ", "@ + region@,
            None => self.city@ + ", "@ + self.country@,
        }
    }

    /// The name to show for the place.
    pub fn display_name(&self) -> (r: String)
        ensures
            r@ == self.display_text(),
    {
        let mut r = self.city.clone();
        r.append(", ");
        match &self.region {
            Some(region) => r.append(region.as_str()),
            None => r.append(self.country.as_str()),
        }
        r
    }
}

/// What the network locator answers.
#[derive(Debug, Clone, PartialEq, Eq)]
pub struct IpApiResponse {
    pub latitude: i32,
    pub longitude: i32,
    pub city: String,
    pub region: Option<String>,
    pub country_name: String,
    pub timezone: String,
}

impl IpApiResponse {
    /// The place that the answer names, field by field.
    pub open spec fn location(self) -> Location {
        Location {
            latitude: self.latitude,
            longitude: self.longitude,
            city: self.city,
            region: self.region,
            country: self.country_name,
            timezone: self.timezone,
        }
    }
}

impl From<IpApiResponse> for Location {
    fn from(resp: IpApiResponse) -> (r: Location) {
        Location {
            latitude: resp.latitude,
            longitude: resp.longitude,
            city: resp.city,
            region: resp.region,
            country: resp.country_name,
            timezone: resp.timezone,
        }
    }
}

impl FromSpecImpl<IpApiResponse> for Location {
    open spec fn obeys_from_spec() -> bool {
        true
    }

    open spec fn from_spec(resp: IpApiResponse) -> Location {
        resp.location()
    }
}

/// One place that the text lookup found.
#[derive(Debug, Clone, PartialEq, Eq)]
pub struct GeocodingResult {
    pub name: String,
    pub latitude: i32,
    pub longitude: i32,
    pub timezone: String,
    pub country: String,
    pub admin1: Option<String>,
}

impl GeocodingResult {
    /// The place that the result names: its name is the city, its first
    /// administrative area the region.
    pub open spec fn location(self) -> Location {
        Location {
            latitude: self.latitude,
            longitude: self.longitude,
            city: self.name,
            region: self.admin1,
            country: self.country,
            timezone: self.timezone,
        }
    }
}

impl From<GeocodingResult> for Location {
    fn from(result: GeocodingResult) -> (r: Location) {
        Location {
            latitude: result.latitude,
            longitude: result.longitude,
            city: result.name,
            region: result.admin1,
            country: result.country,
            timezone: result.timezone,
        }
    }
}

impl FromSpecImpl<GeocodingResult> for Location {
    open spec fn obeys_from_spec() -> bool {
        true
    }

    open spec fn from_spec(result: GeocodingResult) -> Location {
        result.location()
    }
}

/// What the text lookup answers: the places found, if it names any.
#[derive(Debug, Clone, PartialEq, Eq)]
pub struct GeocodingResponse {
    pub results: Option<Vec<GeocodingResult>>,
}

/// The message for a lookup that found no place.
pub open spec fn no_location_found(query: Seq<char>) -> Seq<char> {
    "No location found for zipcode: "@ + query
}

impl GeocodingResponse {
    /// Whether the answer names at least one place.
    pub open spec fn has_match(&self) -> bool {
        self.results matches Some(found) && found@.len() > 0
    }

    /// The place that the answer to `query` stands for: the last one it names.
    /// An answer without a place is the error that says so.
    pub fn into_location(self, query: &str) -> (r: Result<Location, String>)
        ensures
            match r {
                Ok(location) => self.has_match() && location == self.results->Some_0@.last().location(),
                Err(message) => !self.has_match() && message@ == no_location_found(query@),
            },
    {
        let found = match self.results {
            Some(mut results) => results.pop(),
            None => None,
        };
        match found {
            Some(result) => Ok(Location::from(result)),
            None => {
                let mut message = String::from_str("No location found for zipcode: ");
                message.append(query);
                Err(message)
            },
        }
    }
}

} // verus!
