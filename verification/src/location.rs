//! The location record that a lookup resolves an address to.

use vstd::prelude::*;
use vstd::string::*;

verus! {

/// Where an IP address is, as far as a provider could tell.
///
/// Coordinates are held in millionths of a degree, so that the record is
/// made of integers and text only.
#[derive(Debug, PartialEq, Eq)]
pub struct LocationInfo {
    /// ISO 3166-1 alpha-2 code of the country.
    pub country_code: String,
    pub country_name: String,
    pub city: Option<String>,
    pub region: Option<String>,
    /// Millionths of a degree, north positive.
    pub latitude: Option<i64>,
    /// Millionths of a degree, east positive.
    pub longitude: Option<i64>,
    pub timezone: Option<String>,
}

/// The mathematical content of a [`LocationInfo`].
pub ghost struct LocationView {
    pub country_code: Seq<char>,
    pub country_name: Seq<char>,
    pub city: Option<Seq<char>>,
    pub region: Option<Seq<char>>,
    pub latitude: Option<i64>,
    pub longitude: Option<i64>,
    pub timezone: Option<Seq<char>>,
}

/// Largest latitude, in millionths of a degree.
pub const MAX_LATITUDE: i64 = 90_000_000;

/// Largest longitude, in millionths of a degree.
pub const MAX_LONGITUDE: i64 = 180_000_000;

impl LocationView {
    /// The record names a country.
    pub open spec fn has_country(self) -> bool {
        self.country_code.len() > 0
    }

    /// Each coordinate that is present lies on the globe.
    pub open spec fn coordinates_in_range(self) -> bool {
        &&& self.latitude matches Some(lat) ==> -MAX_LATITUDE <= lat <= MAX_LATITUDE
        &&& self.longitude matches Some(lon) ==> -MAX_LONGITUDE <= lon <= MAX_LONGITUDE
    }
}

/// The record that stands in when an address cannot be placed: the United
/// States, with nothing else known.
pub open spec fn default_location_view() -> LocationView {
    LocationView {
        country_code: "US"@,
        country_name: "United States"@,
        city: None,
        region: None,
        latitude: None,
        longitude: None,
        timezone: None,
    }
}

/// The default record names a country.
pub proof fn lemma_default_has_country()
    ensures
        default_location_view().has_country(),
        default_location_view().coordinates_in_range(),
{
    reveal_strlit("US");
}

impl View for LocationInfo {
    type V = LocationView;

    open spec fn view(&self) -> LocationView {
        LocationView {
            country_code: self.country_code@,
            country_name: self.country_name@,
            city: self.city.deep_view(),
            region: self.region.deep_view(),
            latitude: self.latitude,
            longitude: self.longitude,
            timezone: self.timezone.deep_view(),
        }
    }
}

/// The content of a record that may be absent.
pub open spec fn location_option_view(location: Option<LocationInfo>) -> Option<LocationView> {
    match location {
        Some(l) => Some(l@),
        None => None,
    }
}

/// A copy of an optional text.
pub fn clone_text(text: &Option<String>) -> (copy: Option<String>)
    ensures
        copy.deep_view() == text.deep_view(),
{
    match text {
        Some(s) => Some(s.clone()),
        None => None,
    }
}

impl Clone for LocationInfo {
    fn clone(&self) -> (copy: Self)
        ensures
            copy@ == self@,
    {
        LocationInfo {
            country_code: self.country_code.clone(),
            country_name: self.country_name.clone(),
            city: clone_text(&self.city),
            region: clone_text(&self.region),
            latitude: self.latitude,
            longitude: self.longitude,
            timezone: clone_text(&self.timezone),
        }
    }
}

impl LocationInfo {
    /// The record that stands in when an address cannot be placed.
    pub fn default_location() -> (location: LocationInfo)
        ensures
            location@ == default_location_view(),
            location@.has_country(),
    {
        proof {
            lemma_default_has_country();
        }
        LocationInfo {
            country_code: String::from_str("US"),
            country_name: String::from_str("United States"),
            city: None,
            region: None,
            latitude: None,
            longitude: None,
            timezone: None,
        }
    }

    /// Whether the record names a country.
    pub fn has_country(&self) -> (yes: bool)
        ensures
            yes == self@.has_country(),
    {
        !self.country_code.as_str().is_empty()
    }

    /// Whether each coordinate that is present lies on the globe: latitude
    /// within 90 degrees of the equator, longitude within 180 degrees of the
    /// prime meridian.
    pub fn coordinates_in_range(&self) -> (yes: bool)
        ensures
            yes == self@.coordinates_in_range(),
    {
        let lat_ok = match self.latitude {
            Some(lat) => -MAX_LATITUDE <= lat && lat <= MAX_LATITUDE,
            None => true,
        };
        let lon_ok = match self.longitude {
            Some(lon) => -MAX_LONGITUDE <= lon && lon <= MAX_LONGITUDE,
            None => true,
        };
        lat_ok && lon_ok
    }
}

} // verus!
