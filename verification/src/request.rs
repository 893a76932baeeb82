//! The request that asks the weather service for a forecast.

use url::Url;
use vstd::prelude::*;

verus! {

/// The url crate's reason why a text is no URL. Nothing is known of it here;
/// it is handed on as it came.
#[verifier::external_type_specification]
#[verifier::external_body]
pub struct ExUrlParseError(url::ParseError);

/// The ureq crate's reason why a request failed. Nothing is known of it here;
/// it is only held.
#[verifier::external_type_specification]
#[verifier::external_body]
pub struct ExRequestError(ureq::Error);

/// The standard library's reason why reading or writing failed. Nothing is
/// known of it here; it is only held.
#[verifier::external_type_specification]
#[verifier::external_body]
pub struct ExIoError(std::io::Error);

/// What the service can be asked for.
#[derive(Clone, Copy, Debug, PartialEq, Eq, Structural)]
pub enum Endpoint {
    CurrentWeather,
}

impl Endpoint {
    /// The path segment of the endpoint.
    pub open spec fn segment(self) -> Seq<char> {
        match self {
            Endpoint::CurrentWeather => "forecast"@,
        }
    }

    /// The path segment of the endpoint.
    pub fn value(&self) -> (r: &'static str)
        ensures
            r@ == self.segment(),
    {
        match self {
            Endpoint::CurrentWeather => "forecast",
        }
    }
}

/// The place to ask about.
#[derive(Debug)]
pub enum Location {
    City(String),
}

impl Location {
    /// The name of the place.
    pub open spec fn name(self) -> Seq<char> {
        match self {
            Location::City(name) => name@,
        }
    }

    /// Any text names a city.
    pub fn from_str(s: &str) -> (r: Result<Location, ApiError>)
        ensures
            r matches Ok(place) && place.name() == s@,
    {
        Ok(Location::City(s.to_owned()))
    }
}

impl Default for Location {
    fn default() -> (r: Location)
        ensures
            r.name() == "London"@,
    {
        Location::City("London".to_owned())
    }
}

/// The system of units of the readings.
#[derive(Clone, Copy, Debug, PartialEq, Eq, Structural)]
pub enum Units {
    Metric,
    Imperial,
}

/// The units that a name stands for, if it is the name of units.
pub open spec fn units_named(name: Seq<char>) -> Option<Units> {
    if name == "metric"@ {
        Some(Units::Metric)
    } else if name == "imperial"@ {
        Some(Units::Imperial)
    } else {
        None
    }
}

impl Units {
    /// The name of the units, as the service knows it.
    pub open spec fn name(self) -> Seq<char> {
        match self {
            Units::Metric => "metric"@,
            Units::Imperial => "imperial"@,
        }
    }

    /// Reads units from their name: `metric` or `imperial`.
    pub fn from_str(s: &str) -> (r: Result<Units, ApiError>)
        ensures
            match r {
                Ok(units) => units_named(s@) == Some(units),
                Err(e) => {
                    &&& units_named(s@) is None
                    &&& e matches ApiError::BadParse(what)
                    &&& what@ == "unknown str unit type"@
                },
            },
    {
        let name = s.to_owned();
        if name == "metric".to_owned() {
            Ok(Units::Metric)
        } else if name == "imperial".to_owned() {
            Ok(Units::Imperial)
        } else {
            Err(ApiError::BadParse("unknown str unit type"))
        }
    }
}

impl Default for Units {
    fn default() -> (r: Units)
        ensures
            r == Units::Imperial,
    {
        Units::Imperial
    }
}

/// Why a request could not be made or answered.
#[derive(Debug)]
pub enum ApiError {
    /// The service could not be reached, or it answered with an error.
    Request(ureq::Error),
    /// The answer could not be read as text.
    ConvertResponse(std::io::Error),
    /// The address of the service is no URL.
    ParseURL(url::ParseError),
    /// A text is not what it should name.
    BadParse(&'static str),
}

/// How building a URL ends.
pub enum UrlBuild {
    /// The base is no URL.
    Unparsed,
    /// The base is a URL whose path cannot take a segment.
    NoPath,
    /// The text of the URL that was built.
    Built(Seq<char>),
}

/// The most characters that a part of a URL may have here.
pub const URL_PART_LIMIT: usize = 1_048_576;

/// The most query pairs that a URL may be given here.
pub const URL_PAIR_LIMIT: usize = 16;

/// Names and values of query pairs as plain text.
pub open spec fn pair_texts(pairs: Seq<(&str, &str)>) -> Seq<(Seq<char>, Seq<char>)> {
    pairs.map_values(|pair: (&str, &str)| (pair.0@, pair.1@))
}

/// How the url crate builds a URL from the text of a base URL, one more
/// segment for its path, and pairs for its query.
pub uninterp spec fn url_built(
    base: Seq<char>,
    segment: Seq<char>,
    pairs: Seq<(Seq<char>, Seq<char>)>,
) -> UrlBuild;

/// Has the url crate build a URL: `Url::parse` reads the base,
/// `Url::path_segments_mut` and `PathSegmentsMut::push` put the segment at the
/// end of its path, `Url::query_pairs_mut` and `Serializer::extend_pairs` put
/// the pairs at the end of its query in their order, and the URL is turned
/// into its text.
///
/// Taken on trust: the outcome depends on the arguments alone, and within the
/// limits the text stays under the 4 GiB that a URL of the crate can hold.
/// Where the base is no URL, the error that comes back is the one that
/// `Url::parse` gave.
#[verifier::external_body]
pub(crate) fn build_url(base: &str, segment: &str, pairs: &Vec<(&str, &str)>) -> (r: Result<
    Option<String>,
    url::ParseError,
>)
    requires
        base@.len() <= URL_PART_LIMIT,
        segment@.len() <= URL_PART_LIMIT,
        pairs@.len() <= URL_PAIR_LIMIT,
        forall|i: int|
            0 <= i < pairs@.len() ==> (#[trigger] pairs@[i]).0@.len() <= URL_PART_LIMIT
                && pairs@[i].1@.len() <= URL_PART_LIMIT,
    ensures
        match r {
            Ok(Some(text)) => url_built(base@, segment@, pair_texts(pairs@)) == UrlBuild::Built(
                text@,
            ),
            Ok(None) => url_built(base@, segment@, pair_texts(pairs@)) == UrlBuild::NoPath,
            Err(_) => url_built(base@, segment@, pair_texts(pairs@)) == UrlBuild::Unparsed,
        },
{
    let mut url = Url::parse(base)?;
    match url.path_segments_mut() {
        Ok(mut path) => {
            path.push(segment);
        },
        Err(()) => return Ok(None),
    }
    url.query_pairs_mut().extend_pairs(pairs);
    Ok(Some(url.into()))
}

/// The address of the service.
pub const BASE_API_URL: &'static str = "https://api.openweathermap.org/data/2.5";

/// A request for a forecast: the key that opens the service, what is asked
/// for, the place and the units.
#[derive(Debug)]
pub struct WeatherApi {
    api_key: String,
    endpoint: Endpoint,
    location: Location,
    units: Units,
}

/// What a request holds.
pub struct ApiView {
    pub api_key: Seq<char>,
    pub endpoint: Endpoint,
    pub location: Seq<char>,
    pub units: Units,
}

impl View for WeatherApi {
    type V = ApiView;

    closed spec fn view(&self) -> ApiView {
        ApiView {
            api_key: self.api_key@,
            endpoint: self.endpoint,
            location: self.location.name(),
            units: self.units,
        }
    }
}

/// The units that are asked for where the user names `units_opt`: the units
/// of that name, and imperial units where there is no name or no units of
/// that name.
pub open spec fn units_chosen(units_opt: Option<Seq<char>>) -> Units {
    match units_opt {
        Some(name) => match units_named(name) {
            Some(units) => units,
            None => Units::Imperial,
        },
        None => Units::Imperial,
    }
}

/// The outcome of building the URL of a request to the service at `base`:
/// the address of the service, then the endpoint as one more segment of the
/// path, then the query: `q` with the place, `appid` with the key, and `units`
/// with the name of the units, in this order.
pub open spec fn request_url_on(base: Seq<char>, api: ApiView) -> UrlBuild {
    url_built(
        base,
        api.endpoint.segment(),
        seq![("q"@, api.location), ("appid"@, api.api_key), ("units"@, api.units.name())],
    )
}

/// The outcome of building the URL of a request.
pub open spec fn request_url(api: ApiView) -> UrlBuild {
    request_url_on(BASE_API_URL@, api)
}

impl WeatherApi {
    /// Whether the key and the place are short enough to go into a URL.
    pub open spec fn fits_a_url(&self) -> bool {
        self@.api_key.len() <= URL_PART_LIMIT && self@.location.len() <= URL_PART_LIMIT
    }

    /// The URL that asks the service at `base` for the forecast.
    ///
    /// Fails with `ParseURL` where `base` is no URL, and with `BadParse` where
    /// its path cannot take the endpoint.
    pub fn url_on(&self, base: &str) -> (r: Result<String, ApiError>)
        requires
            self.fits_a_url(),
            base@.len() <= URL_PART_LIMIT,
        ensures
            match r {
                Ok(text) => request_url_on(base@, self@) == UrlBuild::Built(text@),
                Err(ApiError::ParseURL(_)) => request_url_on(base@, self@) == UrlBuild::Unparsed,
                Err(ApiError::BadParse(what)) => {
                    &&& request_url_on(base@, self@) == UrlBuild::NoPath
                    &&& what@ == "URL without a path"@
                },
                Err(_) => false,
            },
    {
        let endpoint = self.endpoint.value();
        let units = self.units();
        let mut pairs: Vec<(&str, &str)> = Vec::new();
        pairs.push(("q", self.location()));
        pairs.push(("appid", self.api_key()));
        pairs.push(("units", units));
        proof {
            reveal_strlit("forecast");
            reveal_strlit("q");
            reveal_strlit("appid");
            reveal_strlit("units");
            reveal_strlit("metric");
            reveal_strlit("imperial");
            assert(pair_texts(pairs@) =~= seq![
                ("q"@, self@.location),
                ("appid"@, self@.api_key),
                ("units"@, self@.units.name()),
            ]);
        }
        match build_url(base, endpoint, &pairs) {
            Ok(Some(text)) => Ok(text),
            Ok(None) => Err(ApiError::BadParse("URL without a path")),
            Err(e) => Err(ApiError::ParseURL(e)),
        }
    }

    /// The URL that asks for the forecast.
    ///
    /// Fails with `ParseURL` where the address of the service is no URL, and
    /// with `BadParse` where its path cannot take the endpoint.
    pub fn url_construct(&self) -> (r: Result<String, ApiError>)
        requires
            self.fits_a_url(),
        ensures
            match r {
                Ok(text) => request_url(self@) == UrlBuild::Built(text@),
                Err(ApiError::ParseURL(_)) => request_url(self@) == UrlBuild::Unparsed,
                Err(ApiError::BadParse(what)) => {
                    &&& request_url(self@) == UrlBuild::NoPath
                    &&& what@ == "URL without a path"@
                },
                Err(_) => false,
            },
    {
        proof {
            reveal_strlit("https://api.openweathermap.org/data/2.5");
        }
        self.url_on(BASE_API_URL)
    }

    /// The request for a forecast with the given key, place and units.
    pub fn new(api_key: String, location: Location, units: Units) -> (r: WeatherApi)
        ensures
            r@ == (ApiView {
                api_key: api_key@,
                endpoint: Endpoint::CurrentWeather,
                location: location.name(),
                units,
            }),
    {
        WeatherApi { api_key, endpoint: Endpoint::CurrentWeather, location, units }
    }

    /// The key that opens the service.
    pub fn api_key(&self) -> (r: &str)
        ensures
            r@ == self@.api_key,
    {
        self.api_key.as_str()
    }

    /// The name of the place.
    pub fn location(&self) -> (r: &str)
        ensures
            r@ == self@.location,
    {
        match &self.location {
            Location::City(name) => name.as_str(),
        }
    }

    /// The name of the units, as the service knows it.
    pub fn units(&self) -> (r: &'static str)
        ensures
            r@ == self@.units.name(),
    {
        match self.units {
            Units::Metric => "metric",
            Units::Imperial => "imperial",
        }
    }

    /// The request for the given key, place and units. Units that have no
    /// name, or a name that is none of units, are imperial.
    pub fn load(api_key: String, location: &str, units_opt: Option<&str>) -> (r: Result<
        WeatherApi,
        ApiError,
    >)
        ensures
            r matches Ok(api) && api@ == (ApiView {
                api_key: api_key@,
                endpoint: Endpoint::CurrentWeather,
                location: location@,
                units: units_chosen(
                    match units_opt {
                        Some(name) => Some(name@),
                        None => None,
                    },
                ),
            }),
    {
        let place = match Location::from_str(location) {
            Ok(place) => place,
            Err(e) => {
                return Err(e);
            },
        };
        let units = match units_opt {
            Some(name) => match Units::from_str(name) {
                Ok(units) => units,
                Err(_) => Units::default(),
            },
            None => Units::default(),
        };
        Ok(WeatherApi::new(api_key, place, units))
    }
}

} // verus!
