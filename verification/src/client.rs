//! The station client: the requests it makes of the upstream API, the
//! records it reads from the answers, and how it classifies what came back.
//!
//! The client never touches the network. It describes each request as a
//! [`Request`], and is handed the outcome as a [`Reply`].

use crate::encoding::{
    is_encoded_char, lemma_encoded_is_safe, lemma_percent_round_trip, percent_decoded,
    percent_encoded, utf8_percent_encode,
};
use crate::text::{decimal, decimal_text, trim_trailing_slashes, without_trailing_slashes};
use vstd::prelude::*;

verus! {

/// The `User-Agent` header sent with every request.
pub const USER_AGENT: &'static str =
    "Gman Prometheus Exporter (https://github.com/56quarters/nws_exporter)";

/// The `Accept` header sent with every request.
pub const JSON_RESPONSE: &'static str = "application/geo+json";

/// The status that carries a body to decode.
pub const STATUS_OK: u16 = 200;

/// The status by which upstream says that a station does not exist.
pub const STATUS_NOT_FOUND: u16 = 404;

/// One measured quantity. `value` is the bit pattern of an IEEE 754 double
/// and is `None` whenever the station reported nothing for the quantity,
/// which is an ordinary state and stands for no number at all.
#[derive(Debug)]
pub struct Measurement {
    pub unit_code: String,
    pub value: Option<u64>,
    pub quality_control: Option<String>,
}

/// One present-weather entry of an observation.
#[derive(Debug)]
pub struct Weather {
    pub weather: String,
    pub raw_string: String,
    pub intensity: Option<String>,
    pub modifier: Option<String>,
}

/// One cloud layer of an observation.
#[derive(Debug)]
pub struct CloudLayer {
    pub base: Measurement,
    pub amount: String,
}

/// Identity and physical metadata of a station.
#[derive(Debug)]
pub struct StationProperties {
    pub id: String,
    pub type_: String,
    pub elevation: Measurement,
    pub station_identifier: String,
    pub name: String,
    pub timezone: Option<String>,
}

/// A station as upstream describes it.
#[derive(Debug)]
pub struct Station {
    pub id: String,
    pub type_: String,
    pub properties: StationProperties,
}

/// The readings of one observation. `station` refers to the station that
/// made it, by that station's `id`.
#[derive(Debug)]
pub struct ObservationProperties {
    pub id: String,
    pub type_: String,
    pub elevation: Measurement,
    pub station: String,
    pub timestamp: String,
    pub raw_message: Option<String>,
    pub description: Option<String>,
    pub icon: Option<String>,
    pub present_weather: Vec<Weather>,
    pub temperature: Measurement,
    pub dewpoint: Measurement,
    pub wind_direction: Measurement,
    pub wind_speed: Measurement,
    pub wind_gust: Measurement,
    pub barometric_pressure: Measurement,
    pub sea_level_pressure: Measurement,
    pub visibility: Measurement,
    pub max_temperature_last_24_hours: Measurement,
    pub min_temperature_last_24_hours: Measurement,
    pub precipitation_last_hour: Measurement,
    pub precipitation_last_3_hours: Measurement,
    pub precipitation_last_6_hours: Measurement,
    pub relative_humidity: Measurement,
    pub wind_chill: Measurement,
    pub heat_index: Measurement,
    pub cloud_layers: Vec<CloudLayer>,
}

/// The latest observation of a station.
#[derive(Debug)]
pub struct Observation {
    pub id: String,
    pub type_: String,
    pub properties: ObservationProperties,
}

/// Why a fetch gave no record.
#[derive(Debug)]
pub enum ClientError {
    /// Upstream could not be reached: the cause, in words.
    Transport(String),
    /// Upstream knows no station of this identifier.
    InvalidStation(String),
    /// Upstream answered with this status for this URL.
    Unexpected(u16, String),
    /// The body was not a record of the expected shape: what was wrong.
    Malformed(String),
}

/// A `ClientError` with its texts as character sequences.
pub enum ClientErrorView {
    Transport(Seq<char>),
    InvalidStation(Seq<char>),
    Unexpected(u16, Seq<char>),
    Malformed(Seq<char>),
}

impl View for ClientError {
    type V = ClientErrorView;

    open spec fn view(&self) -> ClientErrorView {
        match *self {
            ClientError::Transport(cause) => ClientErrorView::Transport(cause@),
            ClientError::InvalidStation(station) => ClientErrorView::InvalidStation(station@),
            ClientError::Unexpected(status, url) => ClientErrorView::Unexpected(status, url@),
            ClientError::Malformed(reason) => ClientErrorView::Malformed(reason@),
        }
    }
}

impl ClientErrorView {
    /// The message that describes the error to an operator.
    pub open spec fn message(self) -> Seq<char> {
        match self {
            ClientErrorView::Transport(cause) => cause,
            ClientErrorView::InvalidStation(station) => "invalid station "@ + station,
            ClientErrorView::Unexpected(status, url) => "unexpected status "@ + decimal(
                status as nat,
            ) + " for "@ + url,
            ClientErrorView::Malformed(reason) => "malformed response: "@ + reason,
        }
    }

    /// The underlying cause, present for transport failures only.
    pub open spec fn source(self) -> Option<Seq<char>> {
        match self {
            ClientErrorView::Transport(cause) => Some(cause),
            _ => None,
        }
    }
}

impl ClientError {
    /// The message that describes the error to an operator.
    pub fn message(&self) -> (text: String)
        ensures
            text@ == self@.message(),
    {
        match self {
            ClientError::Transport(cause) => cause.clone(),
            ClientError::InvalidStation(station) => {
                let mut text = String::from_str("invalid station ");
                text.append(station.as_str());
                text
            },
            ClientError::Unexpected(status, url) => {
                let mut text = String::from_str("unexpected status ");
                let numeral = decimal_text(*status);
                text.append(numeral.as_str());
                text.append(" for ");
                text.append(url.as_str());
                text
            },
            ClientError::Malformed(reason) => {
                let mut text = String::from_str("malformed response: ");
                text.append(reason.as_str());
                text
            },
        }
    }

    /// The underlying cause, present for transport failures only.
    pub fn source(&self) -> (cause: Option<String>)
        ensures
            cause is Some <==> self@.source() is Some,
            cause matches Some(text) ==> self@.source() == Some(text@),
    {
        match self {
            ClientError::Transport(cause) => Some(cause.clone()),
            _ => None,
        }
    }
}

/// A request for the transport to send: a `GET` of `url` with these two headers.
#[derive(Debug)]
pub struct Request {
    pub url: String,
    pub user_agent: String,
    pub accept: String,
}

/// What came of a request.
#[derive(Debug)]
pub enum Reply<T> {
    /// No answer arrived (name resolution, connection, timeout, TLS): the cause, in words.
    Failed(String),
    /// Upstream answered with this status. The second field is the body
    /// decoded into a record, or what was wrong with it; it is looked at
    /// only when the status is 200.
    Answered(u16, Result<T, String>),
}

/// The result of a fetch, for a request about `station` sent to `url`.
pub open spec fn classified<T>(station: Seq<char>, url: Seq<char>, reply: Reply<T>) -> Result<
    T,
    ClientErrorView,
> {
    match reply {
        Reply::Failed(cause) => Err(ClientErrorView::Transport(cause@)),
        Reply::Answered(status, body) => if status == STATUS_OK {
            match body {
                Ok(record) => Ok(record),
                Err(reason) => Err(ClientErrorView::Malformed(reason@)),
            }
        } else if status == STATUS_NOT_FOUND {
            Err(ClientErrorView::InvalidStation(station))
        } else {
            Err(ClientErrorView::Unexpected(status, url))
        },
    }
}

/// A fetch result with the error, if any, as its view.
pub open spec fn outcome_view<T>(outcome: Result<T, ClientError>) -> Result<T, ClientErrorView> {
    match outcome {
        Ok(record) => Ok(record),
        Err(error) => Err(error@),
    }
}

/// Classifies what came of a request about `station` that was sent to `url`.
pub fn classify<T>(station: &str, url: String, reply: Reply<T>) -> (outcome: Result<
    T,
    ClientError,
>)
    ensures
        outcome_view(outcome) == classified(station@, url@, reply),
{
    match reply {
        Reply::Failed(cause) => Err(ClientError::Transport(cause)),
        Reply::Answered(status, body) => {
            if status == STATUS_OK {
                match body {
                    Ok(record) => Ok(record),
                    Err(reason) => Err(ClientError::Malformed(reason)),
                }
            } else if status == STATUS_NOT_FOUND {
                Err(ClientError::InvalidStation(String::from_str(station)))
            } else {
                Err(ClientError::Unexpected(status, url))
            }
        },
    }
}

/// The path of the station resource, as text after the base URL.
pub open spec fn station_path(station: Seq<char>) -> Seq<char> {
    "/stations/"@ + percent_encoded(station)
}

/// The path of a station's latest observation.
pub open spec fn observation_path(station: Seq<char>) -> Seq<char> {
    station_path(station) + "/observations/latest"@
}

/// The part of `text` before its first `/`, or all of it where it holds none.
pub open spec fn until_slash(text: Seq<char>) -> Seq<char>
    decreases text.len(),
{
    if text.len() == 0 || text[0] == '/' {
        Seq::empty()
    } else {
        seq![text[0]] + until_slash(text.drop_first())
    }
}

/// The path segment that names the station: what follows `/stations/`, up
/// to the next `/`.
pub open spec fn station_segment(path: Seq<char>) -> Seq<char> {
    until_slash(path.skip("/stations/"@.len() as int))
}

proof fn lemma_until_slash(segment: Seq<char>, rest: Seq<char>)
    requires
        forall|i: int| 0 <= i < segment.len() ==> segment[i] != '/',
        rest.len() == 0 || rest[0] == '/',
    ensures
        until_slash(segment + rest) == segment,
    decreases segment.len(),
{
    if segment.len() == 0 {
        assert(segment + rest =~= rest);
    } else {
        assert((segment + rest).drop_first() =~= segment.drop_first() + rest);
        lemma_until_slash(segment.drop_first(), rest);
        assert(seq![segment[0]] + segment.drop_first() =~= segment);
    }
}

/// The station segment of both request paths is the encoded identifier: it
/// holds only ASCII letters, ASCII digits and `%`, whatever the identifier
/// holds, and percent-decoding it gives the identifier back exactly.
pub proof fn lemma_station_segment_round_trip(station: Seq<char>)
    ensures
        station_segment(station_path(station)) == percent_encoded(station),
        station_segment(observation_path(station)) == percent_encoded(station),
        forall|i: int|
            0 <= i < percent_encoded(station).len() ==> is_encoded_char(
                #[trigger] percent_encoded(station)[i],
            ),
        percent_decoded(station_segment(station_path(station))) == station,
        percent_decoded(station_segment(observation_path(station))) == station,
{
    reveal_strlit("/stations/");
    reveal_strlit("/observations/latest");
    let prefix = "/stations/"@;
    let suffix = "/observations/latest"@;
    let encoded = percent_encoded(station);
    lemma_encoded_is_safe(station);
    lemma_percent_round_trip(station);
    assert forall|i: int| 0 <= i < encoded.len() implies encoded[i] != '/' by {
        assert(is_encoded_char(encoded[i]));
    }
    assert(station_path(station).skip(prefix.len() as int) =~= encoded + Seq::<char>::empty());
    lemma_until_slash(encoded, Seq::empty());
    assert(observation_path(station).skip(prefix.len() as int) =~= encoded + suffix);
    lemma_until_slash(encoded, suffix);
}

/// The client of the upstream API. It holds the base URL and nothing else.
#[derive(Debug)]
pub struct WeatherGovClient {
    base_url: String,
}

impl WeatherGovClient {
    /// The base URL that request paths are appended to; it ends in no `/`.
    pub closed spec fn base(&self) -> Seq<char> {
        self.base_url@
    }

    /// The URL of the station resource.
    pub open spec fn station_url_of(&self, station: Seq<char>) -> Seq<char> {
        self.base() + station_path(station)
    }

    /// The URL of a station's latest observation.
    pub open spec fn observation_url_of(&self, station: Seq<char>) -> Seq<char> {
        self.base() + observation_path(station)
    }

    /// A client for the API at `base_url`. Slashes at the end of `base_url`
    /// are dropped, so that a path joins it with exactly one.
    pub fn new(base_url: &str) -> (client: Self)
        ensures
            client.base() == without_trailing_slashes(base_url@),
    {
        WeatherGovClient { base_url: trim_trailing_slashes(base_url) }
    }

    /// The URL of the station resource for `station`.
    pub fn station_url(&self, station: &str) -> (url: String)
        ensures
            url@ == self.station_url_of(station@),
    {
        let mut url = self.base_url.clone();
        url.append("/stations/");
        let encoded = utf8_percent_encode(station);
        url.append(encoded.as_str());
        assert(url@ =~= self.station_url_of(station@));
        url
    }

    /// The URL of the latest observation of `station`.
    pub fn observation_url(&self, station: &str) -> (url: String)
        ensures
            url@ == self.observation_url_of(station@),
    {
        let mut url = self.station_url(station);
        url.append("/observations/latest");
        assert(url@ =~= self.observation_url_of(station@));
        url
    }

    /// The request that asks for the metadata of `station`.
    pub fn station_request(&self, station: &str) -> (request: Request)
        ensures
            request.url@ == self.station_url_of(station@),
            request.user_agent@ == USER_AGENT@,
            request.accept@ == JSON_RESPONSE@,
    {
        Request {
            url: self.station_url(station),
            user_agent: String::from_str(USER_AGENT),
            accept: String::from_str(JSON_RESPONSE),
        }
    }

    /// The request that asks for the latest observation of `station`.
    pub fn observation_request(&self, station: &str) -> (request: Request)
        ensures
            request.url@ == self.observation_url_of(station@),
            request.user_agent@ == USER_AGENT@,
            request.accept@ == JSON_RESPONSE@,
    {
        Request {
            url: self.observation_url(station),
            user_agent: String::from_str(USER_AGENT),
            accept: String::from_str(JSON_RESPONSE),
        }
    }

    /// The metadata of `station`, given what came of `station_request`.
    pub fn station(&self, station: &str, reply: Reply<Station>) -> (outcome: Result<
        Station,
        ClientError,
    >)
        ensures
            outcome_view(outcome) == classified(station@, self.station_url_of(station@), reply),
    {
        classify(station, self.station_url(station), reply)
    }

    /// The latest observation of `station`, given what came of `observation_request`.
    pub fn observation(&self, station: &str, reply: Reply<Observation>) -> (outcome: Result<
        Observation,
        ClientError,
    >)
        ensures
            outcome_view(outcome) == classified(
                station@,
                self.observation_url_of(station@),
                reply,
            ),
    {
        classify(station, self.observation_url(station), reply)
    }
}

} // verus!
