use nws_exporter::client::{
    ClientError, Measurement, Observation, ObservationProperties, Reply, Request, Station,
    StationProperties, WeatherGovClient,
};
use nws_exporter::metrics::{ForecastMetrics, Metric};
use nws_exporter::update::{Action, Event, Level, Notice, Phase, Policy, Step, UpdateTask};

fn measurement(value: Option<f64>) -> Measurement {
    Measurement {
        unit_code: "wmoUnit:degC".to_string(),
        value: value.map(f64::to_bits),
        quality_control: None,
    }
}

fn observation(station: &str, temperature: Option<f64>, dewpoint: Option<f64>) -> Observation {
    Observation {
        id: format!("obs-of-{}", station),
        type_: "Feature".to_string(),
        properties: ObservationProperties {
            id: format!("obs-of-{}", station),
            type_: "wx:ObservationStation".to_string(),
            elevation: measurement(None),
            station: station.to_string(),
            timestamp: "2024-01-01T00:00:00+00:00".to_string(),
            raw_message: None,
            description: None,
            icon: None,
            present_weather: Vec::new(),
            temperature: measurement(temperature),
            dewpoint: measurement(dewpoint),
            wind_direction: measurement(None),
            wind_speed: measurement(None),
            wind_gust: measurement(None),
            barometric_pressure: measurement(None),
            sea_level_pressure: measurement(None),
            visibility: measurement(None),
            max_temperature_last_24_hours: measurement(None),
            min_temperature_last_24_hours: measurement(None),
            precipitation_last_hour: measurement(None),
            precipitation_last_3_hours: measurement(None),
            precipitation_last_6_hours: measurement(None),
            relative_humidity: measurement(None),
            wind_chill: measurement(None),
            heat_index: measurement(None),
            cloud_layers: Vec::new(),
        },
    }
}

fn station(identifier: &str) -> Station {
    Station {
        id: format!("ref-{}", identifier),
        type_: "Feature".to_string(),
        properties: StationProperties {
            id: format!("ref-{}", identifier),
            type_: "wx:ObservationStation".to_string(),
            elevation: measurement(Some(9.0)),
            station_identifier: identifier.to_string(),
            name: format!("Station {}", identifier),
            timezone: None,
        },
    }
}

fn task(stations: &[&str]) -> UpdateTask {
    UpdateTask::new(
        stations.iter().map(|s| s.to_string()).collect(),
        ForecastMetrics::new(),
        WeatherGovClient::new("https://api.weather.gov/"),
        300,
    )
}

fn ok<T>(record: T) -> Reply<T> {
    Reply::Answered(200, Ok(record))
}

fn status<T>(code: u16) -> Reply<T> {
    Reply::Answered(code, Err(String::new()))
}

fn fetch_station(step: &Step) -> &Request {
    match &step.action {
        Action::FetchStation(request) => request,
        other => panic!("expected a station request, got {:?}", other),
    }
}

fn fetch_observation(step: &Step) -> &Request {
    match &step.action {
        Action::FetchObservation(request) => request,
        other => panic!("expected an observation request, got {:?}", other),
    }
}

fn initialized(stations: &[&str]) -> UpdateTask {
    let mut task = task(stations);
    let mut step = task.step(Event::Start);
    for name in stations {
        fetch_station(&step);
        step = task.step(Event::Station(ok(station(name))));
    }
    assert!(matches!(step.action, Action::Ready));
    task
}

fn temperature(task: &UpdateTask, station: &str) -> Option<f64> {
    task.metrics().gauge(Metric::Temperature, station).map(f64::from_bits)
}

fn dewpoint(task: &UpdateTask, station: &str) -> Option<f64> {
    task.metrics().gauge(Metric::Dewpoint, station).map(f64::from_bits)
}

#[test]
fn new_task_has_asked_for_nothing() {
    let task = task(&["KBOS"]);
    assert_eq!(task.phase(), Phase::Created);
    assert!(task.metrics().samples().is_empty());
}

#[test]
fn initialization_asks_for_every_station_in_order() {
    let mut task = task(&["KBOS", "K SEA", "KJFK"]);
    let step = task.step(Event::Start);
    assert!(step.notice.is_none());
    assert_eq!(fetch_station(&step).url, "https://api.weather.gov/stations/KBOS");
    assert_eq!(task.phase(), Phase::Initializing(0));
    let step = task.step(Event::Station(ok(station("KBOS"))));
    assert_eq!(fetch_station(&step).url, "https://api.weather.gov/stations/K%20SEA");
    assert_eq!(task.phase(), Phase::Initializing(1));
    let step = task.step(Event::Station(ok(station("K SEA"))));
    assert_eq!(fetch_station(&step).url, "https://api.weather.gov/stations/KJFK");
    let step = task.step(Event::Station(ok(station("KJFK"))));
    assert!(matches!(step.action, Action::Ready));
    assert_eq!(task.phase(), Phase::Waiting);
    assert_eq!(task.metrics().samples().len(), 3);
    let labels = vec![
        "ref-KBOS".to_string(),
        "KBOS".to_string(),
        "Station KBOS".to_string(),
    ];
    assert_eq!(task.metrics().value(Metric::Station, &labels), Some(1.0f64.to_bits()));
}

#[test]
fn unknown_station_aborts_startup() {
    let mut task = task(&["BAD-ID"]);
    let step = task.step(Event::Start);
    assert_eq!(fetch_station(&step).url, "https://api.weather.gov/stations/BAD%2DID");
    let step = task.step(Event::Station(status(404)));
    match &step.action {
        Action::Abort(ClientError::InvalidStation(identifier)) => {
            assert_eq!(identifier, "BAD-ID");
        }
        other => panic!("expected an abort, got {:?}", other),
    }
    match step.action {
        Action::Abort(error) => assert_eq!(error.message(), "invalid station BAD-ID"),
        _ => unreachable!(),
    }
    assert_eq!(task.phase(), Phase::Aborted);
}

#[test]
fn aborted_task_never_becomes_ready() {
    let mut task = task(&["BAD-ID", "KBOS"]);
    task.step(Event::Start);
    task.step(Event::Station(status(404)));
    let events = vec![
        Event::Start,
        Event::Station(ok(station("KBOS"))),
        Event::Tick,
        Event::Observation(ok(observation("KBOS", Some(1.0), None))),
    ];
    for event in events {
        let step = task.step(event);
        assert!(matches!(step.action, Action::Idle));
        assert!(step.notice.is_none());
        assert_eq!(task.phase(), Phase::Aborted);
    }
    assert!(task.metrics().samples().is_empty());
}

#[test]
fn unknown_station_aborts_under_the_lenient_policy_too() {
    let mut task = task(&["KBOS", "BAD-ID"]).with_policy(Policy::Lenient);
    task.step(Event::Start);
    task.step(Event::Station(ok(station("KBOS"))));
    let step = task.step(Event::Station(status(404)));
    assert!(matches!(
        step.action,
        Action::Abort(ClientError::InvalidStation(_))
    ));
    assert_eq!(task.phase(), Phase::Aborted);
}

#[test]
fn strict_policy_aborts_on_any_failure() {
    let mut task = task(&["KBOS", "KSEA"]);
    task.step(Event::Start);
    let step = task.step(Event::Station(status(500)));
    match step.action {
        Action::Abort(ClientError::Unexpected(500, url)) => {
            assert_eq!(url, "https://api.weather.gov/stations/KBOS");
        }
        other => panic!("expected an abort, got {:?}", other),
    }
    assert_eq!(task.phase(), Phase::Aborted);

    let mut task = task_with_failure(Reply::Failed("timed out".to_string()));
    assert_eq!(task.phase(), Phase::Aborted);
    assert!(matches!(task.step(Event::Tick).action, Action::Idle));

    let mut task = task_with_failure(Reply::Answered(200, Err("bad body".to_string())));
    assert_eq!(task.phase(), Phase::Aborted);
    assert!(matches!(task.step(Event::Tick).action, Action::Idle));
}

fn task_with_failure(reply: Reply<Station>) -> UpdateTask {
    let mut task = task(&["KBOS"]);
    task.step(Event::Start);
    let step = task.step(Event::Station(reply));
    assert!(matches!(step.action, Action::Abort(_)));
    task
}

#[test]
fn lenient_policy_warns_and_goes_on() {
    let mut task = task(&["KBOS", "KSEA"]).with_policy(Policy::Lenient);
    task.step(Event::Start);
    let step = task.step(Event::Station(status(503)));
    match &step.notice {
        Some(Notice::Skipped { station, error }) => {
            assert_eq!(station, "KBOS");
            assert!(matches!(error, ClientError::Unexpected(503, _)));
        }
        other => panic!("expected a warning, got {:?}", other),
    }
    assert_eq!(step.notice.as_ref().unwrap().level(), Level::Warn);
    assert_eq!(fetch_station(&step).url, "https://api.weather.gov/stations/KSEA");
    let step = task.step(Event::Station(Reply::Failed("timed out".to_string())));
    assert!(matches!(step.notice, Some(Notice::Skipped { .. })));
    assert!(matches!(step.action, Action::Ready));
    assert_eq!(task.phase(), Phase::Waiting);
    assert!(task.metrics().samples().is_empty());
}

#[test]
fn task_without_stations_is_ready_at_once() {
    let mut task = task(&[]);
    let step = task.step(Event::Start);
    assert!(matches!(step.action, Action::Ready));
    let step = task.step(Event::Tick);
    assert!(matches!(step.action, Action::Wait(300)));
    assert_eq!(task.phase(), Phase::Waiting);
}

#[test]
fn tick_polls_every_station_in_order() {
    let mut task = initialized(&["KBOS", "KSEA"]);
    let step = task.step(Event::Tick);
    assert!(step.notice.is_none());
    assert_eq!(
        fetch_observation(&step).url,
        "https://api.weather.gov/stations/KBOS/observations/latest"
    );
    assert_eq!(task.phase(), Phase::Polling(0));
    let step = task.step(Event::Observation(ok(observation("KBOS", Some(1.5), None))));
    match &step.notice {
        Some(Notice::Fetched { station, observation }) => {
            assert_eq!(station, "KBOS");
            assert_eq!(observation, "obs-of-KBOS");
        }
        other => panic!("expected a success notice, got {:?}", other),
    }
    assert_eq!(step.notice.as_ref().unwrap().level(), Level::Info);
    assert_eq!(
        fetch_observation(&step).url,
        "https://api.weather.gov/stations/KSEA/observations/latest"
    );
    let step = task.step(Event::Observation(ok(observation("KSEA", Some(2.5), None))));
    assert!(matches!(step.action, Action::Wait(300)));
    assert_eq!(task.phase(), Phase::Waiting);
    assert_eq!(temperature(&task, "KBOS"), Some(1.5));
    assert_eq!(temperature(&task, "KSEA"), Some(2.5));
}

#[test]
fn invalid_station_during_polling_does_not_stop_the_sweep() {
    let mut task = initialized(&["GONE", "KBOS", "KSEA"]);
    task.step(Event::Tick);
    let step = task.step(Event::Observation(status(404)));
    match &step.notice {
        Some(Notice::Failed { station, error }) => {
            assert_eq!(station, "GONE");
            assert!(matches!(error, ClientError::InvalidStation(id) if id == "GONE"));
        }
        other => panic!("expected a failure notice, got {:?}", other),
    }
    assert_eq!(step.notice.as_ref().unwrap().level(), Level::Error);
    assert_eq!(
        fetch_observation(&step).url,
        "https://api.weather.gov/stations/KBOS/observations/latest"
    );
    let step = task.step(Event::Observation(ok(observation("KBOS", Some(4.0), None))));
    fetch_observation(&step);
    let step = task.step(Event::Observation(ok(observation("KSEA", Some(5.0), None))));
    assert!(matches!(step.action, Action::Wait(300)));
    assert_eq!(temperature(&task, "KBOS"), Some(4.0));
    assert_eq!(temperature(&task, "KSEA"), Some(5.0));
    assert_eq!(temperature(&task, "GONE"), None);
}

#[test]
fn server_error_for_one_station_leaves_the_other_updating() {
    let mut task = initialized(&["KBOS", "KSEA"]);
    task.step(Event::Tick);
    task.step(Event::Observation(ok(observation("KBOS", Some(10.0), None))));
    task.step(Event::Observation(ok(observation("KSEA", Some(20.0), None))));

    task.step(Event::Tick);
    let first = task.step(Event::Observation(status(500)));
    let second = task.step(Event::Observation(ok(observation("KSEA", Some(21.0), None))));
    match first.notice {
        Some(Notice::Failed { station, error }) => {
            assert_eq!(station, "KBOS");
            assert_eq!(
                error.message(),
                "unexpected status 500 for https://api.weather.gov/stations/KBOS/observations/latest"
            );
        }
        other => panic!("expected a failure notice, got {:?}", other),
    }
    assert!(matches!(second.notice, Some(Notice::Fetched { .. })));
    assert!(matches!(second.action, Action::Wait(300)));
    assert_eq!(temperature(&task, "KBOS"), Some(10.0));
    assert_eq!(temperature(&task, "KSEA"), Some(21.0));
}

#[test]
fn every_kind_of_failure_is_passed_over() {
    let failures: Vec<Reply<Observation>> = vec![
        status(404),
        status(500),
        Reply::Failed("timed out".to_string()),
        Reply::Answered(200, Err("missing field `properties`".to_string())),
    ];
    for failure in failures {
        let mut task = initialized(&["KBOS", "KSEA"]);
        task.step(Event::Tick);
        let step = task.step(Event::Observation(failure));
        assert!(matches!(step.notice, Some(Notice::Failed { .. })));
        fetch_observation(&step);
        assert_eq!(task.phase(), Phase::Polling(1));
        assert!(task.metrics().samples().len() == 2);
    }
}

#[test]
fn kbos_keeps_its_temperature_over_two_ticks() {
    let mut task = initialized(&["KBOS"]);
    task.step(Event::Tick);
    task.step(Event::Observation(ok(observation("KBOS", Some(21.5), None))));
    assert_eq!(temperature(&task, "KBOS"), Some(21.5));
    assert_eq!(dewpoint(&task, "KBOS"), None);
    task.step(Event::Tick);
    task.step(Event::Observation(ok(observation("KBOS", None, None))));
    assert_eq!(temperature(&task, "KBOS"), Some(21.5));
    assert_eq!(dewpoint(&task, "KBOS"), None);
}

#[test]
fn tick_during_a_sweep_is_skipped() {
    let mut task = initialized(&["KBOS", "KSEA"]);
    task.step(Event::Tick);
    let step = task.step(Event::Tick);
    assert!(matches!(step.action, Action::Idle));
    assert!(step.notice.is_none());
    assert_eq!(task.phase(), Phase::Polling(0));
    let step = task.step(Event::Observation(ok(observation("KBOS", Some(1.0), None))));
    assert_eq!(
        fetch_observation(&step).url,
        "https://api.weather.gov/stations/KSEA/observations/latest"
    );
}

#[test]
fn events_out_of_turn_change_nothing() {
    let mut task = task(&["KBOS"]);
    assert!(matches!(task.step(Event::Tick).action, Action::Idle));
    assert!(matches!(
        task.step(Event::Observation(ok(observation("KBOS", Some(1.0), None)))).action,
        Action::Idle
    ));
    assert!(matches!(
        task.step(Event::Station(ok(station("KBOS")))).action,
        Action::Idle
    ));
    assert_eq!(task.phase(), Phase::Created);
    assert!(task.metrics().samples().is_empty());

    let mut task = initialized(&["KBOS"]);
    assert!(matches!(task.step(Event::Start).action, Action::Idle));
    assert!(matches!(
        task.step(Event::Station(ok(station("KBOS")))).action,
        Action::Idle
    ));
    assert!(matches!(
        task.step(Event::Observation(ok(observation("KBOS", Some(1.0), None)))).action,
        Action::Idle
    ));
    assert_eq!(task.phase(), Phase::Waiting);
    assert_eq!(temperature(&task, "KBOS"), None);
}

#[test]
fn wait_carries_the_interval() {
    let mut task = UpdateTask::new(
        vec!["KBOS".to_string()],
        ForecastMetrics::new(),
        WeatherGovClient::new("https://api.weather.gov/"),
        15,
    );
    task.step(Event::Start);
    task.step(Event::Station(ok(station("KBOS"))));
    task.step(Event::Tick);
    let step = task.step(Event::Observation(status(500)));
    assert!(matches!(step.action, Action::Wait(15)));
}

#[test]
fn task_starts_from_the_gauges_it_is_given() {
    let mut metrics = ForecastMetrics::new();
    metrics.observation(&observation("KBOS", Some(7.0), None));
    let task = UpdateTask::new(
        vec!["KBOS".to_string()],
        metrics,
        WeatherGovClient::new("https://api.weather.gov/"),
        300,
    );
    assert_eq!(temperature(&task, "KBOS"), Some(7.0));
}
