//! The refresh schedule: which station is asked for what, and when.
//!
//! The schedule is a state machine. The surrounding program feeds it events
//! (the start of the process, a timer tick, the outcome of a request) and
//! carries out the action that each step returns. The machine owns the list
//! of stations and the gauges, so the order of the requests and the effect
//! of every outcome are decided here.
//!
//! It runs in two phases. Initialization asks for the metadata of every
//! station once, in configuration order, before anything is served; a
//! station that upstream does not know ends it for good. Polling then asks
//! for the latest observation of every station on every tick, in the same
//! order; a failure there is reported and the sweep moves on.

use crate::client::{
    classified, ClientError, ClientErrorView, Observation, Reply, Request, Station,
    WeatherGovClient, JSON_RESPONSE, STATUS_OK, USER_AGENT,
};
use crate::metrics::{
    gauge_key, info_key, record_observation, record_station, written, ForecastMetrics, Metric,
    SampleKey,
};
use crate::text::texts;
use vstd::prelude::*;

verus! {

/// What initialization does with a failure other than an unknown station.
#[derive(Debug, Clone, Copy, PartialEq, Eq, Structural)]
pub enum Policy {
    /// Any failure to fetch station metadata aborts startup. The default.
    Strict,
    /// Only an unknown station aborts startup; any other failure is
    /// reported and initialization goes on without that station's metadata.
    Lenient,
}

/// Where the schedule stands.
#[derive(Debug, Clone, Copy, PartialEq, Eq, Structural)]
pub enum Phase {
    /// Nothing has been asked for yet.
    Created,
    /// The metadata of the station at this place in the list is awaited.
    Initializing(usize),
    /// Initialization is done and no sweep is under way.
    Waiting,
    /// A sweep is under way: the observation of the station at this place is awaited.
    Polling(usize),
    /// Initialization failed. Nothing follows.
    Aborted,
}

/// What happened outside.
#[derive(Debug)]
pub enum Event {
    /// The process started.
    Start,
    /// What came of the request for station metadata.
    Station(Reply<Station>),
    /// The refresh timer fired.
    Tick,
    /// What came of the request for an observation.
    Observation(Reply<Observation>),
}

/// What the surrounding program is to do next.
#[derive(Debug)]
pub enum Action {
    /// Send this request and hand back `Event::Station`.
    FetchStation(Request),
    /// Send this request and hand back `Event::Observation`.
    FetchObservation(Request),
    /// Initialization succeeded: start serving, and start the refresh timer,
    /// whose first tick is due at once.
    Ready,
    /// The sweep is over: hand back `Event::Tick` after this many seconds.
    Wait(u64),
    /// The event was not awaited and changed nothing: there is nothing to do.
    Idle,
    /// Initialization failed for this reason: exit with a failure status.
    Abort(ClientError),
}

/// What a step has to report to the operator.
#[derive(Debug)]
pub enum Notice {
    /// A new observation of this station was recorded, with this identity.
    Fetched { station: String, observation: String },
    /// The observation of this station could not be fetched.
    Failed { station: String, error: ClientError },
    /// The metadata of this station could not be fetched; startup goes on.
    Skipped { station: String, error: ClientError },
}

/// How much a notice matters.
#[derive(Debug, Clone, Copy, PartialEq, Eq, Structural)]
pub enum Level {
    Info,
    Warn,
    Error,
}

impl Notice {
    /// The level at which the notice is to be logged: a recorded
    /// observation is a success, a failed poll an error, and metadata that
    /// startup went on without a warning.
    pub fn level(&self) -> (level: Level)
        ensures
            level == match *self {
                Notice::Fetched { .. } => Level::Info,
                Notice::Failed { .. } => Level::Error,
                Notice::Skipped { .. } => Level::Warn,
            },
    {
        match self {
            Notice::Fetched { .. } => Level::Info,
            Notice::Failed { .. } => Level::Error,
            Notice::Skipped { .. } => Level::Warn,
        }
    }
}

/// The outcome of one step.
#[derive(Debug)]
pub struct Step {
    pub notice: Option<Notice>,
    pub action: Action,
}

/// A `Request` with its texts as character sequences.
pub struct RequestView {
    pub url: Seq<char>,
    pub user_agent: Seq<char>,
    pub accept: Seq<char>,
}

/// An `Action` with its texts as character sequences.
pub enum ActionView {
    FetchStation(RequestView),
    FetchObservation(RequestView),
    Ready,
    Wait(u64),
    Idle,
    Abort(ClientErrorView),
}

/// A `Notice` with its texts as character sequences.
pub enum NoticeView {
    Fetched { station: Seq<char>, observation: Seq<char> },
    Failed { station: Seq<char>, error: ClientErrorView },
    Skipped { station: Seq<char>, error: ClientErrorView },
}

/// A `Step` with its texts as character sequences.
pub struct StepView {
    pub notice: Option<NoticeView>,
    pub action: ActionView,
}

/// The view of a request.
pub open spec fn request_view(request: Request) -> RequestView {
    RequestView { url: request.url@, user_agent: request.user_agent@, accept: request.accept@ }
}

impl View for Action {
    type V = ActionView;

    open spec fn view(&self) -> ActionView {
        match *self {
            Action::FetchStation(request) => ActionView::FetchStation(request_view(request)),
            Action::FetchObservation(request) => ActionView::FetchObservation(
                request_view(request),
            ),
            Action::Ready => ActionView::Ready,
            Action::Wait(seconds) => ActionView::Wait(seconds),
            Action::Idle => ActionView::Idle,
            Action::Abort(error) => ActionView::Abort(error@),
        }
    }
}

impl View for Notice {
    type V = NoticeView;

    open spec fn view(&self) -> NoticeView {
        match *self {
            Notice::Fetched { station, observation } => NoticeView::Fetched {
                station: station@,
                observation: observation@,
            },
            Notice::Failed { station, error } => NoticeView::Failed {
                station: station@,
                error: error@,
            },
            Notice::Skipped { station, error } => NoticeView::Skipped {
                station: station@,
                error: error@,
            },
        }
    }
}

impl View for Step {
    type V = StepView;

    open spec fn view(&self) -> StepView {
        StepView {
            notice: match self.notice {
                Some(notice) => Some(notice@),
                None => None,
            },
            action: self.action@,
        }
    }
}

/// The schedule as a mathematical value.
pub struct TaskView {
    /// The identifiers of the configured stations, in configuration order.
    pub stations: Seq<Seq<char>>,
    pub client: WeatherGovClient,
    /// The seconds between two ticks.
    pub interval: u64,
    pub policy: Policy,
    pub phase: Phase,
    pub gauges: Map<SampleKey, u64>,
}

impl TaskView {
    /// A phase that awaits a station names a station of the list, and the
    /// list is one that fits in memory.
    pub open spec fn well_formed(self) -> bool {
        &&& self.stations.len() <= usize::MAX
        &&& match self.phase {
            Phase::Initializing(i) => i < self.stations.len(),
            Phase::Polling(i) => i < self.stations.len(),
            _ => true,
        }
    }

    /// The request for the metadata of the station at place `i`.
    pub open spec fn station_request(self, i: int) -> RequestView {
        RequestView {
            url: self.client.station_url_of(self.stations[i]),
            user_agent: USER_AGENT@,
            accept: JSON_RESPONSE@,
        }
    }

    /// The request for the latest observation of the station at place `i`.
    pub open spec fn observation_request(self, i: int) -> RequestView {
        RequestView {
            url: self.client.observation_url_of(self.stations[i]),
            user_agent: USER_AGENT@,
            accept: JSON_RESPONSE@,
        }
    }

    /// The schedule in another phase.
    pub open spec fn in_phase(self, phase: Phase) -> TaskView {
        TaskView { phase, ..self }
    }

    /// The schedule with other gauges.
    pub open spec fn with_gauges(self, gauges: Map<SampleKey, u64>) -> TaskView {
        TaskView { gauges, ..self }
    }

    /// Initialization turns to the station at place `i`: its metadata is
    /// asked for, or, where the list is done, the schedule is ready.
    pub open spec fn initialize_from(self, i: int, notice: Option<NoticeView>) -> (
        TaskView,
        StepView,
    ) {
        if i < self.stations.len() {
            (
                self.in_phase(Phase::Initializing(i as usize)),
                StepView { notice, action: ActionView::FetchStation(self.station_request(i)) },
            )
        } else {
            (self.in_phase(Phase::Waiting), StepView { notice, action: ActionView::Ready })
        }
    }

    /// The sweep turns to the station at place `i`: its observation is
    /// asked for, or, where the list is done, the next tick is awaited.
    pub open spec fn poll_from(self, i: int, notice: Option<NoticeView>) -> (TaskView, StepView) {
        if i < self.stations.len() {
            (
                self.in_phase(Phase::Polling(i as usize)),
                StepView {
                    notice,
                    action: ActionView::FetchObservation(self.observation_request(i)),
                },
            )
        } else {
            (
                self.in_phase(Phase::Waiting),
                StepView { notice, action: ActionView::Wait(self.interval) },
            )
        }
    }

    /// The event changes nothing.
    pub open spec fn ignore(self) -> (TaskView, StepView) {
        (self, StepView { notice: None, action: ActionView::Idle })
    }

    /// What the metadata of the station at place `i` leads to.
    pub open spec fn station_fetched(self, i: int, reply: Reply<Station>) -> (TaskView, StepView) {
        let station = self.stations[i];
        match classified(station, self.client.station_url_of(station), reply) {
            Ok(record) => self.with_gauges(record_station(self.gauges, record)).initialize_from(
                i + 1,
                None,
            ),
            Err(error) => if self.policy == Policy::Lenient && !(error
                is InvalidStation) {
                self.initialize_from(i + 1, Some(NoticeView::Skipped { station, error }))
            } else {
                (
                    self.in_phase(Phase::Aborted),
                    StepView { notice: None, action: ActionView::Abort(error) },
                )
            },
        }
    }

    /// What the observation of the station at place `i` leads to.
    pub open spec fn observation_fetched(self, i: int, reply: Reply<Observation>) -> (
        TaskView,
        StepView,
    ) {
        let station = self.stations[i];
        match classified(station, self.client.observation_url_of(station), reply) {
            Ok(record) => self.with_gauges(record_observation(self.gauges, record)).poll_from(
                i + 1,
                Some(NoticeView::Fetched { station, observation: record.id@ }),
            ),
            Err(error) => self.poll_from(i + 1, Some(NoticeView::Failed { station, error })),
        }
    }

    /// The step that `event` causes: the schedule after it, and what it returns.
    ///
    /// An event that the phase does not await is ignored. This is what
    /// keeps sweeps apart: a tick that fires while a sweep is under way
    /// starts no second one.
    pub open spec fn step(self, event: Event) -> (TaskView, StepView) {
        match (self.phase, event) {
            (Phase::Created, Event::Start) => self.initialize_from(0, None),
            (Phase::Initializing(i), Event::Station(reply)) => if i < self.stations.len() {
                self.station_fetched(i as int, reply)
            } else {
                self.ignore()
            },
            (Phase::Waiting, Event::Tick) => self.poll_from(0, None),
            (Phase::Polling(i), Event::Observation(reply)) => if i < self.stations.len() {
                self.observation_fetched(i as int, reply)
            } else {
                self.ignore()
            },
            _ => self.ignore(),
        }
    }
}

/// The task that keeps the gauges up to date.
#[derive(Debug)]
pub struct UpdateTask {
    stations: Vec<String>,
    metrics: ForecastMetrics,
    client: WeatherGovClient,
    interval: u64,
    policy: Policy,
    phase: Phase,
}

impl View for UpdateTask {
    type V = TaskView;

    closed spec fn view(&self) -> TaskView {
        TaskView {
            stations: texts(self.stations@),
            client: self.client,
            interval: self.interval,
            policy: self.policy,
            phase: self.phase,
            gauges: self.metrics@,
        }
    }
}

impl UpdateTask {
    /// A task for these stations that has not started yet. `interval` is
    /// the number of seconds between two ticks. Initialization is strict.
    pub fn new(
        stations: Vec<String>,
        metrics: ForecastMetrics,
        client: WeatherGovClient,
        interval: u64,
    ) -> (task: Self)
        ensures
            task@ == (TaskView {
                stations: texts(stations@),
                client,
                interval,
                policy: Policy::Strict,
                phase: Phase::Created,
                gauges: metrics@,
            }),
            task@.well_formed(),
    {
        assert(texts(stations@).len() == stations.len());
        UpdateTask {
            stations,
            metrics,
            client,
            interval,
            policy: Policy::Strict,
            phase: Phase::Created,
        }
    }

    /// The same task with another initialization policy.
    pub fn with_policy(self, policy: Policy) -> (task: Self)
        ensures
            task@ == (TaskView { policy, ..self@ }),
    {
        let mut task = self;
        task.policy = policy;
        task
    }

    /// The gauges as they stand.
    pub fn metrics(&self) -> (metrics: &ForecastMetrics)
        ensures
            metrics@ == self@.gauges,
    {
        &self.metrics
    }

    /// The phase the task is in.
    pub fn phase(&self) -> (phase: Phase)
        ensures
            phase == self@.phase,
    {
        self.phase
    }

    /// Initialization turns to the station at place `i`.
    fn initialize_from(&mut self, i: usize, notice: Option<Notice>) -> (step: Step)
        requires
            i <= old(self).stations.len(),
        ensures
            (final(self)@, step@) == old(self)@.initialize_from(
                i as int,
                match notice {
                    Some(n) => Some(n@),
                    None => None,
                },
            ),
    {
        if i < self.stations.len() {
            let request = self.client.station_request(self.stations[i].as_str());
            self.phase = Phase::Initializing(i);
            Step { notice, action: Action::FetchStation(request) }
        } else {
            self.phase = Phase::Waiting;
            Step { notice, action: Action::Ready }
        }
    }

    /// The sweep turns to the station at place `i`.
    fn poll_from(&mut self, i: usize, notice: Option<Notice>) -> (step: Step)
        requires
            i <= old(self).stations.len(),
        ensures
            (final(self)@, step@) == old(self)@.poll_from(
                i as int,
                match notice {
                    Some(n) => Some(n@),
                    None => None,
                },
            ),
    {
        if i < self.stations.len() {
            let request = self.client.observation_request(self.stations[i].as_str());
            self.phase = Phase::Polling(i);
            Step { notice, action: Action::FetchObservation(request) }
        } else {
            self.phase = Phase::Waiting;
            Step { notice, action: Action::Wait(self.interval) }
        }
    }

    /// Takes in what came of the request for the metadata of the station at place `i`.
    fn station_fetched(&mut self, i: usize, reply: Reply<Station>) -> (step: Step)
        requires
            i < old(self).stations.len(),
        ensures
            (final(self)@, step@) == old(self)@.station_fetched(i as int, reply),
    {
        let outcome = self.client.station(self.stations[i].as_str(), reply);
        match outcome {
            Ok(record) => {
                self.metrics.station(&record);
                self.initialize_from(i + 1, None)
            },
            Err(error) => {
                let unknown = match error {
                    ClientError::InvalidStation(_) => true,
                    _ => false,
                };
                if self.policy == Policy::Lenient && !unknown {
                    let station = self.stations[i].clone();
                    self.initialize_from(i + 1, Some(Notice::Skipped { station, error }))
                } else {
                    self.phase = Phase::Aborted;
                    Step { notice: None, action: Action::Abort(error) }
                }
            },
        }
    }

    /// Takes in what came of the request for the observation of the station at place `i`.
    fn observation_fetched(&mut self, i: usize, reply: Reply<Observation>) -> (step: Step)
        requires
            i < old(self).stations.len(),
        ensures
            (final(self)@, step@) == old(self)@.observation_fetched(i as int, reply),
    {
        let outcome = self.client.observation(self.stations[i].as_str(), reply);
        let station = self.stations[i].clone();
        match outcome {
            Ok(record) => {
                self.metrics.observation(&record);
                let observation = record.id.clone();
                self.poll_from(i + 1, Some(Notice::Fetched { station, observation }))
            },
            Err(error) => self.poll_from(i + 1, Some(Notice::Failed { station, error })),
        }
    }

    /// Takes in an event and says what to do next.
    pub fn step(&mut self, event: Event) -> (step: Step)
        ensures
            (final(self)@, step@) == old(self)@.step(event),
            old(self)@.well_formed() ==> final(self)@.well_formed(),
    {
        match (self.phase, event) {
            (Phase::Created, Event::Start) => self.initialize_from(0, None),
            (Phase::Initializing(i), Event::Station(reply)) => {
                if i < self.stations.len() {
                    self.station_fetched(i, reply)
                } else {
                    Step { notice: None, action: Action::Idle }
                }
            },
            (Phase::Waiting, Event::Tick) => self.poll_from(0, None),
            (Phase::Polling(i), Event::Observation(reply)) => {
                if i < self.stations.len() {
                    self.observation_fetched(i, reply)
                } else {
                    Step { notice: None, action: Action::Idle }
                }
            },
            _ => Step { notice: None, action: Action::Idle },
        }
    }
}

/// Whether this outcome of the request for the metadata of the station at
/// place `i` ends initialization: an unknown station always does, any other
/// failure does under the strict policy.
pub open spec fn fatal(task: TaskView, i: int, reply: Reply<Station>) -> bool {
    match classified(task.stations[i], task.client.station_url_of(task.stations[i]), reply) {
        Ok(_) => false,
        Err(error) => task.policy == Policy::Strict || error is InvalidStation,
    }
}

/// The schedule after the start of the process and the outcomes of the
/// requests for the metadata of the first stations, with the last step taken.
pub open spec fn after_initialization(task: TaskView, replies: Seq<Reply<Station>>) -> (
    TaskView,
    StepView,
)
    decreases replies.len(),
{
    if replies.len() == 0 {
        task.step(Event::Start)
    } else {
        after_initialization(task, replies.drop_last()).0.step(Event::Station(replies.last()))
    }
}

/// The gauges after initialization took in these outcomes: the metadata of
/// every station that was fetched is recorded.
pub open spec fn initialized_gauges(task: TaskView, replies: Seq<Reply<Station>>) -> Map<
    SampleKey,
    u64,
>
    decreases replies.len(),
{
    if replies.len() == 0 {
        task.gauges
    } else {
        let before = initialized_gauges(task, replies.drop_last());
        let station = task.stations[replies.len() - 1];
        match classified(station, task.client.station_url_of(station), replies.last()) {
            Ok(record) => record_station(before, record),
            Err(_) => before,
        }
    }
}

/// The schedule after a tick and the outcomes of the requests for the
/// observations of the first stations, with the last step taken.
pub open spec fn after_sweep(task: TaskView, replies: Seq<Reply<Observation>>) -> (
    TaskView,
    StepView,
)
    decreases replies.len(),
{
    if replies.len() == 0 {
        task.step(Event::Tick)
    } else {
        after_sweep(task, replies.drop_last()).0.step(Event::Observation(replies.last()))
    }
}

/// The gauges after a sweep took in these outcomes: every observation that
/// was fetched is recorded, in the order of the stations, and a failure
/// changes nothing.
pub open spec fn swept_gauges(task: TaskView, replies: Seq<Reply<Observation>>) -> Map<
    SampleKey,
    u64,
>
    decreases replies.len(),
{
    if replies.len() == 0 {
        task.gauges
    } else {
        let before = swept_gauges(task, replies.drop_last());
        let station = task.stations[replies.len() - 1];
        match classified(station, task.client.observation_url_of(station), replies.last()) {
            Ok(record) => record_observation(before, record),
            Err(_) => before,
        }
    }
}

/// A step changes neither the stations nor the client, the interval or the
/// policy, and keeps the schedule well formed.
pub proof fn lemma_step_keeps_configuration(task: TaskView, event: Event)
    requires
        task.well_formed(),
    ensures
        task.step(event).0.well_formed(),
        task.step(event).0.stations == task.stations,
        task.step(event).0.client == task.client,
        task.step(event).0.interval == task.interval,
        task.step(event).0.policy == task.policy,
{
}

/// Within a tick every configured station is polled, in configuration
/// order, whatever the other stations answered: after the outcomes of the
/// first `k` stations, failures of any kind among them, the observation of
/// station `k` is asked for, and after the last the next tick is awaited.
/// The gauges hold every observation that was fetched, and a station that
/// failed has changed none. Each outcome is reported for its own station
/// alone: a success with the identity of the observation, a failure with
/// the error.
pub proof fn lemma_sweep_polls_every_station(task: TaskView, replies: Seq<Reply<Observation>>)
    requires
        task.well_formed(),
        task.phase == Phase::Waiting,
        replies.len() <= task.stations.len(),
    ensures
        ({
            let (after, step) = after_sweep(task, replies);
            let k = replies.len();
            &&& after == task.with_gauges(swept_gauges(task, replies)).in_phase(
                if k < task.stations.len() {
                    Phase::Polling(k as usize)
                } else {
                    Phase::Waiting
                },
            )
            &&& step.action == if k < task.stations.len() {
                ActionView::FetchObservation(task.observation_request(k as int))
            } else {
                ActionView::Wait(task.interval)
            }
            &&& step.notice == if k == 0 {
                None
            } else {
                let station = task.stations[k - 1];
                match classified(
                    station,
                    task.client.observation_url_of(station),
                    replies.last(),
                ) {
                    Ok(record) => Some(
                        NoticeView::Fetched { station, observation: record.id@ },
                    ),
                    Err(error) => Some(NoticeView::Failed { station, error }),
                }
            }
        }),
    decreases replies.len(),
{
    if replies.len() > 0 {
        lemma_sweep_polls_every_station(task, replies.drop_last());
    }
}

/// Initialization asks for the metadata of every station in configuration
/// order and declares the schedule ready only after all of them, and only
/// if no outcome was fatal. After a fatal outcome the schedule is aborted
/// and the step that follows is never `Ready`.
pub proof fn lemma_initialization(task: TaskView, replies: Seq<Reply<Station>>)
    requires
        task.well_formed(),
        task.phase == Phase::Created,
        replies.len() <= task.stations.len(),
    ensures
        ({
            let (after, step) = after_initialization(task, replies);
            let k = replies.len();
            &&& (forall|j: int| 0 <= j < k ==> !fatal(task, j, #[trigger] replies[j])) ==> {
                &&& after == task.with_gauges(initialized_gauges(task, replies)).in_phase(
                    if k < task.stations.len() {
                        Phase::Initializing(k as usize)
                    } else {
                        Phase::Waiting
                    },
                )
                &&& step.action == if k < task.stations.len() {
                    ActionView::FetchStation(task.station_request(k as int))
                } else {
                    ActionView::Ready
                }
            }
            &&& (exists|j: int| 0 <= j < k && fatal(task, j, #[trigger] replies[j])) ==> {
                &&& after.phase == Phase::Aborted
                &&& !(step.action is Ready)
            }
        }),
    decreases replies.len(),
{
    if replies.len() > 0 {
        let earlier = replies.drop_last();
        let k = replies.len();
        lemma_initialization(task, earlier);
        assert forall|j: int| 0 <= j < k - 1 implies earlier[j] == replies[j] by {}
        if exists|j: int| 0 <= j < k - 1 && fatal(task, j, #[trigger] earlier[j]) {
            let j = choose|j: int| 0 <= j < k - 1 && fatal(task, j, #[trigger] earlier[j]);
            assert(fatal(task, j, replies[j]));
        } else {
            if exists|j: int| 0 <= j < k && fatal(task, j, #[trigger] replies[j]) {
                let j = choose|j: int| 0 <= j < k && fatal(task, j, #[trigger] replies[j]);
                if j < k - 1 {
                    assert(fatal(task, j, earlier[j]));
                }
                assert(j == k - 1);
                assert(replies[k - 1] == replies.last());
            } else {
                assert(!fatal(task, k - 1, replies[k - 1]));
            }
        }
    }
}

/// An aborted schedule stays aborted: every event is ignored, so it never
/// becomes ready and never asks for anything again.
pub proof fn lemma_aborted_is_final(task: TaskView, event: Event)
    requires
        task.phase == Phase::Aborted,
    ensures
        task.step(event) == task.ignore(),
{
}

/// A tick that fires while a sweep is under way is skipped: it changes
/// nothing and asks for nothing, so two sweeps never run at once.
pub proof fn lemma_tick_during_sweep_is_skipped(task: TaskView)
    requires
        task.phase is Polling,
    ensures
        task.step(Event::Tick) == task.ignore(),
{
}

/// Whether the event hands over a record that was fetched with success.
pub open spec fn delivers_record(event: Event) -> bool {
    match event {
        Event::Station(Reply::Answered(status, Ok(_))) => status == STATUS_OK,
        Event::Observation(Reply::Answered(status, Ok(_))) => status == STATUS_OK,
        _ => false,
    }
}

/// Only a record that was fetched with success changes a gauge. A failure
/// of any kind, a tick, or an event out of turn leaves every gauge with the
/// value last recorded, for as long as upstream stays unavailable.
pub proof fn lemma_only_records_change_gauges(task: TaskView, event: Event)
    requires
        !delivers_record(event),
    ensures
        task.step(event).0.gauges == task.gauges,
{
}

/// The schedule after a series of events, oldest first.
pub open spec fn run(task: TaskView, events: Seq<Event>) -> TaskView
    decreases events.len(),
{
    if events.len() == 0 {
        task
    } else {
        run(task, events.drop_last()).step(events.last()).0
    }
}

/// Whether the event hands over an observation of the station that
/// `station` refers to, fetched with success.
pub open spec fn observed(event: Event, station: Seq<char>) -> bool {
    event matches Event::Observation(Reply::Answered(status, Ok(record))) && status == STATUS_OK
        && record.properties.station@ == station
}

/// A station that was never polled with success has no gauge: whatever
/// happens, in whatever order, a gauge of a station that had none appears
/// only with an observation of that station. Failed polls, ticks and
/// station metadata create none.
pub proof fn lemma_gauges_come_from_observations(
    task: TaskView,
    events: Seq<Event>,
    metric: Metric,
    station: Seq<char>,
)
    requires
        !task.gauges.contains_key(gauge_key(metric, station)),
        forall|i: int| 0 <= i < events.len() ==> !observed(#[trigger] events[i], station),
    ensures
        !run(task, events).gauges.contains_key(gauge_key(metric, station)),
    decreases events.len(),
{
    if events.len() > 0 {
        let earlier = events.drop_last();
        assert forall|i: int| 0 <= i < earlier.len() implies !observed(
            #[trigger] earlier[i],
            station,
        ) by {
            assert(earlier[i] == events[i]);
        }
        lemma_gauges_come_from_observations(task, earlier, metric, station);
        let before = run(task, earlier);
        let event = events.last();
        assert(event == events[events.len() - 1]);
        assert(!observed(event, station));
        let key = gauge_key(metric, station);
        assert(key.labels.len() == 1);
        assert(key.labels[0] == station);
        match (before.phase, event) {
            (Phase::Initializing(i), Event::Station(reply)) => {
                if i < before.stations.len() {
                    let name = before.stations[i as int];
                    match classified(name, before.client.station_url_of(name), reply) {
                        Ok(record) => {
                            assert(info_key(record).labels.len() == 3);
                        },
                        Err(_) => {},
                    }
                }
            },
            (Phase::Polling(i), Event::Observation(reply)) => {
                if i < before.stations.len() {
                    let name = before.stations[i as int];
                    match classified(name, before.client.observation_url_of(name), reply) {
                        Ok(record) => {
                            assert(seq![record.properties.station@][0]
                                == record.properties.station@);
                            assert(written(record, key) is None);
                        },
                        Err(_) => {},
                    }
                }
            },
            _ => {},
        }
    }
}

} // verus!
