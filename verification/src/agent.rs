//! Startup and its failure policy.
//!
//! The agent comes up in a fixed order: wireless link, clock, broker
//! connection. A failure in any of the three is fatal and is handed to the
//! process entry point. Once the loop runs, nothing is: failures of a tick
//! stay inside the tick, and the agent has no way back out of the loop.
//!
//! Network, broker account and client name are no constants of the program:
//! they are a [`Config`], made once at startup.

use crate::clock::{ClockControl, ClockError, TimeSource};
use crate::telemetry::MainLoop;
use crate::wifi::{LinkError, LinkHandle, WifiManager};
use crate::wire::Encoding;
use vstd::prelude::*;

verus! {

/// Time allowed for the link to settle, in milliseconds.
pub const LINK_TIMEOUT_MS: u64 = 20_000;

/// Sleep between two ticks, in milliseconds.
pub const TICK_SLEEP_MS: u32 = 5_000;

/// Pause between link and broker connection, in milliseconds.
pub const BROKER_SETTLE_MS: u32 = 2_000;

/// Everything the agent is told at startup.
#[derive(Clone, Debug, PartialEq, Eq)]
pub struct Config {
    pub wifi_ssid: String,
    pub wifi_password: String,
    pub link_timeout_ms: u64,
    pub clock_start: ClockControl,
    pub mqtt_user: String,
    pub mqtt_password: String,
    pub mqtt_host: String,
    pub client_id: String,
    pub encoding: Encoding,
    pub tick_sleep_ms: u32,
    pub publish_retries: u8,
}

/// The broker connection could not be set up; `code` is the client's own.
#[derive(Clone, Copy, Debug, PartialEq, Eq, Structural)]
pub struct BrokerError {
    pub code: i32,
}

/// A failure that ends the process.
#[derive(Clone, Copy, Debug, PartialEq, Eq, Structural)]
pub enum StartupError {
    Link(LinkError),
    Clock(ClockError),
    Broker(BrokerError),
}

/// How far the agent has come.
#[derive(Clone, Copy, Debug, PartialEq, Eq, Structural)]
pub enum Stage {
    Link,
    Clock,
    Broker,
    Running,
    Aborted(StartupError),
}

/// How a startup step ended.
#[derive(Clone, Copy, Debug, PartialEq, Eq)]
pub enum StageReport {
    Link(Result<LinkHandle, LinkError>),
    Clock(Result<(), ClockError>),
    Broker(Result<(), BrokerError>),
}

/// What the process is to do next.
#[derive(Clone, Copy, Debug, PartialEq, Eq, Structural)]
pub enum Directive {
    /// Bring up the wireless link and report `Link`.
    EstablishLink,
    /// Start the clock and report `Clock`.
    StartClock,
    /// Connect to the broker and report `Broker`.
    ConnectBroker,
    /// Run the main loop; there is nothing to report any more.
    RunLoop,
    /// Give up, with this error.
    Abort(StartupError),
}

/// The startup sequence.
#[derive(Clone, Copy, Debug, PartialEq, Eq, Structural)]
pub struct Agent {
    pub stage: Stage,
}

/// The address of the broker with the account in it:
/// `mqtt://<user>:<password>@<host>`.
pub open spec fn broker_url_of(user: Seq<char>, password: Seq<char>, host: Seq<char>) -> Seq<char> {
    "mqtt://"@ + user + ":"@ + password + "@"@ + host
}

/// The stage after a report. A report on another step than the one under way
/// changes nothing.
pub open spec fn next_stage(stage: Stage, report: StageReport) -> Stage {
    match (stage, report) {
        (Stage::Link, StageReport::Link(Ok(_))) => Stage::Clock,
        (Stage::Link, StageReport::Link(Err(error))) => Stage::Aborted(StartupError::Link(error)),
        (Stage::Clock, StageReport::Clock(Ok(_))) => Stage::Broker,
        (Stage::Clock, StageReport::Clock(Err(error))) => Stage::Aborted(
            StartupError::Clock(error),
        ),
        (Stage::Broker, StageReport::Broker(Ok(_))) => Stage::Running,
        (Stage::Broker, StageReport::Broker(Err(error))) => Stage::Aborted(
            StartupError::Broker(error),
        ),
        _ => stage,
    }
}

/// What there is to do in a stage.
pub open spec fn directive_of(stage: Stage) -> Directive {
    match stage {
        Stage::Link => Directive::EstablishLink,
        Stage::Clock => Directive::StartClock,
        Stage::Broker => Directive::ConnectBroker,
        Stage::Running => Directive::RunLoop,
        Stage::Aborted(error) => Directive::Abort(error),
    }
}

/// The stage after a run of reports, taken in order.
pub open spec fn stage_after(stage: Stage, reports: Seq<StageReport>) -> Stage
    decreases reports.len(),
{
    if reports.len() == 0 {
        stage
    } else {
        next_stage(stage_after(stage, reports.drop_last()), reports.last())
    }
}

/// The error of a report, if it reports a failure.
pub open spec fn failure_of(report: StageReport) -> Option<StartupError> {
    match report {
        StageReport::Link(Err(error)) => Some(StartupError::Link(error)),
        StageReport::Clock(Err(error)) => Some(StartupError::Clock(error)),
        StageReport::Broker(Err(error)) => Some(StartupError::Broker(error)),
        _ => None,
    }
}

/// Some report of the run carries the failure `error`.
pub open spec fn reported_failure(reports: Seq<StageReport>, error: StartupError) -> bool {
    exists|k: int| 0 <= k < reports.len() && #[trigger] failure_of(reports[k]) == Some(error)
}

/// The address of the broker for an account on a host.
pub fn broker_url(user: &str, password: &str, host: &str) -> (url: String)
    ensures
        url@ == broker_url_of(user@, password@, host@),
{
    String::from_str("mqtt://").concat(user).concat(":").concat(password).concat("@").concat(host)
}

impl Config {
    /// The link bring-up for the configured network.
    pub fn wifi_manager(&self) -> (manager: WifiManager)
        ensures
            manager.ssid@ == self.wifi_ssid@,
            manager.password@ == self.wifi_password@,
            manager.timeout_ms == self.link_timeout_ms,
            manager.state == crate::wifi::LinkState::Idle,
    {
        WifiManager::new(self.wifi_ssid.clone(), self.wifi_password.clone(), self.link_timeout_ms)
    }

    /// The time source, not yet started.
    pub fn time_source(&self) -> (source: TimeSource)
        ensures
            source.start_with == self.clock_start,
            !source.running,
    {
        TimeSource::new(self.clock_start)
    }

    /// The address of the broker.
    pub fn broker_url(&self) -> (url: String)
        ensures
            url@ == broker_url_of(self.mqtt_user@, self.mqtt_password@, self.mqtt_host@),
    {
        broker_url(self.mqtt_user.as_str(), self.mqtt_password.as_str(), self.mqtt_host.as_str())
    }

    /// The main loop, about to begin its first tick.
    pub fn main_loop(&self) -> (main_loop: MainLoop)
        ensures
            main_loop.client_id@ == self.client_id@,
            main_loop.encoding == self.encoding,
            main_loop.sleep_ms == self.tick_sleep_ms,
            main_loop.retries == self.publish_retries,
            main_loop.state@ == crate::telemetry::LoopStateView::AwaitingSensor,
    {
        MainLoop::new(
            self.client_id.clone(),
            self.encoding,
            self.tick_sleep_ms,
            self.publish_retries,
        )
    }
}

impl Agent {
    /// An agent with the link still to bring up.
    pub fn new() -> (agent: Agent)
        ensures
            agent.stage == Stage::Link,
    {
        Agent { stage: Stage::Link }
    }

    /// What there is to do in the current stage.
    pub fn directive(&self) -> (directive: Directive)
        ensures
            directive == directive_of(self.stage),
    {
        match self.stage {
            Stage::Link => Directive::EstablishLink,
            Stage::Clock => Directive::StartClock,
            Stage::Broker => Directive::ConnectBroker,
            Stage::Running => Directive::RunLoop,
            Stage::Aborted(error) => Directive::Abort(error),
        }
    }

    /// Takes the report on a startup step and answers with what to do next:
    /// the following step after a success, `Abort` after a failure.
    pub fn report(&mut self, report: StageReport) -> (directive: Directive)
        ensures
            final(self).stage == next_stage(old(self).stage, report),
            directive == directive_of(final(self).stage),
    {
        let next = match self.stage {
            Stage::Link => match report {
                StageReport::Link(Ok(_)) => Stage::Clock,
                StageReport::Link(Err(error)) => Stage::Aborted(StartupError::Link(error)),
                _ => Stage::Link,
            },
            Stage::Clock => match report {
                StageReport::Clock(Ok(_)) => Stage::Broker,
                StageReport::Clock(Err(error)) => Stage::Aborted(StartupError::Clock(error)),
                _ => Stage::Clock,
            },
            Stage::Broker => match report {
                StageReport::Broker(Ok(_)) => Stage::Running,
                StageReport::Broker(Err(error)) => Stage::Aborted(StartupError::Broker(error)),
                _ => Stage::Broker,
            },
            stage => stage,
        };
        self.stage = next;
        self.directive()
    }
}

/// Once the loop runs, no report stops it, and an agent that gave up stays
/// given up.
pub proof fn lemma_running_and_aborted_are_final(stage: Stage, report: StageReport)
    requires
        stage is Running || stage is Aborted,
    ensures
        next_stage(stage, report) == stage,
{
}

/// An agent gives up only on a failure that a startup step reported, and with
/// that failure.
pub proof fn lemma_abort_has_a_cause(reports: Seq<StageReport>)
    ensures
        stage_after(Stage::Link, reports) matches Stage::Aborted(error) ==> reported_failure(
            reports,
            error,
        ),
    decreases reports.len(),
{
    if reports.len() > 0 {
        let earlier = reports.drop_last();
        let last = (reports.len() - 1) as int;
        lemma_abort_has_a_cause(earlier);
        let before = stage_after(Stage::Link, earlier);
        let stage = next_stage(before, reports.last());
        if let Stage::Aborted(error) = stage {
            if before == stage {
                let k = choose|k: int|
                    0 <= k < earlier.len() && #[trigger] failure_of(earlier[k]) == Some(error);
                assert(reports[k] == earlier[k]);
                assert(failure_of(reports[k]) == Some(error));
            } else {
                assert(failure_of(reports[last]) == Some(error));
            }
        }
    }
}

/// The loop is reached only through all three startup steps: a run of reports
/// that leaves the agent running holds a success of each.
pub proof fn lemma_running_needs_every_step(reports: Seq<StageReport>)
    ensures
        stage_after(Stage::Link, reports) is Running ==> {
            &&& exists|k: int|
                0 <= k < reports.len() && #[trigger] reports[k] is Link && reports[k]->Link_0 is Ok
            &&& exists|k: int|
                0 <= k < reports.len() && #[trigger] reports[k] is Clock && reports[k]->Clock_0
                    is Ok
            &&& exists|k: int|
                0 <= k < reports.len() && #[trigger] reports[k] is Broker && reports[k]->Broker_0
                    is Ok
        },
{
    lemma_stage_has_history(reports);
}

/// The invariant behind [`lemma_running_needs_every_step`].
proof fn lemma_stage_has_history(reports: Seq<StageReport>)
    ensures
        ({
            let stage = stage_after(Stage::Link, reports);
            let link = exists|k: int|
                0 <= k < reports.len() && #[trigger] reports[k] is Link && reports[k]->Link_0 is Ok;
            let clock = exists|k: int|
                0 <= k < reports.len() && #[trigger] reports[k] is Clock && reports[k]->Clock_0
                    is Ok;
            let broker = exists|k: int|
                0 <= k < reports.len() && #[trigger] reports[k] is Broker && reports[k]->Broker_0
                    is Ok;
            &&& stage is Clock ==> link
            &&& stage is Broker ==> link && clock
            &&& stage is Running ==> link && clock && broker
        }),
    decreases reports.len(),
{
    if reports.len() > 0 {
        let earlier = reports.drop_last();
        let last = (reports.len() - 1) as int;
        lemma_stage_has_history(earlier);
        if exists|k: int|
            0 <= k < earlier.len() && #[trigger] earlier[k] is Link && earlier[k]->Link_0 is Ok {
            let k = choose|k: int|
                0 <= k < earlier.len() && #[trigger] earlier[k] is Link && earlier[k]->Link_0
                    is Ok;
            assert(reports[k] is Link && reports[k]->Link_0 is Ok);
        }
        if exists|k: int|
            0 <= k < earlier.len() && #[trigger] earlier[k] is Clock && earlier[k]->Clock_0 is Ok {
            let k = choose|k: int|
                0 <= k < earlier.len() && #[trigger] earlier[k] is Clock && earlier[k]->Clock_0
                    is Ok;
            assert(reports[k] is Clock && reports[k]->Clock_0 is Ok);
        }
        if exists|k: int|
            0 <= k < earlier.len() && #[trigger] earlier[k] is Broker && earlier[k]->Broker_0
                is Ok {
            let k = choose|k: int|
                0 <= k < earlier.len() && #[trigger] earlier[k] is Broker && earlier[k]->Broker_0
                    is Ok;
            assert(reports[k] is Broker && reports[k]->Broker_0 is Ok);
        }
        assert(reports[last] == reports.last());
    }
}

} // verus!
