//! Bringing up the wireless link: scan, channel selection, a mixed client and
//! access-point configuration, a bounded wait for the link status, and a
//! reachability probe.
//!
//! [`WifiManager`] is the state machine. It never touches the radio: the driver
//! performs each [`LinkAction`] and reports what happened as a [`LinkEvent`].
//! Nothing is retried; the first failure ends the bring-up.

use vstd::prelude::*;

verus! {

/// Channel of the local access point when the scan did not find the target
/// network.
pub const DEFAULT_AP_CHANNEL: u8 = 1;

/// A network seen by a scan.
#[derive(Clone, Debug, PartialEq, Eq)]
pub struct AccessPointInfo {
    pub ssid: String,
    pub channel: u8,
}

/// The addresses assigned to the client side of the link. Each is an IPv4
/// address, its four octets read as one big-endian number.
#[derive(Clone, Copy, Debug, PartialEq, Eq, Structural)]
pub struct IpInfo {
    pub address: u32,
    pub gateway: u32,
}

/// Address assignment on the client side, as the radio driver tells it.
#[derive(Clone, Copy, Debug, PartialEq, Eq, Structural)]
pub enum ClientIpStatus {
    Disabled,
    Waiting,
    Done(IpInfo),
}

/// Association of the client with the network, as the radio driver tells it.
#[derive(Clone, Copy, Debug, PartialEq, Eq, Structural)]
pub enum ClientConnectionStatus {
    Disconnected,
    Connecting,
    Connected(ClientIpStatus),
}

/// The client side of the radio, as its driver tells it.
#[derive(Clone, Copy, Debug, PartialEq, Eq, Structural)]
pub enum ClientStatus {
    Stopped,
    Starting,
    Started(ClientConnectionStatus),
}

/// Address service on the access-point side, as the radio driver tells it.
#[derive(Clone, Copy, Debug, PartialEq, Eq, Structural)]
pub enum ApIpStatus {
    Disabled,
    Waiting,
    Done,
}

/// The access-point side of the radio, as its driver tells it.
#[derive(Clone, Copy, Debug, PartialEq, Eq, Structural)]
pub enum ApStatus {
    Stopped,
    Starting,
    Started(ApIpStatus),
}

/// Both sides of the radio, as its driver tells them.
#[derive(Clone, Copy, Debug, PartialEq, Eq, Structural)]
pub struct DriverStatus {
    pub client: ClientStatus,
    pub access_point: ApStatus,
}

/// Why the client side of the link is down for good.
#[derive(Clone, Copy, Debug, PartialEq, Eq, Structural)]
pub enum FailureReason {
    Stopped,
    Disconnected,
    NoAddress,
}

/// The client side of the link.
#[derive(Clone, Copy, Debug, PartialEq, Eq, Structural)]
pub enum ClientLink {
    Transitional,
    Connected(IpInfo),
    Failed(FailureReason),
}

/// The access-point side of the link.
#[derive(Clone, Copy, Debug, PartialEq, Eq, Structural)]
pub enum ApLink {
    Transitional,
    Started,
    Failed,
}

/// One observation of the link: both sides at the same moment.
#[derive(Clone, Copy, Debug, PartialEq, Eq, Structural)]
pub struct LinkStatus {
    pub client: ClientLink,
    pub access_point: ApLink,
}

/// Why the link could not be established.
#[derive(Clone, Copy, Debug, PartialEq, Eq, Structural)]
pub enum LinkError {
    Timeout,
    UnexpectedStatus(LinkStatus),
    ProbeFailed,
}

/// An established link.
#[derive(Clone, Copy, Debug, PartialEq, Eq, Structural)]
pub struct LinkHandle {
    pub ip: IpInfo,
    pub channel: Option<u8>,
}

/// What a probe of the gateway counted.
#[derive(Clone, Copy, Debug, PartialEq, Eq, Structural)]
pub struct ProbeSummary {
    pub transmitted: u32,
    pub received: u32,
}

/// The client half of the configuration.
#[derive(Clone, Debug, PartialEq, Eq)]
pub struct ClientConfiguration {
    pub ssid: String,
    pub password: String,
    pub channel: Option<u8>,
}

/// The access-point half of the configuration.
#[derive(Clone, Debug, PartialEq, Eq)]
pub struct AccessPointConfiguration {
    pub ssid: String,
    pub channel: u8,
}

/// Client and access point, applied together.
#[derive(Clone, Debug, PartialEq, Eq)]
pub struct MixedConfiguration {
    pub client: ClientConfiguration,
    pub access_point: AccessPointConfiguration,
}

/// What a [`MixedConfiguration`] holds, as mathematical sequences.
pub struct MixedConfigurationView {
    pub client_ssid: Seq<char>,
    pub client_password: Seq<char>,
    pub client_channel: Option<u8>,
    pub ap_ssid: Seq<char>,
    pub ap_channel: u8,
}

impl View for MixedConfiguration {
    type V = MixedConfigurationView;

    open spec fn view(&self) -> MixedConfigurationView {
        MixedConfigurationView {
            client_ssid: self.client.ssid@,
            client_password: self.client.password@,
            client_channel: self.client.channel,
            ap_ssid: self.access_point.ssid@,
            ap_channel: self.access_point.channel,
        }
    }
}

/// What to do about a link that was observed `elapsed_ms` after configuring.
#[derive(Clone, Copy, Debug, PartialEq, Eq, Structural)]
pub enum WaitDecision {
    /// The status is final: judge it.
    Settled,
    /// Still in transition and time is left: look again within `at_most_ms`.
    KeepWaiting { at_most_ms: u64 },
    /// Still in transition and the time is up.
    TimedOut,
}

/// Where the bring-up stands.
#[derive(Clone, Copy, Debug, PartialEq, Eq, Structural)]
pub enum LinkState {
    Idle,
    Scanning,
    Configuring { channel: Option<u8> },
    WaitingForStatus { channel: Option<u8>, elapsed_ms: u64 },
    Verifying { channel: Option<u8>, ip: IpInfo },
    Connected(LinkHandle),
    Failed(LinkError),
}

/// What the driver reports.
#[derive(Debug, PartialEq, Eq)]
pub enum LinkEvent {
    /// Begin.
    Start,
    /// The scan ended with these networks.
    Scanned(Vec<AccessPointInfo>),
    /// The configuration was applied.
    Configured,
    /// The link was observed, `elapsed_ms` after the configuration was applied.
    Status { status: LinkStatus, elapsed_ms: u64 },
    /// The probe of the gateway ended with this count, or could not be run.
    Probed(Option<ProbeSummary>),
}

/// What the driver is to do next.
#[derive(Debug, PartialEq, Eq)]
pub enum LinkAction {
    /// Scan for visible networks and report `Scanned`.
    Scan,
    /// Apply the configuration and report `Configured`.
    Configure(MixedConfiguration),
    /// Wait until the status is final, but no longer than `at_most_ms`, and
    /// report `Status`.
    AwaitStatus { at_most_ms: u64 },
    /// Probe the gateway and report `Probed`.
    Probe { gateway: u32 },
    /// The bring-up is over, with this result.
    Done(Result<LinkHandle, LinkError>),
}

/// A [`LinkAction`], with its configuration as mathematical sequences.
pub enum LinkActionView {
    Scan,
    Configure(MixedConfigurationView),
    AwaitStatus { at_most_ms: u64 },
    Probe { gateway: u32 },
    Done(Result<LinkHandle, LinkError>),
}

impl View for LinkAction {
    type V = LinkActionView;

    open spec fn view(&self) -> LinkActionView {
        match *self {
            LinkAction::Scan => LinkActionView::Scan,
            LinkAction::Configure(configuration) => LinkActionView::Configure(configuration@),
            LinkAction::AwaitStatus { at_most_ms } => LinkActionView::AwaitStatus { at_most_ms },
            LinkAction::Probe { gateway } => LinkActionView::Probe { gateway },
            LinkAction::Done(outcome) => LinkActionView::Done(outcome),
        }
    }
}

/// The link bring-up: the target network, the time allowed for the link to
/// settle, and the current state.
#[derive(Debug, PartialEq, Eq)]
pub struct WifiManager {
    pub ssid: String,
    pub password: String,
    pub timeout_ms: u64,
    pub state: LinkState,
}

/// Name of the local access point.
pub open spec fn local_ap_ssid() -> Seq<char> {
    "aptest"@
}

/// `i` is the place of the first network named `ssid` in `scan`.
pub open spec fn is_first_match(scan: Seq<AccessPointInfo>, ssid: Seq<char>, i: int) -> bool {
    &&& 0 <= i < scan.len()
    &&& scan[i].ssid@ == ssid
    &&& forall|j: int| 0 <= j < i ==> (#[trigger] scan[j]).ssid@ != ssid
}

/// No network in `scan` is named `ssid`.
pub open spec fn is_absent(scan: Seq<AccessPointInfo>, ssid: Seq<char>) -> bool {
    forall|j: int| 0 <= j < scan.len() ==> (#[trigger] scan[j]).ssid@ != ssid
}

/// The channel of the first network named `ssid`, if the scan saw one.
pub open spec fn channel_selection(scan: Seq<AccessPointInfo>, ssid: Seq<char>) -> Option<u8>
    decreases scan.len(),
{
    if scan.len() == 0 {
        None
    } else if scan[0].ssid@ == ssid {
        Some(scan[0].channel)
    } else {
        channel_selection(scan.drop_first(), ssid)
    }
}

/// The channel of the local access point: the selected one, or the default.
pub open spec fn ap_channel_for(channel: Option<u8>) -> u8 {
    match channel {
        Some(c) => c,
        None => DEFAULT_AP_CHANNEL,
    }
}

/// The configuration for a target network and a selected channel.
pub open spec fn mixed_configuration_of(
    ssid: Seq<char>,
    password: Seq<char>,
    channel: Option<u8>,
) -> MixedConfigurationView {
    MixedConfigurationView {
        client_ssid: ssid,
        client_password: password,
        client_channel: channel,
        ap_ssid: local_ap_ssid(),
        ap_channel: ap_channel_for(channel),
    }
}

/// What a client status of the driver means for the link. Starting,
/// connecting and waiting for an address are transitions; a client that has
/// its addresses is connected; one that is stopped, disconnected or connected
/// without address assignment has failed.
pub open spec fn client_link_of(status: ClientStatus) -> ClientLink {
    match status {
        ClientStatus::Stopped => ClientLink::Failed(FailureReason::Stopped),
        ClientStatus::Starting => ClientLink::Transitional,
        ClientStatus::Started(ClientConnectionStatus::Disconnected) => ClientLink::Failed(
            FailureReason::Disconnected,
        ),
        ClientStatus::Started(ClientConnectionStatus::Connecting) => ClientLink::Transitional,
        ClientStatus::Started(
            ClientConnectionStatus::Connected(ClientIpStatus::Disabled),
        ) => ClientLink::Failed(FailureReason::NoAddress),
        ClientStatus::Started(
            ClientConnectionStatus::Connected(ClientIpStatus::Waiting),
        ) => ClientLink::Transitional,
        ClientStatus::Started(
            ClientConnectionStatus::Connected(ClientIpStatus::Done(ip)),
        ) => ClientLink::Connected(ip),
    }
}

/// What an access-point status of the driver means for the link. Starting and
/// waiting for the address service are transitions; an access point with its
/// address service up is started; one that is stopped or has no address
/// service has failed.
pub open spec fn ap_link_of(status: ApStatus) -> ApLink {
    match status {
        ApStatus::Stopped => ApLink::Failed,
        ApStatus::Starting => ApLink::Transitional,
        ApStatus::Started(ApIpStatus::Disabled) => ApLink::Failed,
        ApStatus::Started(ApIpStatus::Waiting) => ApLink::Transitional,
        ApStatus::Started(ApIpStatus::Done) => ApLink::Started,
    }
}

impl DriverStatus {
    /// Either side is starting, connecting or waiting for addresses.
    pub open spec fn transitional(self) -> bool {
        ||| self.client is Starting
        ||| self.client == ClientStatus::Started(ClientConnectionStatus::Connecting)
        ||| self.client == ClientStatus::Started(
            ClientConnectionStatus::Connected(ClientIpStatus::Waiting),
        )
        ||| self.access_point is Starting
        ||| self.access_point == ApStatus::Started(ApIpStatus::Waiting)
    }
}

impl LinkStatus {
    /// The observation that a status of the driver amounts to.
    pub open spec fn of(status: DriverStatus) -> LinkStatus {
        LinkStatus {
            client: client_link_of(status.client),
            access_point: ap_link_of(status.access_point),
        }
    }

    /// Reads a status of the driver as an observation of the link.
    pub fn from_driver(status: DriverStatus) -> (observed: LinkStatus)
        ensures
            observed == LinkStatus::of(status),
    {
        let client = match status.client {
            ClientStatus::Stopped => ClientLink::Failed(FailureReason::Stopped),
            ClientStatus::Starting => ClientLink::Transitional,
            ClientStatus::Started(connection) => match connection {
                ClientConnectionStatus::Disconnected => ClientLink::Failed(
                    FailureReason::Disconnected,
                ),
                ClientConnectionStatus::Connecting => ClientLink::Transitional,
                ClientConnectionStatus::Connected(assignment) => match assignment {
                    ClientIpStatus::Disabled => ClientLink::Failed(FailureReason::NoAddress),
                    ClientIpStatus::Waiting => ClientLink::Transitional,
                    ClientIpStatus::Done(ip) => ClientLink::Connected(ip),
                },
            },
        };
        let access_point = match status.access_point {
            ApStatus::Stopped => ApLink::Failed,
            ApStatus::Starting => ApLink::Transitional,
            ApStatus::Started(service) => match service {
                ApIpStatus::Disabled => ApLink::Failed,
                ApIpStatus::Waiting => ApLink::Transitional,
                ApIpStatus::Done => ApLink::Started,
            },
        };
        LinkStatus { client, access_point }
    }

    /// Either side is still in transition.
    pub open spec fn transitional(self) -> bool {
        self.client is Transitional || self.access_point is Transitional
    }

    /// The client is connected with an address and the access point is up.
    pub open spec fn operational(self) -> bool {
        self.client is Connected && self.access_point is Started
    }

    /// Whether either side is still in transition.
    pub fn is_transitional(&self) -> (transitional: bool)
        ensures
            transitional == self.transitional(),
    {
        let client = match self.client {
            ClientLink::Transitional => true,
            _ => false,
        };
        let access_point = match self.access_point {
            ApLink::Transitional => true,
            _ => false,
        };
        client || access_point
    }
}

impl ProbeSummary {
    /// Requests were sent and every one of them was answered.
    pub open spec fn reachable(self) -> bool {
        self.transmitted > 0 && self.received == self.transmitted
    }

    /// Whether requests were sent and every one of them was answered.
    pub fn is_reachable(&self) -> (reachable: bool)
        ensures
            reachable == self.reachable(),
    {
        self.transmitted > 0 && self.received == self.transmitted
    }
}

/// The probe found the gateway: it ran, and lost no request.
pub open spec fn probe_passed(outcome: Option<ProbeSummary>) -> bool {
    outcome matches Some(summary) && summary.reachable()
}

/// The verdict on a status: the client's addresses when both sides are up, the
/// status itself as an error otherwise.
pub open spec fn status_verdict(status: LinkStatus) -> Result<IpInfo, LinkError> {
    match (status.client, status.access_point) {
        (ClientLink::Connected(ip), ApLink::Started) => Ok(ip),
        _ => Err(LinkError::UnexpectedStatus(status)),
    }
}

/// The decision on a status seen `elapsed_ms` into a wait of `timeout_ms`.
pub open spec fn wait_decision_of(
    status: LinkStatus,
    elapsed_ms: u64,
    timeout_ms: u64,
) -> WaitDecision {
    if !status.transitional() {
        WaitDecision::Settled
    } else if elapsed_ms >= timeout_ms {
        WaitDecision::TimedOut
    } else {
        WaitDecision::KeepWaiting { at_most_ms: (timeout_ms - elapsed_ms) as u64 }
    }
}

/// The time left of `timeout_ms` after `elapsed_ms`.
pub open spec fn remaining_ms(timeout_ms: u64, elapsed_ms: u64) -> u64 {
    if elapsed_ms < timeout_ms {
        (timeout_ms - elapsed_ms) as u64
    } else {
        0
    }
}

/// The state after `event`. An event that does not answer what the state is
/// waiting for changes nothing.
pub open spec fn next_link_state(
    ssid: Seq<char>,
    timeout_ms: u64,
    state: LinkState,
    event: LinkEvent,
) -> LinkState {
    match (state, event) {
        (LinkState::Idle, LinkEvent::Start) => LinkState::Scanning,
        (LinkState::Idle, LinkEvent::Scanned(scan)) => LinkState::Configuring {
            channel: channel_selection(scan@, ssid),
        },
        (LinkState::Scanning, LinkEvent::Scanned(scan)) => LinkState::Configuring {
            channel: channel_selection(scan@, ssid),
        },
        (LinkState::Configuring { channel }, LinkEvent::Configured) => LinkState::WaitingForStatus {
            channel,
            elapsed_ms: 0,
        },
        (LinkState::WaitingForStatus { channel, .. }, LinkEvent::Status { status, elapsed_ms }) => {
            match wait_decision_of(status, elapsed_ms, timeout_ms) {
                WaitDecision::TimedOut => LinkState::Failed(LinkError::Timeout),
                WaitDecision::KeepWaiting { .. } => LinkState::WaitingForStatus {
                    channel,
                    elapsed_ms,
                },
                WaitDecision::Settled => match status_verdict(status) {
                    Ok(ip) => LinkState::Verifying { channel, ip },
                    Err(error) => LinkState::Failed(error),
                },
            }
        },
        (LinkState::Verifying { channel, ip }, LinkEvent::Probed(outcome)) => {
            if probe_passed(outcome) {
                LinkState::Connected(LinkHandle { ip, channel })
            } else {
                LinkState::Failed(LinkError::ProbeFailed)
            }
        },
        _ => state,
    }
}

/// The action that leads out of `state`.
pub open spec fn pending_link_action(
    ssid: Seq<char>,
    password: Seq<char>,
    timeout_ms: u64,
    state: LinkState,
) -> LinkActionView {
    match state {
        LinkState::Idle => LinkActionView::Scan,
        LinkState::Scanning => LinkActionView::Scan,
        LinkState::Configuring { channel } => LinkActionView::Configure(
            mixed_configuration_of(ssid, password, channel),
        ),
        LinkState::WaitingForStatus { elapsed_ms, .. } => LinkActionView::AwaitStatus {
            at_most_ms: remaining_ms(timeout_ms, elapsed_ms),
        },
        LinkState::Verifying { ip, .. } => LinkActionView::Probe { gateway: ip.gateway },
        LinkState::Connected(handle) => LinkActionView::Done(Ok(handle)),
        LinkState::Failed(error) => LinkActionView::Done(Err(error)),
    }
}

impl LinkState {
    /// The bring-up is over.
    pub open spec fn terminal(self) -> bool {
        self is Connected || self is Failed
    }

    /// How far the bring-up has come, counted in states.
    pub open spec fn progress(self) -> nat {
        match self {
            LinkState::Idle => 0,
            LinkState::Scanning => 1,
            LinkState::Configuring { .. } => 2,
            LinkState::WaitingForStatus { .. } => 3,
            LinkState::Verifying { .. } => 4,
            LinkState::Connected(_) => 5,
            LinkState::Failed(_) => 5,
        }
    }
}

/// The state after a run of events, taken in order.
pub open spec fn link_state_after(
    ssid: Seq<char>,
    timeout_ms: u64,
    state: LinkState,
    events: Seq<LinkEvent>,
) -> LinkState
    decreases events.len(),
{
    if events.len() == 0 {
        state
    } else {
        next_link_state(
            ssid,
            timeout_ms,
            link_state_after(ssid, timeout_ms, state, events.drop_last()),
            events.last(),
        )
    }
}

/// The event reports the client connected with the addresses `ip` while the
/// access point is up.
pub open spec fn reports_both_up(event: LinkEvent, ip: IpInfo) -> bool {
    event matches LinkEvent::Status { status, .. } && status.client == ClientLink::Connected(ip)
        && status.access_point == ApLink::Started
}

/// The event reports a reachable gateway.
pub open spec fn reports_reachable(event: LinkEvent) -> bool {
    event matches LinkEvent::Probed(outcome) && probe_passed(outcome)
}

/// Some event of the run reported the client connected with the addresses
/// `ip` while the access point was up.
pub open spec fn saw_both_up(events: Seq<LinkEvent>, ip: IpInfo) -> bool {
    exists|k: int| 0 <= k < events.len() && #[trigger] reports_both_up(events[k], ip)
}

/// Some event of the run reported a reachable gateway.
pub open spec fn saw_reachable(events: Seq<LinkEvent>) -> bool {
    exists|k: int| 0 <= k < events.len() && #[trigger] reports_reachable(events[k])
}

/// Picks the channel of the target network out of a scan: that of the first
/// network with the target's name, or none when the scan did not see it. Not
/// seeing it is no error.
pub fn select_channel(scan: &Vec<AccessPointInfo>, ssid: &String) -> (channel: Option<u8>)
    ensures
        channel == channel_selection(scan@, ssid@),
{
    let mut i: usize = 0;
    while i < scan.len()
        invariant
            i <= scan.len(),
            is_absent(scan@.subrange(0, i as int), ssid@),
        decreases scan.len() - i,
    {
        if scan[i].ssid == *ssid {
            proof {
                let before = scan@.subrange(0, i as int);
                assert forall|j: int| 0 <= j < i implies (#[trigger] scan@[j]).ssid@ != ssid@ by {
                    assert(before[j] == scan@[j]);
                }
                lemma_selection_is_first_match(scan@, ssid@, i as int);
            }
            return Some(scan[i].channel);
        }
        proof {
            let before = scan@.subrange(0, i as int);
            let after = scan@.subrange(0, i as int + 1);
            assert forall|j: int| 0 <= j < after.len() implies (#[trigger] after[j]).ssid@
                != ssid@ by {
                if j < i {
                    assert(before[j] == after[j]);
                }
            }
        }
        i = i + 1;
    }
    proof {
        assert(scan@.subrange(0, i as int) =~= scan@);
        lemma_selection_of_absent(scan@, ssid@);
    }
    None
}

/// Channel of the local access point for a selected channel.
pub fn ap_channel(channel: Option<u8>) -> (ap: u8)
    ensures
        ap == ap_channel_for(channel),
{
    match channel {
        Some(c) => c,
        None => DEFAULT_AP_CHANNEL,
    }
}

/// The mixed configuration: the client joins the target network on the
/// selected channel, and the local access point opens on the same channel, or
/// on the default when none was selected.
pub fn mixed_configuration(ssid: &String, password: &String, channel: Option<u8>) -> (configuration:
    MixedConfiguration)
    ensures
        configuration@ == mixed_configuration_of(ssid@, password@, channel),
{
    MixedConfiguration {
        client: ClientConfiguration { ssid: ssid.clone(), password: password.clone(), channel },
        access_point: AccessPointConfiguration {
            ssid: String::from_str("aptest"),
            channel: ap_channel(channel),
        },
    }
}

/// Judges a status: success needs the client connected with an address and
/// the access point started, both at once.
pub fn evaluate_status(status: LinkStatus) -> (verdict: Result<IpInfo, LinkError>)
    ensures
        verdict == status_verdict(status),
{
    match status.client {
        ClientLink::Connected(ip) => match status.access_point {
            ApLink::Started => Ok(ip),
            _ => Err(LinkError::UnexpectedStatus(status)),
        },
        _ => Err(LinkError::UnexpectedStatus(status)),
    }
}

/// Decides on a status seen `elapsed_ms` into a wait of `timeout_ms`. A final
/// status is judged even when the time is up; a status in transition gets the
/// rest of the time, and none once `timeout_ms` have passed.
pub fn wait_decision(status: LinkStatus, elapsed_ms: u64, timeout_ms: u64) -> (decision:
    WaitDecision)
    ensures
        decision == wait_decision_of(status, elapsed_ms, timeout_ms),
{
    if !status.is_transitional() {
        WaitDecision::Settled
    } else if elapsed_ms >= timeout_ms {
        WaitDecision::TimedOut
    } else {
        WaitDecision::KeepWaiting { at_most_ms: timeout_ms - elapsed_ms }
    }
}

impl WifiManager {
    /// A bring-up that has not begun.
    pub fn new(ssid: String, password: String, timeout_ms: u64) -> (manager: WifiManager)
        ensures
            manager.ssid@ == ssid@,
            manager.password@ == password@,
            manager.timeout_ms == timeout_ms,
            manager.state == LinkState::Idle,
    {
        WifiManager { ssid, password, timeout_ms, state: LinkState::Idle }
    }

    /// The action that leads out of the current state. In a final state that
    /// is `Done`, with the result of the bring-up.
    pub fn pending(&self) -> (action: LinkAction)
        ensures
            action@ == pending_link_action(self.ssid@, self.password@, self.timeout_ms, self.state),
    {
        match self.state {
            LinkState::Idle => LinkAction::Scan,
            LinkState::Scanning => LinkAction::Scan,
            LinkState::Configuring { channel } => LinkAction::Configure(
                mixed_configuration(&self.ssid, &self.password, channel),
            ),
            LinkState::WaitingForStatus { channel: _, elapsed_ms } => {
                let at_most_ms: u64 = if elapsed_ms < self.timeout_ms {
                    self.timeout_ms - elapsed_ms
                } else {
                    0
                };
                LinkAction::AwaitStatus { at_most_ms }
            },
            LinkState::Verifying { channel: _, ip } => LinkAction::Probe { gateway: ip.gateway },
            LinkState::Connected(handle) => LinkAction::Done(Ok(handle)),
            LinkState::Failed(error) => LinkAction::Done(Err(error)),
        }
    }

    /// Takes the driver's report and answers with the next action. A report
    /// that does not answer the pending action is ignored, and the pending
    /// action is given again.
    pub fn step(&mut self, event: LinkEvent) -> (action: LinkAction)
        ensures
            final(self).ssid@ == old(self).ssid@,
            final(self).password@ == old(self).password@,
            final(self).timeout_ms == old(self).timeout_ms,
            final(self).state == next_link_state(
                old(self).ssid@,
                old(self).timeout_ms,
                old(self).state,
                event,
            ),
            action@ == pending_link_action(
                old(self).ssid@,
                old(self).password@,
                old(self).timeout_ms,
                final(self).state,
            ),
    {
        let state = self.state;
        let next = match event {
            LinkEvent::Start => match state {
                LinkState::Idle => LinkState::Scanning,
                _ => state,
            },
            LinkEvent::Scanned(scan) => match state {
                LinkState::Idle => LinkState::Configuring {
                    channel: select_channel(&scan, &self.ssid),
                },
                LinkState::Scanning => LinkState::Configuring {
                    channel: select_channel(&scan, &self.ssid),
                },
                _ => state,
            },
            LinkEvent::Configured => match state {
                LinkState::Configuring { channel } => LinkState::WaitingForStatus {
                    channel,
                    elapsed_ms: 0,
                },
                _ => state,
            },
            LinkEvent::Status { status, elapsed_ms } => match state {
                LinkState::WaitingForStatus { channel, elapsed_ms: _ } => {
                    match wait_decision(status, elapsed_ms, self.timeout_ms) {
                        WaitDecision::TimedOut => LinkState::Failed(LinkError::Timeout),
                        WaitDecision::KeepWaiting { at_most_ms: _ } => LinkState::WaitingForStatus {
                            channel,
                            elapsed_ms,
                        },
                        WaitDecision::Settled => match evaluate_status(status) {
                            Ok(ip) => LinkState::Verifying { channel, ip },
                            Err(error) => LinkState::Failed(error),
                        },
                    }
                },
                _ => state,
            },
            LinkEvent::Probed(outcome) => match state {
                LinkState::Verifying { channel, ip } => {
                    let reachable = match outcome {
                        Some(summary) => summary.is_reachable(),
                        None => false,
                    };
                    if reachable {
                        LinkState::Connected(LinkHandle { ip, channel })
                    } else {
                        LinkState::Failed(LinkError::ProbeFailed)
                    }
                },
                _ => state,
            },
        };
        self.state = next;
        self.pending()
    }

    /// The result of the bring-up, once it is over.
    pub fn outcome(&self) -> (outcome: Option<Result<LinkHandle, LinkError>>)
        ensures
            outcome == match self.state {
                LinkState::Connected(handle) => Some(Ok::<LinkHandle, LinkError>(handle)),
                LinkState::Failed(error) => Some(Err::<LinkHandle, LinkError>(error)),
                _ => None,
            },
    {
        match self.state {
            LinkState::Connected(handle) => Some(Ok(handle)),
            LinkState::Failed(error) => Some(Err(error)),
            _ => None,
        }
    }
}

/// Where the scan holds the target network, the selection is the channel that
/// the first network of that name advertises.
pub proof fn lemma_selection_is_first_match(scan: Seq<AccessPointInfo>, ssid: Seq<char>, i: int)
    requires
        is_first_match(scan, ssid, i),
    ensures
        channel_selection(scan, ssid) == Some(scan[i].channel),
    decreases scan.len(),
{
    if i > 0 {
        let rest = scan.drop_first();
        assert(scan[0].ssid@ != ssid);
        assert forall|j: int| 0 <= j < i - 1 implies (#[trigger] rest[j]).ssid@ != ssid by {
            assert(rest[j] == scan[j + 1]);
        }
        lemma_selection_is_first_match(rest, ssid, i - 1);
    }
}

/// Where the scan lacks the target network, nothing is selected, and the local
/// access point falls back to the default channel.
pub proof fn lemma_selection_of_absent(scan: Seq<AccessPointInfo>, ssid: Seq<char>)
    requires
        is_absent(scan, ssid),
    ensures
        channel_selection(scan, ssid) is None,
        ap_channel_for(channel_selection(scan, ssid)) == DEFAULT_AP_CHANNEL,
    decreases scan.len(),
{
    if scan.len() > 0 {
        let rest = scan.drop_first();
        assert(scan[0].ssid@ != ssid);
        assert forall|j: int| 0 <= j < rest.len() implies (#[trigger] rest[j]).ssid@ != ssid by {
            assert(rest[j] == scan[j + 1]);
        }
        lemma_selection_of_absent(rest, ssid);
    }
}

/// The client and the local access point share the selected channel.
pub proof fn lemma_access_point_follows_client(
    ssid: Seq<char>,
    password: Seq<char>,
    scan: Seq<AccessPointInfo>,
    i: int,
)
    requires
        is_first_match(scan, ssid, i),
    ensures
        mixed_configuration_of(
            ssid,
            password,
            channel_selection(scan, ssid),
        ).client_channel == Some(scan[i].channel),
        mixed_configuration_of(ssid, password, channel_selection(scan, ssid)).ap_channel
            == scan[i].channel,
{
    lemma_selection_is_first_match(scan, ssid, i);
}

/// Reading a status of the driver loses nothing that the bring-up decides on:
/// the observation is in transition exactly when the driver's status is, and
/// both sides are up exactly when the client has its addresses and the access
/// point its address service.
pub proof fn lemma_observation_is_faithful(status: DriverStatus)
    ensures
        LinkStatus::of(status).transitional() <==> status.transitional(),
        LinkStatus::of(status).operational() <==> (status.client matches ClientStatus::Started(
            ClientConnectionStatus::Connected(ClientIpStatus::Done(_)),
        )) && status.access_point == ApStatus::Started(ApIpStatus::Done),
        status.client matches ClientStatus::Started(
            ClientConnectionStatus::Connected(ClientIpStatus::Done(ip)),
        ) ==> LinkStatus::of(status).client == ClientLink::Connected(ip),
{
}

/// The wait never outlasts the timeout. The manager goes on waiting only for
/// a status still in transition seen before the timeout, and then asks for
/// exactly the time that is left: the time spent and the time asked for add
/// up to the timeout. A status still in transition once the timeout has passed
/// ends the bring-up with `Timeout`.
pub proof fn lemma_wait_is_bounded(
    ssid: Seq<char>,
    password: Seq<char>,
    timeout_ms: u64,
    channel: Option<u8>,
    waited_ms: u64,
    status: LinkStatus,
    elapsed_ms: u64,
)
    ensures
        ({
            let waiting = LinkState::WaitingForStatus { channel, elapsed_ms: waited_ms };
            let next = next_link_state(
                ssid,
                timeout_ms,
                waiting,
                LinkEvent::Status { status, elapsed_ms },
            );
            &&& next is WaitingForStatus <==> status.transitional() && elapsed_ms < timeout_ms
            &&& next is WaitingForStatus ==> pending_link_action(ssid, password, timeout_ms, next)
                == LinkActionView::AwaitStatus { at_most_ms: (timeout_ms - elapsed_ms) as u64 }
            &&& status.transitional() && elapsed_ms >= timeout_ms ==> next == LinkState::Failed(
                LinkError::Timeout,
            )
        }),
{
}

/// The bring-up never goes back: a report either changes nothing, or moves the
/// bring-up forward, or, during the wait and only there, records the time
/// spent so far.
pub proof fn lemma_bring_up_only_advances(
    ssid: Seq<char>,
    timeout_ms: u64,
    state: LinkState,
    event: LinkEvent,
)
    ensures
        ({
            let next = next_link_state(ssid, timeout_ms, state, event);
            ||| next == state
            ||| next.progress() > state.progress()
            ||| state is WaitingForStatus && next is WaitingForStatus
        }),
{
}

/// A final status ends the wait at once: with the probe when both sides are
/// up, with `UnexpectedStatus` for every other combination.
pub proof fn lemma_final_status_is_judged(
    ssid: Seq<char>,
    timeout_ms: u64,
    channel: Option<u8>,
    waited_ms: u64,
    status: LinkStatus,
    elapsed_ms: u64,
)
    requires
        !status.transitional(),
    ensures
        ({
            let waiting = LinkState::WaitingForStatus { channel, elapsed_ms: waited_ms };
            let next = next_link_state(
                ssid,
                timeout_ms,
                waiting,
                LinkEvent::Status { status, elapsed_ms },
            );
            &&& status.operational() ==> next == LinkState::Verifying {
                channel,
                ip: status.client->Connected_0,
            }
            &&& !status.operational() ==> next == LinkState::Failed(
                LinkError::UnexpectedStatus(status),
            )
        }),
{
}

/// A final state stays as it is, whatever is reported afterwards.
pub proof fn lemma_final_state_is_kept(
    ssid: Seq<char>,
    timeout_ms: u64,
    state: LinkState,
    event: LinkEvent,
)
    requires
        state.terminal(),
    ensures
        next_link_state(ssid, timeout_ms, state, event) == state,
{
}

/// A bring-up that begins idle succeeds only if, along the way, the client was
/// seen connected with the addresses of the handle while the access point was
/// up, and the gateway was then found reachable.
pub proof fn lemma_connected_means_both_up(
    ssid: Seq<char>,
    timeout_ms: u64,
    events: Seq<LinkEvent>,
)
    ensures
        link_state_after(ssid, timeout_ms, LinkState::Idle, events) matches LinkState::Connected(
            handle,
        ) ==> saw_both_up(events, handle.ip) && saw_reachable(events),
{
    lemma_progress_has_witnesses(ssid, timeout_ms, events);
}

/// The invariant behind [`lemma_connected_means_both_up`]: a run from idle is
/// past the status check only if it saw both sides up, and connected only if
/// it also saw the gateway reachable.
proof fn lemma_progress_has_witnesses(ssid: Seq<char>, timeout_ms: u64, events: Seq<LinkEvent>)
    ensures
        ({
            let state = link_state_after(ssid, timeout_ms, LinkState::Idle, events);
            &&& state matches LinkState::Verifying { ip, .. } ==> saw_both_up(events, ip)
            &&& state matches LinkState::Connected(handle) ==> saw_both_up(events, handle.ip)
                && saw_reachable(events)
        }),
    decreases events.len(),
{
    if events.len() > 0 {
        let earlier = events.drop_last();
        let last = (events.len() - 1) as int;
        let before = link_state_after(ssid, timeout_ms, LinkState::Idle, earlier);
        lemma_progress_has_witnesses(ssid, timeout_ms, earlier);
        let state = next_link_state(ssid, timeout_ms, before, events.last());
        assert(state == link_state_after(ssid, timeout_ms, LinkState::Idle, events));
        assert forall|ip: IpInfo| saw_both_up(earlier, ip) implies saw_both_up(events, ip) by {
            let k = choose|k: int|
                0 <= k < earlier.len() && #[trigger] reports_both_up(earlier[k], ip);
            assert(events[k] == earlier[k]);
            assert(reports_both_up(events[k], ip));
        }
        if saw_reachable(earlier) {
            let k = choose|k: int|
                0 <= k < earlier.len() && #[trigger] reports_reachable(earlier[k]);
            assert(events[k] == earlier[k]);
            assert(reports_reachable(events[k]));
        }
        match state {
            LinkState::Verifying { ip, .. } => {
                if !(before matches LinkState::Verifying { ip: held, .. } && held == ip) {
                    assert(reports_both_up(events[last], ip));
                }
            },
            LinkState::Connected(handle) => {
                if before != state {
                    assert(before matches LinkState::Verifying { ip, .. } && ip == handle.ip);
                    assert(reports_reachable(events[last]));
                }
            },
            _ => {},
        }
    }
}

} // verus!
