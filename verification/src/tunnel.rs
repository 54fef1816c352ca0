//! A tunnel, the detection of its state, and the toggle that turns it on or
//! off.
//!
//! Detection and toggle are written as steps. The caller performs what a step
//! asks for (a query of the driver, a listing of the interfaces, the parse of
//! an endpoint, a run of `wg-quick`) and hands the reply to the next step.

use vstd::prelude::*;
use vstd::string::StringExecFns;
use crate::config::{Peer, WireguardConfig};
use crate::utils::{CommandOutput, ProcessError, TUNNELS_PATH};

verus! {

/// The state of a tunnel, as the driver and the operating system show it.
#[derive(Debug, Clone, Copy, PartialEq, Eq, Structural)]
pub enum NetState {
    /// The driver reports a session and the link is up and running.
    Active,
    /// The driver reports a session, but the link is not up.
    LinkAnomaly,
    /// The driver reports no session.
    Inactive,
}

/// The interfaces of the machine could not be listed.
#[derive(Debug, Clone, Copy, PartialEq, Eq, Structural)]
pub struct ObserverError {}

/// One entry of the operating system's interface table.
#[derive(Debug, PartialEq, Eq)]
pub struct InterfaceEntry {
    pub name: String,
    /// The interface is administratively up.
    pub up: bool,
    /// The interface is operationally running.
    pub running: bool,
}

/// What detection asks of the caller.
#[derive(Debug, Clone, Copy, PartialEq, Eq, Structural)]
pub enum Probe {
    /// Run `wg show <name>`, bounded by `DRIVER_TIMEOUT` seconds.
    Driver,
    /// List the interfaces of the machine.
    Link,
}

/// The argument that `wg-quick` takes before the tunnel's name.
#[derive(Debug, Clone, Copy, PartialEq, Eq, Structural)]
pub enum WgQuickAction {
    Up,
    Down,
}

/// What the caller hands back after performing a request.
#[derive(Debug, PartialEq, Eq)]
pub enum Reply {
    /// The run of the driver's status query.
    Driver(Result<CommandOutput, ProcessError>),
    /// The interface table.
    Link(Result<Vec<InterfaceEntry>, ObserverError>),
    /// Whether the endpoint asked about is a socket address: an IP address of
    /// either family and a numeric port.
    Endpoint(bool),
    /// The run of `wg-quick`.
    WgQuick(Result<CommandOutput, ProcessError>),
}

/// Why a detection pass gave no state.
#[derive(Debug, Clone, Copy, PartialEq, Eq, Structural)]
pub enum DetectionError {
    /// The driver's status query could not be started, killed, waited for or
    /// read.
    Process(ProcessError),
    /// The interface table could not be read.
    Observer(ObserverError),
}

/// The outcome of one detection step.
#[derive(Debug, Clone, Copy, PartialEq, Eq, Structural)]
pub enum Detection {
    Ask(Probe),
    Classified(NetState),
    Failed(DetectionError),
}

/// Why a toggle did not go through.
#[derive(Debug, Clone, Copy, PartialEq, Eq, Structural)]
pub enum ToggleError {
    /// The endpoint of the peer at this index is no socket address.
    InvalidEndpoint { peer: usize },
    /// `wg-quick` with this action did not exit with code 0.
    ToggleFailed { action: WgQuickAction },
    /// An external command could not be started, killed, waited for or read:
    /// the driver's status query or `wg-quick`.
    Process(ProcessError),
    /// The interface table could not be read, so that the state is not known.
    Observer(ObserverError),
}

/// The request that a toggle waits on. It is the whole state of a toggle in
/// progress.
#[derive(Debug, Clone, Copy, PartialEq, Eq, Structural)]
pub enum Pending {
    /// A detection probe.
    Probe(Probe),
    /// The parse of the endpoint of the peer at index `peer`.
    Endpoint { state: NetState, peer: usize },
    /// A run of `wg-quick <action> <name>`, bounded by `WG_QUICK_TIMEOUT`
    /// seconds.
    WgQuick { state: NetState, action: WgQuickAction },
}

/// The outcome of one toggle step: the next request, or the end of the toggle
/// with the tunnel's new activation flag or the reason of the failure.
#[derive(Debug, PartialEq, Eq)]
pub enum ToggleStep {
    Await(Pending),
    Finished(Result<bool, ToggleError>),
}

/// What the presentation layer asks of a tunnel.
#[derive(Debug, Clone, Copy, PartialEq, Eq, Structural)]
pub enum TunnelMsg {
    Toggle,
}

/// What a tunnel reports to the presentation layer.
#[derive(Debug, PartialEq, Eq)]
pub enum TunnelOutput {
    /// The tunnel at this place of the list is to be removed.
    Remove(usize),
    /// A toggle failed, with this message.
    Error(String),
}

/// One managed tunnel.
#[derive(Debug, Clone, PartialEq, Eq, PartialOrd, Ord)]
pub struct Tunnel {
    /// The tunnel's name, which is also the name of its interface.
    pub name: String,
    pub config: WireguardConfig,
    /// The activation flag as last known. The state is detected anew at every
    /// toggle.
    pub active: bool,
}

/// Seconds granted to the driver's status query.
pub const DRIVER_TIMEOUT: u64 = 5;

/// Seconds granted to one run of `wg-quick`.
pub const WG_QUICK_TIMEOUT: u64 = 3;

/// Whether the first entry with this name is up and running. No entry with
/// the name means no.
pub open spec fn link_up(entries: Seq<InterfaceEntry>, name: Seq<char>) -> bool
    decreases entries.len(),
{
    if entries.len() == 0 {
        false
    } else if entries[0].name@ == name {
        entries[0].up && entries[0].running
    } else {
        link_up(entries.drop_first(), name)
    }
}

/// The driver reports a session: its query ran, exited with code 0 and wrote
/// something.
pub open spec fn driver_reports_active(reply: Reply) -> bool {
    reply matches Reply::Driver(Ok(out)) && out.0 == Some(0i32) && out.1@.len() > 0
}

/// What the driver's status query says. A query that ran to its end reports
/// a session or none: a timeout, another exit code than 0 and empty output
/// all count as none. A query that failed at the level of the operating
/// system says nothing, and the failure is handed on. A reply that answers
/// another request counts as a query that was not started.
pub open spec fn driver_verdict(reply: Reply) -> Result<bool, DetectionError> {
    match reply {
        Reply::Driver(Ok(_)) => Ok(driver_reports_active(reply)),
        Reply::Driver(Err(e)) => Err(DetectionError::Process(e)),
        _ => Err(DetectionError::Process(ProcessError::Spawn)),
    }
}

/// What the interface table says of the link. A table that could not be read
/// says nothing, and the failure is handed on; so does a reply that answers
/// another request.
pub open spec fn link_verdict(reply: Reply, name: Seq<char>) -> Result<bool, DetectionError> {
    match reply {
        Reply::Link(Ok(entries)) => Ok(link_up(entries@, name)),
        Reply::Link(Err(e)) => Err(DetectionError::Observer(e)),
        _ => Err(DetectionError::Observer(ObserverError {  })),
    }
}

/// The detection rule. The driver is asked first and decides whether there is
/// a session at all; the link is looked at only for a session that the driver
/// reports. A failure of either query ends the pass without a state.
pub open spec fn detect(name: Seq<char>, asked: Probe, reply: Reply) -> Detection {
    match asked {
        Probe::Driver => match driver_verdict(reply) {
            Ok(true) => Detection::Ask(Probe::Link),
            Ok(false) => Detection::Classified(NetState::Inactive),
            Err(e) => Detection::Failed(e),
        },
        Probe::Link => match link_verdict(reply, name) {
            Ok(true) => Detection::Classified(NetState::Active),
            Ok(false) => Detection::Classified(NetState::LinkAnomaly),
            Err(e) => Detection::Failed(e),
        },
    }
}

/// The error that ends a toggle whose detection pass failed.
pub open spec fn detection_failure(e: DetectionError) -> ToggleError {
    match e {
        DetectionError::Process(e) => ToggleError::Process(e),
        DetectionError::Observer(e) => ToggleError::Observer(e),
    }
}

/// What a run of `wg-quick` with this action comes to for the toggle: the
/// new activation flag after a run that exited with code 0, the failure of
/// the operating system where there was one, and `ToggleFailed` otherwise.
pub open spec fn verdict(action: WgQuickAction, reply: Reply) -> Result<bool, ToggleError> {
    match reply {
        Reply::WgQuick(Ok(out)) => if out.0 == Some(0i32) {
            Ok(action == WgQuickAction::Up)
        } else {
            Err(ToggleError::ToggleFailed { action })
        },
        Reply::WgQuick(Err(e)) => Err(ToggleError::Process(e)),
        _ => Err(ToggleError::ToggleFailed { action }),
    }
}

/// The run of `wg-quick` went through: it exited with code 0.
pub open spec fn command_succeeded(reply: Reply) -> bool {
    reply matches Reply::WgQuick(Ok(out)) && out.0 == Some(0i32)
}

/// The action that a toggle starts with.
pub open spec fn first_action(state: NetState) -> WgQuickAction {
    match state {
        NetState::Inactive => WgQuickAction::Up,
        _ => WgQuickAction::Down,
    }
}

/// What a toggle waits on once the endpoints of all peers before `from` are
/// settled: the first endpoint declared at `from` or later, or, where there is
/// none, the first run of `wg-quick`.
pub open spec fn validate_from(peers: Seq<Peer>, state: NetState, from: int) -> ToggleStep
    decreases peers.len() - from,
{
    if from < 0 || from >= peers.len() {
        ToggleStep::Await(Pending::WgQuick { state, action: first_action(state) })
    } else if peers[from].endpoint.is_some() {
        ToggleStep::Await(Pending::Endpoint { state, peer: from as usize })
    } else {
        validate_from(peers, state, from + 1)
    }
}

/// What a toggle does with the detected state: an active tunnel is torn down
/// at once, any other has its endpoints checked first.
pub open spec fn after_detection(peers: Seq<Peer>, state: NetState) -> ToggleStep {
    if state == NetState::Active {
        ToggleStep::Await(Pending::WgQuick { state, action: WgQuickAction::Down })
    } else {
        validate_from(peers, state, 0)
    }
}

/// What a toggle does with the outcome of a run of `wg-quick`.
pub open spec fn after_wg_quick(state: NetState, action: WgQuickAction, reply: Reply) -> ToggleStep {
    if command_succeeded(reply) && state == NetState::LinkAnomaly && action == WgQuickAction::Down {
        ToggleStep::Await(Pending::WgQuick { state, action: WgQuickAction::Up })
    } else {
        ToggleStep::Finished(verdict(action, reply))
    }
}

/// The toggle rule: what follows the reply to the request that was pending.
pub open spec fn toggle_step(name: Seq<char>, peers: Seq<Peer>, pending: Pending, reply: Reply) -> ToggleStep {
    match pending {
        Pending::Probe(asked) => match detect(name, asked, reply) {
            Detection::Ask(probe) => ToggleStep::Await(Pending::Probe(probe)),
            Detection::Classified(state) => after_detection(peers, state),
            Detection::Failed(e) => ToggleStep::Finished(Err(detection_failure(e))),
        },
        Pending::Endpoint { state, peer } => if reply == Reply::Endpoint(true) {
            validate_from(peers, state, peer + 1)
        } else {
            ToggleStep::Finished(Err(ToggleError::InvalidEndpoint { peer }))
        },
        Pending::WgQuick { state, action } => after_wg_quick(state, action, reply),
    }
}

/// The name under which a configuration is managed: the name of its interface,
/// or `unknown` where it has none.
pub open spec fn managed_name(config: WireguardConfig) -> Seq<char> {
    match config.interface.name {
        Some(name) => name@,
        None => "unknown"@,
    }
}

impl WgQuickAction {
    /// The word that `wg-quick` takes for this action.
    pub fn argument(&self) -> (word: &'static str)
        ensures
            word@ == (if *self == WgQuickAction::Up { "up"@ } else { "down"@ }),
    {
        match self {
            WgQuickAction::Up => "up",
            WgQuickAction::Down => "down",
        }
    }
}

impl ToggleError {
    /// The text of the message shown for the error.
    pub open spec fn message_text(self) -> Seq<char> {
        match self {
            ToggleError::InvalidEndpoint { .. } => "Invalid endpoint format"@,
            ToggleError::ToggleFailed { action: WgQuickAction::Up } => "Failed to execute wg-quick up"@,
            ToggleError::ToggleFailed { action: WgQuickAction::Down } => "Failed to execute wg-quick down"@,
            ToggleError::Process(_) => "Failed to run an external command"@,
            ToggleError::Observer(_) => "Failed to get interfaces"@,
        }
    }

    /// The message shown for the error.
    pub fn message(&self) -> (text: &'static str)
        ensures
            text@ == self.message_text(),
    {
        match self {
            ToggleError::InvalidEndpoint { .. } => "Invalid endpoint format",
            ToggleError::ToggleFailed { action: WgQuickAction::Up } => "Failed to execute wg-quick up",
            ToggleError::ToggleFailed { action: WgQuickAction::Down } => "Failed to execute wg-quick down",
            ToggleError::Process(_) => "Failed to run an external command",
            ToggleError::Observer(_) => "Failed to get interfaces",
        }
    }
}

/// What the presentation layer is told when a toggle has ended: nothing after
/// a success, the error's message after a failure.
pub fn toggle_output(result: &Result<bool, ToggleError>) -> (output: Option<TunnelOutput>)
    ensures
        match *result {
            Ok(_) => output.is_none(),
            Err(e) => output matches Some(TunnelOutput::Error(text)) && text@ == e.message_text(),
        },
{
    match result {
        Ok(_) => None,
        Err(e) => Some(TunnelOutput::Error(e.message().to_string())),
    }
}

/// Whether the interface of this name is up and running, by the first entry
/// of the table that has the name. An interface that is not listed is not up,
/// which is no error; a table that could not be read is one.
pub fn is_interface_up(
    listing: &Result<Vec<InterfaceEntry>, ObserverError>,
    interface_name: &String,
) -> (r: Result<bool, ObserverError>)
    ensures
        match *listing {
            Ok(entries) => r == Ok::<bool, ObserverError>(link_up(entries@, interface_name@)),
            Err(e) => r == Err::<bool, ObserverError>(e),
        },
{
    match listing {
        Err(e) => Err(*e),
        Ok(entries) => {
            let mut i: usize = 0;
            proof {
                assert(entries@.subrange(0, entries.len() as int) =~= entries@);
            }
            while i < entries.len()
                invariant
                    i <= entries.len(),
                    *listing == Ok::<Vec<InterfaceEntry>, ObserverError>(*entries),
                    link_up(entries@, interface_name@) == link_up(
                        entries@.subrange(i as int, entries.len() as int),
                        interface_name@,
                    ),
                decreases entries.len() - i,
            {
                let ghost rest = entries@.subrange(i as int, entries.len() as int);
                assert(rest[0] == entries@[i as int]);
                if entries[i].name == *interface_name {
                    return Ok(entries[i].up && entries[i].running);
                }
                proof {
                    assert(entries@.subrange(i as int, entries.len() as int).drop_first()
                        =~= entries@.subrange(i + 1, entries.len() as int));
                }
                i += 1;
            }
            Ok(false)
        },
    }
}

/// One step of the detection of a tunnel's state: `asked` is the probe that
/// the caller performed, `reply` what came of it. Detection starts with
/// `Probe::Driver`.
pub fn is_wg_iface_running(interface: &String, asked: Probe, reply: &Reply) -> (r: Detection)
    ensures
        r == detect(interface@, asked, *reply),
{
    match asked {
        Probe::Driver => match reply {
            Reply::Driver(Ok(out)) => {
                let active = match out.0 {
                    Some(code) => code == 0 && !out.1.as_str().is_empty(),
                    None => false,
                };
                if active {
                    Detection::Ask(Probe::Link)
                } else {
                    Detection::Classified(NetState::Inactive)
                }
            },
            Reply::Driver(Err(e)) => Detection::Failed(DetectionError::Process(*e)),
            _ => Detection::Failed(DetectionError::Process(ProcessError::Spawn)),
        },
        Probe::Link => match reply {
            Reply::Link(listing) => match is_interface_up(listing, interface) {
                Ok(true) => Detection::Classified(NetState::Active),
                Ok(false) => Detection::Classified(NetState::LinkAnomaly),
                Err(e) => Detection::Failed(DetectionError::Observer(e)),
            },
            _ => Detection::Failed(DetectionError::Observer(ObserverError {  })),
        },
    }
}

/// The request that a toggle waits on once the endpoints before `from` are
/// settled.
fn next_endpoint(peers: &Vec<Peer>, state: NetState, from: usize) -> (step: ToggleStep)
    ensures
        step == validate_from(peers@, state, from as int),
{
    let mut i: usize = from;
    while i < peers.len()
        invariant
            validate_from(peers@, state, from as int) == validate_from(peers@, state, i as int),
        decreases peers.len() - i,
    {
        if peers[i].endpoint.is_some() {
            return ToggleStep::Await(Pending::Endpoint { state, peer: i });
        }
        i += 1;
    }
    let action = match state {
        NetState::Inactive => WgQuickAction::Up,
        _ => WgQuickAction::Down,
    };
    ToggleStep::Await(Pending::WgQuick { state, action })
}

/// The name under which a configuration is managed.
pub fn tunnel_name(config: &WireguardConfig) -> (name: String)
    ensures
        name@ == managed_name(*config),
{
    match &config.interface.name {
        Some(name) => name.clone(),
        None => "unknown".to_string(),
    }
}

impl Default for Tunnel {
    /// A tunnel without a name, with an empty configuration, not active.
    fn default() -> (tunnel: Tunnel)
        ensures
            tunnel.name@.len() == 0,
            tunnel.config.interface.name.is_none(),
            tunnel.config.interface.address.is_none(),
            tunnel.config.interface.listen_port.is_none(),
            tunnel.config.interface.public_key.is_none(),
            tunnel.config.interface.private_key.is_none(),
            tunnel.config.peers@.len() == 0,
            !tunnel.active,
    {
        Tunnel { name: String::new(), config: WireguardConfig::default(), active: false }
    }
}

impl Tunnel {
    /// A tunnel for a configuration whose state has just been detected.
    pub fn new(config: WireguardConfig, state: NetState) -> (tunnel: Tunnel)
        ensures
            tunnel.name@ == managed_name(config),
            tunnel.config == config,
            tunnel.active == (state == NetState::Active),
    {
        let name = tunnel_name(&config);
        Tunnel { name, active: state == NetState::Active, config }
    }

    /// The tunnel's configuration file: the file in the tunnels' directory
    /// that is named after the tunnel, with the extension `conf`.
    pub fn path(&self) -> (path: String)
        ensures
            path@ == TUNNELS_PATH@ + "/"@ + self.name@ + ".conf"@,
    {
        TUNNELS_PATH.to_string().concat("/").concat(self.name.as_str()).concat(".conf")
    }

    /// The request that every toggle starts with: the state is detected anew.
    pub fn begin_toggle(&self) -> (pending: Pending)
        ensures
            pending == Pending::Probe(Probe::Driver),
    {
        Pending::Probe(Probe::Driver)
    }

    /// One step of a toggle: `pending` is the request that the caller
    /// performed, `reply` what came of it. The activation flag changes only
    /// when the toggle ends in success.
    pub fn try_toggle(&mut self, pending: Pending, reply: &Reply) -> (step: ToggleStep)
        ensures
            step == toggle_step(old(self).name@, old(self).config.peers@, pending, *reply),
            final(self).name == old(self).name,
            final(self).config == old(self).config,
            final(self).active == match step {
                ToggleStep::Finished(Ok(active)) => active,
                _ => old(self).active,
            },
    {
        let step = match pending {
            Pending::Probe(asked) => match is_wg_iface_running(&self.name, asked, reply) {
                Detection::Ask(probe) => ToggleStep::Await(Pending::Probe(probe)),
                Detection::Classified(state) => match state {
                    NetState::Active => ToggleStep::Await(
                        Pending::WgQuick { state, action: WgQuickAction::Down },
                    ),
                    _ => next_endpoint(&self.config.peers, state, 0),
                },
                Detection::Failed(DetectionError::Process(e)) => ToggleStep::Finished(
                    Err(ToggleError::Process(e)),
                ),
                Detection::Failed(DetectionError::Observer(e)) => ToggleStep::Finished(
                    Err(ToggleError::Observer(e)),
                ),
            },
            Pending::Endpoint { state, peer } => match reply {
                Reply::Endpoint(true) => if peer < self.config.peers.len() {
                    next_endpoint(&self.config.peers, state, peer + 1)
                } else {
                    next_endpoint(&self.config.peers, state, peer)
                },
                _ => ToggleStep::Finished(Err(ToggleError::InvalidEndpoint { peer })),
            },
            Pending::WgQuick { state, action } => match reply {
                Reply::WgQuick(Ok(out)) => match (out.0, state, action) {
                    (Some(0), NetState::LinkAnomaly, WgQuickAction::Down) => ToggleStep::Await(
                        Pending::WgQuick { state, action: WgQuickAction::Up },
                    ),
                    (Some(0), _, WgQuickAction::Up) => ToggleStep::Finished(Ok(true)),
                    (Some(0), _, WgQuickAction::Down) => ToggleStep::Finished(Ok(false)),
                    _ => ToggleStep::Finished(Err(ToggleError::ToggleFailed { action })),
                },
                Reply::WgQuick(Err(e)) => ToggleStep::Finished(Err(ToggleError::Process(*e))),
                _ => ToggleStep::Finished(Err(ToggleError::ToggleFailed { action })),
            },
        };
        match step {
            ToggleStep::Finished(Ok(active)) => {
                self.active = active;
            },
            _ => {},
        }
        step
    }
}

/// A status query that ran to its end reports a session only with exit code
/// 0 and output that is not empty: a timeout, which leaves no code or another
/// one, and empty output report none.
pub proof fn lemma_driver_report(code: Option<i32>, output: String)
    ensures
        driver_verdict(Reply::Driver(Ok((code, output)))) == Ok::<bool, DetectionError>(
            code == Some(0i32) && output@.len() > 0,
        ),
{
}

/// Without a session reported by the driver a tunnel is `Inactive`, and the
/// link is not looked at: a toggle goes on at once as it does from `Inactive`.
pub proof fn lemma_inactive_without_driver_session(name: Seq<char>, peers: Seq<Peer>, reply: Reply)
    requires
        reply is Driver,
        reply->Driver_0 is Ok,
        !driver_reports_active(reply),
    ensures
        detect(name, Probe::Driver, reply) == Detection::Classified(NetState::Inactive),
        toggle_step(name, peers, Pending::Probe(Probe::Driver), reply) == after_detection(
            peers,
            NetState::Inactive,
        ),
{
}

/// With a session reported by the driver the link decides: `Active` where
/// the table shows it up and running, `LinkAnomaly` where the table shows it
/// down or does not list it.
pub proof fn lemma_link_decides_reported_session(
    name: Seq<char>,
    driver: Reply,
    entries: Vec<InterfaceEntry>,
)
    requires
        driver_reports_active(driver),
    ensures
        detect(name, Probe::Driver, driver) == Detection::Ask(Probe::Link),
        link_up(entries@, name) ==> detect(name, Probe::Link, Reply::Link(Ok(entries)))
            == Detection::Classified(NetState::Active),
        !link_up(entries@, name) ==> detect(name, Probe::Link, Reply::Link(Ok(entries)))
            == Detection::Classified(NetState::LinkAnomaly),
{
}

/// A query that failed at the level of the operating system ends the
/// detection pass with that failure, and a toggle with it: the toggle asks
/// for nothing more, so `wg-quick` does not run.
pub proof fn lemma_failed_query_ends_detection(
    name: Seq<char>,
    peers: Seq<Peer>,
    process: ProcessError,
    observer: ObserverError,
)
    ensures
        detect(name, Probe::Driver, Reply::Driver(Err(process))) == Detection::Failed(
            DetectionError::Process(process),
        ),
        detect(name, Probe::Link, Reply::Link(Err(observer))) == Detection::Failed(
            DetectionError::Observer(observer),
        ),
        toggle_step(name, peers, Pending::Probe(Probe::Driver), Reply::Driver(Err(process)))
            == ToggleStep::Finished(Err(ToggleError::Process(process))),
        toggle_step(name, peers, Pending::Probe(Probe::Link), Reply::Link(Err(observer)))
            == ToggleStep::Finished(Err(ToggleError::Observer(observer))),
{
}

/// An interface that the table does not list is not up.
pub proof fn lemma_unlisted_interface_is_down(entries: Seq<InterfaceEntry>, name: Seq<char>)
    requires
        forall|i: int| 0 <= i < entries.len() ==> (#[trigger] entries[i]).name@ != name,
    ensures
        !link_up(entries, name),
    decreases entries.len(),
{
    if entries.len() > 0 {
        assert forall|i: int| 0 <= i < entries.drop_first().len() implies (#[trigger] entries.drop_first()[i]).name@
            != name by {
            assert(entries.drop_first()[i] == entries[i + 1]);
        }
        lemma_unlisted_interface_is_down(entries.drop_first(), name);
    }
}

/// The endpoints are asked about in the order of the peers, each declared one
/// in its turn, and `wg-quick` is reached only when no declared endpoint is
/// left.
pub proof fn lemma_validation_order(peers: Seq<Peer>, state: NetState, from: int)
    requires
        0 <= from,
        peers.len() <= usize::MAX,
    ensures
        match validate_from(peers, state, from) {
            ToggleStep::Await(Pending::Endpoint { state: s, peer }) => {
                &&& s == state
                &&& from <= peer < peers.len()
                &&& peers[peer as int].endpoint.is_some()
                &&& forall|j: int| from <= j < peer ==> (#[trigger] peers[j]).endpoint.is_none()
            },
            ToggleStep::Await(Pending::WgQuick { state: s, action }) => {
                &&& s == state
                &&& action == first_action(state)
                &&& forall|j: int| from <= j < peers.len() ==> (#[trigger] peers[j]).endpoint.is_none()
            },
            _ => false,
        },
    decreases peers.len() - from,
{
    if from < peers.len() && peers[from].endpoint.is_none() {
        lemma_validation_order(peers, state, from + 1);
    }
}

/// What the outside would answer during one toggle: the driver, the interface
/// table, for each peer whether its endpoint is a socket address, and the
/// runs of `wg-quick down` and `wg-quick up`.
pub struct Answers {
    pub driver: Reply,
    pub link: Reply,
    pub endpoints: Seq<bool>,
    pub down: Reply,
    pub up: Reply,
}

impl Answers {
    /// The endpoint of the peer at this index is a socket address.
    pub open spec fn endpoint_ok(self, peer: int) -> bool {
        0 <= peer < self.endpoints.len() && self.endpoints[peer]
    }

    /// The reply to a request.
    pub open spec fn to(self, pending: Pending) -> Reply {
        match pending {
            Pending::Probe(Probe::Driver) => self.driver,
            Pending::Probe(Probe::Link) => self.link,
            Pending::Endpoint { peer, .. } => Reply::Endpoint(self.endpoint_ok(peer as int)),
            Pending::WgQuick { action: WgQuickAction::Down, .. } => self.down,
            Pending::WgQuick { action: WgQuickAction::Up, .. } => self.up,
        }
    }

    /// The state that detection finds, or the failure that ends it.
    pub open spec fn detected(self, name: Seq<char>) -> Result<NetState, DetectionError> {
        match driver_verdict(self.driver) {
            Err(e) => Err(e),
            Ok(false) => Ok(NetState::Inactive),
            Ok(true) => match link_verdict(self.link, name) {
                Err(e) => Err(e),
                Ok(true) => Ok(NetState::Active),
                Ok(false) => Ok(NetState::LinkAnomaly),
            },
        }
    }

    /// The first peer at `from` or later whose declared endpoint is no socket
    /// address.
    pub open spec fn first_invalid(self, peers: Seq<Peer>, from: int) -> Option<int>
        decreases peers.len() - from,
    {
        if from < 0 || from >= peers.len() {
            None
        } else if peers[from].endpoint.is_some() && !self.endpoint_ok(from) {
            Some(from)
        } else {
            self.first_invalid(peers, from + 1)
        }
    }

    /// The runs of `wg-quick` that a toggle from this state makes, in order.
    pub open spec fn planned_runs(self, state: NetState) -> Seq<WgQuickAction> {
        match state {
            NetState::Inactive => seq![WgQuickAction::Up],
            NetState::Active => seq![WgQuickAction::Down],
            NetState::LinkAnomaly => if command_succeeded(self.down) {
                seq![WgQuickAction::Down, WgQuickAction::Up]
            } else {
                seq![WgQuickAction::Down]
            },
        }
    }

    /// What a toggle from this state ends in, once its endpoints are accepted.
    pub open spec fn planned_end(self, state: NetState) -> Result<bool, ToggleError> {
        match state {
            NetState::Inactive => verdict(WgQuickAction::Up, self.up),
            NetState::Active => verdict(WgQuickAction::Down, self.down),
            NetState::LinkAnomaly => if command_succeeded(self.down) {
                verdict(WgQuickAction::Up, self.up)
            } else {
                verdict(WgQuickAction::Down, self.down)
            },
        }
    }
}

/// The runs of `wg-quick` among the requests of a toggle, from the request
/// `pending` on and for `steps` further steps at most.
pub open spec fn wg_quick_runs(
    name: Seq<char>,
    peers: Seq<Peer>,
    answers: Answers,
    pending: Pending,
    steps: nat,
) -> Seq<WgQuickAction>
    decreases steps,
{
    let own = match pending {
        Pending::WgQuick { action, .. } => seq![action],
        _ => Seq::<WgQuickAction>::empty(),
    };
    if steps == 0 {
        own
    } else {
        match toggle_step(name, peers, pending, answers.to(pending)) {
            ToggleStep::Await(next) => own + wg_quick_runs(name, peers, answers, next, (steps - 1) as nat),
            ToggleStep::Finished(_) => own,
        }
    }
}

/// What a toggle ends in, from the request `pending` on; `None` where it
/// takes more than `steps` further steps.
pub open spec fn toggle_end(
    name: Seq<char>,
    peers: Seq<Peer>,
    answers: Answers,
    pending: Pending,
    steps: nat,
) -> Option<Result<bool, ToggleError>>
    decreases steps,
{
    match toggle_step(name, peers, pending, answers.to(pending)) {
        ToggleStep::Finished(result) => Some(result),
        ToggleStep::Await(next) => if steps == 0 {
            None
        } else {
            toggle_end(name, peers, answers, next, (steps - 1) as nat)
        },
    }
}

/// From the first run of `wg-quick` on, a toggle makes the runs planned for
/// its state and ends as planned.
proof fn lemma_runs_as_planned(name: Seq<char>, peers: Seq<Peer>, answers: Answers, state: NetState, steps: nat)
    requires
        steps >= 2,
    ensures
        wg_quick_runs(
            name,
            peers,
            answers,
            Pending::WgQuick { state, action: first_action(state) },
            steps,
        ) == answers.planned_runs(state),
        toggle_end(name, peers, answers, Pending::WgQuick { state, action: first_action(state) }, steps)
            == Some(answers.planned_end(state)),
{
    let first = Pending::WgQuick { state, action: first_action(state) };
    let runs = wg_quick_runs(name, peers, answers, first, steps);
    if state == NetState::LinkAnomaly && command_succeeded(answers.down) {
        let second = Pending::WgQuick { state, action: WgQuickAction::Up };
        assert(toggle_step(name, peers, first, answers.to(first)) == ToggleStep::Await(second));
        assert(toggle_step(name, peers, second, answers.to(second)) is Finished);
        let rest = wg_quick_runs(name, peers, answers, second, (steps - 1) as nat);
        assert(rest == seq![WgQuickAction::Up]);
        assert(runs == seq![WgQuickAction::Down] + rest);
        assert(runs =~= seq![WgQuickAction::Down, WgQuickAction::Up]);
        assert(toggle_step(name, peers, second, answers.to(second)) == ToggleStep::Finished(
            verdict(WgQuickAction::Up, answers.up),
        ));
        assert(toggle_end(name, peers, answers, second, (steps - 1) as nat) == Some(
            verdict(WgQuickAction::Up, answers.up),
        ));
        assert(toggle_end(name, peers, answers, first, steps) == toggle_end(
            name,
            peers,
            answers,
            second,
            (steps - 1) as nat,
        ));
    } else {
        assert(toggle_step(name, peers, first, answers.to(first)) == ToggleStep::Finished(
            answers.planned_end(state),
        ));
        assert(runs =~= answers.planned_runs(state));
    }
}

/// While endpoints are checked no `wg-quick` runs: a toggle that waits on
/// what `validate_from` gives ends at the first invalid endpoint without a
/// run, and makes the planned runs where there is none.
proof fn lemma_validation_run(
    name: Seq<char>,
    peers: Seq<Peer>,
    answers: Answers,
    state: NetState,
    from: int,
    steps: nat,
)
    requires
        0 <= from,
        peers.len() <= usize::MAX,
        steps >= peers.len() - from + 2,
        steps >= 2,
    ensures
        validate_from(peers, state, from) matches ToggleStep::Await(pending) && {
            &&& wg_quick_runs(name, peers, answers, pending, steps) == (match answers.first_invalid(
                peers,
                from,
            ) {
                Some(_) => Seq::<WgQuickAction>::empty(),
                None => answers.planned_runs(state),
            })
            &&& toggle_end(name, peers, answers, pending, steps) == Some(
                match answers.first_invalid(peers, from) {
                    Some(peer) => Err(ToggleError::InvalidEndpoint { peer: peer as usize }),
                    None => answers.planned_end(state),
                },
            )
        },
    decreases peers.len() - from,
{
    if from >= peers.len() {
        lemma_runs_as_planned(name, peers, answers, state, steps);
    } else if peers[from].endpoint.is_some() {
        let pending = Pending::Endpoint { state, peer: from as usize };
        let step = toggle_step(name, peers, pending, answers.to(pending));
        if answers.endpoint_ok(from) {
            assert(step == validate_from(peers, state, from + 1));
            lemma_validation_run(name, peers, answers, state, from + 1, (steps - 1) as nat);
            let next = validate_from(peers, state, from + 1)->Await_0;
            assert(wg_quick_runs(name, peers, answers, pending, steps) =~= wg_quick_runs(
                name,
                peers,
                answers,
                next,
                (steps - 1) as nat,
            ));
        } else {
            assert(step == ToggleStep::Finished(Err(ToggleError::InvalidEndpoint { peer: from as usize })));
        }
    } else {
        lemma_validation_run(name, peers, answers, state, from + 1, steps);
    }
}

/// A whole toggle. It ends within the number of its peers and five steps.
/// Where detection fails, it ends in that failure and has run `wg-quick` not
/// once. Where the tunnel is not active and a declared endpoint is no socket
/// address, it ends in `InvalidEndpoint` for the first such peer and has run
/// `wg-quick` not once. Otherwise it makes the runs planned for the detected
/// state, in their order, and ends as planned.
pub proof fn lemma_toggle_run(name: Seq<char>, peers: Seq<Peer>, answers: Answers, steps: nat)
    requires
        peers.len() <= usize::MAX,
        steps >= peers.len() + 5,
    ensures
        ({
            let start = Pending::Probe(Probe::Driver);
            match answers.detected(name) {
                Err(e) => {
                    &&& wg_quick_runs(name, peers, answers, start, steps) == Seq::<WgQuickAction>::empty()
                    &&& toggle_end(name, peers, answers, start, steps) == Some(
                        Err::<bool, ToggleError>(detection_failure(e)),
                    )
                },
                Ok(state) => if state != NetState::Active && answers.first_invalid(peers, 0).is_some() {
                    &&& wg_quick_runs(name, peers, answers, start, steps) == Seq::<WgQuickAction>::empty()
                    &&& toggle_end(name, peers, answers, start, steps) == Some(
                        Err::<bool, ToggleError>(
                            ToggleError::InvalidEndpoint {
                                peer: answers.first_invalid(peers, 0).unwrap() as usize,
                            },
                        ),
                    )
                } else {
                    &&& wg_quick_runs(name, peers, answers, start, steps) == answers.planned_runs(state)
                    &&& toggle_end(name, peers, answers, start, steps) == Some(answers.planned_end(state))
                },
            }
        }),
{
    let start = Pending::Probe(Probe::Driver);
    let link = Pending::Probe(Probe::Link);
    let empty = Seq::<WgQuickAction>::empty();
    match answers.detected(name) {
        Err(e) => {
            let failed = ToggleStep::Finished(Err(detection_failure(e)));
            if driver_verdict(answers.driver) is Err {
                assert(toggle_step(name, peers, start, answers.to(start)) == failed);
                assert(wg_quick_runs(name, peers, answers, start, steps) =~= empty);
            } else {
                assert(toggle_step(name, peers, start, answers.to(start)) == ToggleStep::Await(link));
                assert(toggle_step(name, peers, link, answers.to(link)) == failed);
                assert(wg_quick_runs(name, peers, answers, link, (steps - 1) as nat) =~= empty);
                assert(wg_quick_runs(name, peers, answers, start, steps) =~= empty);
                assert(toggle_end(name, peers, answers, link, (steps - 1) as nat) == Some(
                    Err::<bool, ToggleError>(detection_failure(e)),
                ));
            }
        },
        Ok(state) => {
            let after = (if state == NetState::Inactive {
                steps - 1
            } else {
                steps - 2
            }) as nat;
            if state == NetState::Active {
                lemma_runs_as_planned(name, peers, answers, state, after);
            } else {
                lemma_validation_run(name, peers, answers, state, 0, after);
            }
            let first = after_detection(peers, state)->Await_0;
            assert(after_detection(peers, state) == ToggleStep::Await(first));
            if state == NetState::Inactive {
                assert(toggle_step(name, peers, start, answers.to(start)) == after_detection(peers, state));
                assert(wg_quick_runs(name, peers, answers, start, steps) =~= wg_quick_runs(
                    name,
                    peers,
                    answers,
                    first,
                    after,
                ));
                assert(toggle_end(name, peers, answers, start, steps) == toggle_end(
                    name,
                    peers,
                    answers,
                    first,
                    after,
                ));
            } else {
                assert(toggle_step(name, peers, start, answers.to(start)) == ToggleStep::Await(link));
                assert(toggle_step(name, peers, link, answers.to(link)) == after_detection(peers, state));
                assert(toggle_end(name, peers, answers, link, (steps - 1) as nat) == toggle_end(
                    name,
                    peers,
                    answers,
                    first,
                    after,
                ));
                assert(toggle_end(name, peers, answers, start, steps) == toggle_end(
                    name,
                    peers,
                    answers,
                    link,
                    (steps - 1) as nat,
                ));
                assert(wg_quick_runs(name, peers, answers, link, (steps - 1) as nat) =~= wg_quick_runs(
                    name,
                    peers,
                    answers,
                    first,
                    after,
                ));
                assert(wg_quick_runs(name, peers, answers, start, steps) =~= wg_quick_runs(
                    name,
                    peers,
                    answers,
                    link,
                    (steps - 1) as nat,
                ));
            }
        },
    }
}

/// A toggle whose detection pass fails, because the driver's query or the
/// listing of the interfaces failed at the level of the operating system,
/// ends in that failure. `wg-quick` does not run, and since the toggle ends
/// in an error the activation flag stays as it was.
pub proof fn lemma_failed_detection_stops_toggle(
    name: Seq<char>,
    peers: Seq<Peer>,
    answers: Answers,
    steps: nat,
)
    requires
        peers.len() <= usize::MAX,
        steps >= peers.len() + 5,
        answers.detected(name) is Err,
    ensures
        wg_quick_runs(name, peers, answers, Pending::Probe(Probe::Driver), steps) == Seq::<
            WgQuickAction,
        >::empty(),
        toggle_end(name, peers, answers, Pending::Probe(Probe::Driver), steps) == Some(
            Err::<bool, ToggleError>(detection_failure(answers.detected(name)->Err_0)),
        ),
        answers.driver matches Reply::Driver(Err(e)) ==> toggle_end(
            name,
            peers,
            answers,
            Pending::Probe(Probe::Driver),
            steps,
        ) == Some(Err::<bool, ToggleError>(ToggleError::Process(e))),
        driver_reports_active(answers.driver) ==> (answers.link matches Reply::Link(Err(e)) ==> toggle_end(
            name,
            peers,
            answers,
            Pending::Probe(Probe::Driver),
            steps,
        ) == Some(Err::<bool, ToggleError>(ToggleError::Observer(e)))),
{
    lemma_toggle_run(name, peers, answers, steps);
}

/// A toggle from `Inactive` whose endpoints are all accepted runs `wg-quick
/// up` once and nothing else, and ends in `active == true` exactly when that
/// run succeeded.
pub proof fn lemma_toggle_from_inactive(name: Seq<char>, peers: Seq<Peer>, answers: Answers, steps: nat)
    requires
        peers.len() <= usize::MAX,
        steps >= peers.len() + 5,
        answers.detected(name) == Ok::<NetState, DetectionError>(NetState::Inactive),
        answers.first_invalid(peers, 0).is_none(),
    ensures
        wg_quick_runs(name, peers, answers, Pending::Probe(Probe::Driver), steps) == seq![WgQuickAction::Up],
        toggle_end(name, peers, answers, Pending::Probe(Probe::Driver), steps) == Some(
            verdict(WgQuickAction::Up, answers.up),
        ),
        command_succeeded(answers.up) <==> toggle_end(
            name,
            peers,
            answers,
            Pending::Probe(Probe::Driver),
            steps,
        ) == Some(Ok::<bool, ToggleError>(true)),
{
    lemma_toggle_run(name, peers, answers, steps);
}

/// A toggle from `Active` runs `wg-quick down` once and nothing else, whatever
/// the endpoints are, and ends in `active == false` exactly when that run
/// succeeded.
pub proof fn lemma_toggle_from_active(name: Seq<char>, peers: Seq<Peer>, answers: Answers, steps: nat)
    requires
        peers.len() <= usize::MAX,
        steps >= peers.len() + 5,
        answers.detected(name) == Ok::<NetState, DetectionError>(NetState::Active),
    ensures
        wg_quick_runs(name, peers, answers, Pending::Probe(Probe::Driver), steps) == seq![WgQuickAction::Down],
        toggle_end(name, peers, answers, Pending::Probe(Probe::Driver), steps) == Some(
            verdict(WgQuickAction::Down, answers.down),
        ),
        command_succeeded(answers.down) <==> toggle_end(
            name,
            peers,
            answers,
            Pending::Probe(Probe::Driver),
            steps,
        ) == Some(Ok::<bool, ToggleError>(false)),
{
    lemma_toggle_run(name, peers, answers, steps);
}

/// A toggle from `LinkAnomaly` whose endpoints are all accepted runs `wg-quick
/// down` and then `wg-quick up`. Where `down` fails, `up` is not run and the
/// toggle ends in an error, so that the activation flag stays as it was. It
/// ends in `active == true` exactly when both runs succeeded.
pub proof fn lemma_toggle_from_link_anomaly(name: Seq<char>, peers: Seq<Peer>, answers: Answers, steps: nat)
    requires
        peers.len() <= usize::MAX,
        steps >= peers.len() + 5,
        answers.detected(name) == Ok::<NetState, DetectionError>(NetState::LinkAnomaly),
        answers.first_invalid(peers, 0).is_none(),
    ensures
        command_succeeded(answers.down) ==> wg_quick_runs(
            name,
            peers,
            answers,
            Pending::Probe(Probe::Driver),
            steps,
        ) == seq![WgQuickAction::Down, WgQuickAction::Up],
        !command_succeeded(answers.down) ==> wg_quick_runs(
            name,
            peers,
            answers,
            Pending::Probe(Probe::Driver),
            steps,
        ) == seq![WgQuickAction::Down],
        !command_succeeded(answers.down) ==> toggle_end(
            name,
            peers,
            answers,
            Pending::Probe(Probe::Driver),
            steps,
        ) == Some(verdict(WgQuickAction::Down, answers.down)),
        !command_succeeded(answers.down) ==> verdict(WgQuickAction::Down, answers.down).is_err(),
        command_succeeded(answers.down) && command_succeeded(answers.up) <==> toggle_end(
            name,
            peers,
            answers,
            Pending::Probe(Probe::Driver),
            steps,
        ) == Some(Ok::<bool, ToggleError>(true)),
{
    lemma_toggle_run(name, peers, answers, steps);
}

/// Activating a tunnel of which a peer declares an endpoint that is no socket
/// address ends in `InvalidEndpoint`, and `wg-quick` has not run.
pub proof fn lemma_invalid_endpoint_blocks_activation(
    name: Seq<char>,
    peers: Seq<Peer>,
    answers: Answers,
    peer: int,
    steps: nat,
)
    requires
        peers.len() <= usize::MAX,
        steps >= peers.len() + 5,
        answers.detected(name) matches Ok(state) && state != NetState::Active,
        0 <= peer < peers.len(),
        peers[peer].endpoint.is_some(),
        !answers.endpoint_ok(peer),
    ensures
        wg_quick_runs(name, peers, answers, Pending::Probe(Probe::Driver), steps) == Seq::<
            WgQuickAction,
        >::empty(),
        toggle_end(name, peers, answers, Pending::Probe(Probe::Driver), steps) matches Some(
            Err(ToggleError::InvalidEndpoint { peer: first }),
        ) && first <= peer && peers[first as int].endpoint.is_some() && !answers.endpoint_ok(first as int),
{
    lemma_first_invalid(peers, answers, 0, peer);
    lemma_toggle_run(name, peers, answers, steps);
}

/// Where a peer at `from` or later declares an endpoint that is no socket
/// address, `first_invalid` finds the first such peer.
proof fn lemma_first_invalid(peers: Seq<Peer>, answers: Answers, from: int, peer: int)
    requires
        0 <= from <= peer < peers.len(),
        peers[peer].endpoint.is_some(),
        !answers.endpoint_ok(peer),
    ensures
        answers.first_invalid(peers, from) matches Some(first) && from <= first <= peer
            && peers[first].endpoint.is_some() && !answers.endpoint_ok(first),
    decreases peer - from,
{
    if !(peers[from].endpoint.is_some() && !answers.endpoint_ok(from)) {
        lemma_first_invalid(peers, answers, from + 1, peer);
    }
}

} // verus!
