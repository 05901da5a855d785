//! The background D-Bus monitor, as a state machine.
//!
//! The monitor connects to the system bus, creates a proxy for the power
//! profiles service, reads the initial `Profiles` and `ActiveProfile`
//! properties, subscribes to `PropertiesChanged` signals and then forwards
//! each change to the panel. The D-Bus calls themselves are made by the
//! caller: [`DbusMonitor::command`] says which call comes next, and
//! [`DbusMonitor::step`] takes what that call gave and returns the
//! [`DbusEvent`]s to send to the panel.

use vstd::prelude::*;

use crate::dbus::properties::PropertyMap;
use crate::dbus::{
    event_views, extract_profile_names, profile_names, DbusEvent, DbusEventView,
};

verus! {

/// Where the monitor stands.
#[derive(Clone, Copy, Debug, PartialEq, Eq, Structural)]
pub enum MonitorStage {
    /// Connecting to the system bus.
    Connecting,
    /// Creating the proxy for the power profiles service.
    CreatingProxy,
    /// Reading the initial `Profiles` property.
    ReadingProfiles,
    /// Reading the initial `ActiveProfile` property.
    ReadingActiveProfile,
    /// Building the match rule for `PropertiesChanged` signals.
    BuildingRule,
    /// Opening the message stream for that rule.
    Subscribing,
    /// Waiting for the next signal.
    Listening,
    /// Reading `Profiles` again after a signal reported it changed.
    RefreshingProfiles,
    /// Monitoring has ended for good.
    Stopped,
}

/// The D-Bus work that the monitor asks for next.
#[derive(Clone, Copy, Debug, PartialEq, Eq, Structural)]
pub enum MonitorCommand {
    /// Connect to the system bus.
    Connect,
    /// Create the power profiles proxy on the connection.
    CreateProxy,
    /// Read the `Profiles` property.
    ReadProfiles,
    /// Read the `ActiveProfile` property.
    ReadActiveProfile,
    /// Build the match rule for `PropertiesChanged` signals from the service.
    BuildRule,
    /// Open a message stream for the match rule.
    Subscribe,
    /// Wait for the next message on the stream, or for the poll interval to pass.
    WaitForSignal,
    /// Do nothing more.
    Stop,
}

/// What the requested D-Bus work gave.
pub enum MonitorOutcome {
    /// The connection, proxy, match rule or stream was set up.
    Done,
    /// The work failed; the error's text.
    Failed(String),
    /// The `Profiles` property was read.
    Profiles(Vec<PropertyMap>),
    /// The `ActiveProfile` property was read.
    ActiveProfile(String),
    /// A `PropertiesChanged` signal arrived; its dictionary of changed properties.
    PropertiesChanged(PropertyMap),
    /// A message arrived whose body is not that of `PropertiesChanged`.
    Undecodable,
    /// The message stream ended or reported an error.
    StreamEnded,
    /// No message arrived within the poll interval.
    TimedOut,
}

/// The D-Bus work asked for in each stage.
pub open spec fn command_for(stage: MonitorStage) -> MonitorCommand {
    match stage {
        MonitorStage::Connecting => MonitorCommand::Connect,
        MonitorStage::CreatingProxy => MonitorCommand::CreateProxy,
        MonitorStage::ReadingProfiles => MonitorCommand::ReadProfiles,
        MonitorStage::ReadingActiveProfile => MonitorCommand::ReadActiveProfile,
        MonitorStage::BuildingRule => MonitorCommand::BuildRule,
        MonitorStage::Subscribing => MonitorCommand::Subscribe,
        MonitorStage::Listening => MonitorCommand::WaitForSignal,
        MonitorStage::RefreshingProfiles => MonitorCommand::ReadProfiles,
        MonitorStage::Stopped => MonitorCommand::Stop,
    }
}

/// The events forwarded for the dictionary of a `PropertiesChanged` signal:
/// the new active profile, then the new performance degradation text, each
/// only when the dictionary holds it as a string.
pub open spec fn signal_events(changed: Map<Seq<char>, Option<Seq<char>>>) -> Seq<DbusEventView> {
    let active: Seq<DbusEventView> = if changed.contains_key("ActiveProfile"@)
        && changed["ActiveProfile"@] is Some {
        seq![DbusEventView::ActiveProfileChanged(changed["ActiveProfile"@]->Some_0)]
    } else {
        Seq::empty()
    };
    let degraded: Seq<DbusEventView> = if changed.contains_key("PerformanceDegraded"@)
        && changed["PerformanceDegraded"@] is Some {
        seq![DbusEventView::PerformanceDegraded(changed["PerformanceDegraded"@]->Some_0)]
    } else {
        Seq::empty()
    };
    active + degraded
}

/// The single event that reports that D-Bus is unavailable.
pub open spec fn unavailable(message: Seq<char>) -> Seq<DbusEventView> {
    seq![DbusEventView::Unavailable(message)]
}

/// One step of the monitor: from its stage and what the requested work gave,
/// the next stage and the events sent to the panel. An outcome that the
/// stage did not ask for leaves the monitor as it was and sends nothing.
pub open spec fn monitor_step(stage: MonitorStage, outcome: MonitorOutcome) -> (
    MonitorStage,
    Seq<DbusEventView>,
) {
    match stage {
        MonitorStage::Connecting => match outcome {
            MonitorOutcome::Done => (MonitorStage::CreatingProxy, Seq::empty()),
            MonitorOutcome::Failed(e) => (
                MonitorStage::Stopped,
                unavailable("Cannot connect to system bus: "@ + e@),
            ),
            _ => (stage, Seq::empty()),
        },
        MonitorStage::CreatingProxy => match outcome {
            MonitorOutcome::Done => (MonitorStage::ReadingProfiles, Seq::empty()),
            MonitorOutcome::Failed(e) => (
                MonitorStage::Stopped,
                unavailable("Cannot create proxy: "@ + e@),
            ),
            _ => (stage, Seq::empty()),
        },
        MonitorStage::ReadingProfiles => match outcome {
            MonitorOutcome::Profiles(ps) => (
                MonitorStage::ReadingActiveProfile,
                seq![DbusEventView::ProfilesChanged(profile_names(ps@))],
            ),
            MonitorOutcome::Failed(e) => (
                MonitorStage::Stopped,
                unavailable("Cannot read profiles: "@ + e@),
            ),
            _ => (stage, Seq::empty()),
        },
        MonitorStage::ReadingActiveProfile => match outcome {
            MonitorOutcome::ActiveProfile(name) => (
                MonitorStage::BuildingRule,
                seq![DbusEventView::ActiveProfileChanged(name@)],
            ),
            MonitorOutcome::Failed(e) => (
                MonitorStage::BuildingRule,
                unavailable("Cannot read active profile: "@ + e@),
            ),
            _ => (stage, Seq::empty()),
        },
        MonitorStage::BuildingRule => match outcome {
            MonitorOutcome::Done => (MonitorStage::Subscribing, Seq::empty()),
            MonitorOutcome::Failed(e) => (
                MonitorStage::Stopped,
                unavailable("Cannot build match rule: "@ + e@),
            ),
            _ => (stage, Seq::empty()),
        },
        MonitorStage::Subscribing => match outcome {
            MonitorOutcome::Done => (MonitorStage::Listening, Seq::empty()),
            MonitorOutcome::Failed(e) => (
                MonitorStage::Stopped,
                unavailable("Cannot watch properties: "@ + e@),
            ),
            _ => (stage, Seq::empty()),
        },
        MonitorStage::Listening => match outcome {
            MonitorOutcome::PropertiesChanged(changed) => (
                if changed@.contains_key("Profiles"@) {
                    MonitorStage::RefreshingProfiles
                } else {
                    MonitorStage::Listening
                },
                signal_events(changed@),
            ),
            MonitorOutcome::Undecodable => (MonitorStage::Listening, Seq::empty()),
            MonitorOutcome::TimedOut => (MonitorStage::Listening, Seq::empty()),
            MonitorOutcome::StreamEnded => (
                MonitorStage::Stopped,
                unavailable("D-Bus stream ended"@),
            ),
            _ => (stage, Seq::empty()),
        },
        MonitorStage::RefreshingProfiles => match outcome {
            MonitorOutcome::Profiles(ps) => (
                MonitorStage::Listening,
                seq![DbusEventView::ProfilesChanged(profile_names(ps@))],
            ),
            MonitorOutcome::Failed(_) => (MonitorStage::Listening, Seq::empty()),
            _ => (stage, Seq::empty()),
        },
        MonitorStage::Stopped => (stage, Seq::empty()),
    }
}

/// Once stopped, the monitor stays stopped and sends nothing, whatever it is
/// handed.
pub proof fn law_stopped_is_final(outcome: MonitorOutcome)
    ensures
        monitor_step(MonitorStage::Stopped, outcome) == (
            MonitorStage::Stopped,
            Seq::<DbusEventView>::empty(),
        ),
{
}

/// Whenever a step stops the monitor, the panel is told why: the step sends
/// exactly one event, and it reports D-Bus as unavailable.
pub proof fn law_stopping_reports_unavailable(stage: MonitorStage, outcome: MonitorOutcome)
    requires
        stage != MonitorStage::Stopped,
        monitor_step(stage, outcome).0 == MonitorStage::Stopped,
    ensures
        monitor_step(stage, outcome).1.len() == 1,
        monitor_step(stage, outcome).1[0] is Unavailable,
{
}

/// The monitor only ever listens for signals after its subscription was set
/// up: a step that enters the listening stage starts from the subscribing,
/// listening or refreshing stage.
pub proof fn law_listening_follows_subscription(stage: MonitorStage, outcome: MonitorOutcome)
    requires
        stage != MonitorStage::Listening,
        monitor_step(stage, outcome).0 == MonitorStage::Listening,
    ensures
        stage == MonitorStage::Subscribing || stage == MonitorStage::RefreshingProfiles,
{
}

/// The events of a signal depend only on its `ActiveProfile` and
/// `PerformanceDegraded` entries: adding, replacing or removing any other
/// changed property (such as `Profiles`) forwards the same events.
pub proof fn law_signal_events_ignore_other_properties(
    changed: Map<Seq<char>, Option<Seq<char>>>,
    key: Seq<char>,
    value: Option<Seq<char>>,
)
    requires
        key != "ActiveProfile"@,
        key != "PerformanceDegraded"@,
    ensures
        signal_events(changed.insert(key, value)) == signal_events(changed),
        signal_events(changed.remove(key)) == signal_events(changed),
{
    let inserted = changed.insert(key, value);
    let removed = changed.remove(key);
    assert(inserted.contains_key("ActiveProfile"@) == changed.contains_key("ActiveProfile"@));
    assert(inserted.contains_key("PerformanceDegraded"@) == changed.contains_key(
        "PerformanceDegraded"@,
    ));
    assert(removed.contains_key("ActiveProfile"@) == changed.contains_key("ActiveProfile"@));
    assert(removed.contains_key("PerformanceDegraded"@) == changed.contains_key(
        "PerformanceDegraded"@,
    ));
    if changed.contains_key("ActiveProfile"@) {
        assert(inserted["ActiveProfile"@] == changed["ActiveProfile"@]);
        assert(removed["ActiveProfile"@] == changed["ActiveProfile"@]);
    }
    if changed.contains_key("PerformanceDegraded"@) {
        assert(inserted["PerformanceDegraded"@] == changed["PerformanceDegraded"@]);
        assert(removed["PerformanceDegraded"@] == changed["PerformanceDegraded"@]);
    }
}

/// A signal forwards one event per string it carries under `ActiveProfile`
/// and `PerformanceDegraded`, and no other: first the new active profile,
/// last the degradation text.
pub proof fn law_signal_events_forward_strings(changed: Map<Seq<char>, Option<Seq<char>>>)
    ensures
        signal_events(changed).len() == (if changed.contains_key("ActiveProfile"@)
            && changed["ActiveProfile"@] is Some {
            1int
        } else {
            0int
        }) + (if changed.contains_key("PerformanceDegraded"@)
            && changed["PerformanceDegraded"@] is Some {
            1int
        } else {
            0int
        }),
        changed.contains_key("ActiveProfile"@) && changed["ActiveProfile"@] is Some ==> signal_events(
            changed,
        )[0] == DbusEventView::ActiveProfileChanged(changed["ActiveProfile"@]->Some_0),
        changed.contains_key("PerformanceDegraded"@) && changed["PerformanceDegraded"@] is Some
            ==> signal_events(changed).last() == DbusEventView::PerformanceDegraded(
            changed["PerformanceDegraded"@]->Some_0,
        ),
{
}

/// While listening, a `PropertiesChanged` signal that carries a string under
/// `ActiveProfile` forwards that profile as the first event, whatever else the
/// signal carries; the monitor goes on listening, or first reads `Profiles`
/// again when the signal carries that property too.
pub proof fn law_listening_forwards_active_profile(changed: PropertyMap)
    requires
        changed@.contains_key("ActiveProfile"@),
        changed@["ActiveProfile"@] is Some,
    ensures
        monitor_step(MonitorStage::Listening, MonitorOutcome::PropertiesChanged(changed)).1.len()
            >= 1,
        monitor_step(MonitorStage::Listening, MonitorOutcome::PropertiesChanged(changed)).1[0]
            == DbusEventView::ActiveProfileChanged(changed@["ActiveProfile"@]->Some_0),
        monitor_step(MonitorStage::Listening, MonitorOutcome::PropertiesChanged(changed)).0 == (
        if changed@.contains_key("Profiles"@) {
            MonitorStage::RefreshingProfiles
        } else {
            MonitorStage::Listening
        }),
{
    law_signal_events_forward_strings(changed@);
}

/// The event that reports D-Bus as unavailable, with `prefix` before the
/// error text.
fn unavailable_event(prefix: &str, error: &str) -> (event: DbusEvent)
    ensures
        event@ == DbusEventView::Unavailable(prefix@ + error@),
{
    let mut message = prefix.to_owned();
    message.append(error);
    DbusEvent::Unavailable(message)
}

/// A list of one event.
fn one_event(event: DbusEvent) -> (events: Vec<DbusEvent>)
    ensures
        event_views(events@) == seq![event@],
{
    let mut events: Vec<DbusEvent> = Vec::new();
    events.push(event);
    assert(event_views(events@) =~= seq![event@]);
    events
}

/// No events.
fn no_events() -> (events: Vec<DbusEvent>)
    ensures
        event_views(events@) == Seq::<DbusEventView>::empty(),
{
    let events: Vec<DbusEvent> = Vec::new();
    assert(event_views(events@) =~= Seq::<DbusEventView>::empty());
    events
}

/// The events forwarded for the changed properties of a signal.
pub fn signal_events_of(changed: &PropertyMap) -> (events: Vec<DbusEvent>)
    ensures
        event_views(events@) == signal_events(changed@),
{
    let mut events: Vec<DbusEvent> = Vec::new();
    if let Some(value) = changed.get("ActiveProfile") {
        if let Some(name) = value.as_str() {
            events.push(DbusEvent::ActiveProfileChanged(name.to_owned()));
        }
    }
    if let Some(value) = changed.get("PerformanceDegraded") {
        if let Some(text) = value.as_str() {
            events.push(DbusEvent::PerformanceDegraded(text.to_owned()));
        }
    }
    assert(event_views(events@) =~= signal_events(changed@));
    events
}

/// The background monitor's state.
pub struct DbusMonitor {
    stage: MonitorStage,
}

impl View for DbusMonitor {
    type V = MonitorStage;

    closed spec fn view(&self) -> MonitorStage {
        self.stage
    }
}

impl DbusMonitor {
    /// A monitor that is about to connect to the system bus.
    pub fn new() -> (monitor: Self)
        ensures
            monitor@ == MonitorStage::Connecting,
    {
        DbusMonitor { stage: MonitorStage::Connecting }
    }

    /// The monitor's stage.
    pub fn stage(&self) -> (stage: MonitorStage)
        ensures
            stage == self@,
    {
        self.stage
    }

    /// The D-Bus work to do next.
    pub fn command(&self) -> (command: MonitorCommand)
        ensures
            command == command_for(self@),
    {
        match self.stage {
            MonitorStage::Connecting => MonitorCommand::Connect,
            MonitorStage::CreatingProxy => MonitorCommand::CreateProxy,
            MonitorStage::ReadingProfiles => MonitorCommand::ReadProfiles,
            MonitorStage::ReadingActiveProfile => MonitorCommand::ReadActiveProfile,
            MonitorStage::BuildingRule => MonitorCommand::BuildRule,
            MonitorStage::Subscribing => MonitorCommand::Subscribe,
            MonitorStage::Listening => MonitorCommand::WaitForSignal,
            MonitorStage::RefreshingProfiles => MonitorCommand::ReadProfiles,
            MonitorStage::Stopped => MonitorCommand::Stop,
        }
    }

    /// Takes what the requested D-Bus work gave, moves to the next stage and
    /// returns the events to send to the panel, in order.
    pub fn step(&mut self, outcome: MonitorOutcome) -> (events: Vec<DbusEvent>)
        ensures
            final(self)@ == monitor_step(old(self)@, outcome).0,
            event_views(events@) == monitor_step(old(self)@, outcome).1,
    {
        let stage = self.stage;
        match stage {
            MonitorStage::Connecting => match outcome {
                MonitorOutcome::Done => {
                    self.stage = MonitorStage::CreatingProxy;
                    no_events()
                },
                MonitorOutcome::Failed(e) => {
                    self.stage = MonitorStage::Stopped;
                    one_event(unavailable_event("Cannot connect to system bus: ", e.as_str()))
                },
                _ => no_events(),
            },
            MonitorStage::CreatingProxy => match outcome {
                MonitorOutcome::Done => {
                    self.stage = MonitorStage::ReadingProfiles;
                    no_events()
                },
                MonitorOutcome::Failed(e) => {
                    self.stage = MonitorStage::Stopped;
                    one_event(unavailable_event("Cannot create proxy: ", e.as_str()))
                },
                _ => no_events(),
            },
            MonitorStage::ReadingProfiles => match outcome {
                MonitorOutcome::Profiles(ps) => {
                    self.stage = MonitorStage::ReadingActiveProfile;
                    let names = extract_profile_names(ps.as_slice());
                    one_event(DbusEvent::ProfilesChanged(names))
                },
                MonitorOutcome::Failed(e) => {
                    self.stage = MonitorStage::Stopped;
                    one_event(unavailable_event("Cannot read profiles: ", e.as_str()))
                },
                _ => no_events(),
            },
            MonitorStage::ReadingActiveProfile => match outcome {
                MonitorOutcome::ActiveProfile(name) => {
                    self.stage = MonitorStage::BuildingRule;
                    one_event(DbusEvent::ActiveProfileChanged(name))
                },
                MonitorOutcome::Failed(e) => {
                    self.stage = MonitorStage::BuildingRule;
                    one_event(unavailable_event("Cannot read active profile: ", e.as_str()))
                },
                _ => no_events(),
            },
            MonitorStage::BuildingRule => match outcome {
                MonitorOutcome::Done => {
                    self.stage = MonitorStage::Subscribing;
                    no_events()
                },
                MonitorOutcome::Failed(e) => {
                    self.stage = MonitorStage::Stopped;
                    one_event(unavailable_event("Cannot build match rule: ", e.as_str()))
                },
                _ => no_events(),
            },
            MonitorStage::Subscribing => match outcome {
                MonitorOutcome::Done => {
                    self.stage = MonitorStage::Listening;
                    no_events()
                },
                MonitorOutcome::Failed(e) => {
                    self.stage = MonitorStage::Stopped;
                    one_event(unavailable_event("Cannot watch properties: ", e.as_str()))
                },
                _ => no_events(),
            },
            MonitorStage::Listening => match outcome {
                MonitorOutcome::PropertiesChanged(changed) => {
                    if changed.contains_key("Profiles") {
                        self.stage = MonitorStage::RefreshingProfiles;
                    }
                    signal_events_of(&changed)
                },
                MonitorOutcome::Undecodable => no_events(),
                MonitorOutcome::TimedOut => no_events(),
                MonitorOutcome::StreamEnded => {
                    self.stage = MonitorStage::Stopped;
                    one_event(DbusEvent::Unavailable("D-Bus stream ended".to_owned()))
                },
                _ => no_events(),
            },
            MonitorStage::RefreshingProfiles => match outcome {
                MonitorOutcome::Profiles(ps) => {
                    self.stage = MonitorStage::Listening;
                    let names = extract_profile_names(ps.as_slice());
                    one_event(DbusEvent::ProfilesChanged(names))
                },
                MonitorOutcome::Failed(_) => {
                    self.stage = MonitorStage::Listening;
                    no_events()
                },
                _ => no_events(),
            },
            MonitorStage::Stopped => no_events(),
        }
    }
}

} // verus!
