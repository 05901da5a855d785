use powerprofiles::dbus::monitor::{DbusMonitor, MonitorCommand, MonitorOutcome, MonitorStage};
use powerprofiles::dbus::properties::{PropertyMap, PropertyValue};
use powerprofiles::dbus::DbusEvent;

fn profile_dict(name: &str) -> PropertyMap {
    let mut dict = PropertyMap::new();
    dict.insert("Profile".to_owned(), PropertyValue::Str(name.to_owned()));
    dict
}

fn unavailable(text: &str) -> Vec<DbusEvent> {
    vec![DbusEvent::Unavailable(text.to_owned())]
}

fn listening_monitor() -> DbusMonitor {
    let mut monitor = DbusMonitor::new();
    monitor.step(MonitorOutcome::Done);
    monitor.step(MonitorOutcome::Done);
    monitor.step(MonitorOutcome::Profiles(vec![profile_dict("balanced")]));
    monitor.step(MonitorOutcome::ActiveProfile("balanced".to_owned()));
    monitor.step(MonitorOutcome::Done);
    monitor.step(MonitorOutcome::Done);
    assert_eq!(monitor.stage(), MonitorStage::Listening);
    monitor
}

#[test]
fn startup_reads_profiles_then_active_profile_then_listens() {
    let mut monitor = DbusMonitor::new();
    assert_eq!(monitor.command(), MonitorCommand::Connect);
    assert_eq!(monitor.step(MonitorOutcome::Done), vec![]);
    assert_eq!(monitor.command(), MonitorCommand::CreateProxy);
    assert_eq!(monitor.step(MonitorOutcome::Done), vec![]);
    assert_eq!(monitor.command(), MonitorCommand::ReadProfiles);
    let events = monitor.step(MonitorOutcome::Profiles(vec![
        profile_dict("power-saver"),
        profile_dict("balanced"),
        profile_dict("performance"),
    ]));
    assert_eq!(
        events,
        vec![DbusEvent::ProfilesChanged(vec![
            "power-saver".to_owned(),
            "balanced".to_owned(),
            "performance".to_owned()
        ])]
    );
    assert_eq!(monitor.command(), MonitorCommand::ReadActiveProfile);
    assert_eq!(
        monitor.step(MonitorOutcome::ActiveProfile("balanced".to_owned())),
        vec![DbusEvent::ActiveProfileChanged("balanced".to_owned())]
    );
    assert_eq!(monitor.command(), MonitorCommand::BuildRule);
    assert_eq!(monitor.step(MonitorOutcome::Done), vec![]);
    assert_eq!(monitor.command(), MonitorCommand::Subscribe);
    assert_eq!(monitor.step(MonitorOutcome::Done), vec![]);
    assert_eq!(monitor.command(), MonitorCommand::WaitForSignal);
    assert_eq!(monitor.stage(), MonitorStage::Listening);
}

#[test]
fn connection_failure_stops_with_message() {
    let mut monitor = DbusMonitor::new();
    let events = monitor.step(MonitorOutcome::Failed("no bus".to_owned()));
    assert_eq!(events, unavailable("Cannot connect to system bus: no bus"));
    assert_eq!(monitor.stage(), MonitorStage::Stopped);
    assert_eq!(monitor.command(), MonitorCommand::Stop);
}

#[test]
fn proxy_failure_stops_with_message() {
    let mut monitor = DbusMonitor::new();
    monitor.step(MonitorOutcome::Done);
    let events = monitor.step(MonitorOutcome::Failed("bad path".to_owned()));
    assert_eq!(events, unavailable("Cannot create proxy: bad path"));
    assert_eq!(monitor.stage(), MonitorStage::Stopped);
}

#[test]
fn profiles_failure_stops_with_message() {
    let mut monitor = DbusMonitor::new();
    monitor.step(MonitorOutcome::Done);
    monitor.step(MonitorOutcome::Done);
    let events = monitor.step(MonitorOutcome::Failed("service unknown".to_owned()));
    assert_eq!(events, unavailable("Cannot read profiles: service unknown"));
    assert_eq!(monitor.stage(), MonitorStage::Stopped);
}

#[test]
fn active_profile_failure_is_reported_but_monitoring_goes_on() {
    let mut monitor = DbusMonitor::new();
    monitor.step(MonitorOutcome::Done);
    monitor.step(MonitorOutcome::Done);
    monitor.step(MonitorOutcome::Profiles(vec![]));
    let events = monitor.step(MonitorOutcome::Failed("timeout".to_owned()));
    assert_eq!(events, unavailable("Cannot read active profile: timeout"));
    assert_eq!(monitor.stage(), MonitorStage::BuildingRule);
    assert_eq!(monitor.command(), MonitorCommand::BuildRule);
}

#[test]
fn match_rule_failure_stops_with_message() {
    let mut monitor = DbusMonitor::new();
    monitor.step(MonitorOutcome::Done);
    monitor.step(MonitorOutcome::Done);
    monitor.step(MonitorOutcome::Profiles(vec![]));
    monitor.step(MonitorOutcome::ActiveProfile("balanced".to_owned()));
    let events = monitor.step(MonitorOutcome::Failed("invalid name".to_owned()));
    assert_eq!(events, unavailable("Cannot build match rule: invalid name"));
    assert_eq!(monitor.stage(), MonitorStage::Stopped);
}

#[test]
fn subscription_failure_stops_with_message() {
    let mut monitor = DbusMonitor::new();
    monitor.step(MonitorOutcome::Done);
    monitor.step(MonitorOutcome::Done);
    monitor.step(MonitorOutcome::Profiles(vec![]));
    monitor.step(MonitorOutcome::ActiveProfile("balanced".to_owned()));
    monitor.step(MonitorOutcome::Done);
    let events = monitor.step(MonitorOutcome::Failed("denied".to_owned()));
    assert_eq!(events, unavailable("Cannot watch properties: denied"));
    assert_eq!(monitor.stage(), MonitorStage::Stopped);
}

#[test]
fn signal_forwards_active_profile_and_degradation() {
    let mut monitor = listening_monitor();
    let mut changed = PropertyMap::new();
    changed.insert("PerformanceDegraded".to_owned(), PropertyValue::Str("lap-detected".to_owned()));
    changed.insert("ActiveProfile".to_owned(), PropertyValue::Str("performance".to_owned()));
    let events = monitor.step(MonitorOutcome::PropertiesChanged(changed));
    assert_eq!(
        events,
        vec![
            DbusEvent::ActiveProfileChanged("performance".to_owned()),
            DbusEvent::PerformanceDegraded("lap-detected".to_owned()),
        ]
    );
    assert_eq!(monitor.stage(), MonitorStage::Listening);
}

#[test]
fn signal_values_that_are_not_strings_are_skipped() {
    let mut monitor = listening_monitor();
    let mut changed = PropertyMap::new();
    changed.insert("ActiveProfile".to_owned(), PropertyValue::Other);
    changed.insert("PerformanceDegraded".to_owned(), PropertyValue::Other);
    assert_eq!(monitor.step(MonitorOutcome::PropertiesChanged(changed)), vec![]);
    assert_eq!(monitor.stage(), MonitorStage::Listening);
}

#[test]
fn changed_profiles_are_read_again() {
    let mut monitor = listening_monitor();
    let mut changed = PropertyMap::new();
    changed.insert("Profiles".to_owned(), PropertyValue::Other);
    assert_eq!(monitor.step(MonitorOutcome::PropertiesChanged(changed)), vec![]);
    assert_eq!(monitor.stage(), MonitorStage::RefreshingProfiles);
    assert_eq!(monitor.command(), MonitorCommand::ReadProfiles);
    let events = monitor.step(MonitorOutcome::Profiles(vec![
        profile_dict("power-saver"),
        profile_dict("performance"),
    ]));
    assert_eq!(
        events,
        vec![DbusEvent::ProfilesChanged(vec!["power-saver".to_owned(), "performance".to_owned()])]
    );
    assert_eq!(monitor.stage(), MonitorStage::Listening);
}

#[test]
fn failed_refresh_is_ignored() {
    let mut monitor = listening_monitor();
    let mut changed = PropertyMap::new();
    changed.insert("Profiles".to_owned(), PropertyValue::Other);
    monitor.step(MonitorOutcome::PropertiesChanged(changed));
    assert_eq!(monitor.step(MonitorOutcome::Failed("gone".to_owned())), vec![]);
    assert_eq!(monitor.stage(), MonitorStage::Listening);
}

#[test]
fn timeouts_and_undecodable_messages_change_nothing() {
    let mut monitor = listening_monitor();
    assert_eq!(monitor.step(MonitorOutcome::TimedOut), vec![]);
    assert_eq!(monitor.step(MonitorOutcome::Undecodable), vec![]);
    assert_eq!(monitor.stage(), MonitorStage::Listening);
}

#[test]
fn end_of_stream_stops_with_message() {
    let mut monitor = listening_monitor();
    assert_eq!(monitor.step(MonitorOutcome::StreamEnded), unavailable("D-Bus stream ended"));
    assert_eq!(monitor.stage(), MonitorStage::Stopped);
    assert_eq!(monitor.step(MonitorOutcome::Done), vec![]);
    assert_eq!(monitor.step(MonitorOutcome::StreamEnded), vec![]);
    assert_eq!(monitor.stage(), MonitorStage::Stopped);
}

#[test]
fn unexpected_outcomes_are_ignored() {
    let mut monitor = DbusMonitor::new();
    assert_eq!(monitor.step(MonitorOutcome::ActiveProfile("x".to_owned())), vec![]);
    assert_eq!(monitor.step(MonitorOutcome::TimedOut), vec![]);
    assert_eq!(monitor.stage(), MonitorStage::Connecting);
}
