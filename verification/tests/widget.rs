use powerprofiles::dbus::DbusEvent;
use powerprofiles::panel::{handle_dbus_event, PanelUpdate};
use powerprofiles::ui::slider::PowerProfilesWidget;

fn names(list: &[&str]) -> Vec<String> {
    list.iter().map(|s| s.to_string()).collect()
}

#[test]
fn new_widget_shows_balanced() {
    let widget = PowerProfilesWidget::new();
    assert_eq!(widget.icon_name(), "power-profile-balanced-symbolic");
    assert_eq!(widget.tooltip(), Some("Balanced"));
    assert!(widget.available_profiles().is_empty());
}

#[test]
fn update_profiles_lays_out_slider_and_reads_back() {
    let mut widget = PowerProfilesWidget::new();
    let profiles = names(&["power-saver", "balanced", "performance"]);
    let layout = widget.update_profiles(&profiles);
    assert!(layout.sensitive);
    assert_eq!(layout.upper, Some(2));
    assert_eq!(
        layout.mark_icons,
        vec![
            "power-profile-power-saver-symbolic",
            "power-profile-balanced-symbolic",
            "power-profile-performance-symbolic"
        ]
    );
    assert_eq!(widget.available_profiles(), profiles);
    assert_eq!(widget.tooltip(), Some("Balanced"));
}

#[test]
fn empty_profiles_make_slider_insensitive() {
    let mut widget = PowerProfilesWidget::new();
    widget.update_profiles(&names(&["balanced"]));
    let layout = widget.update_profiles(&[]);
    assert!(!layout.sensitive);
    assert_eq!(layout.upper, None);
    assert!(layout.mark_icons.is_empty());
    assert!(widget.available_profiles().is_empty());
}

#[test]
fn set_active_profile_moves_to_first_position() {
    let mut widget = PowerProfilesWidget::new();
    widget.update_profiles(&names(&["power-saver", "performance", "performance"]));
    assert_eq!(widget.set_active_profile("performance"), Some(1));
    assert_eq!(widget.icon_name(), "power-profile-performance-symbolic");
    assert_eq!(widget.tooltip(), Some("performance"));
}

#[test]
fn unknown_active_profile_keeps_slider_but_shows_name() {
    let mut widget = PowerProfilesWidget::new();
    widget.update_profiles(&names(&["power-saver", "balanced"]));
    assert_eq!(widget.set_active_profile("turbo"), None);
    assert_eq!(widget.icon_name(), "power-profile-balanced-symbolic");
    assert_eq!(widget.tooltip(), Some("turbo"));
    assert_eq!(widget.available_profiles(), names(&["power-saver", "balanced"]));
}

#[test]
fn slider_position_selects_profile() {
    let mut widget = PowerProfilesWidget::new();
    widget.update_profiles(&names(&["power-saver", "balanced", "performance"]));
    assert_eq!(widget.selected_profile(false, 0), Some("power-saver".to_owned()));
    assert_eq!(widget.selected_profile(false, 2), Some("performance".to_owned()));
    assert_eq!(widget.selected_profile(false, 3), None);
    assert_eq!(widget.selected_profile(true, 1), None);
}

#[test]
fn active_position_selects_active_profile_again() {
    let mut widget = PowerProfilesWidget::new();
    widget.update_profiles(&names(&["power-saver", "balanced", "performance"]));
    let position = widget.set_active_profile("balanced").unwrap();
    assert_eq!(widget.selected_profile(false, position), Some("balanced".to_owned()));
}

#[test]
fn no_profiles_no_selection() {
    let widget = PowerProfilesWidget::new();
    assert_eq!(widget.selected_profile(false, 0), None);
    assert_eq!(widget.selected_profile(false, 1), None);
}

#[test]
fn set_tooltip_replaces_tooltip() {
    let mut widget = PowerProfilesWidget::new();
    widget.set_tooltip(None);
    assert_eq!(widget.tooltip(), None);
    widget.set_tooltip(Some("x".to_owned()));
    assert_eq!(widget.tooltip(), Some("x"));
}

#[test]
fn panel_applies_active_profile_event() {
    let mut widget = PowerProfilesWidget::new();
    widget.update_profiles(&names(&["power-saver", "balanced", "performance"]));
    let update = handle_dbus_event(&mut widget, DbusEvent::ActiveProfileChanged("power-saver".to_owned()));
    assert!(matches!(update, PanelUpdate::ActiveProfile(Some(0))));
    assert_eq!(widget.icon_name(), "power-profile-power-saver-symbolic");
    assert_eq!(widget.tooltip(), Some("power-saver"));
}

#[test]
fn panel_applies_profiles_event() {
    let mut widget = PowerProfilesWidget::new();
    let update = handle_dbus_event(
        &mut widget,
        DbusEvent::ProfilesChanged(names(&["balanced", "performance"])),
    );
    match update {
        PanelUpdate::Profiles(layout) => {
            assert!(layout.sensitive);
            assert_eq!(layout.upper, Some(1));
            assert_eq!(layout.mark_icons.len(), 2);
        }
        _ => panic!("expected a profiles update"),
    }
    assert_eq!(widget.available_profiles(), names(&["balanced", "performance"]));
}

#[test]
fn panel_shows_performance_degradation() {
    let mut widget = PowerProfilesWidget::new();
    let update = handle_dbus_event(&mut widget, DbusEvent::PerformanceDegraded("high-operating-temperature".to_owned()));
    assert!(matches!(update, PanelUpdate::Tooltip));
    assert_eq!(widget.tooltip(), Some("Performance degraded: high-operating-temperature"));
    handle_dbus_event(&mut widget, DbusEvent::PerformanceDegraded(String::new()));
    assert_eq!(widget.tooltip(), None);
}

#[test]
fn panel_empties_slider_when_unavailable() {
    let mut widget = PowerProfilesWidget::new();
    widget.update_profiles(&names(&["balanced", "performance"]));
    let update = handle_dbus_event(
        &mut widget,
        DbusEvent::Unavailable("Cannot connect to system bus: no bus".to_owned()),
    );
    match update {
        PanelUpdate::Unavailable(layout) => {
            assert!(!layout.sensitive);
            assert_eq!(layout.upper, None);
            assert!(layout.mark_icons.is_empty());
        }
        _ => panic!("expected an unavailable update"),
    }
    assert!(widget.available_profiles().is_empty());
    assert_eq!(widget.tooltip(), Some("Cannot connect to system bus: no bus"));
    assert_eq!(widget.selected_profile(false, 0), None);
}
