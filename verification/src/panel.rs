//! How the panel reacts to the events of the D-Bus monitor.
//!
//! The panel polls the monitor's channel and applies each [`DbusEvent`] to
//! its widget: a new active profile moves the slider and changes icon and
//! tooltip, a new profile list rebuilds the slider, a performance
//! degradation text becomes the tooltip, and an unavailable D-Bus empties the
//! slider and shows the error as tooltip.

use vstd::prelude::*;

use crate::dbus::{texts, DbusEvent, DbusEventView};
use crate::ui::slider::{
    after_set_active_profile, after_update_profiles, layout_for, moves_to, selection,
    PowerProfilesWidget, ProfilesLayout, WidgetView,
};

verus! {

/// What the caller must show after the widget took an event.
pub enum PanelUpdate {
    /// Move the slider to this position, if any, and show the widget's icon
    /// and tooltip.
    ActiveProfile(Option<usize>),
    /// Lay the slider out anew.
    Profiles(ProfilesLayout),
    /// Show the widget's tooltip.
    Tooltip,
    /// Lay the (now empty) slider out anew and show the widget's tooltip.
    Unavailable(ProfilesLayout),
}

/// The tooltip that reports a performance degradation: none for an empty
/// text, and the text after "Performance degraded: " otherwise.
pub open spec fn degraded_tooltip(reason: Seq<char>) -> Option<Seq<char>> {
    if reason.len() == 0 {
        None
    } else {
        Some("Performance degraded: "@ + reason)
    }
}

/// The widget after it took an event.
pub open spec fn widget_after_event(w: WidgetView, event: DbusEventView) -> WidgetView {
    match event {
        DbusEventView::ActiveProfileChanged(name) => after_set_active_profile(w, name),
        DbusEventView::ProfilesChanged(profiles) => after_update_profiles(w, profiles),
        DbusEventView::PerformanceDegraded(reason) => WidgetView {
            tooltip: degraded_tooltip(reason),
            ..w
        },
        DbusEventView::Unavailable(message) => WidgetView {
            profiles: Seq::empty(),
            tooltip: Some(message),
            ..w
        },
    }
}

/// What the caller is asked to show after the widget `w` took an event.
pub open spec fn update_matches(w: WidgetView, event: DbusEventView, update: PanelUpdate) -> bool {
    match event {
        DbusEventView::ActiveProfileChanged(name) => match update {
            PanelUpdate::ActiveProfile(Some(p)) => moves_to(w.profiles, name, Some(p as int)),
            PanelUpdate::ActiveProfile(None) => moves_to(w.profiles, name, None),
            _ => false,
        },
        DbusEventView::ProfilesChanged(profiles) => match update {
            PanelUpdate::Profiles(layout) => layout@ == layout_for(profiles),
            _ => false,
        },
        DbusEventView::PerformanceDegraded(_) => update is Tooltip,
        DbusEventView::Unavailable(_) => match update {
            PanelUpdate::Unavailable(layout) => layout@ == layout_for(Seq::empty()),
            _ => false,
        },
    }
}

/// Applies a D-Bus event to the widget and says what the panel must show.
pub fn handle_dbus_event(widget: &mut PowerProfilesWidget, event: DbusEvent) -> (update: PanelUpdate)
    ensures
        final(widget)@ == widget_after_event(old(widget)@, event@),
        update_matches(old(widget)@, event@, update),
{
    match event {
        DbusEvent::ActiveProfileChanged(name) => {
            let position = widget.set_active_profile(name.as_str());
            PanelUpdate::ActiveProfile(position)
        },
        DbusEvent::ProfilesChanged(profiles) => {
            let layout = widget.update_profiles(profiles.as_slice());
            PanelUpdate::Profiles(layout)
        },
        DbusEvent::PerformanceDegraded(reason) => {
            if reason.as_str().unicode_len() == 0 {
                widget.set_tooltip(None);
            } else {
                let mut tooltip = "Performance degraded: ".to_owned();
                tooltip.append(reason.as_str());
                widget.set_tooltip(Some(tooltip));
            }
            PanelUpdate::Tooltip
        },
        DbusEvent::Unavailable(message) => {
            let empty: Vec<String> = Vec::new();
            let layout = widget.update_profiles(empty.as_slice());
            proof {
                assert(texts(empty@) =~= Seq::<Seq<char>>::empty());
            }
            widget.set_tooltip(Some(message));
            PanelUpdate::Unavailable(layout)
        },
    }
}

/// Each event changes only what it is about: a new active profile keeps the
/// profile list, a new profile list keeps icon and tooltip, a degradation text
/// changes only the tooltip (the slider selects as before), and an
/// unavailable D-Bus keeps the icon.
pub proof fn law_events_change_only_their_part(w: WidgetView, event: DbusEventView)
    ensures
        event is ActiveProfileChanged ==> widget_after_event(w, event).profiles == w.profiles,
        event is ProfilesChanged ==> widget_after_event(w, event).icon_name == w.icon_name
            && widget_after_event(w, event).tooltip == w.tooltip,
        event is PerformanceDegraded ==> widget_after_event(w, event).profiles == w.profiles
            && widget_after_event(w, event).icon_name == w.icon_name,
        event is Unavailable ==> widget_after_event(w, event).icon_name == w.icon_name,
{
}

/// A degradation text leaves the profile choice alone: every slider position
/// selects the same profile before and after it.
pub proof fn law_degraded_keeps_selection(
    w: WidgetView,
    reason: Seq<char>,
    updating: bool,
    position: int,
)
    ensures
        selection(
            widget_after_event(w, DbusEventView::PerformanceDegraded(reason)).profiles,
            updating,
            position,
        ) == selection(w.profiles, updating, position),
{
}

/// While D-Bus is unavailable the panel offers no profiles, so no slider
/// position selects one.
pub proof fn law_unavailable_selects_nothing(w: WidgetView, message: Seq<char>, position: int)
    ensures
        selection(
            widget_after_event(w, DbusEventView::Unavailable(message)).profiles,
            false,
            position,
        ) is None,
{
}

/// An empty degradation text removes the tooltip; any other text is shown
/// after "Performance degraded: ".
pub proof fn law_degraded_tooltip(w: WidgetView, reason: Seq<char>)
    ensures
        reason.len() == 0 ==> widget_after_event(
            w,
            DbusEventView::PerformanceDegraded(reason),
        ).tooltip is None,
        reason.len() > 0 ==> widget_after_event(
            w,
            DbusEventView::PerformanceDegraded(reason),
        ).tooltip == Some("Performance degraded: "@ + reason),
{
}

} // verus!
