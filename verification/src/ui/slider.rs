//! State of the panel button and its popup slider.

use vstd::prelude::*;

use crate::dbus::texts;
use crate::text::same_text;

verus! {

/// The icon name that the panel shows for a profile name: the standard
/// symbolic icon of `power-saver` and `performance`, and the balanced icon
/// for every other name.
pub open spec fn icon_for(name: Seq<char>) -> Seq<char> {
    if name == "power-saver"@ {
        "power-profile-power-saver-symbolic"@
    } else if name == "performance"@ {
        "power-profile-performance-symbolic"@
    } else {
        "power-profile-balanced-symbolic"@
    }
}

/// Maps a profile name to its standard Adwaita symbolic icon name.
pub fn profile_icon(name: &str) -> (icon: &'static str)
    ensures
        icon@ == icon_for(name@),
{
    if same_text(name, "power-saver") {
        "power-profile-power-saver-symbolic"
    } else if same_text(name, "performance") {
        "power-profile-performance-symbolic"
    } else {
        "power-profile-balanced-symbolic"
    }
}


/// The icon names of a list of profile names, in the same order.
pub open spec fn icons_for(names: Seq<Seq<char>>) -> Seq<Seq<char>> {
    names.map_values(|n: Seq<char>| icon_for(n))
}

/// `i` is the first position of `name` in `profiles`.
pub open spec fn is_first_position(profiles: Seq<Seq<char>>, name: Seq<char>, i: int) -> bool {
    &&& 0 <= i < profiles.len()
    &&& profiles[i] == name
    &&& forall|j: int| 0 <= j < i ==> profiles[j] != name
}

/// `position` is where the slider goes when `name` becomes the active
/// profile: the first position of `name` in `profiles`, or none (the slider
/// stays) when `name` is not among them.
pub open spec fn moves_to(profiles: Seq<Seq<char>>, name: Seq<char>, position: Option<int>) -> bool {
    match position {
        Some(p) => is_first_position(profiles, name, p),
        None => !profiles.contains(name),
    }
}

/// The profile that a slider position selects: none while the widget is
/// updating itself, and none past the last profile.
pub open spec fn selection(profiles: Seq<Seq<char>>, updating: bool, position: int) -> Option<Seq<char>> {
    if !updating && 0 <= position < profiles.len() {
        Some(profiles[position])
    } else {
        None
    }
}

/// The state of the panel widget that its behaviour depends on.
pub struct WidgetView {
    /// The available profile names, in slider order.
    pub profiles: Seq<Seq<char>>,
    /// The icon shown on the panel button.
    pub icon_name: Seq<char>,
    /// The panel button's tooltip, if it has one.
    pub tooltip: Option<Seq<char>>,
}

/// How the slider is laid out for a list of profiles.
pub struct ProfilesLayout {
    /// Whether the slider accepts input: only when there are profiles.
    pub sensitive: bool,
    /// The new upper end of the slider's range, when there are profiles; the
    /// range always starts at 0 and has one step per profile.
    pub upper: Option<usize>,
    /// The icon placed under each slider position, in order; position `i`
    /// also gets a tick mark.
    pub mark_icons: Vec<&'static str>,
}

/// A [`ProfilesLayout`] with its icon names taken as character sequences.
pub struct ProfilesLayoutView {
    pub sensitive: bool,
    pub upper: Option<int>,
    pub mark_icons: Seq<Seq<char>>,
}

impl View for ProfilesLayout {
    type V = ProfilesLayoutView;

    open spec fn view(&self) -> ProfilesLayoutView {
        ProfilesLayoutView {
            sensitive: self.sensitive,
            upper: match self.upper {
                Some(u) => Some(u as int),
                None => None,
            },
            mark_icons: self.mark_icons@.map_values(|s: &'static str| s@),
        }
    }
}

/// The slider layout for a list of profiles.
pub open spec fn layout_for(profiles: Seq<Seq<char>>) -> ProfilesLayoutView {
    ProfilesLayoutView {
        sensitive: profiles.len() > 0,
        upper: if profiles.len() > 0 {
            Some(profiles.len() - 1)
        } else {
            None
        },
        mark_icons: icons_for(profiles),
    }
}

/// The widget after its profile list was replaced.
pub open spec fn after_update_profiles(w: WidgetView, profiles: Seq<Seq<char>>) -> WidgetView {
    WidgetView { profiles: profiles, ..w }
}

/// The widget after `name` became the active profile.
pub open spec fn after_set_active_profile(w: WidgetView, name: Seq<char>) -> WidgetView {
    WidgetView { icon_name: icon_for(name), tooltip: Some(name), ..w }
}

/// The widget as it is first shown: no profiles yet, balanced icon.
pub open spec fn initial_widget() -> WidgetView {
    WidgetView {
        profiles: Seq::empty(),
        icon_name: "power-profile-balanced-symbolic"@,
        tooltip: Some("Balanced"@),
    }
}

/// After the profile list is replaced, the widget offers exactly that list.
pub proof fn law_profiles_read_back(w: WidgetView, profiles: Seq<Seq<char>>)
    ensures
        after_update_profiles(w, profiles).profiles == profiles,
        after_update_profiles(w, profiles).icon_name == w.icon_name,
        after_update_profiles(w, profiles).tooltip == w.tooltip,
{
}

/// When the active profile is one of the available ones, the slider is moved
/// to a position that, chosen by the user, selects that same profile again.
pub proof fn law_active_position_selects_active_profile(
    w: WidgetView,
    name: Seq<char>,
    position: Option<int>,
)
    requires
        w.profiles.contains(name),
        moves_to(w.profiles, name, position),
    ensures
        position is Some,
        selection(after_set_active_profile(w, name).profiles, false, position->Some_0) == Some(
            name,
        ),
{
}

/// The slider has one mark per profile, and the icon under each position is
/// the icon of the profile that position selects; it accepts input and
/// reaches up to the last position exactly when there are profiles.
pub proof fn law_layout_marks_each_profile(profiles: Seq<Seq<char>>)
    ensures
        layout_for(profiles).mark_icons.len() == profiles.len(),
        forall|i: int|
            0 <= i < profiles.len() ==> #[trigger] layout_for(profiles).mark_icons[i] == icon_for(
                profiles[i],
            ),
        forall|i: int|
            #![trigger selection(profiles, false, i)]
            selection(profiles, false, i) is Some ==> layout_for(profiles).mark_icons[i] == icon_for(
                selection(profiles, false, i)->Some_0,
            ),
        layout_for(profiles).sensitive <==> profiles.len() > 0,
        layout_for(profiles).upper is Some <==> profiles.len() > 0,
        layout_for(profiles).upper is Some ==> layout_for(profiles).upper->Some_0 == profiles.len()
            - 1,
{
}

/// Making a profile active shows its icon and name whatever the widget
/// showed before, and keeps the profile list; of two profiles made active
/// one after the other, only the second shows.
pub proof fn law_active_profile_shows_its_icon(w: WidgetView, first: Seq<char>, name: Seq<char>)
    ensures
        after_set_active_profile(w, name).icon_name == icon_for(name),
        after_set_active_profile(w, name).tooltip == Some(name),
        after_set_active_profile(w, name).profiles == w.profiles,
        after_set_active_profile(after_set_active_profile(w, first), name) == after_set_active_profile(
            w,
            name,
        ),
{
}

/// While the widget updates itself, no slider position selects a profile,
/// so its own changes to the slider are never sent back to D-Bus.
pub proof fn law_updating_selects_nothing(profiles: Seq<Seq<char>>, position: int)
    ensures
        selection(profiles, true, position) is None,
{
}

/// The first index in `profiles` of a string equal to `name`.
fn first_position(profiles: &Vec<String>, name: &str) -> (found: Option<usize>)
    ensures
        found matches Some(p) ==> is_first_position(texts(profiles@), name@, p as int),
        found is None ==> !texts(profiles@).contains(name@),
{
    let ghost ps = texts(profiles@);
    let mut i: usize = 0;
    while i < profiles.len()
        invariant
            i <= profiles@.len(),
            ps == texts(profiles@),
            forall|j: int| 0 <= j < i ==> ps[j] != name@,
        decreases profiles@.len() - i,
    {
        if same_text(profiles[i].as_str(), name) {
            return Some(i);
        }
        i = i + 1;
    }
    None
}

/// State of the panel widget: the available profiles, the icon on the panel
/// button and the button's tooltip. The widgets that show this state are
/// kept by the caller, which applies what each method returns.
pub struct PowerProfilesWidget {
    profiles: Vec<String>,
    icon_name: &'static str,
    tooltip: Option<String>,
}

impl View for PowerProfilesWidget {
    type V = WidgetView;

    closed spec fn view(&self) -> WidgetView {
        WidgetView {
            profiles: texts(self.profiles@),
            icon_name: self.icon_name@,
            tooltip: match &self.tooltip {
                Some(t) => Some(t@),
                None => None,
            },
        }
    }
}

impl PowerProfilesWidget {
    /// The widget as the panel first shows it: no profiles, the balanced
    /// icon and the tooltip "Balanced".
    pub fn new() -> (widget: Self)
        ensures
            widget@ == initial_widget(),
    {
        let widget = PowerProfilesWidget {
            profiles: Vec::new(),
            icon_name: "power-profile-balanced-symbolic",
            tooltip: Some("Balanced".to_owned()),
        };
        assert(widget@.profiles =~= Seq::<Seq<char>>::empty());
        widget
    }

    /// Replaces the available profiles and returns the slider layout for
    /// them. Called when the `Profiles` D-Bus property changes.
    pub fn update_profiles(&mut self, profiles: &[String]) -> (layout: ProfilesLayout)
        ensures
            final(self)@ == after_update_profiles(old(self)@, texts(profiles@)),
            layout@ == layout_for(texts(profiles@)),
    {
        let mut copied: Vec<String> = Vec::new();
        let mut mark_icons: Vec<&'static str> = Vec::new();
        let mut i: usize = 0;
        while i < profiles.len()
            invariant
                i <= profiles@.len(),
                texts(copied@) == texts(profiles@.take(i as int)),
                mark_icons@.map_values(|s: &'static str| s@) == icons_for(
                    texts(profiles@.take(i as int)),
                ),
            decreases profiles@.len() - i,
        {
            let ghost before_copied = copied@;
            let ghost before_icons = mark_icons@;
            let name = &profiles[i];
            copied.push(name.clone());
            mark_icons.push(profile_icon(name.as_str()));
            proof {
                assert(profiles@.take(i + 1) =~= profiles@.take(i as int).push(*name));
                assert(texts(profiles@.take(i + 1)) =~= texts(profiles@.take(i as int)).push(name@));
                assert(texts(copied@) =~= texts(before_copied).push(name@));
                assert(mark_icons@.map_values(|s: &'static str| s@) =~= before_icons.map_values(
                    |s: &'static str| s@,
                ).push(icon_for(name@)));
                assert(icons_for(texts(profiles@.take(i + 1))) =~= icons_for(
                    texts(profiles@.take(i as int)),
                ).push(icon_for(name@)));
            }
            i = i + 1;
        }
        assert(profiles@.take(profiles@.len() as int) =~= profiles@);
        self.profiles = copied;
        let n = profiles.len();
        ProfilesLayout {
            sensitive: n > 0,
            upper: if n > 0 {
                Some(n - 1)
            } else {
                None
            },
            mark_icons: mark_icons,
        }
    }

    /// Makes `name` the active profile: the panel shows its icon and its name
    /// as tooltip. Returns the slider position to move to, the first position
    /// of `name` among the available profiles, or `None` when it is not
    /// among them (the slider then stays where it is).
    pub fn set_active_profile(&mut self, name: &str) -> (position: Option<usize>)
        ensures
            final(self)@ == after_set_active_profile(old(self)@, name@),
            moves_to(
                old(self)@.profiles,
                name@,
                match position {
                    Some(p) => Some(p as int),
                    None => None,
                },
            ),
    {
        let ghost ps = self@.profiles;
        let found = first_position(&self.profiles, name);
        proof {
            if found is None {
                assert forall|k: int| 0 <= k < ps.len() implies ps[k] != name@ by {}
            }
        }
        self.icon_name = profile_icon(name);
        self.tooltip = Some(name.to_owned());
        found
    }

    /// Returns the current list of available profile names.
    pub fn available_profiles(&self) -> (profiles: Vec<String>)
        ensures
            texts(profiles@) == self@.profiles,
    {
        self.profiles.clone()
    }

    /// The icon shown on the panel button.
    pub fn icon_name(&self) -> (icon: &'static str)
        ensures
            icon@ == self@.icon_name,
    {
        self.icon_name
    }

    /// The panel button's tooltip.
    pub fn tooltip(&self) -> (tooltip: Option<&str>)
        ensures
            match tooltip {
                Some(t) => self@.tooltip == Some(t@),
                None => self@.tooltip is None,
            },
    {
        match &self.tooltip {
            Some(t) => Some(t.as_str()),
            None => None,
        }
    }

    /// Replaces the panel button's tooltip.
    pub fn set_tooltip(&mut self, tooltip: Option<String>)
        ensures
            final(self)@ == (WidgetView {
                tooltip: match tooltip {
                    Some(t) => Some(t@),
                    None => None,
                },
                ..old(self)@
            }),
    {
        self.tooltip = tooltip;
    }

    /// The profile that the user selects by moving the slider to `position`:
    /// nothing while the widget is updating itself (its own changes to the
    /// slider are not user choices), nothing past the last profile, and
    /// otherwise the profile at that position.
    pub fn selected_profile(&self, updating: bool, position: usize) -> (selected: Option<String>)
        ensures
            match selected {
                Some(s) => selection(self@.profiles, updating, position as int) == Some(s@),
                None => selection(self@.profiles, updating, position as int) is None,
            },
    {
        if !updating && position < self.profiles.len() {
            Some(self.profiles[position].clone())
        } else {
            None
        }
    }
}

} // verus!
