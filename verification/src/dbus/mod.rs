//! D-Bus side of the plugin: what `org.freedesktop.UPower.PowerProfiles`
//! reports, and the events that are forwarded to the panel.
//!
//! The monitor in [`monitor`] decides, step by step, which D-Bus call comes
//! next and which [`DbusEvent`]s a reply gives rise to.

pub mod monitor;
pub mod properties;

use vstd::prelude::*;

use crate::dbus::properties::PropertyMap;

verus! {

/// Well-known bus name of the power profiles service; signals are matched
/// on it as their sender.
pub const POWER_PROFILES_SERVICE: &'static str = "org.freedesktop.UPower.PowerProfiles";

/// Interface that carries the `PropertiesChanged` signal.
pub const PROPERTIES_INTERFACE: &'static str = "org.freedesktop.DBus.Properties";

/// Member name of the signal that reports changed properties.
pub const PROPERTIES_CHANGED: &'static str = "PropertiesChanged";

/// D-Bus event sent from the background monitor to the panel.
#[derive(Debug, PartialEq, Eq)]
pub enum DbusEvent {
    /// Active profile name changed (via user or external).
    ActiveProfileChanged(String),
    /// Available profiles list changed (e.g. backend restarted).
    ProfilesChanged(Vec<String>),
    /// Performance degradation warning text (empty = no degradation).
    PerformanceDegraded(String),
    /// D-Bus unavailable; carries an error message for the tooltip.
    Unavailable(String),
}

/// A [`DbusEvent`] with its strings taken as character sequences.
pub enum DbusEventView {
    ActiveProfileChanged(Seq<char>),
    ProfilesChanged(Seq<Seq<char>>),
    PerformanceDegraded(Seq<char>),
    Unavailable(Seq<char>),
}

/// The character sequences of a list of strings.
pub open spec fn texts(v: Seq<String>) -> Seq<Seq<char>> {
    v.map_values(|s: String| s@)
}

impl View for DbusEvent {
    type V = DbusEventView;

    open spec fn view(&self) -> DbusEventView {
        match self {
            DbusEvent::ActiveProfileChanged(s) => DbusEventView::ActiveProfileChanged(s@),
            DbusEvent::ProfilesChanged(v) => DbusEventView::ProfilesChanged(texts(v@)),
            DbusEvent::PerformanceDegraded(s) => DbusEventView::PerformanceDegraded(s@),
            DbusEvent::Unavailable(s) => DbusEventView::Unavailable(s@),
        }
    }
}

/// The views of a list of events.
pub open spec fn event_views(v: Seq<DbusEvent>) -> Seq<DbusEventView> {
    v.map_values(|e: DbusEvent| e@)
}

/// The profile name held by one entry of the `Profiles` property: the
/// string under its `"Profile"` key, if that key is present and holds a
/// string.
pub open spec fn profile_name_of(entry: Map<Seq<char>, Option<Seq<char>>>) -> Option<Seq<char>> {
    if entry.contains_key("Profile"@) {
        entry["Profile"@]
    } else {
        None
    }
}

/// The profile names of the entries of a `Profiles` property, in the order of
/// the entries, skipping entries that hold no profile name.
pub open spec fn profile_names(entries: Seq<PropertyMap>) -> Seq<Seq<char>>
    decreases entries.len(),
{
    if entries.len() == 0 {
        Seq::empty()
    } else {
        let earlier = profile_names(entries.drop_last());
        match profile_name_of(entries.last()@) {
            Some(name) => earlier.push(name),
            None => earlier,
        }
    }
}

/// The profile names of two lists of entries, one after the other, are those
/// of the first list followed by those of the second: names come out in the
/// order of their entries.
pub proof fn law_profile_names_in_order(first: Seq<PropertyMap>, second: Seq<PropertyMap>)
    ensures
        profile_names(first + second) == profile_names(first) + profile_names(second),
    decreases second.len(),
{
    if second.len() == 0 {
        assert(first + second =~= first);
        assert(profile_names(second) =~= Seq::<Seq<char>>::empty());
        assert(profile_names(first) + profile_names(second) =~= profile_names(first));
    } else {
        law_profile_names_in_order(first, second.drop_last());
        assert((first + second).drop_last() =~= first + second.drop_last());
        assert((first + second).last() == second.last());
        match profile_name_of(second.last()@) {
            Some(name) => {
                assert(profile_names(first) + profile_names(second.drop_last()).push(name)
                    =~= (profile_names(first) + profile_names(second.drop_last())).push(name));
            },
            None => {},
        }
    }
}

/// The name of an entry is the string under its `"Profile"` key, whatever
/// other keys the entry has: it holds exactly when that key holds a string,
/// and adding or removing any other key does not change it.
pub proof fn law_profile_name_reads_only_profile_key(
    entry: Map<Seq<char>, Option<Seq<char>>>,
    key: Seq<char>,
    value: Option<Seq<char>>,
)
    requires
        key != "Profile"@,
    ensures
        profile_name_of(entry) is Some <==> (entry.contains_key("Profile"@)
            && entry["Profile"@] is Some),
        profile_name_of(entry) is Some ==> profile_name_of(entry) == entry["Profile"@],
        profile_name_of(entry.insert(key, value)) == profile_name_of(entry),
        profile_name_of(entry.remove(key)) == profile_name_of(entry),
{
    assert(entry.insert(key, value).contains_key("Profile"@) == entry.contains_key("Profile"@));
    assert(entry.remove(key).contains_key("Profile"@) == entry.contains_key("Profile"@));
    if entry.contains_key("Profile"@) {
        assert(entry.insert(key, value)["Profile"@] == entry["Profile"@]);
        assert(entry.remove(key)["Profile"@] == entry["Profile"@]);
    }
}

/// Two lists of entries that agree, entry by entry, on the `"Profile"` key
/// give the same profile names: no other key of an entry matters.
pub proof fn law_profile_names_read_only_profile_keys(a: Seq<PropertyMap>, b: Seq<PropertyMap>)
    requires
        a.len() == b.len(),
        forall|i: int|
            0 <= i < a.len() ==> (#[trigger] a[i]@.contains_key("Profile"@) <==> b[i]@.contains_key(
                "Profile"@,
            )),
        forall|i: int|
            0 <= i < a.len() && #[trigger] a[i]@.contains_key("Profile"@) ==> a[i]@["Profile"@]
                == b[i]@["Profile"@],
    ensures
        profile_names(a) == profile_names(b),
    decreases a.len(),
{
    if a.len() > 0 {
        let n = a.len() - 1;
        assert(a[n]@.contains_key("Profile"@) <==> b[n]@.contains_key("Profile"@));
        let da = a.drop_last();
        let db = b.drop_last();
        assert forall|i: int| 0 <= i < da.len() implies (#[trigger] da[i]@.contains_key(
            "Profile"@,
        ) <==> db[i]@.contains_key("Profile"@)) by {
            assert(a[i]@.contains_key("Profile"@) <==> b[i]@.contains_key("Profile"@));
        }
        assert forall|i: int|
            0 <= i < da.len() && #[trigger] da[i]@.contains_key("Profile"@) implies da[i]@["Profile"@]
            == db[i]@["Profile"@] by {
            assert(a[i]@.contains_key("Profile"@));
        }
        law_profile_names_read_only_profile_keys(da, db);
    }
}

/// When every entry holds a string under `"Profile"`, each entry gives one
/// name: the names are those strings, at the same positions.
pub proof fn law_every_named_entry_gives_its_name(entries: Seq<PropertyMap>)
    requires
        forall|i: int|
            0 <= i < entries.len() ==> #[trigger] entries[i]@.contains_key("Profile"@)
                && entries[i]@["Profile"@] is Some,
    ensures
        profile_names(entries).len() == entries.len(),
        forall|i: int|
            0 <= i < entries.len() ==> profile_names(entries)[i] == #[trigger] entries[i]@["Profile"@]->Some_0,
    decreases entries.len(),
{
    if entries.len() > 0 {
        let rest = entries.drop_last();
        assert forall|i: int| 0 <= i < rest.len() implies #[trigger] rest[i]@.contains_key(
            "Profile"@,
        ) && rest[i]@["Profile"@] is Some by {
            assert(entries[i]@.contains_key("Profile"@));
        }
        law_every_named_entry_gives_its_name(rest);
        let n = entries.len() - 1;
        assert(entries[n]@.contains_key("Profile"@));
        assert forall|i: int| 0 <= i < entries.len() implies profile_names(entries)[i]
            == #[trigger] entries[i]@["Profile"@]->Some_0 by {
            if i < n {
                assert(rest[i] == entries[i]);
            }
        }
    }
}

/// Extracts profile name strings from the `Profiles` D-Bus property.
///
/// Each entry is a dict with a `"Profile"` key containing the name string;
/// entries without that key, or whose value there is not a string, are
/// skipped.
pub fn extract_profile_names(profiles: &[PropertyMap]) -> (names: Vec<String>)
    ensures
        texts(names@) == profile_names(profiles@),
{
    let mut names: Vec<String> = Vec::new();
    let mut i: usize = 0;
    while i < profiles.len()
        invariant
            i <= profiles@.len(),
            texts(names@) == profile_names(profiles@.take(i as int)),
        decreases profiles@.len() - i,
    {
        let entry = &profiles[i];
        let ghost before = names@;
        proof {
            assert(profiles@.take(i + 1).drop_last() =~= profiles@.take(i as int));
            assert(profiles@.take(i + 1).last() == *entry);
        }
        match entry.get("Profile") {
            Some(value) => match value.as_str() {
                Some(name) => {
                    names.push(name.to_owned());
                    assert(texts(names@) =~= texts(before).push(name@));
                },
                None => {},
            },
            None => {},
        }
        i = i + 1;
    }
    assert(profiles@.take(profiles@.len() as int) =~= profiles@);
    names
}

} // verus!
