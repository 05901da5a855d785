# powerprofiles

The decision logic of an XFCE panel plugin that switches between power
profiles through `org.freedesktop.UPower.PowerProfiles`, written in Verus and
proved against its contracts.

- `src/` is the verified library:
  - `dbus/properties.rs`: D-Bus property dictionaries (keys distinct, viewed
    as a map from names to the string a value holds, if any);
  - `dbus/mod.rs`: the events sent to the panel and the extraction of profile
    names from the `Profiles` property;
  - `dbus/monitor.rs`: the background monitor as a state machine, from the
    result of each D-Bus call to the next call and the events for the panel;
  - `ui/slider.rs`: the panel widget's state (profiles, icon, tooltip), the
    slider layout and which profile a slider position selects;
  - `ui/input.rs`: pointer drags and arrow keys on the popup slider;
  - `panel.rs`: how the panel applies each D-Bus event to its widget;
  - `text.rs`: string comparison by characters.
- `app/` is the plugin around it: the C entry point, the GTK widgets, the
  zbus calls on a tokio runtime, and the floating-point slider geometry.
- `tests/` runs the library on concrete values.
