//! The panel applet.

use crate::state::BatteryState;
use crate::style::{duration_text, format_duration};
use vstd::prelude::*;

verus! {

/// What the applet knows: the last state that was read, or why there is none.
#[derive(Debug, Clone, PartialEq, Eq)]
pub struct AppletModel {
    pub state: Option<BatteryState>,
    pub error: Option<String>,
}

/// The label of the applet.
pub open spec fn applet_label(state: Option<BatteryState>) -> Seq<char> {
    match state {
        Some(s) => duration_text(s.counted_seconds),
        None => "--:--:--"@,
    }
}

/// The icon of the applet.
pub open spec fn applet_icon(state: Option<BatteryState>) -> Seq<char> {
    match state {
        Some(s) => if s.on_battery_only {
            "battery-good-symbolic"@
        } else {
            "battery-full-charging-symbolic"@
        },
        None => "battery-missing-symbolic"@,
    }
}

impl AppletModel {
    /// Whether the applet holds a state or an error, but not both.
    pub open spec fn is_settled(self) -> bool {
        self.state is Some <==> self.error is None
    }

    /// An applet that has read nothing yet.
    pub fn new() -> (model: Self)
        ensures
            model.state is None,
            model.error is None,
    {
        AppletModel { state: None, error: None }
    }

    /// Takes over what was read.
    pub fn refresh(&mut self, outcome: Result<BatteryState, String>)
        ensures
            final(self).is_settled(),
            match outcome {
                Ok(state) => final(self).state == Some(state) && final(self).error is None,
                Err(message) => final(self).state is None && final(self).error == Some(message),
            },
    {
        match outcome {
            Ok(state) => {
                self.state = Some(state);
                self.error = None;
            },
            Err(message) => {
                self.state = None;
                self.error = Some(message);
            },
        }
    }

    /// The label: the time on battery, or dashes where it is not known.
    pub fn label(&self) -> (r: String)
        ensures
            r@ == applet_label(self.state),
    {
        match &self.state {
            Some(state) => format_duration(state.counted_seconds),
            None => "--:--:--".to_string(),
        }
    }

    /// The name of the icon.
    pub fn icon_name(&self) -> (r: &'static str)
        ensures
            r@ == applet_icon(self.state),
    {
        match &self.state {
            Some(state) => if state.on_battery_only {
                "battery-good-symbolic"
            } else {
                "battery-full-charging-symbolic"
            },
            None => "battery-missing-symbolic",
        }
    }
}

/// The padding of the applet button: it goes along the panel.
pub fn button_padding(horizontal: bool, suggested: u16) -> (r: (u16, u16))
    ensures
        r == (if horizontal {
            (0u16, suggested)
        } else {
            (suggested, 0u16)
        }),
{
    if horizontal {
        (0, suggested)
    } else {
        (suggested, 0)
    }
}

// ---------------------------------------------------------------------------
// Laws
// ---------------------------------------------------------------------------

/// The label shows the time counted and nothing else: two states have the same label exactly if
/// they have counted the same time. Without a state it shows dashes.
pub proof fn label_shows_the_time_counted(a: BatteryState, b: BatteryState)
    ensures
        applet_label(Some(a)) == applet_label(Some(b)) <==> a.counted_seconds == b.counted_seconds,
        applet_label(Some(a)) == duration_text(a.counted_seconds),
        applet_label(None) == "--:--:--"@,
{
    if applet_label(Some(a)) == applet_label(Some(b)) {
        crate::style::duration_text_is_injective(a.counted_seconds, b.counted_seconds);
    }
}

/// The icon goes by the power state alone, and by whether there is a state.
pub proof fn icon_goes_by_the_power_state(state: BatteryState)
    ensures
        state.on_battery_only ==> applet_icon(Some(state)) == "battery-good-symbolic"@,
        !state.on_battery_only ==> applet_icon(Some(state)) == "battery-full-charging-symbolic"@,
        applet_icon(None) == "battery-missing-symbolic"@,
{
}

} // verus!
