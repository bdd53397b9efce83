use vstd::prelude::*;

use crate::messages::{BatteryStatus, ControlCommandIdentifiers};
use crate::text::{decimal, decimal_text};

verus! {

/// What the tray shows: the last known status of the accessory. A field that
/// is `None` is a value that is unknown or that the accessory does not offer.
#[derive(Clone, Debug)]
pub struct MyTray {
    pub conversation_detect_enabled: Option<bool>,
    pub battery_l: Option<u8>,
    pub battery_l_status: Option<BatteryStatus>,
    pub battery_r: Option<u8>,
    pub battery_r_status: Option<BatteryStatus>,
    pub battery_c: Option<u8>,
    pub battery_c_status: Option<BatteryStatus>,
    pub connected: bool,
    pub listening_mode: Option<u8>,
    pub allow_off_option: Option<u8>,
}

/// Title and body of the tray's tool tip.
#[derive(Clone, Debug)]
pub struct ToolTipText {
    pub title: String,
    pub description: String,
}

/// A listening mode that the tray menu offers.
#[derive(Clone, Copy, Debug, PartialEq, Eq, Structural)]
pub enum ListeningOption {
    Off,
    Anc,
    Transparency,
    Adaptive,
}

/// The wire code of a listening mode.
pub open spec fn option_code(o: ListeningOption) -> u8 {
    match o {
        ListeningOption::Off => 0x01,
        ListeningOption::Anc => 0x02,
        ListeningOption::Transparency => 0x03,
        ListeningOption::Adaptive => 0x04,
    }
}

/// The menu label of a listening mode.
pub open spec fn option_label(o: ListeningOption) -> Seq<char> {
    match o {
        ListeningOption::Off => "Off"@,
        ListeningOption::Anc => "ANC"@,
        ListeningOption::Transparency => "Transparency"@,
        ListeningOption::Adaptive => "Adaptive"@,
    }
}

impl ListeningOption {
    /// The wire code sent to select this mode.
    pub fn code(&self) -> (r: u8)
        ensures
            r == option_code(*self),
    {
        match self {
            ListeningOption::Off => 0x01,
            ListeningOption::Anc => 0x02,
            ListeningOption::Transparency => 0x03,
            ListeningOption::Adaptive => 0x04,
        }
    }

    /// The label shown in the menu.
    pub fn label(&self) -> (r: String)
        ensures
            r@ == option_label(*self),
    {
        match self {
            ListeningOption::Off => String::from_str("Off"),
            ListeningOption::Anc => String::from_str("ANC"),
            ListeningOption::Transparency => String::from_str("Transparency"),
            ListeningOption::Adaptive => String::from_str("Adaptive"),
        }
    }
}

/// The name a charging state is shown under.
pub open spec fn status_label(s: BatteryStatus) -> Seq<char> {
    match s {
        BatteryStatus::Charging => "Charging"@,
        BatteryStatus::NotCharging => "NotCharging"@,
        BatteryStatus::Disconnected => "Disconnected"@,
    }
}

/// The smaller of two known battery levels, or the one that is known.
pub open spec fn min_battery(l: Option<u8>, r: Option<u8>) -> Option<u8> {
    match (l, r) {
        (Some(a), Some(b)) => Some(if a <= b { a } else { b }),
        (Some(a), None) => Some(a),
        (None, Some(b)) => Some(b),
        (None, None) => None,
    }
}

/// One battery's part of the tool tip: `"<name>: <level>%"` or
/// `"<name>: ?"`, then `" (<state>)"` where the charging state is known.
pub open spec fn channel_text(name: Seq<char>, level: Option<u8>, status: Option<BatteryStatus>) -> Seq<char> {
    let head = match level {
        Some(b) => name + ": "@ + decimal(b as nat) + "%"@,
        None => name + ": ?"@,
    };
    match status {
        Some(s) => head + " ("@ + status_label(s) + ")"@,
        None => head,
    }
}

/// The listening modes offered, in menu order.
pub open spec fn listening_options(allow_off: bool) -> Seq<ListeningOption> {
    if allow_off {
        seq![ListeningOption::Off, ListeningOption::Anc, ListeningOption::Transparency, ListeningOption::Adaptive]
    } else {
        seq![ListeningOption::Anc, ListeningOption::Transparency, ListeningOption::Adaptive]
    }
}

fn status_text(s: BatteryStatus) -> (r: String)
    ensures
        r@ == status_label(s),
{
    match s {
        BatteryStatus::Charging => String::from_str("Charging"),
        BatteryStatus::NotCharging => String::from_str("NotCharging"),
        BatteryStatus::Disconnected => String::from_str("Disconnected"),
    }
}

fn channel_string(name: &str, level: Option<u8>, status: Option<BatteryStatus>) -> (r: String)
    ensures
        r@ == channel_text(name@, level, status),
{
    let mut head = String::from_str(name);
    match level {
        Some(b) => {
            head.append(": ");
            let digits = decimal_text(b);
            head.append(digits.as_str());
            head.append("%");
        },
        None => {
            head.append(": ?");
        },
    }
    match status {
        Some(s) => {
            head.append(" (");
            let label = status_text(s);
            head.append(label.as_str());
            head.append(")");
        },
        None => {},
    }
    head
}

impl MyTray {
    /// The spec view of `icon_text`.
    pub open spec fn icon_text_spec(&self) -> Seq<char> {
        if self.connected {
            match min_battery(self.battery_l, self.battery_r) {
                Some(b) => decimal(b as nat),
                None => "?"@,
            }
        } else {
            "D"@
        }
    }

    /// The spec view of the tool tip's description.
    pub open spec fn tool_tip_description(&self) -> Seq<char> {
        if self.connected {
            channel_text("L"@, self.battery_l, self.battery_l_status) + " "@
                + channel_text("R"@, self.battery_r, self.battery_r_status) + " "@
                + channel_text("C"@, self.battery_c, self.battery_c_status)
        } else {
            "Device is not connected."@
        }
    }

    /// Whether the accessory lets the listening mode be switched off.
    pub open spec fn allows_off(&self) -> bool {
        self.allow_off_option == Some(0x01u8)
    }

    /// The text drawn into the status icon: the lower of the two earbud
    /// levels while connected (`"?"` when neither is known), `"D"` when not.
    pub fn icon_text(&self) -> (r: String)
        ensures
            r@ == self.icon_text_spec(),
    {
        if self.connected {
            let min = match (self.battery_l, self.battery_r) {
                (Some(l), Some(r)) => Some(if l <= r { l } else { r }),
                (Some(l), None) => Some(l),
                (None, Some(r)) => Some(r),
                (None, None) => None,
            };
            match min {
                Some(b) => decimal_text(b),
                None => String::from_str("?"),
            }
        } else {
            String::from_str("D")
        }
    }

    /// The tool tip: battery levels while connected, a fixed notice when not.
    pub fn tool_tip(&self) -> (r: ToolTipText)
        ensures
            r.description@ == self.tool_tip_description(),
            r.title@ == (if self.connected { "Battery Status"@ } else { "Not Connected"@ }),
    {
        if self.connected {
            let mut d = channel_string("L", self.battery_l, self.battery_l_status);
            d.append(" ");
            let r = channel_string("R", self.battery_r, self.battery_r_status);
            d.append(r.as_str());
            d.append(" ");
            let c = channel_string("C", self.battery_c, self.battery_c_status);
            d.append(c.as_str());
            ToolTipText { title: String::from_str("Battery Status"), description: d }
        } else {
            ToolTipText {
                title: String::from_str("Not Connected"),
                description: String::from_str("Device is not connected."),
            }
        }
    }

    /// The listening modes of the menu's radio group, in order; `Off` leads
    /// only where the accessory allows it.
    pub fn listening_mode_options(&self) -> (r: Vec<ListeningOption>)
        ensures
            r@ == listening_options(self.allows_off()),
    {
        let allow_off = match self.allow_off_option {
            Some(v) => v == 0x01,
            None => false,
        };
        let mut v: Vec<ListeningOption> = Vec::new();
        if allow_off {
            v.push(ListeningOption::Off);
        }
        v.push(ListeningOption::Anc);
        v.push(ListeningOption::Transparency);
        v.push(ListeningOption::Adaptive);
        assert(v@ =~= listening_options(self.allows_off()));
        v
    }

    /// The radio item to mark: the position of the current listening mode
    /// among the options, or the first when it is unknown or not offered.
    pub fn selected_listening_index(&self) -> (r: usize)
        ensures
            r < listening_options(self.allows_off()).len(),
            match self.listening_mode {
                Some(m) => {
                    let opts = listening_options(self.allows_off());
                    (exists|i: int| 0 <= i < opts.len() && option_code(opts[i]) == m)
                        ==> (option_code(opts[r as int]) == m
                            && forall|j: int| 0 <= j < r ==> option_code(opts[j]) != m)
                },
                None => r == 0,
            },
            (forall|i: int| 0 <= i < listening_options(self.allows_off()).len()
                ==> Some(option_code(listening_options(self.allows_off())[i])) != self.listening_mode)
                ==> r == 0,
    {
        let options = self.listening_mode_options();
        match self.listening_mode {
            Some(m) => {
                let mut i: usize = 0;
                while i < options.len()
                    invariant
                        options@ == listening_options(self.allows_off()),
                        self.listening_mode == Some(m),
                        forall|j: int| 0 <= j < i ==> option_code(options@[j]) != m,
                    decreases options.len() - i,
                {
                    if options[i].code() == m {
                        return i;
                    }
                    i = i + 1;
                }
                0
            },
            None => 0,
        }
    }

    /// The command that choosing the radio item at `current` sends: the
    /// listening mode's code, or ANC's where `current` is past the options.
    pub fn select_listening_mode(&self, current: usize) -> (r: (ControlCommandIdentifiers, Vec<u8>))
        ensures
            r.0 == ControlCommandIdentifiers::ListeningMode,
            r.1@ == seq![
                if current < listening_options(self.allows_off()).len() {
                    option_code(listening_options(self.allows_off())[current as int])
                } else {
                    0x02u8
                },
            ],
    {
        let options = self.listening_mode_options();
        let value = if current < options.len() { options[current].code() } else { 0x02 };
        let mut payload: Vec<u8> = Vec::new();
        payload.push(value);
        (ControlCommandIdentifiers::ListeningMode, payload)
    }

    /// Whether the conversation-detection item shows a check mark.
    pub fn conversation_detect_checked(&self) -> (r: bool)
        ensures
            r == (self.conversation_detect_enabled == Some(true)),
    {
        match self.conversation_detect_enabled {
            Some(b) => b,
            None => false,
        }
    }

    /// Whether the conversation-detection item can be toggled: only where
    /// its state is known.
    pub fn conversation_detect_available(&self) -> (r: bool)
        ensures
            r == self.conversation_detect_enabled.is_some(),
    {
        self.conversation_detect_enabled.is_some()
    }

    /// Toggles conversation detection where its state is known: the new
    /// state is kept at once and the command that asks the accessory for it
    /// is returned (`0x01` to enable, `0x02` to disable). Where the state is
    /// unknown nothing changes and no command is returned.
    pub fn toggle_conversation_detect(&mut self) -> (r: Option<(ControlCommandIdentifiers, Vec<u8>)>)
        ensures
            match old(self).conversation_detect_enabled {
                Some(was) => {
                    &&& final(self).conversation_detect_enabled == Some(!was)
                    &&& r matches Some(c) && c.0 == ControlCommandIdentifiers::ConversationDetectConfig
                        && c.1@ == seq![if was { 0x02u8 } else { 0x01u8 }]
                },
                None => r is None && final(self).conversation_detect_enabled is None,
            },
            final(self).battery_l == old(self).battery_l,
            final(self).battery_l_status == old(self).battery_l_status,
            final(self).battery_r == old(self).battery_r,
            final(self).battery_r_status == old(self).battery_r_status,
            final(self).battery_c == old(self).battery_c,
            final(self).battery_c_status == old(self).battery_c_status,
            final(self).connected == old(self).connected,
            final(self).listening_mode == old(self).listening_mode,
            final(self).allow_off_option == old(self).allow_off_option,
    {
        match self.conversation_detect_enabled {
            Some(is_enabled) => {
                let new_state = !is_enabled;
                let value: u8 = if !new_state { 0x02 } else { 0x01 };
                let mut payload: Vec<u8> = Vec::new();
                payload.push(value);
                self.conversation_detect_enabled = Some(new_state);
                Some((ControlCommandIdentifiers::ConversationDetectConfig, payload))
            },
            None => None,
        }
    }
}

} // verus!
