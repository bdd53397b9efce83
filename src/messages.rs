use vstd::prelude::*;

verus! {

/// Identifiers of the device's control commands that the UI can change.
#[derive(Clone, Copy, Debug, PartialEq, Eq, Structural)]
pub enum ControlCommandIdentifiers {
    ListeningMode,
    ConversationDetectConfig,
    AllowOffOption,
}

/// Charging state of one battery.
#[derive(Clone, Copy, Debug, PartialEq, Eq, Structural)]
pub enum BatteryStatus {
    Charging,
    NotCharging,
    Disconnected,
}

/// Which battery a reading belongs to.
#[derive(Clone, Copy, Debug, PartialEq, Eq, Structural)]
pub enum BatteryComponent {
    Left,
    Right,
    Case,
}

/// A status event that the device layer decoded from the accessory.
#[derive(Clone, Debug)]
pub enum AACPEvent {
    Battery(BatteryComponent, u8, BatteryStatus),
    ControlCommand(ControlCommandIdentifiers, Vec<u8>),
}

/// An event that the device layer hands to the UI.
#[derive(Clone, Debug)]
pub enum UIMessage {
    OpenWindow,
    DeviceConnected(String),
    DeviceDisconnected(String),
    AACPUIEvent(String, AACPEvent),
    NoOp,
}

/// A command that the UI hands to the device layer.
#[derive(Clone, Debug)]
pub enum UICommand {
    SetControlCommandStatus(String, ControlCommandIdentifiers, Vec<u8>),
}

} // verus!
