use librepods_ui::{BatteryStatus, ControlCommandIdentifiers, ListeningOption, MyTray};

fn tray() -> MyTray {
    MyTray {
        conversation_detect_enabled: None,
        battery_l: None,
        battery_l_status: None,
        battery_r: None,
        battery_r_status: None,
        battery_c: None,
        battery_c_status: None,
        connected: true,
        listening_mode: None,
        allow_off_option: None,
    }
}

#[test]
fn disconnected_tool_tip_is_fixed() {
    let mut t = tray();
    t.connected = false;
    t.battery_l = Some(50);
    let tip = t.tool_tip();
    assert_eq!(tip.title, "Not Connected");
    assert_eq!(tip.description, "Device is not connected.");
}

#[test]
fn tool_tip_with_left_only() {
    let mut t = tray();
    t.battery_l = Some(72);
    let tip = t.tool_tip();
    assert_eq!(tip.title, "Battery Status");
    assert_eq!(tip.description, "L: 72% R: ? C: ?");
}

#[test]
fn tool_tip_with_charging_states() {
    let mut t = tray();
    t.battery_l = Some(100);
    t.battery_l_status = Some(BatteryStatus::Charging);
    t.battery_r = Some(5);
    t.battery_c = Some(0);
    t.battery_c_status = Some(BatteryStatus::NotCharging);
    t.battery_r_status = Some(BatteryStatus::Disconnected);
    assert_eq!(
        t.tool_tip().description,
        "L: 100% (Charging) R: 5% (Disconnected) C: 0% (NotCharging)"
    );
}

#[test]
fn icon_text_takes_lower_level() {
    let mut t = tray();
    t.battery_l = Some(80);
    t.battery_r = Some(35);
    assert_eq!(t.icon_text(), "35");
    t.battery_l = None;
    assert_eq!(t.icon_text(), "35");
    t.battery_r = None;
    assert_eq!(t.icon_text(), "?");
    t.battery_l = Some(7);
    assert_eq!(t.icon_text(), "7");
    t.connected = false;
    assert_eq!(t.icon_text(), "D");
}

#[test]
fn options_without_off() {
    let t = tray();
    let labels: Vec<String> = t.listening_mode_options().iter().map(|o| o.label()).collect();
    assert_eq!(labels, vec!["ANC", "Transparency", "Adaptive"]);
    let mut u = tray();
    u.allow_off_option = Some(0x02);
    assert_eq!(u.listening_mode_options().len(), 3);
}

#[test]
fn options_with_off_first() {
    let mut t = tray();
    t.allow_off_option = Some(0x01);
    let opts = t.listening_mode_options();
    assert_eq!(
        opts,
        vec![ListeningOption::Off, ListeningOption::Anc, ListeningOption::Transparency, ListeningOption::Adaptive]
    );
    let codes: Vec<u8> = opts.iter().map(|o| o.code()).collect();
    assert_eq!(codes, vec![0x01, 0x02, 0x03, 0x04]);
}

#[test]
fn selected_index_follows_mode() {
    let mut t = tray();
    t.listening_mode = Some(0x03);
    assert_eq!(t.selected_listening_index(), 1);
    t.allow_off_option = Some(0x01);
    assert_eq!(t.selected_listening_index(), 2);
    t.listening_mode = Some(0x09);
    assert_eq!(t.selected_listening_index(), 0);
    t.listening_mode = None;
    assert_eq!(t.selected_listening_index(), 0);
}

#[test]
fn selecting_mode_sends_its_code() {
    let mut t = tray();
    let (id, payload) = t.select_listening_mode(2);
    assert_eq!(id, ControlCommandIdentifiers::ListeningMode);
    assert_eq!(payload, vec![0x04]);
    assert_eq!(t.select_listening_mode(7).1, vec![0x02]);
    t.allow_off_option = Some(0x01);
    assert_eq!(t.select_listening_mode(0).1, vec![0x01]);
}

#[test]
fn toggling_conversation_detection() {
    let mut t = tray();
    assert!(!t.conversation_detect_available());
    assert!(t.toggle_conversation_detect().is_none());
    assert_eq!(t.conversation_detect_enabled, None);

    t.conversation_detect_enabled = Some(false);
    assert!(t.conversation_detect_available());
    assert!(!t.conversation_detect_checked());
    let (id, payload) = t.toggle_conversation_detect().unwrap();
    assert_eq!(id, ControlCommandIdentifiers::ConversationDetectConfig);
    assert_eq!(payload, vec![0x01]);
    assert_eq!(t.conversation_detect_enabled, Some(true));
    assert!(t.conversation_detect_checked());
    let (_, payload) = t.toggle_conversation_detect().unwrap();
    assert_eq!(payload, vec![0x02]);
    assert_eq!(t.conversation_detect_enabled, Some(false));
}
