use librepods_ui::{App, BluetoothState, Effect, EventBridge, Message, MyTheme, Tab, UIMessage, WindowHandle, WindowState};

fn awaits(effects: &[Effect]) -> usize {
    effects.iter().filter(|e| matches!(e, Effect::AwaitNext)).count()
}

#[test]
fn start_opens_window_unless_minimized() {
    let (app, effects) = App::new(false, MyTheme::Nord);
    assert_eq!(app.window, WindowState::Pending(WindowHandle { id: 1 }));
    assert_eq!(app.next_window, 2);
    assert!(matches!(effects.as_slice(), [Effect::CreateWindow(WindowHandle { id: 1 }), Effect::AwaitNext]));
    assert_eq!(app.selected_tab, Tab::Device("none".to_string()));
    assert_eq!(app.selected_theme, MyTheme::Nord);

    let (app, effects) = App::new(true, MyTheme::Dark);
    assert_eq!(app.window, WindowState::Closed);
    assert!(matches!(effects.as_slice(), [Effect::AwaitNext]));
}

#[test]
fn open_request_from_closed_opens() {
    let (mut app, _) = App::new(true, MyTheme::Dark);
    let effects = app.update(Message::UIMessage(UIMessage::OpenWindow));
    let h = WindowHandle { id: 1 };
    assert!(matches!(effects.as_slice(), [Effect::CreateWindow(c), Effect::AwaitNext] if *c == h));
    assert_eq!(app.window, WindowState::Pending(h));
    assert_eq!(app.next_window, 2);
    assert!(app.update(Message::WindowOpened(h)).is_empty());
    assert_eq!(app.window, WindowState::Open(h));
}

#[test]
fn second_open_request_focuses() {
    let (mut app, _) = App::new(true, MyTheme::Dark);
    app.update(Message::UIMessage(UIMessage::OpenWindow));
    let h = WindowHandle { id: 1 };
    let effects = app.update(Message::UIMessage(UIMessage::OpenWindow));
    assert!(matches!(effects.as_slice(), [Effect::FocusWindow(f), Effect::AwaitNext] if *f == h));
    assert_eq!(app.window, WindowState::Pending(h));
    app.update(Message::WindowOpened(h));
    let effects = app.update(Message::UIMessage(UIMessage::OpenWindow));
    assert!(matches!(effects.as_slice(), [Effect::FocusWindow(f), Effect::AwaitNext] if *f == h));
    assert!(!effects.iter().any(|e| matches!(e, Effect::CreateWindow(_))));
    assert_eq!(app.window, WindowState::Open(h));
}

#[test]
fn close_report_needs_matching_handle() {
    let (mut app, _) = App::new(true, MyTheme::Dark);
    app.update(Message::WindowOpened(WindowHandle { id: 1 }));
    app.update(Message::WindowClosed(WindowHandle { id: 2 }));
    assert_eq!(app.window, WindowState::Open(WindowHandle { id: 1 }));
    app.update(Message::WindowClosed(WindowHandle { id: 1 }));
    assert_eq!(app.window, WindowState::Closed);
}

#[test]
fn close_report_ends_pending_window() {
    let (mut app, _) = App::new(false, MyTheme::Dark);
    app.update(Message::WindowClosed(WindowHandle { id: 9 }));
    assert_eq!(app.window, WindowState::Pending(WindowHandle { id: 1 }));
    app.update(Message::WindowClosed(WindowHandle { id: 1 }));
    assert_eq!(app.window, WindowState::Closed);
    let effects = app.update(Message::UIMessage(UIMessage::OpenWindow));
    assert!(matches!(effects.as_slice(), [Effect::CreateWindow(WindowHandle { id: 2 }), Effect::AwaitNext]));
    assert_eq!(app.window, WindowState::Pending(WindowHandle { id: 2 }));
}

#[test]
fn disconnect_removes_device() {
    let (mut app, _) = App::new(true, MyTheme::Dark);
    app.update(Message::UIMessage(UIMessage::DeviceConnected("AA:BB".to_string())));
    app.update(Message::UIMessage(UIMessage::DeviceConnected("CC:DD".to_string())));
    let effects = app.update(Message::UIMessage(UIMessage::DeviceDisconnected("AA:BB".to_string())));
    assert!(matches!(effects.as_slice(), [Effect::AwaitNext]));
    assert!(!app.bluetooth_state.is_connected(&"AA:BB".to_string()));
    assert_eq!(app.bluetooth_state.connected_devices, vec!["CC:DD".to_string()]);
    app.update(Message::UIMessage(UIMessage::DeviceDisconnected("EE:FF".to_string())));
    assert_eq!(app.bluetooth_state.connected_devices, vec!["CC:DD".to_string()]);
    app.update(Message::UIMessage(UIMessage::DeviceDisconnected("CC:DD".to_string())));
    assert!(app.bluetooth_state.connected_devices.is_empty());
}

#[test]
fn connected_devices_are_kept_once() {
    let (mut app, _) = App::new(true, MyTheme::Dark);
    app.update(Message::UIMessage(UIMessage::DeviceConnected("AA:BB".to_string())));
    app.update(Message::UIMessage(UIMessage::DeviceConnected("CC:DD".to_string())));
    app.update(Message::UIMessage(UIMessage::DeviceConnected("AA:BB".to_string())));
    assert_eq!(app.bluetooth_state.connected_devices, vec!["AA:BB".to_string(), "CC:DD".to_string()]);
    assert!(app.bluetooth_state.is_connected(&"CC:DD".to_string()));
    assert!(!app.bluetooth_state.is_connected(&"EE:FF".to_string()));
    assert!(BluetoothState::new().connected_devices.is_empty());
}

#[test]
fn user_messages_do_not_rearm() {
    let (mut app, _) = App::new(true, MyTheme::Dark);
    let effects = app.update(Message::ThemeSelected(MyTheme::Moonfly));
    assert!(matches!(effects.as_slice(), [Effect::WriteSettings(MyTheme::Moonfly)]));
    assert_eq!(app.selected_theme, MyTheme::Moonfly);
    let effects = app.update(Message::CopyToClipboard("SERIAL1".to_string()));
    assert!(matches!(effects.as_slice(), [Effect::CopyToClipboard(s)] if s == "SERIAL1"));
    let effects = app.update(Message::SelectTab(Tab::Settings));
    assert!(effects.is_empty());
    assert_eq!(app.selected_tab, Tab::Settings);
}

#[test]
fn events_are_delivered_once_in_order() {
    let (tx, mut rx) = tokio::sync::mpsc::unbounded_channel::<UIMessage>();
    let sent = vec![
        UIMessage::DeviceConnected("A".to_string()),
        UIMessage::OpenWindow,
        UIMessage::DeviceDisconnected("A".to_string()),
        UIMessage::NoOp,
        UIMessage::OpenWindow,
    ];
    for m in &sent {
        tx.send(m.clone()).unwrap();
    }
    drop(tx);

    let (mut app, effects) = App::new(true, MyTheme::Dark);
    assert_eq!(awaits(&effects), 1);
    let mut bridge = EventBridge::new();
    let mut received = Vec::new();
    for _ in 0..sent.len() + 2 {
        assert!(bridge.begin_wait());
        assert!(!bridge.begin_wait());
        let message = bridge.deliver(rx.blocking_recv());
        if let Message::UIMessage(m) = &message {
            received.push(format!("{:?}", m));
        }
        let effects = app.update(message);
        assert_eq!(awaits(&effects), 1);
        assert!(matches!(effects.last(), Some(Effect::AwaitNext)));
    }
    let mut expected: Vec<String> = sent.iter().map(|m| format!("{:?}", m)).collect();
    expected.push("NoOp".to_string());
    expected.push("NoOp".to_string());
    assert_eq!(received, expected);
}
