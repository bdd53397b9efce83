use librepods_ui::{
    content_view, find_device, settings_selected, sidebar_entries, sidebar_order, AirPodsInformation, BluetoothState,
    ContentView, DeviceData, DeviceInformation, DeviceType, MyTheme, Tab,
};

fn device(name: &str) -> DeviceData {
    DeviceData { name: name.to_string(), type_: DeviceType::Other, information: None }
}

fn info() -> AirPodsInformation {
    AirPodsInformation {
        name: "Pods".to_string(),
        model_number: "A2084".to_string(),
        manufacturer: "Apple Inc.".to_string(),
        serial_number: "S0".to_string(),
        left_serial_number: "S1".to_string(),
        right_serial_number: "S2".to_string(),
        version1: "1.0".to_string(),
        version2: "2.0".to_string(),
        version3: "3.0".to_string(),
    }
}

#[test]
fn sidebar_sorts_case_sensitively() {
    let registry = vec![
        ("m1".to_string(), device("Zeta")),
        ("m2".to_string(), device("Alpha")),
        ("m3".to_string(), device("beta")),
    ];
    let state = BluetoothState::new();
    let rows = sidebar_entries(&registry, &Tab::Settings, &state);
    let labels: Vec<&str> = rows.iter().map(|r| r.label.as_str()).collect();
    assert_eq!(labels, vec!["Alpha", "Zeta", "beta"]);
    assert_eq!(sidebar_order(&registry), vec![1, 0, 2]);
}

#[test]
fn equal_names_ordered_by_identifier() {
    let registry = vec![
        ("b".to_string(), device("Same")),
        ("a".to_string(), device("Same")),
        ("c".to_string(), device("Other")),
    ];
    assert_eq!(sidebar_order(&registry), vec![2, 1, 0]);
    assert!(sidebar_order(&Vec::new()).is_empty());
}

#[test]
fn sidebar_rows_show_state() {
    let registry = vec![("AA".to_string(), device("Pods")), ("BB".to_string(), device("Other"))];
    let mut state = BluetoothState::new();
    state.connect("AA".to_string());
    let rows = sidebar_entries(&registry, &Tab::Device("AA".to_string()), &state);
    assert_eq!(rows[0].label, "Other");
    assert_eq!(rows[0].description, "BB");
    assert!(!rows[0].selected);
    assert_eq!(rows[1].description, "Connected - AA");
    assert!(rows[1].selected);
    assert_eq!(rows[1].tab, Tab::Device("AA".to_string()));
    assert!(settings_selected(&Tab::Settings));
    assert!(!settings_selected(&Tab::Device("AA".to_string())));
}

#[test]
fn content_for_each_tab() {
    let registry = vec![
        ("AA".to_string(), DeviceData {
            name: "Pods".to_string(),
            type_: DeviceType::AirPods,
            information: Some(DeviceInformation::AirPods(info())),
        }),
        ("BB".to_string(), DeviceData {
            name: "Odd".to_string(),
            type_: DeviceType::AirPods,
            information: Some(DeviceInformation::Other),
        }),
    ];
    assert!(matches!(content_view(&Tab::Settings, &registry, MyTheme::Nord), ContentView::Settings(MyTheme::Nord)));
    assert!(matches!(content_view(&Tab::Device("none".to_string()), &registry, MyTheme::Dark), ContentView::Placeholder));
    match content_view(&Tab::Device("AA".to_string()), &registry, MyTheme::Dark) {
        ContentView::DeviceDetail(rows) => {
            assert_eq!(rows.len(), 8);
            assert_eq!(rows[0].label, "Model Number");
            assert_eq!(rows[0].value, "A2084");
            assert_eq!(rows[3].label, "Left Serial Number");
            assert_eq!(rows[3].value, "S1");
            assert!(rows[3].copyable);
            assert!(!rows[7].copyable);
            assert_eq!(rows[7].value, "3.0");
        },
        _ => panic!("expected device details"),
    }
    assert!(matches!(content_view(&Tab::Device("BB".to_string()), &registry, MyTheme::Dark), ContentView::DeviceDetail(r) if r.is_empty()));
    assert!(matches!(content_view(&Tab::Device("ZZ".to_string()), &registry, MyTheme::Dark), ContentView::DeviceDetail(r) if r.is_empty()));
    assert_eq!(find_device(&registry, &"BB".to_string()), Some(1));
    assert_eq!(find_device(&registry, &"CC".to_string()), None);
}
