use termshark::app::input::{keyevent_to_input_request, InputRequest, KeyCode, CONTROL, SHIFT};
use termshark::device::{describe_device, find_device, ConnectionStatus, DeviceInfo};

fn device(name: &str, addrs: &[&str], desc: Option<&str>, status: ConnectionStatus) -> DeviceInfo {
    DeviceInfo {
        name: name.to_string(),
        desc: desc.map(|d| d.to_string()),
        addresses: addrs.iter().map(|a| a.to_string()).collect(),
        status,
    }
}

#[test]
fn device_description_lines() {
    let d = device("eth0", &["10.0.0.5", "fe80::1"], Some("Wired"), ConnectionStatus::Connected);
    assert_eq!(
        describe_device(&d),
        vec![
            "Name: eth0",
            "Description: Wired",
            "Status: 🟢 Connected",
            "Addresses:",
            "- 10.0.0.5",
            "- fe80::1",
        ]
    );
    let lo = device("lo", &[], None, ConnectionStatus::NotApplicable);
    assert_eq!(describe_device(&lo), vec!["Name: lo", "Status: 🟣 Not Applicable"]);
    let u = device("x", &[], None, ConnectionStatus::Unknown);
    assert_eq!(describe_device(&u)[1], "Status: 🟡 Unknown");
    let off = device("y", &[], None, ConnectionStatus::Disconnected);
    assert_eq!(describe_device(&off)[1], "Status: 🔴 Disconnected");
}

#[test]
fn devices_found_by_name_or_address() {
    let list = vec![
        device("eth0", &["10.0.0.5"], None, ConnectionStatus::Connected),
        device("wlan0", &["192.168.1.9", "fe80::2"], None, ConnectionStatus::Connected),
        device("fe80::2", &[], None, ConnectionStatus::Unknown),
    ];
    assert_eq!(find_device(&list, "wlan0"), Some(1));
    assert_eq!(find_device(&list, "10.0.0.5"), Some(0));
    assert_eq!(find_device(&list, "fe80::2"), Some(1));
    assert_eq!(find_device(&list, "eth1"), None);
    assert_eq!(find_device(&[].to_vec(), "eth0"), None);
}

#[test]
fn keys_that_edit_the_filter() {
    assert_eq!(keyevent_to_input_request(KeyCode::Backspace, 0), Some(InputRequest::DeletePrevChar));
    assert_eq!(keyevent_to_input_request(KeyCode::Backspace, CONTROL), Some(InputRequest::DeletePrevWord));
    assert_eq!(keyevent_to_input_request(KeyCode::Char('h'), CONTROL), Some(InputRequest::DeletePrevWord));
    assert_eq!(keyevent_to_input_request(KeyCode::Char('k'), CONTROL), Some(InputRequest::DeleteTillEnd));
    assert_eq!(keyevent_to_input_request(KeyCode::Char('x'), CONTROL), None);
    assert_eq!(keyevent_to_input_request(KeyCode::Char('X'), SHIFT), Some(InputRequest::InsertChar('X')));
    assert_eq!(keyevent_to_input_request(KeyCode::Char('a'), 0), Some(InputRequest::InsertChar('a')));
    assert_eq!(keyevent_to_input_request(KeyCode::Left, CONTROL), Some(InputRequest::GoToPrevWord));
    assert_eq!(keyevent_to_input_request(KeyCode::Right, 0), Some(InputRequest::GoToNextChar));
    assert_eq!(keyevent_to_input_request(KeyCode::Delete, CONTROL), Some(InputRequest::DeleteNextWord));
    assert_eq!(keyevent_to_input_request(KeyCode::Home, 0), Some(InputRequest::GoToStart));
    assert_eq!(keyevent_to_input_request(KeyCode::End, SHIFT), None);
    assert_eq!(keyevent_to_input_request(KeyCode::Other, 0), None);
}
