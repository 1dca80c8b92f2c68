use matrix_bot::verification::report::{
    device_line, device_report, devices_header, result_line, starting_line, DeviceRecord, TrustState,
};

fn device(id: &str, name: Option<&str>, verified: bool) -> DeviceRecord {
    DeviceRecord {
        device_id: id.to_string(),
        display_name: name.map(|n| n.to_string()),
        verified,
    }
}

#[test]
fn a_device_line_is_laid_out_in_columns() {
    assert_eq!(
        device_line(&device("ABCDEFGH", Some("Alice's phone"), true)),
        format!("   {:<10} {:<30} {:<}", "ABCDEFGH", "Alice's phone", true)
    );
    assert_eq!(
        device_line(&device("ABCDEFGH", Some("Alice's phone"), true)),
        "   ABCDEFGH   Alice's phone                  true"
    );
    assert_eq!(
        device_line(&device("D", None, false)),
        "   D          -                              false"
    );
}

#[test]
fn long_fields_are_not_cut() {
    let long_name = "a display name that is longer than thirty characters";
    assert_eq!(
        device_line(&device("ABCDEFGHIJKLMN", Some(long_name), false)),
        format!("   ABCDEFGHIJKLMN {} false", long_name)
    );
    assert_eq!(
        device_line(&device("0123456789", Some("012345678901234567890123456789"), true)),
        "   0123456789 012345678901234567890123456789 true"
    );
}

#[test]
fn columns_count_characters_not_bytes() {
    assert_eq!(
        device_line(&device("设备", Some("手机"), true)),
        format!("   {:<10} {:<30} {:<}", "设备", "手机", true)
    );
}

#[test]
fn the_report_lists_every_device_under_a_header() {
    let devices = vec![device("A", Some("one"), true), device("B", None, false)];
    let lines = device_report("@alice:example.org", &devices);
    assert_eq!(lines.len(), 3);
    assert_eq!(lines[0], "Devices of user @alice:example.org");
    assert_eq!(lines[1], device_line(&devices[0]));
    assert_eq!(lines[2], device_line(&devices[1]));
    assert_eq!(device_report("@bob:example.org", &vec![]), vec!["Devices of user @bob:example.org"]);
    assert_eq!(devices_header("u"), "Devices of user u");
}

#[test]
fn the_result_line_names_device_and_trust() {
    assert_eq!(
        result_line("@alice:example.org", "ABCDEFGH", TrustState::Verified),
        "Successfully verified device @alice:example.org ABCDEFGH Verified"
    );
    assert_eq!(result_line("u", "d", TrustState::BlackListed), "Successfully verified device u d BlackListed");
    assert_eq!(result_line("u", "d", TrustState::Ignored), "Successfully verified device u d Ignored");
    assert_eq!(result_line("u", "d", TrustState::Unset), "Successfully verified device u d Unset");
    assert_eq!(
        starting_line("@alice:example.org", "ABCDEFGH"),
        "Starting verification with @alice:example.org ABCDEFGH"
    );
}
