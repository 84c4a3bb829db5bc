use ossm_ble::characteristics::{COMMAND_CHAR_UUID, SERVICE_UUID};
use ossm_ble::state::{get_current_state_json, get_patterns_json, state_to_notify, MotorSnapshot};

#[test]
fn state_json_running() {
    let s = get_current_state_json(Some(MotorSnapshot { paused: false, speed: 150, stroke: 42 }));
    assert_eq!(
        s,
        r#"{"state":"simplePenetration.idle","speed":150,"stroke":42,"sensation":50,"depth":50,"pattern":0}"#
    );
}

#[test]
fn state_json_paused_negative_values() {
    let s = get_current_state_json(Some(MotorSnapshot { paused: true, speed: -7, stroke: i32::MIN }));
    assert_eq!(
        s,
        r#"{"state":"menu.idle","speed":-7,"stroke":-2147483648,"sensation":50,"depth":50,"pattern":0}"#
    );
}

#[test]
fn state_json_without_controller() {
    assert_eq!(
        get_current_state_json(None),
        r#"{"state":"error.idle","speed":0,"stroke":0,"sensation":0,"depth":0,"pattern":0}"#
    );
}

#[test]
fn patterns_json_lists_patterns() {
    assert_eq!(
        get_patterns_json(),
        r#"["Simple Stroke","Teasing","Robotic","Half'n Half","Deeper","Stop'n Go","Insist"]"#
    );
}

#[test]
fn notify_only_on_change() {
    let last = String::from("a");
    assert_eq!(state_to_notify(&last, String::from("a")), None);
    assert_eq!(state_to_notify(&last, String::from("b")), Some(String::from("b")));
    assert_eq!(state_to_notify(&String::new(), String::from("x")), Some(String::from("x")));
}

#[test]
fn uuids() {
    assert_eq!(SERVICE_UUID, "522b443a-4f53-534d-0001-420badbabe69");
    assert_eq!(COMMAND_CHAR_UUID, "522b443a-4f53-534d-1000-420badbabe69");
}
