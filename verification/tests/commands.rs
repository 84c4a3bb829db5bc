use ossm_ble::commands::{
    handle_ble_command, handle_goto, handle_set_depth, handle_set_pattern, handle_set_sensation,
    handle_set_speed, handle_set_stroke, BleCommand, BleError, CommandPlan, ConfigUpdate,
    Sharpness, WaveFunction,
};

fn unchanged() -> ConfigUpdate {
    ConfigUpdate::unchanged()
}

fn plan(r: Result<CommandPlan, BleError>) -> CommandPlan {
    match r {
        Ok(p) => p,
        Err(e) => panic!("unexpected error: {}", e.message()),
    }
}

fn error_text(r: Result<CommandPlan, BleError>) -> String {
    match r {
        Ok(p) => panic!("unexpected success: {}", p.response),
        Err(e) => e.message(),
    }
}

#[test]
fn parse_go_command() {
    match BleCommand::parse("go:strokeEngine") {
        BleCommand::GoTo(m) => assert_eq!(m, "strokeEngine"),
        other => panic!("{:?}", other),
    }
}

#[test]
fn parse_trims_surrounding_whitespace() {
    match BleCommand::parse(" \t go:menu\r\n") {
        BleCommand::GoTo(m) => assert_eq!(m, "menu"),
        other => panic!("{:?}", other),
    }
    // Unicode whitespace counts too.
    match BleCommand::parse("\u{3000}set:speed:7\u{a0}") {
        BleCommand::SetSpeed(v) => assert_eq!(v, 7),
        other => panic!("{:?}", other),
    }
}

#[test]
fn parse_go_keeps_inner_text() {
    match BleCommand::parse("go: a:b ") {
        BleCommand::GoTo(m) => assert_eq!(m, " a:b"),
        other => panic!("{:?}", other),
    }
    match BleCommand::parse("go:") {
        BleCommand::GoTo(m) => assert_eq!(m, ""),
        other => panic!("{:?}", other),
    }
}

#[test]
fn parse_each_setting() {
    assert!(matches!(BleCommand::parse("set:speed:50"), BleCommand::SetSpeed(50)));
    assert!(matches!(BleCommand::parse("set:stroke:-3"), BleCommand::SetStroke(-3)));
    assert!(matches!(BleCommand::parse("set:depth:+12"), BleCommand::SetDepth(12)));
    assert!(matches!(BleCommand::parse("set:sensation:0"), BleCommand::SetSensation(0)));
    assert!(matches!(BleCommand::parse("set:pattern:007"), BleCommand::SetPattern(7)));
}

#[test]
fn parse_i32_limits() {
    assert!(matches!(BleCommand::parse("set:speed:2147483647"), BleCommand::SetSpeed(2147483647)));
    assert!(matches!(
        BleCommand::parse("set:speed:-2147483648"),
        BleCommand::SetSpeed(-2147483648)
    ));
    match BleCommand::parse("set:speed:2147483648") {
        BleCommand::Unknown(c) => assert_eq!(c, "set:speed:2147483648"),
        other => panic!("{:?}", other),
    }
    match BleCommand::parse("set:speed:99999999999999999999") {
        BleCommand::Unknown(c) => assert_eq!(c, "set:speed:99999999999999999999"),
        other => panic!("{:?}", other),
    }
}

#[test]
fn parse_unknown_keeps_trimmed_text() {
    let cases = [
        ("  hello  ", "hello"),
        ("set:speed", "set:speed"),
        ("set:speed:", "set:speed:"),
        ("set:speed:abc", "set:speed:abc"),
        ("set:speed: 5", "set:speed: 5"),
        ("set:speed:5:6", "set:speed:5:6"),
        ("set:speed:-", "set:speed:-"),
        ("set:speed:+", "set:speed:+"),
        ("set:speed:+-1", "set:speed:+-1"),
        ("set:volume:5", "set:volume:5"),
        ("SET:speed:5", "SET:speed:5"),
        ("", ""),
        ("go", "go"),
    ];
    for (input, kept) in cases {
        match BleCommand::parse(input) {
            BleCommand::Unknown(c) => assert_eq!(c, kept, "input {:?}", input),
            other => panic!("input {:?} gave {:?}", input, other),
        }
    }
}

#[test]
fn goto_modes() {
    let p = plan(handle_goto("simplePenetration", true));
    assert_eq!(p.response, "ok:go:simplePenetration");
    let mut u = unchanged();
    u.paused = Some(false);
    assert_eq!(p.update, Some(u));
    assert!(!p.fails_on_rejected_config);

    let p = plan(handle_goto("strokeEngine", false));
    assert_eq!(p.response, "ok:go:strokeEngine");
    assert_eq!(p.update, None);

    let p = plan(handle_goto("menu", true));
    assert_eq!(p.response, "ok:go:menu");
    let mut u = unchanged();
    u.paused = Some(true);
    u.bpm = Some(0);
    assert_eq!(p.update, Some(u));
}

#[test]
fn goto_unknown_mode() {
    assert_eq!(error_text(handle_goto("dance", true)), "Unknown mode: dance");
    assert_eq!(error_text(handle_goto("", false)), "Unknown mode: ");
    assert!(matches!(handle_goto("Menu", true), Err(BleError::UnknownMode(_))));
}

#[test]
fn set_speed_maps_to_bpm() {
    let p = plan(handle_set_speed(50, true));
    assert_eq!(p.response, "ok:set:speed:50");
    let mut u = unchanged();
    u.bpm = Some(150);
    u.paused = Some(false);
    assert_eq!(p.update, Some(u));

    let p = plan(handle_set_speed(0, true));
    assert_eq!(p.response, "ok:set:speed:0");
    let mut u = unchanged();
    u.bpm = Some(0);
    assert_eq!(p.update, Some(u));
}

#[test]
fn set_speed_clamps() {
    let p = plan(handle_set_speed(1000, true));
    assert_eq!(p.response, "ok:set:speed:100");
    assert_eq!(p.update.unwrap().bpm, Some(300));
    let p = plan(handle_set_speed(i32::MIN, true));
    assert_eq!(p.response, "ok:set:speed:0");
    assert_eq!(p.update.unwrap().paused, None);
}

#[test]
fn set_without_controller_fails() {
    assert_eq!(error_text(handle_set_speed(10, false)), "Motor controller not available");
    assert!(matches!(handle_set_stroke(10, false), Err(BleError::ControllerUnavailable)));
    assert!(matches!(handle_set_depth(10, false), Err(BleError::ControllerUnavailable)));
    assert!(matches!(handle_set_sensation(10, false), Err(BleError::ControllerUnavailable)));
    assert!(matches!(handle_set_pattern(10, false), Err(BleError::ControllerUnavailable)));
}

#[test]
fn set_stroke_sets_depth_percent() {
    let p = plan(handle_set_stroke(-5, true));
    assert_eq!(p.response, "ok:set:stroke:0");
    let mut u = unchanged();
    u.depth_percent = Some(0);
    assert_eq!(p.update, Some(u));
    let p = plan(handle_set_stroke(73, true));
    assert_eq!(p.update.unwrap().depth_percent, Some(73));
}

#[test]
fn set_depth_direction() {
    let p = plan(handle_set_depth(49, true));
    assert_eq!(p.response, "ok:set:depth:49");
    let mut u = unchanged();
    u.depth_top = Some(true);
    u.paused_position_percent = Some(49);
    assert_eq!(p.update, Some(u));
    let p = plan(handle_set_depth(50, true));
    assert_eq!(p.update.unwrap().depth_top, Some(false));
    let p = plan(handle_set_depth(500, true));
    assert_eq!(p.response, "ok:set:depth:100");
    assert_eq!(p.update.unwrap().paused_position_percent, Some(100));
}

#[test]
fn set_sensation_sets_sharpness() {
    let p = plan(handle_set_sensation(25, true));
    assert_eq!(p.response, "ok:set:sensation:25");
    let mut u = unchanged();
    u.sharpness = Some(Sharpness::Sensation(25));
    assert_eq!(p.update, Some(u));
}

#[test]
fn set_pattern_table() {
    let expected: [(WaveFunction, Option<u32>, Option<Sharpness>, Option<bool>); 7] = [
        (WaveFunction::Sine, None, None, None),
        (WaveFunction::Sine, Some(30), None, None),
        (WaveFunction::Thrust, None, Some(Sharpness::Hundredths(10)), None),
        (WaveFunction::Thrust, None, Some(Sharpness::Hundredths(50)), None),
        (WaveFunction::Sine, Some(100), None, Some(false)),
        (WaveFunction::Thrust, None, Some(Sharpness::Hundredths(90)), None),
        (WaveFunction::Thrust, Some(80), Some(Sharpness::Hundredths(20)), None),
    ];
    for (i, (wave, depth, sharpness, top)) in expected.iter().enumerate() {
        let p = plan(handle_set_pattern(i as i32, true));
        assert_eq!(p.response, format!("ok:set:pattern:{}", i));
        assert!(p.fails_on_rejected_config);
        let mut u = unchanged();
        u.wave_func = Some(*wave);
        u.depth_percent = *depth;
        u.sharpness = *sharpness;
        u.depth_top = *top;
        assert_eq!(p.update, Some(u), "pattern {}", i);
    }
}

#[test]
fn set_pattern_clamps() {
    assert_eq!(plan(handle_set_pattern(9, true)).response, "ok:set:pattern:6");
    assert_eq!(plan(handle_set_pattern(-9, true)).response, "ok:set:pattern:0");
}

#[test]
fn wave_function_names() {
    assert_eq!(WaveFunction::Sine.name(), "sine");
    assert_eq!(WaveFunction::Thrust.name(), "thrust");
}

#[test]
fn handle_full_commands() {
    let p = plan(handle_ble_command(" set:speed:120 ", true));
    assert_eq!(p.response, "ok:set:speed:100");
    let p = plan(handle_ble_command("go:menu", false));
    assert_eq!(p.response, "ok:go:menu");
    assert_eq!(p.update, None);
    assert_eq!(
        error_text(handle_ble_command("  bogus command ", true)),
        "Unknown command: bogus command"
    );
    assert_eq!(error_text(handle_ble_command("go:nowhere", true)), "Unknown mode: nowhere");
    assert_eq!(
        error_text(handle_ble_command("set:depth:10", false)),
        "Motor controller not available"
    );
}

#[test]
fn reply_replays_command() {
    for cmd in [
        "set:speed:250",
        " set:stroke:-1",
        "set:depth:33",
        "set:sensation:100",
        "set:pattern:42",
        "go:strokeEngine",
        "go:menu ",
    ] {
        let first = plan(handle_ble_command(cmd, true));
        let echoed = first.response.strip_prefix("ok:").unwrap().to_string();
        let second = plan(handle_ble_command(&echoed, true));
        assert_eq!(second.response, first.response);
        assert_eq!(second.update, first.update);
        assert_eq!(second.fails_on_rejected_config, first.fails_on_rejected_config);
    }
}

#[test]
fn setting_text_roundtrip() {
    for v in [i32::MIN, -1, 0, 9, 10, 12345, i32::MAX] {
        match BleCommand::parse(&format!("set:stroke:{}", v)) {
            BleCommand::SetStroke(x) => assert_eq!(x, v),
            other => panic!("{:?}", other),
        }
    }
}

#[test]
fn updates_stay_in_range() {
    for v in [i32::MIN, -100, 0, 1, 99, 100, 101, i32::MAX] {
        for name in ["speed", "stroke", "depth", "sensation", "pattern"] {
            let p = plan(handle_ble_command(&format!("set:{}:{}", name, v), true));
            let u = p.update.unwrap();
            assert!(u.bpm.map_or(true, |b| b <= 300));
            assert!(u.depth_percent.map_or(true, |d| d <= 100));
            assert!(u.paused_position_percent.map_or(true, |d| d <= 100));
        }
    }
}
