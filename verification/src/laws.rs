//! Properties of the command protocol that span its functions.
use vstd::prelude::*;
use crate::commands::{
    clamped, command_outcome, goto_outcome, ErrorModel, WaveFunction, set_command, spec_parse, CommandModel, ConfigUpdate,
    Sharpness,
};
use crate::state::{spec_state_json, MotorSnapshot};
use crate::text::digit_char;
use crate::text::{
    int_decimal, is_digit, is_space, lemma_colon_pos, lemma_nat_decimal_digits,
    lemma_parse_int_decimal, nat_decimal, starts_with, trim, trim_end, trim_start,
};

verus! {

// ---------------------------------------------------------------------------
// Trimming
// ---------------------------------------------------------------------------

pub open spec fn all_space(s: Seq<char>) -> bool {
    forall|i: int| 0 <= i < s.len() ==> is_space(#[trigger] s[i])
}

proof fn lemma_trim_start_space_prefix(p: Seq<char>, x: Seq<char>)
    requires
        all_space(p),
    ensures
        trim_start(p + x) == trim_start(x),
    decreases p.len(),
{
    if p.len() > 0 {
        assert((p + x)[0] == p[0]);
        assert((p + x).drop_first() =~= p.drop_first() + x);
        assert(all_space(p.drop_first())) by {
            assert forall|i: int| 0 <= i < p.drop_first().len() implies is_space(
                #[trigger] p.drop_first()[i],
            ) by {
                assert(p.drop_first()[i] == p[i + 1]);
            }
        }
        lemma_trim_start_space_prefix(p.drop_first(), x);
    } else {
        assert(p + x =~= x);
    }
}

proof fn lemma_trim_end_space_suffix(x: Seq<char>, q: Seq<char>)
    requires
        all_space(q),
    ensures
        trim_end(x + q) == trim_end(x),
    decreases q.len(),
{
    if q.len() > 0 {
        assert((x + q).last() == q.last());
        assert((x + q).drop_last() =~= x + q.drop_last());
        assert(all_space(q.drop_last())) by {
            assert forall|i: int| 0 <= i < q.drop_last().len() implies is_space(
                #[trigger] q.drop_last()[i],
            ) by {
                assert(q.drop_last()[i] == q[i]);
            }
        }
        lemma_trim_end_space_suffix(x, q.drop_last());
    } else {
        assert(x + q =~= x);
    }
}

proof fn lemma_trim_start_append(s: Seq<char>, q: Seq<char>)
    ensures
        trim_start(s + q) == (if trim_start(s).len() > 0 {
            trim_start(s) + q
        } else {
            trim_start(q)
        }),
    decreases s.len(),
{
    if s.len() == 0 {
        assert(s + q =~= q);
    } else {
        assert((s + q)[0] == s[0]);
        if is_space(s[0]) {
            assert((s + q).drop_first() =~= s.drop_first() + q);
            lemma_trim_start_append(s.drop_first(), q);
        }
    }
}

proof fn lemma_trim_end_nonempty(s: Seq<char>)
    requires
        trim_end(s).len() > 0,
    ensures
        !is_space(trim_end(s).last()),
    decreases s.len(),
{
    if s.len() > 0 && is_space(s.last()) {
        lemma_trim_end_nonempty(s.drop_last());
    }
}

/// Text that neither starts nor ends with whitespace is its own trim.
proof fn lemma_trim_unchanged(s: Seq<char>)
    requires
        s.len() > 0,
        !is_space(s[0]),
        !is_space(s.last()),
    ensures
        trim(s) == s,
{
}

/// Whitespace around a command does not change which command it is: the
/// text is trimmed before it is read.
pub proof fn law_parse_ignores_surrounding_whitespace(p: Seq<char>, s: Seq<char>, q: Seq<char>)
    requires
        all_space(p),
        all_space(q),
    ensures
        spec_parse(p + s + q) == spec_parse(s),
{
    assert(p + s + q =~= p + (s + q));
    lemma_trim_start_space_prefix(p, s + q);
    lemma_trim_start_append(s, q);
    if trim_start(s).len() > 0 {
        lemma_trim_end_space_suffix(trim_start(s), q);
    } else {
        lemma_trim_start_space_prefix(q, Seq::<char>::empty());
        assert(q + Seq::<char>::empty() =~= q);
    }
    assert(trim(p + s + q) == trim(s));
}

// ---------------------------------------------------------------------------
// Command texts
// ---------------------------------------------------------------------------

/// The names of the settings that `set:` accepts.
pub open spec fn is_setting_name(name: Seq<char>) -> bool {
    ||| name == "speed"@
    ||| name == "stroke"@
    ||| name == "depth"@
    ||| name == "sensation"@
    ||| name == "pattern"@
}

/// The text `set:<name>:<v>` of a setting command.
pub open spec fn set_text(name: Seq<char>, v: int) -> Seq<char> {
    "set:"@ + name + ":"@ + int_decimal(v)
}

proof fn lemma_setting_name_facts(name: Seq<char>)
    requires
        is_setting_name(name),
    ensures
        name.len() > 0,
        forall|j: int| 0 <= j < name.len() ==> name[j] != ':',
{
    reveal_strlit("speed");
    reveal_strlit("stroke");
    reveal_strlit("depth");
    reveal_strlit("sensation");
    reveal_strlit("pattern");
}

/// A setting written as `set:<name>:<v>` reads back as that setting with
/// that value, for every `i32` value.
pub proof fn law_set_text_parses(name: Seq<char>, v: i32)
    requires
        is_setting_name(name),
    ensures
        spec_parse(set_text(name, v as int)) == set_command(name, v, set_text(name, v as int)),
        set_command(name, v, set_text(name, v as int)) !is Unknown,
{
    reveal_strlit("set:");
    reveal_strlit(":");
    reveal_strlit("go:");
    lemma_setting_name_facts(name);
    let d = int_decimal(v as int);
    let t = set_text(name, v as int);
    assert(d.len() > 0 && !is_space(d.last())) by {
        if v < 0 {
            lemma_nat_decimal_digits((-v) as nat);
            assert(d.last() == nat_decimal((-v) as nat).last());
            assert(is_digit(nat_decimal((-v) as nat)[nat_decimal((-v) as nat).len() - 1]));
        } else {
            lemma_nat_decimal_digits(v as nat);
            assert(is_digit(d[d.len() - 1]));
        }
    }
    assert(t[0] == 's');
    assert(t.last() == d.last());
    lemma_trim_unchanged(t);
    assert(!starts_with(t, "go:"@)) by {
        assert(t.take(3)[0] != "go:"@[0]);
    }
    assert(t.take(4) =~= "set:"@);
    let rest = t.skip(4);
    assert(rest =~= name + ":"@ + d);
    lemma_colon_pos(rest, name.len() as int);
    assert(rest.skip(name.len() + 1int) =~= d);
    assert(rest.take(name.len() as int) =~= name);
    lemma_parse_int_decimal(v);
}

/// `go:<mode>` reads back as that mode, for every mode that does not end
/// in whitespace.
pub proof fn law_go_text_parses(mode: Seq<char>)
    requires
        mode.len() == 0 || !is_space(mode.last()),
    ensures
        spec_parse("go:"@ + mode) == CommandModel::GoTo(mode),
{
    reveal_strlit("go:");
    let t = "go:"@ + mode;
    assert(t[0] == 'g');
    assert(t.last() == (if mode.len() == 0 {
        ':'
    } else {
        mode.last()
    }));
    lemma_trim_unchanged(t);
    assert(t.take(3) =~= "go:"@);
    assert(t.skip(3) =~= mode);
}

// ---------------------------------------------------------------------------
// Replies
// ---------------------------------------------------------------------------

proof fn lemma_reply_of_setting(name: Seq<char>, reply: Seq<char>, v: int)
    requires
        is_setting_name(name),
        0 <= v <= i32::MAX,
        reply == "ok:"@ + "set:"@ + name + ":"@ + nat_decimal(v as nat),
    ensures
        starts_with(reply, "ok:"@),
        spec_parse(reply.skip(3)) == set_command(name, v as i32, set_text(name, v)),
{
    reveal_strlit("ok:");
    assert(reply.take(3) =~= "ok:"@);
    assert(reply.skip(3) =~= set_text(name, v));
    law_set_text_parses(name, v as i32);
}

/// The reply to an accepted command is `ok:` followed by the command as it
/// was carried out (with its value clamped), and sending that command text
/// again is carried out in the same way and gets the same reply.
pub proof fn law_reply_replays_command(s: Seq<char>, available: bool)
    requires
        command_outcome(spec_parse(s), available) is Ok,
    ensures
        ({
            let plan = command_outcome(spec_parse(s), available)->Ok_0;
            &&& starts_with(plan.response, "ok:"@)
            &&& command_outcome(spec_parse(plan.response.skip(3)), available) == command_outcome(
                spec_parse(s),
                available,
            )
        }),
{
    reveal_strlit("ok:");
    reveal_strlit("set:");
    reveal_strlit(":");
    let plan = command_outcome(spec_parse(s), available)->Ok_0;
    match spec_parse(s) {
        CommandModel::GoTo(mode) => {
            reveal_strlit("go:");
            reveal_strlit("ok:go:");
            reveal_strlit("ok:go:menu");
            reveal_strlit("go:menu");
            reveal_strlit("menu");
            let t = trim(s);
            assert(starts_with(t, "go:"@));
            assert(mode == t.skip(3));
            if mode.len() > 0 {
                lemma_trim_end_nonempty(trim_start(s));
                assert(mode.last() == t.last());
            }
            if mode == "menu"@ {
                assert(plan.response.skip(3) =~= "go:"@ + mode);
            } else {
                assert(plan.response =~= "ok:"@ + ("go:"@ + mode));
                assert(plan.response.skip(3) =~= "go:"@ + mode);
            }
            assert(plan.response.take(3) =~= "ok:"@);
            law_go_text_parses(mode);
        },
        CommandModel::SetSpeed(x) => {
            reveal_strlit("ok:set:speed:");
            reveal_strlit("speed");
            assert("ok:set:speed:"@ =~= "ok:"@ + "set:"@ + "speed"@ + ":"@);
            lemma_reply_of_setting("speed"@, plan.response, clamped(x as int, 0, 100));
        },
        CommandModel::SetStroke(x) => {
            reveal_strlit("ok:set:stroke:");
            reveal_strlit("stroke");
            assert("ok:set:stroke:"@ =~= "ok:"@ + "set:"@ + "stroke"@ + ":"@);
            lemma_reply_of_setting("stroke"@, plan.response, clamped(x as int, 0, 100));
        },
        CommandModel::SetDepth(x) => {
            reveal_strlit("ok:set:depth:");
            reveal_strlit("depth");
            assert("ok:set:depth:"@ =~= "ok:"@ + "set:"@ + "depth"@ + ":"@);
            lemma_reply_of_setting("depth"@, plan.response, clamped(x as int, 0, 100));
        },
        CommandModel::SetSensation(x) => {
            reveal_strlit("ok:set:sensation:");
            reveal_strlit("sensation");
            assert("ok:set:sensation:"@ =~= "ok:"@ + "set:"@ + "sensation"@ + ":"@);
            lemma_reply_of_setting("sensation"@, plan.response, clamped(x as int, 0, 100));
        },
        CommandModel::SetPattern(x) => {
            reveal_strlit("ok:set:pattern:");
            reveal_strlit("pattern");
            assert("ok:set:pattern:"@ =~= "ok:"@ + "set:"@ + "pattern"@ + ":"@);
            lemma_reply_of_setting("pattern"@, plan.response, clamped(x as int, 0, 6));
        },
        CommandModel::Unknown(_) => {},
    }
}

// ---------------------------------------------------------------------------
// Ranges
// ---------------------------------------------------------------------------

/// The configuration change stays within the motor's ranges: at most
/// 300 BPM, fractions and sharpness levels of at most 100 percent.
pub open spec fn update_in_range(u: ConfigUpdate) -> bool {
    &&& (u.bpm matches Some(b) ==> b <= 300)
    &&& (u.depth_percent matches Some(d) ==> d <= 100)
    &&& (u.paused_position_percent matches Some(d) ==> d <= 100)
    &&& (u.sharpness matches Some(Sharpness::Sensation(v)) ==> v <= 100)
    &&& (u.sharpness matches Some(Sharpness::Hundredths(v)) ==> v <= 100)
}

/// Whatever text a client writes, the change it makes to the motor
/// configuration stays within the motor's ranges.
pub proof fn law_updates_stay_in_range(s: Seq<char>, available: bool)
    ensures
        command_outcome(spec_parse(s), available) matches Ok(plan) ==> (plan.update matches Some(
            u,
        ) ==> update_in_range(u)),
{
}

// ---------------------------------------------------------------------------
// What each command does to the motor
// ---------------------------------------------------------------------------

/// `go:simplePenetration` and `go:strokeEngine` unpause the motor and touch
/// nothing else; `go:menu` pauses it and stops it (0 BPM). Without a
/// controller they change nothing and still succeed.
pub proof fn law_goto_modes(mode: Seq<char>, available: bool)
    requires
        mode == "simplePenetration"@ || mode == "strokeEngine"@ || mode == "menu"@,
    ensures
        goto_outcome(mode, available) matches Ok(plan) && {
            &&& plan.response == "ok:go:"@ + mode
            &&& !plan.fails_on_rejected_config
            &&& !available ==> plan.update is None
            &&& available && mode != "menu"@ ==> plan.update == Some(
                ConfigUpdate {
                    paused: Some(false),
                    bpm: None,
                    depth_percent: None,
                    depth_top: None,
                    paused_position_percent: None,
                    sharpness: None,
                    wave_func: None,
                },
            )
            &&& available && mode == "menu"@ ==> plan.update == Some(
                ConfigUpdate {
                    paused: Some(true),
                    bpm: Some(0),
                    depth_percent: None,
                    depth_top: None,
                    paused_position_percent: None,
                    sharpness: None,
                    wave_func: None,
                },
            )
        },
{
    reveal_strlit("simplePenetration");
    reveal_strlit("strokeEngine");
    reveal_strlit("menu");
    reveal_strlit("ok:go:");
    reveal_strlit("ok:go:menu");
    if mode == "menu"@ {
        assert("ok:go:menu"@ =~= "ok:go:"@ + mode);
    }
}

/// `set:speed:<x>` with a controller sets the speed to `3 * v` BPM, where
/// `v` is `x` brought into 0-100 and is what the reply reports. It unpauses
/// the motor exactly when `x > 0`, leaves the pause state alone for
/// `x <= 0`, and touches nothing else.
pub proof fn law_set_speed(x: i32)
    ensures
        command_outcome(CommandModel::SetSpeed(x), true) matches Ok(plan) && plan.update matches Some(u) && {
            let v = if x < 0 {
                0
            } else if x > 100 {
                100
            } else {
                x as int
            };
            &&& u.bpm == Some((3 * v) as u32)
            &&& 0 <= 3 * v <= 300
            &&& (x > 0 <==> u.paused == Some(false))
            &&& (x <= 0 <==> u.paused is None)
            &&& u.depth_percent is None
            &&& u.depth_top is None
            &&& u.paused_position_percent is None
            &&& u.sharpness is None
            &&& u.wave_func is None
            &&& plan.response == "ok:set:speed:"@ + nat_decimal(v as nat)
        },
{
}

/// `set:depth:<x>` with a controller sets the paused position to `v`
/// percent, where `v` is `x` brought into 0-100 and is what the reply
/// reports, and strokes from the top exactly when `v < 50`; it touches
/// nothing else.
pub proof fn law_set_depth(x: i32)
    ensures
        command_outcome(CommandModel::SetDepth(x), true) matches Ok(plan) && plan.update matches Some(u) && {
            let v = if x < 0 {
                0
            } else if x > 100 {
                100
            } else {
                x as int
            };
            &&& u.paused_position_percent == Some(v as u32)
            &&& (u.depth_top == Some(true) <==> x < 50)
            &&& (u.depth_top == Some(false) <==> x >= 50)
            &&& u.paused is None
            &&& u.bpm is None
            &&& u.depth_percent is None
            &&& u.sharpness is None
            &&& u.wave_func is None
            &&& plan.response == "ok:set:depth:"@ + nat_decimal(v as nat)
        },
{
}

/// `set:sensation:<x>` with a controller sets the sharpness of sensation
/// level `v`, where `v` is `x` brought into 0-100; the level set is the level
/// the reply reports, and nothing else is touched.
pub proof fn law_set_sensation(x: i32)
    ensures
        command_outcome(CommandModel::SetSensation(x), true) matches Ok(plan) && plan.update matches Some(u) && {
            &&& u.sharpness matches Some(Sharpness::Sensation(level)) && {
                &&& plan.response == "ok:set:sensation:"@ + nat_decimal(level as nat)
                &&& level <= 100
                &&& (0 <= x <= 100 ==> level == x)
                &&& (x < 0 ==> level == 0)
                &&& (x > 100 ==> level == 100)
            }
            &&& u.paused is None
            &&& u.bpm is None
            &&& u.depth_percent is None
            &&& u.depth_top is None
            &&& u.paused_position_percent is None
            &&& u.wave_func is None
        },
{
}

// ---------------------------------------------------------------------------
// What the state characteristic reports
// ---------------------------------------------------------------------------

/// The state that the state characteristic reports depends on the pause
/// state alone: `menu.idle` exactly when the motor is paused, otherwise
/// `simplePenetration.idle`, whatever its speed and stroke; `error.idle`
/// without a controller.
pub proof fn law_state_reflects_pause(snapshot: Option<MotorSnapshot>)
    ensures
        starts_with(
            spec_state_json(snapshot),
            match snapshot {
                Some(s) => if s.paused {
                    "{\"state\":\"menu.idle\",\"speed\":"@
                } else {
                    "{\"state\":\"simplePenetration.idle\",\"speed\":"@
                },
                None => "{\"state\":\"error.idle\",\"speed\":"@,
            },
        ),
{
    reveal_strlit("{\"state\":\"");
    reveal_strlit("\",\"speed\":");
    reveal_strlit("menu.idle");
    reveal_strlit("simplePenetration.idle");
    reveal_strlit("error.idle");
    reveal_strlit("{\"state\":\"menu.idle\",\"speed\":");
    reveal_strlit("{\"state\":\"simplePenetration.idle\",\"speed\":");
    reveal_strlit("{\"state\":\"error.idle\",\"speed\":");
    let state = match snapshot {
        Some(s) => if s.paused {
            "menu.idle"@
        } else {
            "simplePenetration.idle"@
        },
        None => "error.idle"@,
    };
    let head = "{\"state\":\""@ + state + "\",\"speed\":"@;
    let j = spec_state_json(snapshot);
    assert(j.take(head.len() as int) =~= head);
    match snapshot {
        Some(s) => if s.paused {
            assert(head =~= "{\"state\":\"menu.idle\",\"speed\":"@);
        } else {
            assert(head =~= "{\"state\":\"simplePenetration.idle\",\"speed\":"@);
        },
        None => {
            assert(head =~= "{\"state\":\"error.idle\",\"speed\":"@);
        },
    }
}

/// Any other mode is refused, and the refusal names the mode.
pub proof fn law_goto_unknown_mode(mode: Seq<char>, available: bool)
    requires
        mode != "simplePenetration"@,
        mode != "strokeEngine"@,
        mode != "menu"@,
    ensures
        goto_outcome(mode, available) == Err::<crate::commands::PlanModel, ErrorModel>(
            ErrorModel::UnknownMode(mode),
        ),
{
}

/// A setting needs a motor controller: without one every setting is refused
/// as unavailable, with one every setting succeeds and changes the
/// configuration.
pub proof fn law_settings_need_controller(cmd: CommandModel)
    requires
        cmd is SetSpeed || cmd is SetStroke || cmd is SetDepth || cmd is SetSensation
            || cmd is SetPattern,
    ensures
        command_outcome(cmd, false) == Err::<crate::commands::PlanModel, ErrorModel>(
            ErrorModel::ControllerUnavailable,
        ),
        command_outcome(cmd, true) matches Ok(plan) && plan.update is Some,
{
}

/// `set:stroke:<x>` with a controller sets the stroke depth to `v` percent,
/// where `v` is `x` brought into 0-100 and is what the reply reports; it
/// touches nothing else.
pub proof fn law_set_stroke(x: i32)
    ensures
        command_outcome(CommandModel::SetStroke(x), true) matches Ok(plan) && plan.update matches Some(u) && {
            let v = if x < 0 {
                0
            } else if x > 100 {
                100
            } else {
                x as int
            };
            &&& u.depth_percent == Some(v as u32)
            &&& u.paused is None
            &&& u.bpm is None
            &&& u.depth_top is None
            &&& u.paused_position_percent is None
            &&& u.sharpness is None
            &&& u.wave_func is None
            &&& !plan.fails_on_rejected_config
            &&& plan.response == "ok:set:stroke:"@ + nat_decimal(v as nat)
        },
{
}

/// `set:pattern:<x>` with a controller selects preset `p`, `x` brought into
/// 0-6, which the reply reports; it fails when the controller rejects the
/// change. Every preset sets the wave function, never touches the pause state
/// or the speed, and the presets are: 0 Simple Stroke (sine), 1 Teasing (sine,
/// depth 30 %), 2 Robotic (thrust, sharpness 0.1), 3 Half'n Half (thrust,
/// 0.5), 4 Deeper (sine, depth 100 %, stroking from below), 5 Stop'n Go
/// (thrust, 0.9), 6 Insist (thrust, 0.2, depth 80 %).
pub proof fn law_set_pattern(x: i32)
    ensures
        command_outcome(CommandModel::SetPattern(x), true) matches Ok(plan) && plan.update matches Some(u) && {
            let p = if x < 0 {
                0
            } else if x > 6 {
                6
            } else {
                x as int
            };
            &&& plan.fails_on_rejected_config
            &&& plan.response == "ok:set:pattern:"@ + seq![digit_char(p)]
            &&& u.paused is None
            &&& u.bpm is None
            &&& u.paused_position_percent is None
            &&& u.wave_func == Some(if p == 0 || p == 1 || p == 4 {
                WaveFunction::Sine
            } else {
                WaveFunction::Thrust
            })
            &&& u.depth_percent == (if p == 1 {
                Some(30u32)
            } else if p == 4 {
                Some(100u32)
            } else if p == 6 {
                Some(80u32)
            } else {
                None
            })
            &&& u.sharpness == (if p == 2 {
                Some(Sharpness::Hundredths(10))
            } else if p == 3 {
                Some(Sharpness::Hundredths(50))
            } else if p == 5 {
                Some(Sharpness::Hundredths(90))
            } else if p == 6 {
                Some(Sharpness::Hundredths(20))
            } else {
                None
            })
            &&& u.depth_top == (if p == 4 {
                Some(false)
            } else {
                None
            })
        },
{
}

/// The state characteristic reports, in this order, the state, the speed
/// and the stroke of the snapshot, then a sensation and depth of 50 and
/// pattern 0; without a controller every number is 0.
pub proof fn law_state_json_fields(snapshot: Option<MotorSnapshot>)
    ensures
        spec_state_json(snapshot) == match snapshot {
            Some(s) => "{\"state\":\""@ + (if s.paused {
                "menu.idle"@
            } else {
                "simplePenetration.idle"@
            }) + "\",\"speed\":"@ + int_decimal(s.speed as int) + ",\"stroke\":"@
                + int_decimal(s.stroke as int)
                + ",\"sensation\":50,\"depth\":50,\"pattern\":0}"@,
            None => "{\"state\":\"error.idle\",\"speed\":0,\"stroke\":0,\"sensation\":0,\"depth\":0,\"pattern\":0}"@,
        },
{
    reveal_strlit("{\"state\":\"");
    reveal_strlit("error.idle");
    reveal_strlit("\",\"speed\":");
    reveal_strlit(",\"stroke\":");
    reveal_strlit(",\"sensation\":");
    reveal_strlit(",\"depth\":");
    reveal_strlit(",\"pattern\":");
    reveal_strlit("}");
    reveal_strlit(",\"sensation\":50,\"depth\":50,\"pattern\":0}");
    reveal_strlit("{\"state\":\"error.idle\",\"speed\":0,\"stroke\":0,\"sensation\":0,\"depth\":0,\"pattern\":0}");
    assert(int_decimal(0) =~= seq!['0']);
    assert(int_decimal(50) =~= seq!['5', '0']) by {
        assert(nat_decimal(5) =~= seq!['5']);
    }
    match snapshot {
        Some(s) => {
            assert(spec_state_json(snapshot) =~= "{\"state\":\""@ + (if s.paused {
                "menu.idle"@
            } else {
                "simplePenetration.idle"@
            }) + "\",\"speed\":"@ + int_decimal(s.speed as int) + ",\"stroke\":"@
                + int_decimal(s.stroke as int)
                + ",\"sensation\":50,\"depth\":50,\"pattern\":0}"@);
        },
        None => {
            assert(spec_state_json(snapshot) =~= "{\"state\":\"error.idle\",\"speed\":0,\"stroke\":0,\"sensation\":0,\"depth\":0,\"pattern\":0}"@);
        },
    }
}

} // verus!
