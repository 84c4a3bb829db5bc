//! The commands written to the command characteristic ("go:<mode>" or
//! "set:<param>:<value>") and what each of them does to the motor
//! configuration.
use vstd::prelude::*;
use crate::text::{
    chars_of, colon_pos, find_colon, nat_decimal, parse_i32, parse_i32_range, push_nat_decimal,
    range_equals, starts_with, trim,
    trim_bounds,
};

verus! {

// ---------------------------------------------------------------------------
// Commands
// ---------------------------------------------------------------------------

/// Commands supported by the BLE interface.
#[derive(Debug, Clone)]
pub enum BleCommand {
    /// Go to a specific mode
    GoTo(String),
    /// Set speed (0-100)
    SetSpeed(i32),
    /// Set stroke (0-100)
    SetStroke(i32),
    /// Set depth (0-100)
    SetDepth(i32),
    /// Set sensation (0-100)
    SetSensation(i32),
    /// Set pattern index
    SetPattern(i32),
    /// Unknown/invalid command
    Unknown(String),
}

/// The mathematical value of a [`BleCommand`].
pub enum CommandModel {
    GoTo(Seq<char>),
    SetSpeed(i32),
    SetStroke(i32),
    SetDepth(i32),
    SetSensation(i32),
    SetPattern(i32),
    Unknown(Seq<char>),
}

impl View for BleCommand {
    type V = CommandModel;

    open spec fn view(&self) -> CommandModel {
        match self {
            BleCommand::GoTo(m) => CommandModel::GoTo(m@),
            BleCommand::SetSpeed(v) => CommandModel::SetSpeed(*v),
            BleCommand::SetStroke(v) => CommandModel::SetStroke(*v),
            BleCommand::SetDepth(v) => CommandModel::SetDepth(*v),
            BleCommand::SetSensation(v) => CommandModel::SetSensation(*v),
            BleCommand::SetPattern(v) => CommandModel::SetPattern(*v),
            BleCommand::Unknown(c) => CommandModel::Unknown(c@),
        }
    }
}

/// The `set:` command that `param` names, with value `v`; `Unknown(whole)`
/// where `param` names none.
pub open spec fn set_command(param: Seq<char>, v: i32, whole: Seq<char>) -> CommandModel {
    if param == "speed"@ {
        CommandModel::SetSpeed(v)
    } else if param == "stroke"@ {
        CommandModel::SetStroke(v)
    } else if param == "depth"@ {
        CommandModel::SetDepth(v)
    } else if param == "sensation"@ {
        CommandModel::SetSensation(v)
    } else if param == "pattern"@ {
        CommandModel::SetPattern(v)
    } else {
        CommandModel::Unknown(whole)
    }
}

/// The command that the text `s` denotes. Surrounding whitespace is ignored;
/// after `go:` comes the mode, after `set:` a parameter name, a `:` and an
/// `i32` in decimal. Any other text is an unknown command, which keeps the
/// trimmed text.
pub open spec fn spec_parse(s: Seq<char>) -> CommandModel {
    let t = trim(s);
    if starts_with(t, "go:"@) {
        CommandModel::GoTo(t.skip(3))
    } else if starts_with(t, "set:"@) {
        let rest = t.skip(4);
        let k = colon_pos(rest);
        if k < rest.len() {
            match parse_i32(rest.skip(k + 1int)) {
                Some(v) => set_command(rest.take(k as int), v, t),
                None => CommandModel::Unknown(t),
            }
        } else {
            CommandModel::Unknown(t)
        }
    } else {
        CommandModel::Unknown(t)
    }
}

fn string_of_range(s: &str, a: usize, b: usize) -> (r: String)
    requires
        a <= b <= s@.len(),
    ensures
        r@ == s@.subrange(a as int, b as int),
{
    String::from_str(s.substring_char(a, b))
}

impl BleCommand {
    /// Parse a command string into a BleCommand
    pub fn parse(cmd: &str) -> (r: BleCommand)
        ensures
            r@ == spec_parse(cmd@),
    {
        let v = chars_of(cmd);
        let (i, j) = trim_bounds(&v);
        let ghost t = v@.subrange(i as int, j as int);
        proof {
            reveal_strlit("go:");
            reveal_strlit("set:");
        }
        let is_go = j - i >= 3 && range_equals(&v, i, i + 3, "go:");
        assert(is_go == starts_with(t, "go:"@)) by {
            if j - i >= 3 {
                assert(t.take(3) =~= v@.subrange(i as int, i + 3));
            }
        }
        if is_go {
            assert(t.skip(3) =~= v@.subrange(i + 3, j as int));
            return BleCommand::GoTo(string_of_range(cmd, i + 3, j));
        }
        let is_set = j - i >= 4 && range_equals(&v, i, i + 4, "set:");
        assert(is_set == starts_with(t, "set:"@)) by {
            if j - i >= 4 {
                assert(t.take(4) =~= v@.subrange(i as int, i + 4));
            }
        }
        if is_set {
            let a = i + 4;
            let ghost rest = t.skip(4);
            assert(rest =~= v@.subrange(a as int, j as int));
            let k = find_colon(&v, a, j);
            if k < j - a {
                assert(rest.skip(k + 1) =~= v@.subrange(a + k + 1, j as int));
                assert(rest.take(k as int) =~= v@.subrange(a as int, a + k));
                if let Some(value) = parse_i32_range(&v, a + k + 1, j) {
                    if range_equals(&v, a, a + k, "speed") {
                        return BleCommand::SetSpeed(value);
                    } else if range_equals(&v, a, a + k, "stroke") {
                        return BleCommand::SetStroke(value);
                    } else if range_equals(&v, a, a + k, "depth") {
                        return BleCommand::SetDepth(value);
                    } else if range_equals(&v, a, a + k, "sensation") {
                        return BleCommand::SetSensation(value);
                    } else if range_equals(&v, a, a + k, "pattern") {
                        return BleCommand::SetPattern(value);
                    }
                }
            }
        }
        BleCommand::Unknown(string_of_range(cmd, i, j))
    }
}

// ---------------------------------------------------------------------------
// Configuration changes
// ---------------------------------------------------------------------------

/// The wave function that drives the stroke.
#[derive(Clone, Copy, Debug, PartialEq, Eq, Structural)]
pub enum WaveFunction {
    Sine,
    Thrust,
}

impl WaveFunction {
    /// The name under which the motor configuration stores the function.
    pub fn name(&self) -> (r: &'static str)
        ensures
            r@ == (match self {
                WaveFunction::Sine => "sine"@,
                WaveFunction::Thrust => "thrust"@,
            }),
    {
        match self {
            WaveFunction::Sine => "sine",
            WaveFunction::Thrust => "thrust",
        }
    }
}

/// A new stroke sharpness.
#[derive(Clone, Copy, Debug, PartialEq, Eq, Structural)]
pub enum Sharpness {
    /// The sharpness of sensation level `v` (0-100): `0.01 + v * 0.0098`.
    Sensation(u32),
    /// A sharpness of `n` hundredths.
    Hundredths(u32),
}

/// The fields of the motor configuration that a command writes; `None`
/// leaves a field as it is. Fractions of the configuration are given in
/// percent, and the speed in beats per minute.
#[derive(Clone, Copy, Debug, PartialEq, Eq, Structural)]
pub struct ConfigUpdate {
    pub paused: Option<bool>,
    pub bpm: Option<u32>,
    pub depth_percent: Option<u32>,
    pub depth_top: Option<bool>,
    pub paused_position_percent: Option<u32>,
    pub sharpness: Option<Sharpness>,
    pub wave_func: Option<WaveFunction>,
}

/// The update that writes nothing.
pub open spec fn no_change() -> ConfigUpdate {
    ConfigUpdate {
        paused: None,
        bpm: None,
        depth_percent: None,
        depth_top: None,
        paused_position_percent: None,
        sharpness: None,
        wave_func: None,
    }
}

impl ConfigUpdate {
    /// The update that writes nothing.
    pub fn unchanged() -> (r: ConfigUpdate)
        ensures
            r == no_change(),
    {
        ConfigUpdate {
            paused: None,
            bpm: None,
            depth_percent: None,
            depth_top: None,
            paused_position_percent: None,
            sharpness: None,
            wave_func: None,
        }
    }
}

/// Starting a stroking mode: unpause.
pub open spec fn resume_update() -> ConfigUpdate {
    ConfigUpdate { paused: Some(false), ..no_change() }
}

/// Returning to the menu: pause, with a speed of 0 BPM.
pub open spec fn menu_update() -> ConfigUpdate {
    ConfigUpdate { paused: Some(true), bpm: Some(0), ..no_change() }
}

/// Speed `v` (0-100) maps to `3 * v` BPM (0-300); a speed above 0 unpauses.
pub open spec fn speed_update(v: int) -> ConfigUpdate {
    ConfigUpdate {
        bpm: Some((3 * v) as u32),
        paused: if v > 0 {
            Some(false)
        } else {
            None
        },
        ..no_change()
    }
}

/// Stroke `v` (0-100) sets the stroke depth to `v` percent.
pub open spec fn stroke_update(v: int) -> ConfigUpdate {
    ConfigUpdate { depth_percent: Some(v as u32), ..no_change() }
}

/// Depth `v` (0-100) sets the paused position to `v` percent, and strokes
/// from the top when `v < 50`.
pub open spec fn depth_update(v: int) -> ConfigUpdate {
    ConfigUpdate {
        depth_top: Some(v < 50),
        paused_position_percent: Some(v as u32),
        ..no_change()
    }
}

/// Sensation `v` (0-100) sets the sharpness of that sensation level.
pub open spec fn sensation_update(v: int) -> ConfigUpdate {
    ConfigUpdate { sharpness: Some(Sharpness::Sensation(v as u32)), ..no_change() }
}

/// The preset pattern `p` (0-6): Simple Stroke, Teasing, Robotic,
/// Half'n Half, Deeper, Stop'n Go, Insist.
pub open spec fn pattern_update(p: int) -> ConfigUpdate {
    if p == 0 {
        ConfigUpdate { wave_func: Some(WaveFunction::Sine), ..no_change() }
    } else if p == 1 {
        ConfigUpdate { wave_func: Some(WaveFunction::Sine), depth_percent: Some(30), ..no_change() }
    } else if p == 2 {
        ConfigUpdate {
            wave_func: Some(WaveFunction::Thrust),
            sharpness: Some(Sharpness::Hundredths(10)),
            ..no_change()
        }
    } else if p == 3 {
        ConfigUpdate {
            wave_func: Some(WaveFunction::Thrust),
            sharpness: Some(Sharpness::Hundredths(50)),
            ..no_change()
        }
    } else if p == 4 {
        ConfigUpdate {
            wave_func: Some(WaveFunction::Sine),
            depth_percent: Some(100),
            depth_top: Some(false),
            ..no_change()
        }
    } else if p == 5 {
        ConfigUpdate {
            wave_func: Some(WaveFunction::Thrust),
            sharpness: Some(Sharpness::Hundredths(90)),
            ..no_change()
        }
    } else {
        ConfigUpdate {
            wave_func: Some(WaveFunction::Thrust),
            sharpness: Some(Sharpness::Hundredths(20)),
            depth_percent: Some(80),
            ..no_change()
        }
    }
}

// ---------------------------------------------------------------------------
// Outcomes
// ---------------------------------------------------------------------------

/// What a handled command asks of the motor controller, and the reply.
#[derive(Debug, Clone)]
pub struct CommandPlan {
    /// The change to apply to the controller's configuration; `None` where
    /// no controller is available and the command goes on without one.
    pub update: Option<ConfigUpdate>,
    /// The reply to the client.
    pub response: String,
    /// Whether the command fails when the controller rejects the new
    /// configuration (only a pattern change does).
    pub fails_on_rejected_config: bool,
}

/// The mathematical value of a [`CommandPlan`].
pub struct PlanModel {
    pub update: Option<ConfigUpdate>,
    pub response: Seq<char>,
    pub fails_on_rejected_config: bool,
}

impl View for CommandPlan {
    type V = PlanModel;

    open spec fn view(&self) -> PlanModel {
        PlanModel {
            update: self.update,
            response: self.response@,
            fails_on_rejected_config: self.fails_on_rejected_config,
        }
    }
}

/// Why a command was refused.
#[derive(Debug, Clone)]
pub enum BleError {
    /// The text is not a command; it holds the trimmed text.
    UnknownCommand(String),
    /// `go:` named a mode that does not exist.
    UnknownMode(String),
    /// A setting was sent while no motor controller is available.
    ControllerUnavailable,
}

/// The mathematical value of a [`BleError`].
pub enum ErrorModel {
    UnknownCommand(Seq<char>),
    UnknownMode(Seq<char>),
    ControllerUnavailable,
}

impl View for BleError {
    type V = ErrorModel;

    open spec fn view(&self) -> ErrorModel {
        match self {
            BleError::UnknownCommand(c) => ErrorModel::UnknownCommand(c@),
            BleError::UnknownMode(m) => ErrorModel::UnknownMode(m@),
            BleError::ControllerUnavailable => ErrorModel::ControllerUnavailable,
        }
    }
}

/// The text of an error, as it is reported.
pub open spec fn error_text(e: ErrorModel) -> Seq<char> {
    match e {
        ErrorModel::UnknownCommand(c) => "Unknown command: "@ + c,
        ErrorModel::UnknownMode(m) => "Unknown mode: "@ + m,
        ErrorModel::ControllerUnavailable => "Motor controller not available"@,
    }
}

impl BleError {
    /// The text of the error, as it is reported.
    pub fn message(&self) -> (r: String)
        ensures
            r@ == error_text(self@),
    {
        match self {
            BleError::UnknownCommand(c) => {
                let mut r = String::from_str("Unknown command: ");
                r.append(c.as_str());
                r
            },
            BleError::UnknownMode(m) => {
                let mut r = String::from_str("Unknown mode: ");
                r.append(m.as_str());
                r
            },
            BleError::ControllerUnavailable => String::from_str("Motor controller not available"),
        }
    }
}

/// The mathematical value of a handler's result.
pub open spec fn outcome(r: Result<CommandPlan, BleError>) -> Result<PlanModel, ErrorModel> {
    match r {
        Ok(p) => Ok(p@),
        Err(e) => Err(e@),
    }
}

/// `v` brought into `lo..=hi`.
pub open spec fn clamped(v: int, lo: int, hi: int) -> int {
    if v < lo {
        lo
    } else if v > hi {
        hi
    } else {
        v
    }
}

/// The outcome of `go:<mode>`.
pub open spec fn goto_outcome(mode: Seq<char>, available: bool) -> Result<PlanModel, ErrorModel> {
    if mode == "simplePenetration"@ || mode == "strokeEngine"@ {
        Ok(
            PlanModel {
                update: if available {
                    Some(resume_update())
                } else {
                    None
                },
                response: "ok:go:"@ + mode,
                fails_on_rejected_config: false,
            },
        )
    } else if mode == "menu"@ {
        Ok(
            PlanModel {
                update: if available {
                    Some(menu_update())
                } else {
                    None
                },
                response: "ok:go:menu"@,
                fails_on_rejected_config: false,
            },
        )
    } else {
        Err(ErrorModel::UnknownMode(mode))
    }
}

/// The outcome of a setting whose value, once clamped, is `v`: the reply is
/// `prefix` followed by `v`.
pub open spec fn set_outcome(
    prefix: Seq<char>,
    v: int,
    update: ConfigUpdate,
    available: bool,
    fails_on_rejected_config: bool,
) -> Result<PlanModel, ErrorModel> {
    if available {
        Ok(
            PlanModel {
                update: Some(update),
                response: prefix + nat_decimal(v as nat),
                fails_on_rejected_config,
            },
        )
    } else {
        Err(ErrorModel::ControllerUnavailable)
    }
}

/// The outcome of handling the command `cmd`, where `available` tells
/// whether a motor controller is available.
pub open spec fn command_outcome(cmd: CommandModel, available: bool) -> Result<PlanModel, ErrorModel> {
    match cmd {
        CommandModel::GoTo(mode) => goto_outcome(mode, available),
        CommandModel::SetSpeed(x) => {
            let v = clamped(x as int, 0, 100);
            set_outcome("ok:set:speed:"@, v, speed_update(v), available, false)
        },
        CommandModel::SetStroke(x) => {
            let v = clamped(x as int, 0, 100);
            set_outcome("ok:set:stroke:"@, v, stroke_update(v), available, false)
        },
        CommandModel::SetDepth(x) => {
            let v = clamped(x as int, 0, 100);
            set_outcome("ok:set:depth:"@, v, depth_update(v), available, false)
        },
        CommandModel::SetSensation(x) => {
            let v = clamped(x as int, 0, 100);
            set_outcome("ok:set:sensation:"@, v, sensation_update(v), available, false)
        },
        CommandModel::SetPattern(x) => {
            let p = clamped(x as int, 0, 6);
            set_outcome("ok:set:pattern:"@, p, pattern_update(p), available, true)
        },
        CommandModel::Unknown(t) => Err(ErrorModel::UnknownCommand(t)),
    }
}

// ---------------------------------------------------------------------------
// Handlers
// ---------------------------------------------------------------------------

/// Handle a BLE command: parse it and decide what it does. `available` tells
/// whether a motor controller is available.
pub fn handle_ble_command(cmd_str: &str, available: bool) -> (r: Result<CommandPlan, BleError>)
    ensures
        outcome(r) == command_outcome(spec_parse(cmd_str@), available),
{
    let command = BleCommand::parse(cmd_str);
    match command {
        BleCommand::GoTo(mode) => handle_goto(mode.as_str(), available),
        BleCommand::SetSpeed(value) => handle_set_speed(value, available),
        BleCommand::SetStroke(value) => handle_set_stroke(value, available),
        BleCommand::SetDepth(value) => handle_set_depth(value, available),
        BleCommand::SetSensation(value) => handle_set_sensation(value, available),
        BleCommand::SetPattern(value) => handle_set_pattern(value, available),
        BleCommand::Unknown(cmd) => Err(BleError::UnknownCommand(cmd)),
    }
}

/// Whether the whole of `s` spells `lit`.
fn str_is(s: &str, lit: &str) -> (r: bool)
    ensures
        r == (s@ == lit@),
{
    let v = chars_of(s);
    let n = v.len();
    assert(v@.subrange(0, n as int) =~= v@);
    range_equals(&v, 0, n, lit)
}

/// `go:<mode>`: start a stroking mode, or return to the menu.
pub fn handle_goto(mode: &str, available: bool) -> (r: Result<CommandPlan, BleError>)
    ensures
        outcome(r) == goto_outcome(mode@, available),
{
    if str_is(mode, "simplePenetration") || str_is(mode, "strokeEngine") {
        let update = if available {
            let mut u = ConfigUpdate::unchanged();
            u.paused = Some(false);
            Some(u)
        } else {
            None
        };
        let mut response = String::from_str("ok:go:");
        response.append(mode);
        Ok(CommandPlan { update, response, fails_on_rejected_config: false })
    } else if str_is(mode, "menu") {
        let update = if available {
            let mut u = ConfigUpdate::unchanged();
            u.paused = Some(true);
            u.bpm = Some(0);
            Some(u)
        } else {
            None
        };
        Ok(
            CommandPlan {
                update,
                response: String::from_str("ok:go:menu"),
                fails_on_rejected_config: false,
            },
        )
    } else {
        Err(BleError::UnknownMode(String::from_str(mode)))
    }
}

/// The reply `prefix` followed by the value `v`.
fn reply(prefix: &str, v: i32) -> (r: String)
    requires
        v >= 0,
    ensures
        r@ == prefix@ + nat_decimal(v as nat),
{
    let mut r = String::from_str(prefix);
    push_nat_decimal(&mut r, v as u32);
    r
}

/// `value` brought into `lo..=hi` (`i32::clamp`).
fn clamp_i32(value: i32, lo: i32, hi: i32) -> (r: i32)
    requires
        lo <= hi,
    ensures
        r == clamped(value as int, lo as int, hi as int),
{
    if value < lo {
        lo
    } else if value > hi {
        hi
    } else {
        value
    }
}

/// `set:speed:<v>`: speed `v` clamped to 0-100.
pub fn handle_set_speed(value: i32, available: bool) -> (r: Result<CommandPlan, BleError>)
    ensures
        outcome(r) == command_outcome(CommandModel::SetSpeed(value), available),
{
    let value = clamp_i32(value, 0, 100);
    if !available {
        return Err(BleError::ControllerUnavailable);
    }
    let mut u = ConfigUpdate::unchanged();
    u.bpm = Some((value * 3) as u32);
    if value > 0 {
        u.paused = Some(false);
    }
    Ok(
        CommandPlan {
            update: Some(u),
            response: reply("ok:set:speed:", value),
            fails_on_rejected_config: false,
        },
    )
}

/// `set:stroke:<v>`: stroke `v` clamped to 0-100.
pub fn handle_set_stroke(value: i32, available: bool) -> (r: Result<CommandPlan, BleError>)
    ensures
        outcome(r) == command_outcome(CommandModel::SetStroke(value), available),
{
    let value = clamp_i32(value, 0, 100);
    if !available {
        return Err(BleError::ControllerUnavailable);
    }
    let mut u = ConfigUpdate::unchanged();
    u.depth_percent = Some(value as u32);
    Ok(
        CommandPlan {
            update: Some(u),
            response: reply("ok:set:stroke:", value),
            fails_on_rejected_config: false,
        },
    )
}

/// `set:depth:<v>`: depth `v` clamped to 0-100.
pub fn handle_set_depth(value: i32, available: bool) -> (r: Result<CommandPlan, BleError>)
    ensures
        outcome(r) == command_outcome(CommandModel::SetDepth(value), available),
{
    let value = clamp_i32(value, 0, 100);
    if !available {
        return Err(BleError::ControllerUnavailable);
    }
    let mut u = ConfigUpdate::unchanged();
    u.depth_top = Some(value < 50);
    u.paused_position_percent = Some(value as u32);
    Ok(
        CommandPlan {
            update: Some(u),
            response: reply("ok:set:depth:", value),
            fails_on_rejected_config: false,
        },
    )
}

/// `set:sensation:<v>`: sensation `v` clamped to 0-100.
pub fn handle_set_sensation(value: i32, available: bool) -> (r: Result<CommandPlan, BleError>)
    ensures
        outcome(r) == command_outcome(CommandModel::SetSensation(value), available),
{
    let value = clamp_i32(value, 0, 100);
    if !available {
        return Err(BleError::ControllerUnavailable);
    }
    let mut u = ConfigUpdate::unchanged();
    u.sharpness = Some(Sharpness::Sensation(value as u32));
    Ok(
        CommandPlan {
            update: Some(u),
            response: reply("ok:set:sensation:", value),
            fails_on_rejected_config: false,
        },
    )
}

/// `set:pattern:<p>`: preset pattern `p` clamped to 0-6.
pub fn handle_set_pattern(value: i32, available: bool) -> (r: Result<CommandPlan, BleError>)
    ensures
        outcome(r) == command_outcome(CommandModel::SetPattern(value), available),
{
    let pattern_index = clamp_i32(value, 0, 6);
    if !available {
        return Err(BleError::ControllerUnavailable);
    }
    let mut u = ConfigUpdate::unchanged();
    match pattern_index {
        0 => {
            // Simple Stroke
            u.wave_func = Some(WaveFunction::Sine);
        },
        1 => {
            // Teasing
            u.wave_func = Some(WaveFunction::Sine);
            u.depth_percent = Some(30);
        },
        2 => {
            // Robotic
            u.wave_func = Some(WaveFunction::Thrust);
            u.sharpness = Some(Sharpness::Hundredths(10));
        },
        3 => {
            // Half'n Half
            u.wave_func = Some(WaveFunction::Thrust);
            u.sharpness = Some(Sharpness::Hundredths(50));
        },
        4 => {
            // Deeper
            u.wave_func = Some(WaveFunction::Sine);
            u.depth_percent = Some(100);
            u.depth_top = Some(false);
        },
        5 => {
            // Stop'n Go
            u.wave_func = Some(WaveFunction::Thrust);
            u.sharpness = Some(Sharpness::Hundredths(90));
        },
        _ => {
            // Insist
            u.wave_func = Some(WaveFunction::Thrust);
            u.sharpness = Some(Sharpness::Hundredths(20));
            u.depth_percent = Some(80);
        },
    }
    Ok(
        CommandPlan {
            update: Some(u),
            response: reply("ok:set:pattern:", pattern_index),
            fails_on_rejected_config: true,
        },
    )
}

} // verus!
