//! Types shared between the G-code executor and the machine: axis
//! selections, positioning modes, report texts and the mapping from a
//! parsed command to the handler that serves it.
use super::parser::GcodeCommand;
use crate::error::{AppError, AppResult};
use crate::text::{ascii_upper, dec_text, push_decimal, push_str};
use vstd::prelude::*;

verus! {

/// A subset of the X/Y/Z axes (`G28` homing, `M17`/`M18` motor power).
#[derive(Debug, Clone, Copy, PartialEq, Eq, Structural)]
pub struct AxisSelector {
    pub x: bool,
    pub y: bool,
    pub z: bool,
}

impl Default for AxisSelector {
    /// No axis selected.
    fn default() -> (s: Self)
        ensures
            s == (AxisSelector { x: false, y: false, z: false }),
    {
        AxisSelector { x: false, y: false, z: false }
    }
}

impl AxisSelector {
    /// All three axes.
    pub fn all() -> (s: Self)
        ensures
            s == (AxisSelector { x: true, y: true, z: true }),
    {
        AxisSelector { x: true, y: true, z: true }
    }

    /// `true` iff at least one axis is selected.
    pub fn any_selected(&self) -> (b: bool)
        ensures
            b == (self.x || self.y || self.z),
    {
        self.x || self.y || self.z
    }
}

/// Axes named by the parameter letters `X`, `Y`, `Z` of a command; a
/// command that names none of them selects all three (RepRap: a bare
/// `G28` homes every axis).
pub open spec fn axes_named(c: crate::gcode::parser::CommandParts) -> AxisSelector {
    let named = AxisSelector {
        x: c.2.contains_key('X'),
        y: c.2.contains_key('Y'),
        z: c.2.contains_key('Z'),
    };
    if named.x || named.y || named.z {
        named
    } else {
        AxisSelector { x: true, y: true, z: true }
    }
}

/// The axes a `G28`, `M17` or `M18` command applies to.
pub fn axis_selector_from_command(command: &GcodeCommand) -> (s: AxisSelector)
    ensures
        s == axes_named(command@),
{
    assert(ascii_upper('x') == 'X' && ascii_upper('X') == 'X');
    let selector = AxisSelector { x: command.has('X'), y: command.has('Y'), z: command.has('Z') };
    if selector.any_selected() {
        selector
    } else {
        AxisSelector::all()
    }
}

/// How coordinates of move commands are read.
#[derive(Debug, Clone, Copy, PartialEq, Eq, Structural)]
pub enum PositioningMode {
    /// `G90`: absolute coordinates.
    Absolute,
    /// `G91`: coordinates relative to the current position.
    Relative,
}

/// Firmware identification reported by `M115`.
#[derive(Debug, Clone, Copy, PartialEq, Eq)]
pub struct FirmwareInfo {
    pub firmware_name: &'static str,
    pub firmware_version: &'static str,
    pub kinematics_name: &'static str,
    pub extruder_count: u8,
}

/// Text of the `M115` report.
pub open spec fn firmware_report(info: FirmwareInfo) -> Seq<char> {
    "FIRMWARE_NAME:"@ + info.firmware_name@ + " FIRMWARE_VERSION:"@ + info.firmware_version@
        + " KINEMATICS:"@ + info.kinematics_name@ + " EXTRUDER_COUNT:"@ + dec_text(
        info.extruder_count as nat,
    )
}

impl FirmwareInfo {
    /// The `M115` report, in the spirit of Marlin/RepRap firmwares.
    pub fn to_report_string(&self) -> (s: String)
        ensures
            s@ == firmware_report(*self),
    {
        let mut s = String::new();
        push_str(&mut s, "FIRMWARE_NAME:");
        push_str(&mut s, self.firmware_name);
        push_str(&mut s, " FIRMWARE_VERSION:");
        push_str(&mut s, self.firmware_version);
        push_str(&mut s, " KINEMATICS:");
        push_str(&mut s, self.kinematics_name);
        push_str(&mut s, " EXTRUDER_COUNT:");
        push_decimal(&mut s, self.extruder_count as u64);
        s
    }
}

/// Endstop switch states reported by `M119`.
#[derive(Debug, Clone, Copy, PartialEq, Eq, Structural)]
pub struct EndstopStates {
    pub x_triggered: bool,
    pub y_triggered: bool,
    pub z_triggered: bool,
}

/// Word for one endstop in the `M119` report.
pub open spec fn triggered_text(triggered: bool) -> Seq<char> {
    if triggered {
        "TRIGGERED"@
    } else {
        "open"@
    }
}

/// `"TRIGGERED"` or `"open"`.
pub fn triggered_label(triggered: bool) -> (s: &'static str)
    ensures
        s@ == triggered_text(triggered),
{
    if triggered {
        "TRIGGERED"
    } else {
        "open"
    }
}

/// Text of the `M119` report.
pub open spec fn endstop_report(e: EndstopStates) -> Seq<char> {
    "x_min: "@ + triggered_text(e.x_triggered) + "\ny_min: "@ + triggered_text(e.y_triggered)
        + "\nz_min: "@ + triggered_text(e.z_triggered)
}

impl EndstopStates {
    /// The `M119` report, in the spirit of Marlin firmwares.
    pub fn to_report_string(&self) -> (s: String)
        ensures
            s@ == endstop_report(*self),
    {
        let mut s = String::new();
        push_str(&mut s, "x_min: ");
        push_str(&mut s, triggered_label(self.x_triggered));
        push_str(&mut s, "\ny_min: ");
        push_str(&mut s, triggered_label(self.y_triggered));
        push_str(&mut s, "\nz_min: ");
        push_str(&mut s, triggered_label(self.z_triggered));
        s
    }
}

/// The handler a supported command is served by.
#[derive(Debug, Clone, Copy, PartialEq, Eq, Structural)]
pub enum CommandKind {
    /// `G0`, `G1`.
    LinearMove,
    /// `G4`.
    Dwell,
    /// `G28`.
    Home,
    /// `G90`.
    AbsolutePositioning,
    /// `G91`.
    RelativePositioning,
    /// `G92`.
    SetPosition,
    /// `M17`.
    EnableMotors,
    /// `M18`.
    DisableMotors,
    /// `M104`.
    SetHotendTemperature,
    /// `M105`.
    ReportTemperatures,
    /// `M106`.
    SetFanSpeed,
    /// `M107`.
    FanOff,
    /// `M109`.
    SetHotendTemperatureAndWait,
    /// `M140`.
    SetBedTemperature,
    /// `M190`.
    SetBedTemperatureAndWait,
    /// `M114`.
    ReportPosition,
    /// `M115`.
    ReportFirmwareInfo,
    /// `M119`.
    ReportEndstops,
    /// `M500`.
    SaveSettings,
    /// `M501`.
    LoadSettings,
}

/// The handler of `letter`+`code`, if the firmware supports the command.
pub open spec fn command_kind(letter: char, code: u32) -> Option<CommandKind> {
    if letter == 'G' {
        if code == 0 || code == 1 {
            Some(CommandKind::LinearMove)
        } else if code == 4 {
            Some(CommandKind::Dwell)
        } else if code == 28 {
            Some(CommandKind::Home)
        } else if code == 90 {
            Some(CommandKind::AbsolutePositioning)
        } else if code == 91 {
            Some(CommandKind::RelativePositioning)
        } else if code == 92 {
            Some(CommandKind::SetPosition)
        } else {
            None
        }
    } else if letter == 'M' {
        if code == 17 {
            Some(CommandKind::EnableMotors)
        } else if code == 18 {
            Some(CommandKind::DisableMotors)
        } else if code == 104 {
            Some(CommandKind::SetHotendTemperature)
        } else if code == 105 {
            Some(CommandKind::ReportTemperatures)
        } else if code == 106 {
            Some(CommandKind::SetFanSpeed)
        } else if code == 107 {
            Some(CommandKind::FanOff)
        } else if code == 109 {
            Some(CommandKind::SetHotendTemperatureAndWait)
        } else if code == 140 {
            Some(CommandKind::SetBedTemperature)
        } else if code == 190 {
            Some(CommandKind::SetBedTemperatureAndWait)
        } else if code == 114 {
            Some(CommandKind::ReportPosition)
        } else if code == 115 {
            Some(CommandKind::ReportFirmwareInfo)
        } else if code == 119 {
            Some(CommandKind::ReportEndstops)
        } else if code == 500 {
            Some(CommandKind::SaveSettings)
        } else if code == 501 {
            Some(CommandKind::LoadSettings)
        } else {
            None
        }
    } else {
        None
    }
}

/// Command law: `G0` (travel) and `G1` (feed) are both served as linear
/// moves, and no other command is; only `G` and `M` commands are served;
/// every command of the supported set is served by the handler its name
/// gives.
pub proof fn lemma_supported_commands(letter: char, code: u32)
    ensures
        command_kind(letter, code) == Some(CommandKind::LinearMove) <==> letter == 'G' && (code == 0
            || code == 1),
        command_kind(letter, code) is Some ==> letter == 'G' || letter == 'M',
        command_kind('G', 0) == command_kind('G', 1),
        command_kind('G', 4) == Some(CommandKind::Dwell),
        command_kind('G', 28) == Some(CommandKind::Home),
        command_kind('G', 90) == Some(CommandKind::AbsolutePositioning),
        command_kind('G', 91) == Some(CommandKind::RelativePositioning),
        command_kind('G', 92) == Some(CommandKind::SetPosition),
        command_kind('M', 17) == Some(CommandKind::EnableMotors),
        command_kind('M', 18) == Some(CommandKind::DisableMotors),
        command_kind('M', 104) == Some(CommandKind::SetHotendTemperature),
        command_kind('M', 105) == Some(CommandKind::ReportTemperatures),
        command_kind('M', 106) == Some(CommandKind::SetFanSpeed),
        command_kind('M', 107) == Some(CommandKind::FanOff),
        command_kind('M', 109) == Some(CommandKind::SetHotendTemperatureAndWait),
        command_kind('M', 114) == Some(CommandKind::ReportPosition),
        command_kind('M', 115) == Some(CommandKind::ReportFirmwareInfo),
        command_kind('M', 119) == Some(CommandKind::ReportEndstops),
        command_kind('M', 140) == Some(CommandKind::SetBedTemperature),
        command_kind('M', 190) == Some(CommandKind::SetBedTemperatureAndWait),
        command_kind('M', 500) == Some(CommandKind::SaveSettings),
        command_kind('M', 501) == Some(CommandKind::LoadSettings),
{
}

/// Reason of an unsupported command.
pub open spec fn unsupported_reason(letter: char, code: u32) -> Seq<char> {
    "неподдерживаемая команда "@.push(letter) + dec_text(code as nat)
}

/// Selects the handler of a parsed command; an unsupported command is a
/// G-code error on the command's line number (`0` without one).
pub fn classify_command(command: &GcodeCommand) -> (r: AppResult<CommandKind>)
    ensures
        command_kind(command.letter, command.code) matches Some(k) ==> (r matches Ok(kind) && kind
            == k),
        command_kind(command.letter, command.code) is None ==> (r matches Err(
            AppError::GCode { line, reason },
        ) && line == (match command.line_number {
            Some(n) => n,
            None => 0,
        }) && reason@ == unsupported_reason(command.letter, command.code)),
{
    let kind = match (command.letter, command.code) {
        ('G', 0) | ('G', 1) => Some(CommandKind::LinearMove),
        ('G', 4) => Some(CommandKind::Dwell),
        ('G', 28) => Some(CommandKind::Home),
        ('G', 90) => Some(CommandKind::AbsolutePositioning),
        ('G', 91) => Some(CommandKind::RelativePositioning),
        ('G', 92) => Some(CommandKind::SetPosition),
        ('M', 17) => Some(CommandKind::EnableMotors),
        ('M', 18) => Some(CommandKind::DisableMotors),
        ('M', 104) => Some(CommandKind::SetHotendTemperature),
        ('M', 105) => Some(CommandKind::ReportTemperatures),
        ('M', 106) => Some(CommandKind::SetFanSpeed),
        ('M', 107) => Some(CommandKind::FanOff),
        ('M', 109) => Some(CommandKind::SetHotendTemperatureAndWait),
        ('M', 140) => Some(CommandKind::SetBedTemperature),
        ('M', 190) => Some(CommandKind::SetBedTemperatureAndWait),
        ('M', 114) => Some(CommandKind::ReportPosition),
        ('M', 115) => Some(CommandKind::ReportFirmwareInfo),
        ('M', 119) => Some(CommandKind::ReportEndstops),
        ('M', 500) => Some(CommandKind::SaveSettings),
        ('M', 501) => Some(CommandKind::LoadSettings),
        _ => None,
    };
    match kind {
        Some(k) => Ok(k),
        None => {
            let mut reason = String::new();
            push_str(&mut reason, "неподдерживаемая команда ");
            reason.push(command.letter);
            push_decimal(&mut reason, command.code as u64);
            let line = match command.line_number {
                Some(n) => n,
                None => 0,
            };
            Err(AppError::GCode { line, reason })
        },
    }
}

} // verus!
