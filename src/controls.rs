//! The controls updates behind the client's operations: the requested
//! values are checked first, then written over a fresh status snapshot,
//! whose revision the update echoes back.
use vstd::prelude::*;

use crate::model::{mode_code, period_text, text_of, HeatingSchedule, OperatingMode};
use crate::stove::{StoveControls, StoveControlsParams, StoveStatus};
use crate::text::{decimal, decimal_text};

verus! {

/// Why a requested control value was refused.
#[derive(Clone, Copy, Debug, PartialEq, Eq, Structural)]
pub enum ControlError {
    HeatingPowerOutOfRange(u8),
    IdleTemperatureOutOfRange(u8),
    TargetTemperatureOutOfRange(u8),
    TargetNotAboveIdle,
    FrostProtectionTemperatureOutOfRange(u8),
}

impl ControlError {
    /// The text that explains this error.
    pub open spec fn message_spec(self) -> Seq<char> {
        match self {
            ControlError::HeatingPowerOutOfRange(p) => "Heating power must be 0 <= power <= 100 but it was "@
                + decimal(p as nat),
            ControlError::IdleTemperatureOutOfRange(t) => "Idle temperature must be 12 <= temp <= 20°C but it was "@
                + decimal(t as nat),
            ControlError::TargetTemperatureOutOfRange(t) => "Target temperature must be 14 <= temp <= 28°C but it was "@
                + decimal(t as nat),
            ControlError::TargetNotAboveIdle => "Target temperature must be greater than idle temperature"@,
            ControlError::FrostProtectionTemperatureOutOfRange(t) => "Frost protection temperature must be 4 <= temp <= 10°C but it was "@
                + decimal(t as nat),
        }
    }

    /// The text that explains this error.
    pub fn message(&self) -> (r: String)
        ensures
            r@ == self.message_spec(),
    {
        match self {
            ControlError::HeatingPowerOutOfRange(p) => {
                let value = decimal_text(*p as u32);
                "Heating power must be 0 <= power <= 100 but it was ".to_owned().concat(
                    value.as_str(),
                )
            },
            ControlError::IdleTemperatureOutOfRange(t) => {
                let value = decimal_text(*t as u32);
                "Idle temperature must be 12 <= temp <= 20°C but it was ".to_owned().concat(
                    value.as_str(),
                )
            },
            ControlError::TargetTemperatureOutOfRange(t) => {
                let value = decimal_text(*t as u32);
                "Target temperature must be 14 <= temp <= 28°C but it was ".to_owned().concat(
                    value.as_str(),
                )
            },
            ControlError::TargetNotAboveIdle => {
                "Target temperature must be greater than idle temperature".to_owned()
            },
            ControlError::FrostProtectionTemperatureOutOfRange(t) => {
                let value = decimal_text(*t as u32);
                "Frost protection temperature must be 4 <= temp <= 10°C but it was ".to_owned().concat(
                    value.as_str(),
                )
            },
        }
    }
}

/// A heating power, in percent, that manual and automatic modes accept.
pub open spec fn valid_heating_power(power: u8) -> bool {
    power <= 99
}

/// The error that comfort temperatures `idle` and `target` are refused
/// with, if any: idle within 12..=20, target within 14..=28, and target
/// above idle.
pub open spec fn comfort_error(idle: u8, target: u8) -> Option<ControlError> {
    if !(12 <= idle <= 20) {
        Some(ControlError::IdleTemperatureOutOfRange(idle))
    } else if !(14 <= target <= 28) {
        Some(ControlError::TargetTemperatureOutOfRange(target))
    } else if idle >= target {
        Some(ControlError::TargetNotAboveIdle)
    } else {
        None
    }
}

/// A frost-protection temperature that the stove accepts.
pub open spec fn valid_frost_protection_temperature(temperature: u8) -> bool {
    4 <= temperature <= 10
}

/// The update that sets a stove's controls to `controls`, based on the
/// snapshot `status`.
pub open spec fn update_of(status: StoveStatus, controls: StoveControls) -> StoveControlsParams {
    StoveControlsParams {
        stove_id: status.stove_id,
        revision: Some(status.last_confirmed_revision),
        controls,
    }
}

/// Checks a heating power for manual or automatic mode.
pub fn check_heating_power(power: u8) -> (r: Result<(), ControlError>)
    ensures
        r is Ok <==> valid_heating_power(power),
        r is Err ==> r == Err::<(), ControlError>(ControlError::HeatingPowerOutOfRange(power)),
{
    if power <= 99 {
        Ok(())
    } else {
        Err(ControlError::HeatingPowerOutOfRange(power))
    }
}

/// Checks the idle and target temperatures of comfort mode, idle first.
pub fn check_comfort_temperatures(idle: u8, target: u8) -> (r: Result<(), ControlError>)
    ensures
        match comfort_error(idle, target) {
            None => r is Ok,
            Some(e) => r == Err::<(), ControlError>(e),
        },
{
    if !(12 <= idle && idle <= 20) {
        return Err(ControlError::IdleTemperatureOutOfRange(idle));
    }
    if !(14 <= target && target <= 28) {
        return Err(ControlError::TargetTemperatureOutOfRange(target));
    }
    if idle >= target {
        return Err(ControlError::TargetNotAboveIdle);
    }
    Ok(())
}

/// Checks a frost-protection temperature.
pub fn check_frost_protection_temperature(temperature: u8) -> (r: Result<(), ControlError>)
    ensures
        r is Ok <==> valid_frost_protection_temperature(temperature),
        r is Err ==> r == Err::<(), ControlError>(
            ControlError::FrostProtectionTemperatureOutOfRange(temperature),
        ),
{
    if 4 <= temperature && temperature <= 10 {
        Ok(())
    } else {
        Err(ControlError::FrostProtectionTemperatureOutOfRange(temperature))
    }
}

/// The update that puts back `controls`, a copy taken earlier, over the
/// snapshot `status`.
pub fn restore_controls(status: StoveStatus, controls: StoveControls) -> (r: StoveControlsParams)
    ensures
        r == update_of(status, controls),
{
    StoveControlsParams {
        stove_id: status.stove_id,
        revision: Some(status.last_confirmed_revision),
        controls,
    }
}

/// The update that turns the stove on.
pub fn turn_on(status: StoveStatus) -> (r: StoveControlsParams)
    ensures
        r == update_of(status, StoveControls { on_off: Some(true), ..status.controls }),
{
    let mut params = status.into_stove_controls();
    params.controls.on_off = Some(true);
    params
}

/// The update that turns the stove off.
pub fn turn_off(status: StoveStatus) -> (r: StoveControlsParams)
    ensures
        r == update_of(status, StoveControls { on_off: Some(false), ..status.controls }),
{
    let mut params = status.into_stove_controls();
    params.controls.on_off = Some(false);
    params
}

/// The update that sets mode `mode` with heating power `power`.
fn set_mode_with_power(status: StoveStatus, mode: OperatingMode, power: u8) -> (r:
    StoveControlsParams)
    ensures
        r == update_of(
            status,
            StoveControls {
                operating_mode: Some(mode_code(mode) as i32),
                heating_power: Some(power as i32),
                ..status.controls
            },
        ),
{
    let mut params = status.into_stove_controls();
    params.controls.operating_mode = Some(mode.code() as i32);
    params.controls.heating_power = Some(power as i32);
    params
}

/// The update that sets manual mode with heating power `power`, in percent.
pub fn set_manual_mode(status: StoveStatus, power: u8) -> (r: StoveControlsParams)
    requires
        valid_heating_power(power),
    ensures
        r == update_of(
            status,
            StoveControls {
                operating_mode: Some(mode_code(OperatingMode::Manual) as i32),
                heating_power: Some(power as i32),
                ..status.controls
            },
        ),
{
    set_mode_with_power(status, OperatingMode::Manual, power)
}

/// The update that sets automatic mode with heating power `power`, in
/// percent.
pub fn set_auto_mode(status: StoveStatus, power: u8) -> (r: StoveControlsParams)
    requires
        valid_heating_power(power),
    ensures
        r == update_of(
            status,
            StoveControls {
                operating_mode: Some(mode_code(OperatingMode::Auto) as i32),
                heating_power: Some(power as i32),
                ..status.controls
            },
        ),
{
    set_mode_with_power(status, OperatingMode::Auto, power)
}

/// The update that sets comfort mode, keeping the room at `target` degrees
/// and letting it cool to `idle` degrees between heating.
pub fn set_comfort_mode(status: StoveStatus, idle: u8, target: u8) -> (r: StoveControlsParams)
    requires
        comfort_error(idle, target) is None,
    ensures
        r == update_of(
            status,
            StoveControls {
                operating_mode: Some(mode_code(OperatingMode::Comfort) as i32),
                target_temperature: r.controls.target_temperature,
                set_back_temperature: r.controls.set_back_temperature,
                ..status.controls
            },
        ),
        text_of(r.controls.target_temperature) == Some(decimal(target as nat)),
        text_of(r.controls.set_back_temperature) == Some(decimal(idle as nat)),
{
    let mut params = status.into_stove_controls();
    params.controls.operating_mode = Some(OperatingMode::Comfort.code() as i32);
    params.controls.target_temperature = Some(decimal_text(target as u32));
    params.controls.set_back_temperature = Some(decimal_text(idle as u32));
    params
}

/// The update that turns frost protection on at `temperature` degrees.
pub fn enable_frost_protection(status: StoveStatus, temperature: u8) -> (r: StoveControlsParams)
    requires
        valid_frost_protection_temperature(temperature),
    ensures
        r == update_of(
            status,
            StoveControls {
                frost_protection_active: Some(true),
                frost_protection_temperature: r.controls.frost_protection_temperature,
                ..status.controls
            },
        ),
        text_of(r.controls.frost_protection_temperature) == Some(decimal(temperature as nat)),
{
    let mut params = status.into_stove_controls();
    params.controls.frost_protection_active = Some(true);
    params.controls.frost_protection_temperature = Some(decimal_text(temperature as u32));
    params
}

/// The update that turns frost protection off.
pub fn disable_frost_protection(status: StoveStatus) -> (r: StoveControlsParams)
    ensures
        r == update_of(
            status,
            StoveControls { frost_protection_active: Some(false), ..status.controls },
        ),
{
    let mut params = status.into_stove_controls();
    params.controls.frost_protection_active = Some(false);
    params
}

/// Whether the heating-time controls `c` hold the wire forms of `s`, each
/// day in its own fields.
pub open spec fn schedule_written_to(c: StoveControls, s: HeatingSchedule) -> bool {
    &&& text_of(c.heating_time_mon1) == Some(period_text(s.monday.first@))
    &&& text_of(c.heating_time_mon2) == Some(period_text(s.monday.second@))
    &&& text_of(c.heating_time_tue1) == Some(period_text(s.tuesday.first@))
    &&& text_of(c.heating_time_tue2) == Some(period_text(s.tuesday.second@))
    &&& text_of(c.heating_time_wed1) == Some(period_text(s.wednesday.first@))
    &&& text_of(c.heating_time_wed2) == Some(period_text(s.wednesday.second@))
    &&& text_of(c.heating_time_thu1) == Some(period_text(s.thursday.first@))
    &&& text_of(c.heating_time_thu2) == Some(period_text(s.thursday.second@))
    &&& text_of(c.heating_time_fri1) == Some(period_text(s.friday.first@))
    &&& text_of(c.heating_time_fri2) == Some(period_text(s.friday.second@))
    &&& text_of(c.heating_time_sat1) == Some(period_text(s.saturday.first@))
    &&& text_of(c.heating_time_sat2) == Some(period_text(s.saturday.second@))
    &&& text_of(c.heating_time_sun1) == Some(period_text(s.sunday.first@))
    &&& text_of(c.heating_time_sun2) == Some(period_text(s.sunday.second@))
}

/// The update that turns the weekly heating schedule on, as `schedule`.
pub fn enable_schedule(status: StoveStatus, schedule: HeatingSchedule) -> (r: StoveControlsParams)
    ensures
        r == update_of(
            status,
            StoveControls {
                heating_times_active_for_comfort: Some(true),
                heating_time_mon1: r.controls.heating_time_mon1,
                heating_time_mon2: r.controls.heating_time_mon2,
                heating_time_tue1: r.controls.heating_time_tue1,
                heating_time_tue2: r.controls.heating_time_tue2,
                heating_time_wed1: r.controls.heating_time_wed1,
                heating_time_wed2: r.controls.heating_time_wed2,
                heating_time_thu1: r.controls.heating_time_thu1,
                heating_time_thu2: r.controls.heating_time_thu2,
                heating_time_fri1: r.controls.heating_time_fri1,
                heating_time_fri2: r.controls.heating_time_fri2,
                heating_time_sat1: r.controls.heating_time_sat1,
                heating_time_sat2: r.controls.heating_time_sat2,
                heating_time_sun1: r.controls.heating_time_sun1,
                heating_time_sun2: r.controls.heating_time_sun2,
                ..status.controls
            },
        ),
        schedule_written_to(r.controls, schedule),
{
    let mut params = status.into_stove_controls();
    params.controls.heating_times_active_for_comfort = Some(true);
    params.controls.heating_time_mon1 = Some(schedule.monday.first.encode());
    params.controls.heating_time_mon2 = Some(schedule.monday.second.encode());
    params.controls.heating_time_tue1 = Some(schedule.tuesday.first.encode());
    params.controls.heating_time_tue2 = Some(schedule.tuesday.second.encode());
    params.controls.heating_time_wed1 = Some(schedule.wednesday.first.encode());
    params.controls.heating_time_wed2 = Some(schedule.wednesday.second.encode());
    params.controls.heating_time_thu1 = Some(schedule.thursday.first.encode());
    params.controls.heating_time_thu2 = Some(schedule.thursday.second.encode());
    params.controls.heating_time_fri1 = Some(schedule.friday.first.encode());
    params.controls.heating_time_fri2 = Some(schedule.friday.second.encode());
    params.controls.heating_time_sat1 = Some(schedule.saturday.first.encode());
    params.controls.heating_time_sat2 = Some(schedule.saturday.second.encode());
    params.controls.heating_time_sun1 = Some(schedule.sunday.first.encode());
    params.controls.heating_time_sun2 = Some(schedule.sunday.second.encode());
    params
}

} // verus!
