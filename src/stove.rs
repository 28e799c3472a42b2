//! A stove's status snapshot as the portal reports it, the controls payload
//! sent back to it, and what the library derives from a snapshot.
use vstd::prelude::*;

use crate::model::{
    period_or_midnight, read_daily, text_of, HeatingSchedule, StatusDetail,
};
use crate::text::{parse_i32, parse_i32_spec, same_text};

verus! {

/// The operating-mode number of comfort mode with baking.
pub const COMFORT_BAKE_MODE: i32 = 3;

/// The bake temperature that the portal reports when none is set.
pub const UNSET_BAKE_TEMPERATURE: &'static str = "1024";

/// The controls of a stove, each as the portal last reported it, if it did.
#[derive(Clone, Debug, Default)]
pub struct StoveControls {
    pub on_off: Option<bool>,
    pub operating_mode: Option<i32>,
    pub heating_power: Option<i32>,
    pub room_power_request: Option<i32>,
    pub target_temperature: Option<String>,
    pub set_back_temperature: Option<String>,
    pub bake_temperature: Option<String>,
    pub temperature_offset: Option<String>,
    pub heating_times_active_for_comfort: Option<bool>,
    pub heating_time_mon1: Option<String>,
    pub heating_time_mon2: Option<String>,
    pub heating_time_tue1: Option<String>,
    pub heating_time_tue2: Option<String>,
    pub heating_time_wed1: Option<String>,
    pub heating_time_wed2: Option<String>,
    pub heating_time_thu1: Option<String>,
    pub heating_time_thu2: Option<String>,
    pub heating_time_fri1: Option<String>,
    pub heating_time_fri2: Option<String>,
    pub heating_time_sat1: Option<String>,
    pub heating_time_sat2: Option<String>,
    pub heating_time_sun1: Option<String>,
    pub heating_time_sun2: Option<String>,
    pub frost_protection_active: Option<bool>,
    pub frost_protection_temperature: Option<String>,
    pub convection_fan1_active: Option<bool>,
    pub convection_fan1_level: Option<i32>,
    pub convection_fan1_area: Option<i32>,
    pub convection_fan2_active: Option<bool>,
    pub convection_fan2_level: Option<i32>,
    pub convection_fan2_area: Option<i32>,
    pub eco_mode: Option<bool>,
    pub debug0: Option<i32>,
    pub debug1: Option<i32>,
    pub debug2: Option<i32>,
    pub debug3: Option<i32>,
    pub debug4: Option<i32>,
}

/// The sensor readings of a stove.
#[derive(Clone, Debug, Default)]
pub struct StoveSensors {
    pub status_main_state: i32,
    pub status_sub_state: i32,
    pub status_frost_started: bool,
    pub input_room_temperature: String,
    pub input_bake_temperature: String,
}

/// A status snapshot of one stove.
#[derive(Clone, Debug, Default)]
pub struct StoveStatus {
    pub stove_id: String,
    pub name: String,
    pub oem: String,
    /// The revision that a controls update must echo back.
    pub last_confirmed_revision: i64,
    pub controls: StoveControls,
    pub sensors: StoveSensors,
}

/// The body of a controls update: every control, and the revision of the
/// snapshot it was based on.
#[derive(Clone, Debug, Default)]
pub struct StoveControlsParams {
    pub stove_id: String,
    pub revision: Option<i64>,
    pub controls: StoveControls,
}

/// The label of a stove's state, from the frost-protection flag, the main
/// and sub state codes, whether bake mode is on and whether the sensed bake
/// temperature is within ten degrees of the commanded one.
pub open spec fn status_detail(
    frost_started: bool,
    main_state: i32,
    sub_state: i32,
    bake_mode: bool,
    bake_temperature_reached: bool,
) -> StatusDetail {
    if frost_started {
        StatusDetail::FrostProtection
    } else if main_state == 1 {
        if sub_state == 0 {
            StatusDetail::Off
        } else if sub_state == 1 || sub_state == 3 {
            StatusDetail::Standby
        } else if sub_state == 2 {
            StatusDetail::ExternalRequest
        } else {
            StatusDetail::Unknown
        }
    } else if main_state == 2 {
        StatusDetail::Ignition
    } else if main_state == 3 {
        StatusDetail::Startup
    } else if main_state == 4 {
        if bake_mode && bake_temperature_reached {
            StatusDetail::Baking
        } else if bake_mode {
            StatusDetail::HeatingUp
        } else {
            StatusDetail::Running
        }
    } else if main_state == 5 {
        if sub_state == 3 || sub_state == 4 {
            StatusDetail::DeepCleaning
        } else {
            StatusDetail::Cleaning
        }
    } else if main_state == 6 {
        StatusDetail::BurnOff
    } else if main_state == 11 || main_state == 13 || main_state == 14 || main_state == 16
        || main_state == 17 || main_state == 50 {
        StatusDetail::SplitLogCheck
    } else if main_state == 20 || main_state == 21 {
        StatusDetail::SplitLogMode
    } else {
        StatusDetail::Unknown
    }
}

/// The text of an optional string, empty when absent.
pub open spec fn text_or_empty(s: Option<String>) -> Seq<char> {
    match s {
        Some(t) => t@,
        None => Seq::empty(),
    }
}

/// Bake mode is on: comfort-bake mode, with neither the commanded nor the
/// sensed bake temperature unset.
pub open spec fn bake_mode_spec(status: StoveStatus) -> bool {
    &&& status.controls.operating_mode.unwrap_or(0) == COMFORT_BAKE_MODE
    &&& text_or_empty(status.controls.bake_temperature) != UNSET_BAKE_TEMPERATURE@
    &&& status.sensors.input_bake_temperature@ != UNSET_BAKE_TEMPERATURE@
}

/// Both bake temperatures read as integers, less than ten degrees apart.
pub open spec fn bake_temperature_reached_spec(status: StoveStatus) -> bool {
    let sensed = parse_i32_spec(status.sensors.input_bake_temperature@);
    let commanded = parse_i32_spec(text_or_empty(status.controls.bake_temperature));
    &&& sensed is Some
    &&& commanded is Some
    &&& -10 < sensed->0 - commanded->0 < 10
}

/// The label that a snapshot's fields give.
pub open spec fn status_detail_of(status: StoveStatus) -> StatusDetail {
    status_detail(
        status.sensors.status_frost_started,
        status.sensors.status_main_state,
        status.sensors.status_sub_state,
        bake_mode_spec(status),
        bake_temperature_reached_spec(status),
    )
}

/// A snapshot whose frost-protection flag is set is labelled frost
/// protection, whatever its other fields hold.
pub proof fn lemma_frost_protection_overrides(status: StoveStatus)
    requires
        status.sensors.status_frost_started,
    ensures
        status_detail_of(status) == StatusDetail::FrostProtection,
{
}

/// The weekly schedule as a snapshot's controls give it. The portal's
/// Tuesday fields are read into Thursday, and its Thursday fields into
/// Tuesday.
pub open spec fn schedule_read_from(s: HeatingSchedule, c: StoveControls) -> bool {
    &&& s.monday.first@ == period_or_midnight(text_of(c.heating_time_mon1))
    &&& s.monday.second@ == period_or_midnight(text_of(c.heating_time_mon2))
    &&& s.tuesday.first@ == period_or_midnight(text_of(c.heating_time_thu1))
    &&& s.tuesday.second@ == period_or_midnight(text_of(c.heating_time_thu2))
    &&& s.wednesday.first@ == period_or_midnight(text_of(c.heating_time_wed1))
    &&& s.wednesday.second@ == period_or_midnight(text_of(c.heating_time_wed2))
    &&& s.thursday.first@ == period_or_midnight(text_of(c.heating_time_tue1))
    &&& s.thursday.second@ == period_or_midnight(text_of(c.heating_time_tue2))
    &&& s.friday.first@ == period_or_midnight(text_of(c.heating_time_fri1))
    &&& s.friday.second@ == period_or_midnight(text_of(c.heating_time_fri2))
    &&& s.saturday.first@ == period_or_midnight(text_of(c.heating_time_sat1))
    &&& s.saturday.second@ == period_or_midnight(text_of(c.heating_time_sat2))
    &&& s.sunday.first@ == period_or_midnight(text_of(c.heating_time_sun1))
    &&& s.sunday.second@ == period_or_midnight(text_of(c.heating_time_sun2))
}

impl HeatingSchedule {
    /// The weekly schedule that a snapshot's controls hold.
    pub fn from(controls: StoveControls) -> (r: HeatingSchedule)
        ensures
            schedule_read_from(r, controls),
    {
        read_schedule(&controls)
    }
}

/// The weekly schedule that a snapshot's controls hold.
fn read_schedule(controls: &StoveControls) -> (r: HeatingSchedule)
    ensures
        schedule_read_from(r, *controls),
{
    HeatingSchedule {
        monday: read_daily(&controls.heating_time_mon1, &controls.heating_time_mon2),
        tuesday: read_daily(&controls.heating_time_thu1, &controls.heating_time_thu2),
        wednesday: read_daily(&controls.heating_time_wed1, &controls.heating_time_wed2),
        thursday: read_daily(&controls.heating_time_tue1, &controls.heating_time_tue2),
        friday: read_daily(&controls.heating_time_fri1, &controls.heating_time_fri2),
        saturday: read_daily(&controls.heating_time_sat1, &controls.heating_time_sat2),
        sunday: read_daily(&controls.heating_time_sun1, &controls.heating_time_sun2),
    }
}

/// Whether an optional string holds the same text as `s`.
fn is_text(value: &Option<String>, s: &str) -> (r: bool)
    ensures
        r == (text_or_empty(*value) == s@),
{
    match value {
        Some(v) => same_text(v.as_str(), s),
        None => {
            let empty = s.unicode_len() == 0;
            proof {
                if empty {
                    assert(s@ =~= Seq::<char>::empty());
                }
            }
            empty
        },
    }
}

/// Reads an optional string as an integer; absent text reads as nothing.
fn parse_optional_i32(value: &Option<String>) -> (r: Option<i32>)
    ensures
        match parse_i32_spec(text_or_empty(*value)) {
            Some(v) => r == Some(v as i32),
            None => r is None,
        },
{
    match value {
        Some(v) => parse_i32(v.as_str()),
        None => {
            proof {
                assert(parse_i32_spec(Seq::<char>::empty()) is None);
            }
            None
        },
    }
}

impl StoveStatus {
    /// The controls update that leaves every control as this snapshot has it.
    pub fn into_stove_controls(self) -> (r: StoveControlsParams)
        ensures
            r.stove_id == self.stove_id,
            r.revision == Some(self.last_confirmed_revision),
            r.controls == self.controls,
    {
        StoveControlsParams {
            stove_id: self.stove_id,
            revision: Some(self.last_confirmed_revision),
            controls: self.controls,
        }
    }

    /// Whether bake mode is on.
    pub fn bake_mode(&self) -> (r: bool)
        ensures
            r == bake_mode_spec(*self),
    {
        let mode = match self.controls.operating_mode {
            Some(m) => m,
            None => 0,
        };
        mode == COMFORT_BAKE_MODE && !is_text(&self.controls.bake_temperature, UNSET_BAKE_TEMPERATURE)
            && !same_text(self.sensors.input_bake_temperature.as_str(), UNSET_BAKE_TEMPERATURE)
    }

    /// Whether the sensed bake temperature is within ten degrees of the
    /// commanded one.
    pub fn bake_temperature_reached(&self) -> (r: bool)
        ensures
            r == bake_temperature_reached_spec(*self),
    {
        let sensed = parse_i32(self.sensors.input_bake_temperature.as_str());
        let commanded = parse_optional_i32(&self.controls.bake_temperature);
        match (sensed, commanded) {
            (Some(s), Some(c)) => {
                let delta = s as i64 - c as i64;
                -10 < delta && delta < 10
            },
            _ => false,
        }
    }
}

/// What a status snapshot tells beyond its raw fields.
pub trait HasDetailledStatus {
    spec fn status_details_spec(&self) -> StatusDetail;

    spec fn heating_schedule_spec(&self, schedule: HeatingSchedule) -> bool;

    /// The label of what the stove is doing.
    fn get_status_details(&self) -> (r: StatusDetail)
        ensures
            r == self.status_details_spec(),
    ;

    /// The weekly heating schedule that the stove holds.
    fn get_heating_schedule(&self) -> (r: HeatingSchedule)
        ensures
            self.heating_schedule_spec(r),
    ;
}

impl HasDetailledStatus for StoveStatus {
    open spec fn status_details_spec(&self) -> StatusDetail {
        status_detail_of(*self)
    }

    open spec fn heating_schedule_spec(&self, schedule: HeatingSchedule) -> bool {
        schedule_read_from(schedule, self.controls)
    }

    fn get_status_details(&self) -> (r: StatusDetail) {
        let frost_started = self.sensors.status_frost_started;
        let main_state = self.sensors.status_main_state;
        let sub_state = self.sensors.status_sub_state;
        if frost_started {
            return StatusDetail::FrostProtection;
        }
        if main_state == 1 {
            if sub_state == 0 {
                StatusDetail::Off
            } else if sub_state == 1 || sub_state == 3 {
                StatusDetail::Standby
            } else if sub_state == 2 {
                StatusDetail::ExternalRequest
            } else {
                StatusDetail::Unknown
            }
        } else if main_state == 2 {
            StatusDetail::Ignition
        } else if main_state == 3 {
            StatusDetail::Startup
        } else if main_state == 4 {
            let bake_mode = self.bake_mode();
            if bake_mode && self.bake_temperature_reached() {
                StatusDetail::Baking
            } else if bake_mode {
                StatusDetail::HeatingUp
            } else {
                StatusDetail::Running
            }
        } else if main_state == 5 {
            if sub_state == 3 || sub_state == 4 {
                StatusDetail::DeepCleaning
            } else {
                StatusDetail::Cleaning
            }
        } else if main_state == 6 {
            StatusDetail::BurnOff
        } else if main_state == 11 || main_state == 13 || main_state == 14 || main_state == 16
            || main_state == 17 || main_state == 50 {
            StatusDetail::SplitLogCheck
        } else if main_state == 20 || main_state == 21 {
            StatusDetail::SplitLogMode
        } else {
            StatusDetail::Unknown
        }
    }

    fn get_heating_schedule(&self) -> (r: HeatingSchedule) {
        read_schedule(&self.controls)
    }
}

} // verus!
