use rika_firenet_client::controls::{
    check_comfort_temperatures, check_frost_protection_temperature, check_heating_power,
    disable_frost_protection, enable_frost_protection, enable_schedule, restore_controls,
    set_auto_mode, set_comfort_mode, set_manual_mode, turn_off, turn_on, ControlError,
};
use rika_firenet_client::model::{DailySchedule, HeatPeriod, HeatingSchedule};
use rika_firenet_client::stove::{StoveControls, StoveStatus};

fn snapshot() -> StoveStatus {
    StoveStatus {
        stove_id: "__stove_id__".to_string(),
        name: "Stove __stove_id__".to_string(),
        last_confirmed_revision: 1572181181,
        controls: StoveControls {
            on_off: Some(true),
            operating_mode: Some(2),
            heating_power: Some(30),
            target_temperature: Some("21".to_string()),
            set_back_temperature: Some("16".to_string()),
            ..Default::default()
        },
        ..Default::default()
    }
}

#[test]
fn can_turn_on_stove() {
    let mut status = snapshot();
    status.controls.on_off = Some(false);
    let params = turn_on(status);
    assert_eq!(params.revision, Some(1572181181));
    assert_eq!(params.controls.on_off, Some(true));
    assert_eq!(params.stove_id, "__stove_id__");
}

#[test]
fn can_turn_off_stove() {
    let params = turn_off(snapshot());
    assert_eq!(params.revision, Some(1572181181));
    assert_eq!(params.controls.on_off, Some(false));
    assert_eq!(params.controls.heating_power, Some(30));
}

#[test]
fn can_set_stove_mode_to_manual() {
    assert!(check_heating_power(51).is_ok());
    let params = set_manual_mode(snapshot(), 51);
    assert_eq!(params.revision, Some(1572181181));
    assert_eq!(params.controls.operating_mode, Some(0));
    assert_eq!(params.controls.heating_power, Some(51));
}

#[test]
fn cant_set_stove_mode_to_manual_with_an_invalid_power_heating_value() {
    let error = check_heating_power(101).unwrap_err();
    assert_eq!(
        error.message(),
        "Heating power must be 0 <= power <= 100 but it was 101"
    );
}

#[test]
fn can_set_stove_mode_to_automatic() {
    assert!(check_heating_power(52).is_ok());
    let params = set_auto_mode(snapshot(), 52);
    assert_eq!(params.revision, Some(1572181181));
    assert_eq!(params.controls.operating_mode, Some(1));
    assert_eq!(params.controls.heating_power, Some(52));
}

#[test]
fn cant_set_stove_mode_to_auto_with_an_invalid_power_heating_value() {
    let error = check_heating_power(101).unwrap_err();
    assert_eq!(
        error.message(),
        "Heating power must be 0 <= power <= 100 but it was 101"
    );
}

#[test]
fn heating_power_bounds() {
    assert!(check_heating_power(0).is_ok());
    assert!(check_heating_power(99).is_ok());
    assert_eq!(check_heating_power(100), Err(ControlError::HeatingPowerOutOfRange(100)));
}

#[test]
fn can_set_stove_mode_to_comfort() {
    assert!(check_comfort_temperatures(17, 19).is_ok());
    let params = set_comfort_mode(snapshot(), 17, 19);
    assert_eq!(params.revision, Some(1572181181));
    assert_eq!(params.controls.operating_mode, Some(2));
    assert_eq!(params.controls.set_back_temperature.as_deref(), Some("17"));
    assert_eq!(params.controls.target_temperature.as_deref(), Some("19"));
    assert_eq!(params.controls.on_off, Some(true));
}

#[test]
fn cant_set_stove_mode_to_comfort_with_an_invalid_target_or_idle_temperature_value() {
    let error = check_comfort_temperatures(12, 13).unwrap_err();
    assert_eq!(
        error.message(),
        "Target temperature must be 14 <= temp <= 28°C but it was 13"
    );

    let error = check_comfort_temperatures(20, 29).unwrap_err();
    assert_eq!(
        error.message(),
        "Target temperature must be 14 <= temp <= 28°C but it was 29"
    );

    let error = check_comfort_temperatures(21, 28).unwrap_err();
    assert_eq!(
        error.message(),
        "Idle temperature must be 12 <= temp <= 20°C but it was 21"
    );

    let error = check_comfort_temperatures(11, 22).unwrap_err();
    assert_eq!(
        error.message(),
        "Idle temperature must be 12 <= temp <= 20°C but it was 11"
    );

    let error = check_comfort_temperatures(19, 17).unwrap_err();
    assert_eq!(
        error.message(),
        "Target temperature must be greater than idle temperature"
    );
}

#[test]
fn comfort_temperatures_must_differ() {
    assert_eq!(check_comfort_temperatures(18, 18), Err(ControlError::TargetNotAboveIdle));
    assert!(check_comfort_temperatures(12, 14).is_ok());
    assert!(check_comfort_temperatures(20, 28).is_ok());
}

#[test]
fn can_enable_frost_mode() {
    assert!(check_frost_protection_temperature(8).is_ok());
    let params = enable_frost_protection(snapshot(), 8);
    assert_eq!(params.revision, Some(1572181181));
    assert_eq!(params.controls.frost_protection_active, Some(true));
    assert_eq!(params.controls.frost_protection_temperature.as_deref(), Some("8"));
}

#[test]
fn cant_enable_frost_protection_with_an_invalid_temperature_value() {
    let error = check_frost_protection_temperature(3).unwrap_err();
    assert_eq!(
        error.message(),
        "Frost protection temperature must be 4 <= temp <= 10°C but it was 3"
    );

    let error = check_frost_protection_temperature(11).unwrap_err();
    assert_eq!(
        error.message(),
        "Frost protection temperature must be 4 <= temp <= 10°C but it was 11"
    );
}

#[test]
fn frost_protection_temperature_bounds() {
    assert!(check_frost_protection_temperature(4).is_ok());
    assert!(check_frost_protection_temperature(10).is_ok());
    let params = enable_frost_protection(snapshot(), 10);
    assert_eq!(params.controls.frost_protection_temperature.as_deref(), Some("10"));
}

#[test]
fn can_disable_frost_mode() {
    let mut status = snapshot();
    status.controls.frost_protection_active = Some(true);
    let params = disable_frost_protection(status);
    assert_eq!(params.revision, Some(1572181181));
    assert_eq!(params.controls.frost_protection_active, Some(false));
}

#[test]
fn can_configure_schedule() {
    let schedule = HeatingSchedule::week_vs_end_days(
        DailySchedule::dual("06300900".parse().unwrap(), "18152245".parse().unwrap()),
        DailySchedule::single("10002230".parse().unwrap()),
    );
    let params = enable_schedule(snapshot(), schedule);
    let c = &params.controls;
    assert_eq!(c.heating_times_active_for_comfort, Some(true));
    assert_eq!(c.heating_time_mon1.as_deref(), Some("06300900"));
    assert_eq!(c.heating_time_mon2.as_deref(), Some("18152245"));
    assert_eq!(c.heating_time_tue1.as_deref(), Some("06300900"));
    assert_eq!(c.heating_time_tue2.as_deref(), Some("18152245"));
    assert_eq!(c.heating_time_wed1.as_deref(), Some("06300900"));
    assert_eq!(c.heating_time_wed2.as_deref(), Some("18152245"));
    assert_eq!(c.heating_time_thu1.as_deref(), Some("06300900"));
    assert_eq!(c.heating_time_thu2.as_deref(), Some("18152245"));
    assert_eq!(c.heating_time_fri1.as_deref(), Some("06300900"));
    assert_eq!(c.heating_time_fri2.as_deref(), Some("18152245"));
    assert_eq!(c.heating_time_sat1.as_deref(), Some("10002230"));
    assert_eq!(c.heating_time_sat2.as_deref(), Some("00000000"));
    assert_eq!(c.heating_time_sun1.as_deref(), Some("10002230"));
    assert_eq!(c.heating_time_sun2.as_deref(), Some("00000000"));
    assert_eq!(params.revision, Some(1572181181));
}

#[test]
fn restoring_controls_keeps_the_fresh_revision() {
    let saved = StoveControls { on_off: Some(false), heating_power: Some(70), ..Default::default() };
    let params = restore_controls(snapshot(), saved);
    assert_eq!(params.revision, Some(1572181181));
    assert_eq!(params.controls.on_off, Some(false));
    assert_eq!(params.controls.heating_power, Some(70));
    assert_eq!(params.controls.target_temperature, None);
}
