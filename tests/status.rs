use rika_firenet_client::model::{DailySchedule, HeatPeriod, StatusDetail};
use rika_firenet_client::stove::{HasDetailledStatus, StoveControls, StoveSensors, StoveStatus};

fn status(main_state: i32, sub_state: i32) -> StoveStatus {
    StoveStatus {
        stove_id: "12345".to_string(),
        name: "Stove 12345".to_string(),
        oem: "RIKA".to_string(),
        last_confirmed_revision: 1572181181,
        controls: StoveControls { operating_mode: Some(2), ..Default::default() },
        sensors: StoveSensors {
            status_main_state: main_state,
            status_sub_state: sub_state,
            status_frost_started: false,
            input_room_temperature: "19.6".to_string(),
            input_bake_temperature: "1024".to_string(),
        },
    }
}

fn baking(commanded: &str, sensed: &str) -> StoveStatus {
    let mut s = status(4, 0);
    s.controls.operating_mode = Some(3);
    s.controls.bake_temperature = Some(commanded.to_string());
    s.sensors.input_bake_temperature = sensed.to_string();
    s
}

#[test]
fn standby_when_main_state_one_and_sub_state_one() {
    assert_eq!(status(1, 1).get_status_details(), StatusDetail::Standby);
    assert_eq!(status(1, 3).get_status_details(), StatusDetail::Standby);
}

#[test]
fn main_state_one_sub_states() {
    assert_eq!(status(1, 0).get_status_details(), StatusDetail::Off);
    assert_eq!(status(1, 2).get_status_details(), StatusDetail::ExternalRequest);
    assert_eq!(status(1, 7).get_status_details(), StatusDetail::Unknown);
}

#[test]
fn baking_when_bake_temperature_is_close() {
    assert_eq!(baking("230", "225").get_status_details(), StatusDetail::Baking);
    assert_eq!(baking("230", "239").get_status_details(), StatusDetail::Baking);
}

#[test]
fn heating_up_when_bake_temperature_is_far() {
    assert_eq!(baking("230", "200").get_status_details(), StatusDetail::HeatingUp);
    assert_eq!(baking("230", "240").get_status_details(), StatusDetail::HeatingUp);
    assert_eq!(baking("230", "hot").get_status_details(), StatusDetail::HeatingUp);
}

#[test]
fn running_when_bake_temperature_unset() {
    assert_eq!(baking("1024", "225").get_status_details(), StatusDetail::Running);
    assert_eq!(baking("230", "1024").get_status_details(), StatusDetail::Running);
    assert_eq!(status(4, 0).get_status_details(), StatusDetail::Running);
}

#[test]
fn frost_protection_overrides_every_other_field() {
    let mut s = baking("230", "225");
    s.sensors.status_frost_started = true;
    assert_eq!(s.get_status_details(), StatusDetail::FrostProtection);
    let mut off = status(1, 0);
    off.sensors.status_frost_started = true;
    assert_eq!(off.get_status_details(), StatusDetail::FrostProtection);
}

#[test]
fn other_main_states() {
    assert_eq!(status(2, 0).get_status_details(), StatusDetail::Ignition);
    assert_eq!(status(3, 0).get_status_details(), StatusDetail::Startup);
    assert_eq!(status(5, 3).get_status_details(), StatusDetail::DeepCleaning);
    assert_eq!(status(5, 4).get_status_details(), StatusDetail::DeepCleaning);
    assert_eq!(status(5, 1).get_status_details(), StatusDetail::Cleaning);
    assert_eq!(status(6, 0).get_status_details(), StatusDetail::BurnOff);
    for main in [11, 13, 14, 16, 17, 50] {
        assert_eq!(status(main, 0).get_status_details(), StatusDetail::SplitLogCheck);
    }
    assert_eq!(status(20, 0).get_status_details(), StatusDetail::SplitLogMode);
    assert_eq!(status(21, 0).get_status_details(), StatusDetail::SplitLogMode);
    assert_eq!(status(12, 0).get_status_details(), StatusDetail::Unknown);
    assert_eq!(status(0, 0).get_status_details(), StatusDetail::Unknown);
}

#[test]
fn heating_schedule_of_a_snapshot() {
    let mut s = status(1, 1);
    s.controls.heating_time_mon1 = Some("06300900".to_string());
    s.controls.heating_time_sun2 = Some("18152245".to_string());
    let schedule = s.get_heating_schedule();
    assert_eq!(
        schedule.monday,
        DailySchedule::single(HeatPeriod::new(6, 30, 9, 0).unwrap())
    );
    assert_eq!(schedule.sunday.second, HeatPeriod::new(18, 15, 22, 45).unwrap());
    assert_eq!(schedule.tuesday, DailySchedule::default());
}

#[test]
fn snapshot_becomes_controls_update_with_its_revision() {
    let params = status(1, 1).into_stove_controls();
    assert_eq!(params.stove_id, "12345");
    assert_eq!(params.revision, Some(1572181181));
    assert_eq!(params.controls.operating_mode, Some(2));
}
