use radio_control::dispatcher::{dispatch, DispatchOutcome};
use radio_control::hw::{Band, HardwareState, Rgb, SoundMode};
use radio_control::payload::CommandRequest;
use radio_control::sim::{SimDelay, SimIndicator, SimTuner};
use radio_control::station::StationDirectory;
use radio_control::store::HardwareStateStore;

type SimStore = HardwareStateStore<SimTuner, SimIndicator, SimDelay>;

fn store_tuned_to(freq_dmhz: u16) -> SimStore {
    let tuner = SimTuner::new(Band::europe_us(), freq_dmhz).expect("frequency is in band");
    let indicator = SimIndicator::new(Rgb::new(50, 0, 0));
    let hw = HardwareState::new(tuner, indicator, SimDelay {}, SoundMode::Stereo);
    HardwareStateStore::new(hw)
}

fn flaky_store_tuned_to(freq_dmhz: u16) -> SimStore {
    let mut tuner = SimTuner::new(Band::europe_us(), freq_dmhz).expect("frequency is in band");
    tuner.fail_next_call();
    let indicator = SimIndicator::new(Rgb::new(50, 0, 0));
    let hw = HardwareState::new(tuner, indicator, SimDelay {}, SoundMode::Stereo);
    HardwareStateStore::new(hw)
}

fn fm_request(name: &str) -> CommandRequest {
    CommandRequest {
        station_name: name.to_string(),
        is_web: false,
    }
}

fn web_request(name: &str) -> CommandRequest {
    CommandRequest {
        station_name: name.to_string(),
        is_web: true,
    }
}

#[test]
fn known_fm_station_round_trips_to_the_tuner() {
    let store = store_tuned_to(1039);
    let dir = StationDirectory::defaults();
    match dispatch(&fm_request("NRJ"), &store, &dir) {
        DispatchOutcome::FmTuned {
            freq_dmhz,
            indicator_ok,
        } => {
            assert_eq!(freq_dmhz, 1003);
            assert!(indicator_ok);
        }
        _ => panic!("expected FmTuned"),
    }
    assert_eq!(store.current_frequency_dmhz(), 1003);
}

#[test]
fn unknown_station_touches_no_hardware() {
    let store = store_tuned_to(1039);
    let dir = StationDirectory::defaults();
    match dispatch(&fm_request("Unknown"), &store, &dir) {
        DispatchOutcome::NotFound { station_name } => assert_eq!(station_name, "Unknown"),
        _ => panic!("expected NotFound"),
    }
    assert_eq!(store.current_frequency_dmhz(), 1039);
}

#[test]
fn webradio_resolution_touches_no_hardware() {
    let store = store_tuned_to(1039);
    let dir = StationDirectory::defaults();
    match dispatch(&web_request("FIP Pop"), &store, &dir) {
        DispatchOutcome::WebResolved { url } => {
            assert_eq!(url, "http://icecast.radiofrance.fr/fippop-midfi.mp3")
        }
        _ => panic!("expected WebResolved"),
    }
    assert_eq!(store.current_frequency_dmhz(), 1039);
}

#[test]
fn kind_mismatch_is_reported_and_touches_no_hardware() {
    let store = store_tuned_to(1039);
    let dir = StationDirectory::defaults();
    assert!(matches!(
        dispatch(&web_request("NRJ"), &store, &dir),
        DispatchOutcome::KindMismatch
    ));
    assert!(matches!(
        dispatch(&fm_request("FIP Pop"), &store, &dir),
        DispatchOutcome::KindMismatch
    ));
    assert_eq!(store.current_frequency_dmhz(), 1039);
}

#[test]
fn tuner_failure_is_reported_and_retains_previous_frequency() {
    let store = flaky_store_tuned_to(1039);
    let dir = StationDirectory::defaults();
    assert!(matches!(
        dispatch(&fm_request("NRJ"), &store, &dir),
        DispatchOutcome::HardwareError
    ));
    assert_eq!(store.current_frequency_dmhz(), 1039);
}

#[test]
fn last_completed_dispatch_determines_the_frequency() {
    let store = store_tuned_to(1039);
    let dir = StationDirectory::defaults();
    assert!(matches!(
        dispatch(&fm_request("NRJ"), &store, &dir),
        DispatchOutcome::FmTuned { .. }
    ));
    assert!(matches!(
        dispatch(&fm_request("FIP"), &store, &dir),
        DispatchOutcome::FmTuned { .. }
    ));
    assert_eq!(store.current_frequency_dmhz(), 1051);
}

#[test]
fn failed_dispatch_after_a_completed_one_retains_its_frequency() {
    let store = store_tuned_to(1039);
    let dir = StationDirectory::defaults();
    assert!(matches!(
        dispatch(&fm_request("NRJ"), &store, &dir),
        DispatchOutcome::FmTuned { .. }
    ));
    // An unknown name later cannot disturb the tuned frequency.
    assert!(matches!(
        dispatch(&fm_request("Unknown"), &store, &dir),
        DispatchOutcome::NotFound { .. }
    ));
    assert_eq!(store.current_frequency_dmhz(), 1003);
}

#[test]
fn indicator_write_is_advisory() {
    let store = store_tuned_to(1039);
    assert!(store.set_indicator(Rgb::new(0, 50, 0)));
}
