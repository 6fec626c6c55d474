use sensor_node::device::{
    AuthReport, Device, DeviceError, JoinRequest, State, JOIN_ATTEMPT_LIMIT, LONG_BACKOFF_SECS,
    MEDIUM_BACKOFF_SECS,
};
use sensor_node::duty::{Collector, Report};
use sensor_node::payload::PAYLOAD_CAPACITY;
use sensor_node::radio::{LoraRadioError, UplinkOutcome};
use sensor_node::sensor::{air_sensor, soil_sensor, system_sensor};
use sensor_node::session::Session;
use sensor_node::storage::StorageError;

/// A device moved to `state` along the table's success edges.
fn device_in(state: State) -> Device {
    let mut device = Device::new(false);
    let path: &[State] = match state {
        State::Boot => &[],
        State::Auth => &[State::Boot],
        State::Duty => &[State::Boot, State::Auth],
        State::Send => &[State::Boot, State::Auth, State::Duty],
        State::Idle(_) => &[State::Boot, State::Auth, State::Duty],
    };
    for _ in path {
        device.advance(Ok(()));
    }
    if let State::Idle(_) = state {
        device.advance(Err(DeviceError::Duty));
    }
    assert_eq!(
        std::mem::discriminant(&device.state()),
        std::mem::discriminant(&state)
    );
    device
}

fn session() -> Session {
    Session { nwk_skey: [1; 16], app_skey: [2; 16], dev_addr: [3, 4, 5, 6] }
}

fn full_cycle() -> Collector {
    let mut results = Collector::new();
    results.accept(Report::System(Some(system_sensor::encode_record(215, 412, 180, 498, system_sensor::PowerSource::Battery))));
    results.accept(Report::Soil(Some(soil_sensor::encode_record(1234))));
    results.accept(Report::Air(Some(air_sensor::encode_record(234, 110, 842))));
    results
}

#[test]
fn new_device_boots_first() {
    let device = Device::new(false);
    assert_eq!(device.state(), State::Boot);
    assert_eq!(device.auth_attempt(), 0);
    assert!(device.payload().is_empty());
    assert_eq!(State::default(), State::Boot);
}

#[test]
fn boot_transitions() {
    let mut device = device_in(State::Boot);
    assert_eq!(device.advance(Ok(())), State::Auth);
    let mut device = device_in(State::Boot);
    assert_eq!(device.advance(Err(DeviceError::Storage(StorageError::Format))), State::Idle(LONG_BACKOFF_SECS));
}

#[test]
fn boot_formats_when_mount_fails_or_reset_is_set() {
    let device = Device::new(false);
    assert!(device.needs_format(false));
    assert!(!device.needs_format(true));
    let resetting = Device::new(true);
    assert!(resetting.needs_format(true));
}

#[test]
fn boot_fails_only_when_formatting_fails() {
    let mut device = Device::new(false);
    assert_eq!(device.boot(None), Ok(()));
    assert_eq!(device.boot(Some(Ok(()))), Ok(()));
    assert_eq!(
        device.boot(Some(Err(StorageError::Format))),
        Err(DeviceError::Storage(StorageError::Format))
    );
}

#[test]
fn auth_transitions() {
    let mut device = device_in(State::Auth);
    assert_eq!(device.advance(Ok(())), State::Duty);
    let mut device = device_in(State::Auth);
    assert_eq!(device.advance(Err(DeviceError::AuthFailed)), State::Auth);
    let mut device = device_in(State::Auth);
    assert_eq!(device.advance(Err(DeviceError::AuthJoinAttemptsExhausted)), State::Idle(LONG_BACKOFF_SECS));
    let mut device = device_in(State::Auth);
    assert_eq!(device.advance(Err(DeviceError::Auth)), State::Idle(MEDIUM_BACKOFF_SECS));
    let mut device = device_in(State::Auth);
    assert_eq!(
        device.advance(Err(DeviceError::Storage(StorageError::Write))),
        State::Idle(MEDIUM_BACKOFF_SECS)
    );
}

#[test]
fn duty_transitions() {
    let mut device = device_in(State::Duty);
    assert_eq!(device.advance(Ok(())), State::Send);
    let mut device = device_in(State::Duty);
    assert_eq!(device.advance(Err(DeviceError::Duty)), State::Idle(MEDIUM_BACKOFF_SECS));
}

#[test]
fn send_transitions() {
    let mut device = device_in(State::Send);
    assert_eq!(device.advance(Ok(())), State::Duty);
    let mut device = device_in(State::Send);
    assert_eq!(device.advance(Err(DeviceError::NoAck)), State::Duty);
    let mut device = device_in(State::Send);
    assert_eq!(device.advance(Err(DeviceError::SessionExpired)), State::Auth);
    let mut device = device_in(State::Send);
    assert_eq!(device.advance(Err(DeviceError::Send)), State::Idle(MEDIUM_BACKOFF_SECS));
}

#[test]
fn idle_always_returns_to_auth() {
    let mut device = device_in(State::Idle(MEDIUM_BACKOFF_SECS));
    assert_eq!(device.state(), State::Idle(MEDIUM_BACKOFF_SECS));
    assert_eq!(device.advance(Ok(())), State::Auth);
    let mut device = device_in(State::Idle(MEDIUM_BACKOFF_SECS));
    assert_eq!(device.advance(Err(DeviceError::Send)), State::Auth);
}

#[test]
fn join_request_follows_stored_session() {
    let device = Device::new(false);
    assert_eq!(device.join_request(Some(session())), JoinRequest::Rejoin(session()));
    assert_eq!(device.join_request(None), JoinRequest::Join);
}

#[test]
fn rejoin_outcomes() {
    let mut device = device_in(State::Auth);
    assert_eq!(device.auth(AuthReport::Rejoined), Ok(()));
    assert_eq!(device.auth(AuthReport::RejoinFailed), Err(DeviceError::Auth));
    assert_eq!(device.auth_attempt(), 0);
}

#[test]
fn join_then_store_failure_is_a_storage_error() {
    let mut device = device_in(State::Auth);
    assert_eq!(
        device.auth(AuthReport::Joined(Err(StorageError::Commit))),
        Err(DeviceError::Storage(StorageError::Commit))
    );
    assert_eq!(device.auth(AuthReport::Joined(Ok(()))), Ok(()));
}

/// Drives the auth phase with a radio that fails `failures` times, then joins.
fn run_auth(device: &mut Device, failures: u32) -> (u32, State) {
    let mut retries = 0;
    let mut remaining = failures;
    loop {
        assert_eq!(device.state(), State::Auth);
        let report = if remaining > 0 {
            remaining -= 1;
            AuthReport::JoinFailed
        } else {
            AuthReport::Joined(Ok(()))
        };
        let outcome = device.auth(report);
        let next = device.advance(outcome);
        if next == State::Auth {
            retries += 1;
        } else {
            return (retries, next);
        }
    }
}

#[test]
fn join_retries_equal_failures() {
    for failures in 0..JOIN_ATTEMPT_LIMIT as u32 {
        let mut device = device_in(State::Auth);
        let (retries, next) = run_auth(&mut device, failures);
        assert_eq!(retries, failures);
        assert_eq!(next, State::Duty);
        assert_eq!(device.auth_attempt(), 0);
    }
}

#[test]
fn tenth_join_failure_backs_off() {
    let mut device = device_in(State::Auth);
    let (retries, next) = run_auth(&mut device, 10);
    assert_eq!(retries, 9);
    assert_eq!(next, State::Idle(LONG_BACKOFF_SECS));
    assert_eq!(device.auth_attempt(), 0);
    assert_eq!(device.advance(Ok(())), State::Auth);
    assert_eq!(device.auth(AuthReport::JoinFailed), Err(DeviceError::AuthFailed));
    assert_eq!(device.auth_attempt(), 1);
}

#[test]
fn uplink_outcomes() {
    let device = Device::new(false);
    assert_eq!(device.uplink(Ok(UplinkOutcome::DownlinkReceived(7))), Ok(()));
    assert_eq!(device.uplink(Ok(UplinkOutcome::RxComplete)), Ok(()));
    assert_eq!(device.uplink(Ok(UplinkOutcome::NoAck)), Err(DeviceError::NoAck));
    assert_eq!(device.uplink(Ok(UplinkOutcome::SessionExpired)), Err(DeviceError::SessionExpired));
    assert_eq!(device.uplink(Err(LoraRadioError::NoAck)), Err(DeviceError::NoAck));
    assert_eq!(device.uplink(Err(LoraRadioError::SessionExpired)), Err(DeviceError::SessionExpired));
    assert_eq!(device.uplink(Err(LoraRadioError::LoRaWAN)), Err(DeviceError::Send));
    assert_eq!(device.uplink(Err(LoraRadioError::NoJoinAccept)), Err(DeviceError::Send));
}

#[test]
fn payload_is_sum_of_records() {
    let mut device = device_in(State::Duty);
    assert_eq!(device.collect_data(&full_cycle()), Ok(()));
    let payload = device.payload();
    assert_eq!(payload.len(), 18 + 4 + 11);
    assert!(payload.len() <= PAYLOAD_CAPACITY);
    assert_eq!(&payload[..2], &[0x03, 0x67]);
    assert_eq!(&payload[18..22], &soil_sensor::encode_record(1234));
    assert_eq!(&payload[22..], &air_sensor::encode_record(234, 110, 842));
}

#[test]
fn failed_probe_keeps_earlier_records() {
    let mut device = device_in(State::Duty);
    assert_eq!(device.collect_data(&full_cycle()), Ok(()));
    let system = [5u8; 18];
    let mut results = Collector::new();
    results.accept(Report::System(Some(system)));
    results.accept(Report::Soil(None));
    results.accept(Report::Air(Some([0; 11])));
    assert_eq!(device.collect_data(&results), Err(DeviceError::Duty));
    assert_eq!(device.payload(), &system[..]);
}

#[test]
fn failed_first_probe_leaves_empty_payload() {
    let mut device = device_in(State::Duty);
    assert_eq!(device.collect_data(&full_cycle()), Ok(()));
    let mut results = Collector::new();
    results.accept(Report::System(None));
    assert_eq!(device.collect_data(&results), Err(DeviceError::Duty));
    assert!(device.payload().is_empty());
}

#[test]
fn failed_air_probe_keeps_system_and_soil() {
    let mut device = device_in(State::Duty);
    let mut results = Collector::new();
    results.accept(Report::System(Some([1; 18])));
    results.accept(Report::Soil(Some([2; 4])));
    results.accept(Report::Air(None));
    assert_eq!(device.collect_data(&results), Err(DeviceError::Duty));
    let mut expected = vec![1u8; 18];
    expected.extend_from_slice(&[2; 4]);
    assert_eq!(device.payload(), &expected[..]);
}

#[test]
fn missing_sensor_aborts_duty() {
    let mut device = device_in(State::Duty);
    let mut results = Collector::new();
    results.accept(Report::System(Some([0; 18])));
    results.accept(Report::Air(Some([0; 11])));
    assert_eq!(device.collect_data(&results), Err(DeviceError::Duty));
    assert_eq!(device.payload(), &[0u8; 18][..]);
}

#[test]
fn storage_fault_forces_format_at_next_boot() {
    let mut device = device_in(State::Auth);
    assert!(!device.needs_format(true));
    assert_eq!(
        device.auth(AuthReport::Joined(Err(StorageError::Write))),
        Err(DeviceError::Storage(StorageError::Write))
    );
    assert!(device.needs_format(true));
    assert_eq!(device.boot(Some(Ok(()))), Ok(()));
    assert!(!device.needs_format(true));
}

#[test]
fn failed_format_stays_pending() {
    let mut device = Device::new(false);
    assert!(device.boot(Some(Err(StorageError::Format))).is_err());
    assert!(device.needs_format(true));
    assert_eq!(device.boot(None), Ok(()));
    assert!(device.needs_format(true));
}

#[test]
fn repeated_cycles_do_not_grow_payload() {
    let mut device = device_in(State::Duty);
    for _ in 0..3 {
        assert_eq!(device.collect_data(&full_cycle()), Ok(()));
        assert_eq!(device.payload().len(), 33);
    }
}
