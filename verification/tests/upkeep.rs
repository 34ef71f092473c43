use quanta::tsc::{family_model, has_constant_or_better_tsc, has_multiple_sockets, tsc_supported};
use quanta::upkeep::{claim_outcome, start_outcome};
use quanta::{Clock, Error, Monotonic, Upkeep};
use std::io;
use std::time::Duration;

#[test]
fn test_spawning_second_upkeep() {
    // The first start finds no upkeep thread running and claims the slot; the second finds it
    // taken.
    let first_upkeep = Upkeep::new(Duration::from_millis(250));
    let first = claim_outcome(false).map(|_| first_upkeep);
    let second = claim_outcome(true)
        .map(|_| Upkeep::new(Duration::from_millis(250)))
        .map_err(|e| e.message());

    assert!(first.is_ok());

    let second_err = second.expect_err("second upkeep should be error, got handle");
    assert_eq!(second_err, "upkeep thread already running");
}

#[test]
fn upkeep_keeps_interval() {
    let u = Upkeep::new(Duration::from_millis(250));
    assert_eq!(u.update_interval(), Duration::from_millis(250));
    let v = Upkeep::new_with_clock(Duration::from_secs(1), Clock::from_reference(Monotonic::new()));
    assert_eq!(v.update_interval(), Duration::from_secs(1));
}

#[test]
fn error_messages() {
    assert_eq!(Error::UpkeepRunning.message(), "upkeep thread already running");
    assert_eq!(Error::FailedToPinUpkeepThread.message(), "failed to pin upkeep thread");
    let e = Error::FailedToSpawnUpkeepThread(io::Error::new(io::ErrorKind::Other, "no threads"));
    assert_eq!(e.message(), "failed to spawn upkeep thread: no threads");
}

#[test]
fn start_outcomes() {
    let (release, r) = start_outcome::<u32>(Ok(7), None);
    assert!(!release);
    assert_eq!(r.unwrap(), 7);
    let (release, r) = start_outcome::<u32>(Ok(7), Some(true));
    assert!(!release);
    assert_eq!(r.unwrap(), 7);
    let (release, r) = start_outcome::<u32>(Ok(7), Some(false));
    assert!(!release);
    assert!(matches!(r, Err(Error::FailedToPinUpkeepThread)));
    let (release, r) =
        start_outcome::<u32>(Err(io::Error::new(io::ErrorKind::Other, "boom")), None);
    assert!(release);
    assert!(matches!(r, Err(Error::FailedToSpawnUpkeepThread(_))));
    assert!(claim_outcome(false).is_ok());
    assert!(matches!(claim_outcome(true), Err(Error::UpkeepRunning)));
}

#[test]
fn tsc_support_rules() {
    let intel = "GenuineIntel".to_string();
    let amd = "AuthenticAMD".to_string();
    let via = "CentaurHauls".to_string();
    let other = "HygonGenuine".to_string();
    assert!(tsc_supported(&intel, 0x60E, true, false));
    assert!(!tsc_supported(&intel, 0x60D, true, false));
    assert!(tsc_supported(&intel, 0x60D, true, true));
    assert!(!tsc_supported(&amd, 0xFFF, true, true));
    assert!(tsc_supported(&amd, 0, false, true));
    assert!(!tsc_supported(&amd, 0, false, false));
    assert!(tsc_supported(&via, 0x60F, true, false));
    assert!(!tsc_supported(&via, 0x60E, true, true));
    assert!(tsc_supported(&via, 0x60E, false, true));
    assert!(!tsc_supported(&other, 0xFFF, false, true));
    assert!(!tsc_supported(&String::new(), 0xFFF, false, true));
}

#[test]
fn family_model_numbers() {
    assert_eq!(family_model(6, 5, 0xE), 0x65E);
    assert_eq!(family_model(0xF, 0, 2), 0xF02);
    assert_eq!(family_model(6, 0, 0), 0x600);
    // Whatever this machine reports, the answer follows the rules above.
    let _ = has_constant_or_better_tsc(&vec![0, 0]);
}

#[test]
fn socket_counting() {
    assert!(has_multiple_sockets(&vec![]));
    assert!(!has_multiple_sockets(&vec![0]));
    assert!(!has_multiple_sockets(&vec![3, 3, 3, 3]));
    assert!(has_multiple_sockets(&vec![0, 0, 1, 0]));
    // A single-socket AMD machine with an invariant counter uses it; a multi-socket one not.
    let amd = "AuthenticAMD".to_string();
    assert!(tsc_supported(&amd, 0x100, has_multiple_sockets(&vec![0, 0]), true));
    assert!(!tsc_supported(&amd, 0x100, has_multiple_sockets(&vec![0, 1]), true));
}

#[test]
fn start_outcome_keeps_spawn_error() {
    let (release, r) = start_outcome::<u32>(
        Err(io::Error::new(io::ErrorKind::WouldBlock, "no room")),
        None,
    );
    assert!(release);
    match r {
        Err(Error::FailedToSpawnUpkeepThread(e)) => {
            assert_eq!(e.kind(), io::ErrorKind::WouldBlock);
            assert_eq!(e.to_string(), "no room");
        }
        _ => panic!("expected the spawn error"),
    }
}
