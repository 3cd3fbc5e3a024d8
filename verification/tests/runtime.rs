use helix::ultra::runtime::{
    mark_runtime_active, request_shutdown, runtime_active, shutdown_requested, teardown,
    RuntimeFlags, TeardownStep,
};
use helix::ultra::save::{flush, Eeprom};

#[test]
fn shutdown_and_runtime_active_flags_roundtrip() {
    let mut f = RuntimeFlags::new();
    assert!(!shutdown_requested(&f));
    assert!(!runtime_active(&f));
    request_shutdown(&mut f);
    assert!(shutdown_requested(&f));
    mark_runtime_active(&mut f);
    assert!(runtime_active(&f));
    assert!(shutdown_requested(&f));
    teardown();
    let never: Option<Eeprom> = None;
    assert!(flush(&never).is_none(), "an EEPROM never initialized flushes nothing");
}

#[test]
fn teardown_runs_audio_before_save_flush() {
    let log = teardown();
    let audio = log.iter().position(|s| *s == TeardownStep::Audio).expect("audio teardown ran");
    let save = log.iter().position(|s| *s == TeardownStep::Save).expect("save flush ran");
    assert!(audio < save, "audio must be torn down before the EEPROM flush");
    assert_eq!(log, vec![TeardownStep::Audio, TeardownStep::Vi, TeardownStep::Save]);
}
