use stay_awake::cli::{exit_code, intent_of_args, mode_label, Args};
use stay_awake::guard::{Guard, PlatformModel};
use stay_awake::state::{
    describe, is_installable, resolve, Intent, PowerState, CONTINUOUS, DISPLAY_REQUIRED,
    SYSTEM_REQUIRED, USER_PRESENT,
};

#[test]
fn resolve_system_includes_continuous_and_system() {
    let r = resolve(Intent::KeepSystemAwake);
    assert_eq!(r.raw(), 0x8000_0001);
    assert_ne!(r.raw() & CONTINUOUS, 0);
    assert_ne!(r.raw() & SYSTEM_REQUIRED, 0);
    assert_eq!(r.raw() & DISPLAY_REQUIRED, 0);
    assert_eq!(r.raw() & USER_PRESENT, 0);
}

#[test]
fn resolve_display_adds_display_bit() {
    let r = resolve(Intent::KeepSystemAndDisplayAwake);
    assert_eq!(r.raw(), 0x8000_0003);
    assert_ne!(r.raw() & CONTINUOUS, 0);
    assert_ne!(r.raw() & SYSTEM_REQUIRED, 0);
    assert_ne!(r.raw() & DISPLAY_REQUIRED, 0);
    assert_eq!(r.raw() & USER_PRESENT, 0);
}

#[test]
fn describe_recognizes_the_six_combinations() {
    assert_eq!(describe(PowerState::from_raw(CONTINUOUS)), "Continuous");
    assert_eq!(describe(PowerState::from_raw(SYSTEM_REQUIRED)), "SystemRequired");
    assert_eq!(describe(PowerState::from_raw(DISPLAY_REQUIRED)), "DisplayRequired");
    assert_eq!(
        describe(PowerState::from_raw(CONTINUOUS | SYSTEM_REQUIRED)),
        "Continuous|SystemRequired"
    );
    assert_eq!(
        describe(PowerState::from_raw(CONTINUOUS | DISPLAY_REQUIRED)),
        "Continuous|DisplayRequired"
    );
    assert_eq!(
        describe(PowerState::from_raw(CONTINUOUS | SYSTEM_REQUIRED | DISPLAY_REQUIRED)),
        "Continuous|SystemRequired|DisplayRequired"
    );
}

#[test]
fn describe_marks_everything_else_unrecognized() {
    assert_eq!(describe(PowerState::from_raw(0)), "Unrecognized");
    assert_eq!(describe(PowerState::from_raw(USER_PRESENT)), "Unrecognized");
    assert_eq!(describe(PowerState::from_raw(0x40)), "Unrecognized");
    assert_eq!(describe(PowerState::from_raw(SYSTEM_REQUIRED | DISPLAY_REQUIRED)), "Unrecognized");
    assert_eq!(describe(PowerState::from_raw(u32::MAX)), "Unrecognized");
}

#[test]
fn describe_is_pure_and_total() {
    let samples: Vec<u32> = vec![0, 1, 2, 3, 4, 0x40, CONTINUOUS, 0x8000_0001, u32::MAX];
    for bits in samples {
        let first = describe(PowerState::from_raw(bits));
        let second = describe(PowerState::from_raw(bits));
        assert_eq!(first, second);
        assert!(!first.is_empty());
    }
}

#[test]
fn resolve_round_trips_through_describe() {
    assert_eq!(describe(resolve(Intent::KeepSystemAwake)), "Continuous|SystemRequired");
    assert_eq!(
        describe(resolve(Intent::KeepSystemAndDisplayAwake)),
        "Continuous|SystemRequired|DisplayRequired"
    );
    assert_eq!(describe(PowerState::continuous()), "Continuous");
}

#[test]
fn union_composes_bitmasks() {
    let c = PowerState::continuous();
    let s = PowerState::system_required();
    let d = PowerState::display_required();
    assert_eq!(c.union(s).raw(), 0x8000_0001);
    assert_eq!(c.union(s).union(d).raw(), 0x8000_0003);
    assert_eq!(c.union(c).raw(), CONTINUOUS);
}

#[test]
fn release_fires_exactly_once() {
    let mut platform = PlatformModel::new();
    let mut guard = Guard::create();
    let installed = guard.install_command(resolve(Intent::KeepSystemAwake));
    platform.install(installed);
    assert_eq!(platform.installs(), 1);

    let first = guard.release();
    let baseline = first.expect("first release must issue the restoration command");
    assert_eq!(baseline.raw(), CONTINUOUS);
    platform.install(baseline);
    assert_eq!(platform.installs(), 2);
    assert!(guard.is_released());

    let second = guard.release();
    assert!(second.is_none());
    assert_eq!(platform.installs(), 2);
    assert_eq!(describe(platform.observe()), "Continuous");
}

#[test]
fn baseline_restoration_is_idempotent() {
    let mut platform = PlatformModel::new();
    platform.install(resolve(Intent::KeepSystemAndDisplayAwake));
    let prev = platform.install(PowerState::continuous());
    assert_eq!(prev.raw(), 0x8000_0003);
    let after_first = platform.observe().raw();
    let prev_again = platform.install(PowerState::continuous());
    assert_eq!(prev_again.raw(), CONTINUOUS);
    assert_eq!(platform.observe().raw(), after_first);
    assert_eq!(platform.observe().raw(), CONTINUOUS);
}

#[test]
fn scenario_flag_absent_names_system_mode() {
    let args = Args { display: false };
    let intent = intent_of_args(&args);
    assert_eq!(mode_label(intent), "System");

    let mut platform = PlatformModel::new();
    let mut guard = Guard::create();
    let installed = guard.install_command(resolve(intent));
    let prev = platform.install(installed);
    assert_eq!(describe(prev), "Continuous");
    assert_eq!(describe(platform.observe()), "Continuous|SystemRequired");

    let baseline = guard.release().expect("release must issue the restoration command");
    platform.install(baseline);
    assert_eq!(describe(platform.observe()), "Continuous");
    assert_eq!(exit_code(true), 0);
}

#[test]
fn scenario_flag_present_keeps_display() {
    let args = Args { display: true };
    let intent = intent_of_args(&args);
    assert_eq!(mode_label(intent), "Display");

    let mut platform = PlatformModel::new();
    let mut guard = Guard::create();
    let installed = guard.install_command(resolve(intent));
    platform.install(installed);
    assert_eq!(
        describe(platform.observe()),
        "Continuous|SystemRequired|DisplayRequired"
    );

    let baseline = guard.release().expect("release must issue the restoration command");
    platform.install(baseline);
    assert_eq!(describe(platform.observe()), "Continuous");
}

#[test]
fn scenario_failed_read_still_restores_once() {
    let mut platform = PlatformModel::new();
    let mut guard = Guard::create();
    let installed = guard.install_command(resolve(Intent::KeepSystemAwake));
    platform.install(installed);

    let read_ok = false;
    let baseline = guard.release().expect("release must issue the restoration command");
    platform.install(baseline);
    assert!(guard.release().is_none());

    assert_eq!(exit_code(read_ok), 1);
    assert_eq!(platform.installs(), 2);
    assert_eq!(describe(platform.observe()), "Continuous");
}

#[test]
fn install_command_combines_continuous() {
    let guard = Guard::create();
    let cmd = guard.install_command(resolve(Intent::KeepSystemAwake));
    assert_eq!(cmd.raw(), 0x8000_0001);
    let cmd2 = guard.install_command(PowerState::continuous());
    assert_eq!(cmd2.raw(), CONTINUOUS);
}

#[test]
fn invalid_bit_sets_are_refused() {
    assert!(is_installable(resolve(Intent::KeepSystemAwake)));
    assert!(is_installable(resolve(Intent::KeepSystemAndDisplayAwake)));
    assert!(is_installable(PowerState::continuous()));
    assert!(!is_installable(PowerState::system_required()));
    assert!(!is_installable(PowerState::from_raw(CONTINUOUS | USER_PRESENT)));
    assert!(!is_installable(PowerState::from_raw(0)));
}

#[test]
fn exit_codes_match_the_driver_contract() {
    assert_eq!(exit_code(true), 0);
    assert_eq!(exit_code(false), 1);
}
