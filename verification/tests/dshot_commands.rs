use rm32::dshot_commands::{CommandProcessor, CommandResult};
use rm32::config::{InputType, EEPROM_VERSION, EEPROM_SIZE, EepromConfig};
use rm32::dshot::commands::{BEACON_1, BEACON_5, ESC_INFO, DIRECTION_NORMAL, DIRECTION_REVERSED, BIDIR_OFF, BIDIR_ON, SAVE_SETTINGS, EDT_ENABLE, EDT_DISABLE, DIRECTION_FWD, DIRECTION_REV, PROGRAMMING_MODE};

fn setup() -> (CommandProcessor, EepromConfig, bool, bool) {
    (
        CommandProcessor::default(),
        EepromConfig::default(),
        true,
        false,
    )
}

#[test]
fn beacon_command_immediate() {
    let (mut cp, mut config, mut forward, mut edt_armed) = setup();
    let result = cp.process(
        1,
        true,
        false,
        &mut config,
        &mut forward,
        &mut edt_armed,
        false,
    );
    assert_eq!(result, CommandResult::PlayTone(1));
}

#[test]
fn non_beacon_needs_6_repetitions() {
    let (mut cp, mut config, mut forward, mut edt_armed) = setup();
    for _ in 0..5 {
        let r = cp.process(
            7,
            true,
            false,
            &mut config,
            &mut forward,
            &mut edt_armed,
            false,
        );
        assert_eq!(r, CommandResult::NoAction);
    }
    let r = cp.process(
        7,
        true,
        false,
        &mut config,
        &mut forward,
        &mut edt_armed,
        false,
    );
    // After 6th: command executes
    assert_eq!(r, CommandResult::NoAction); // direction change returns None
    assert_eq!(config.dir_reversed, 0);
    assert!(forward);
}

#[test]
fn command_7_sets_forward() {
    let (mut cp, mut config, mut forward, mut edt_armed) = setup();
    forward = false;
    for _ in 0..6 {
        cp.process(
            7,
            true,
            false,
            &mut config,
            &mut forward,
            &mut edt_armed,
            false,
        );
    }
    assert_eq!(config.dir_reversed, 0);
    assert!(forward);
}

#[test]
fn command_8_sets_reversed() {
    let (mut cp, mut config, mut forward, mut edt_armed) = setup();
    for _ in 0..6 {
        cp.process(
            8,
            true,
            false,
            &mut config,
            &mut forward,
            &mut edt_armed,
            false,
        );
    }
    assert_eq!(config.dir_reversed, 1);
    assert!(!forward);
}

#[test]
fn command_9_disables_bidir() {
    let (mut cp, mut config, mut forward, mut edt_armed) = setup();
    config.bi_direction = 1;
    for _ in 0..6 {
        cp.process(
            9,
            true,
            false,
            &mut config,
            &mut forward,
            &mut edt_armed,
            false,
        );
    }
    assert_eq!(config.bi_direction, 0);
}

#[test]
fn command_10_enables_bidir() {
    let (mut cp, mut config, mut forward, mut edt_armed) = setup();
    for _ in 0..6 {
        cp.process(
            10,
            true,
            false,
            &mut config,
            &mut forward,
            &mut edt_armed,
            false,
        );
    }
    assert_eq!(config.bi_direction, 1);
}

#[test]
fn command_13_enables_edt() {
    let (mut cp, mut config, mut forward, mut edt_armed) = setup();
    for _ in 0..6 {
        cp.process(
            13,
            true,
            false,
            &mut config,
            &mut forward,
            &mut edt_armed,
            true,
        );
    }
    assert!(cp.extended_telemetry);
    assert!(edt_armed);
}

#[test]
fn command_14_disables_edt() {
    let (mut cp, mut config, mut forward, mut edt_armed) = setup();
    cp.extended_telemetry = true;
    for _ in 0..6 {
        cp.process(
            14,
            true,
            false,
            &mut config,
            &mut forward,
            &mut edt_armed,
            false,
        );
    }
    assert!(!cp.extended_telemetry);
}

#[test]
fn command_20_21_temporary_direction() {
    let (mut cp, mut config, mut forward, mut edt_armed) = setup();
    config.dir_reversed = 0;
    for _ in 0..6 {
        cp.process(
            21,
            true,
            false,
            &mut config,
            &mut forward,
            &mut edt_armed,
            false,
        );
    }
    assert!(!forward); // dir_reversed=0 -> forward = dir_reversed != 0 = false

    for _ in 0..6 {
        cp.process(
            20,
            true,
            false,
            &mut config,
            &mut forward,
            &mut edt_armed,
            false,
        );
    }
    assert!(forward); // forward = dir_reversed == 0 = true
}

#[test]
fn programming_mode_sequence() {
    let (mut cp, mut config, mut forward, mut edt_armed) = setup();
    // Enter programming mode
    for _ in 0..6 {
        cp.process(
            36,
            true,
            false,
            &mut config,
            &mut forward,
            &mut edt_armed,
            false,
        );
    }
    assert_eq!(cp.programming_mode, 1);

    // Position
    cp.process_programming(5, &mut config);
    assert_eq!(cp.programming_mode, 2);
    assert_eq!(cp.position, 5);

    // Value
    cp.process_programming(200, &mut config);
    assert_eq!(cp.programming_mode, 3);
    assert_eq!(cp.new_byte, 200);

    // Commit
    let result = cp.process_programming(37, &mut config);
    assert_eq!(
        result,
        Some(CommandResult::ProgrammingCommit {
            position: 5,
            value: 200
        })
    );
    assert_eq!(cp.programming_mode, 0);
    assert_eq!(config.as_bytes()[5], 200);
}

#[test]
fn command_6_requests_esc_info() {
    let (mut cp, mut config, mut forward, mut edt_armed) = setup();
    for _ in 0..6 {
        let r = cp.process(
            6,
            true,
            false,
            &mut config,
            &mut forward,
            &mut edt_armed,
            false,
        );
        if r == CommandResult::SendEscInfo {
            break;
        }
    }
    // Last call should return SendEscInfo
}

#[test]
fn ignores_when_running() {
    let (mut cp, mut config, mut forward, mut edt_armed) = setup();
    let r = cp.process(
        1,
        true,
        true,
        &mut config,
        &mut forward,
        &mut edt_armed,
        false,
    );
    assert_eq!(r, CommandResult::NoAction);
}

#[test]
fn ignores_when_not_armed() {
    let (mut cp, mut config, mut forward, mut edt_armed) = setup();
    let r = cp.process(
        1,
        false,
        false,
        &mut config,
        &mut forward,
        &mut edt_armed,
        false,
    );
    assert_eq!(r, CommandResult::NoAction);
}
