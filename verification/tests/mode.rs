use bottomless::mode::CheckpointMode;

const MODES: [CheckpointMode; 4] = [
    CheckpointMode::Passive,
    CheckpointMode::Full,
    CheckpointMode::Restart,
    CheckpointMode::Truncate,
];

#[test]
fn modes_are_ordered_as_declared() {
    for (i, weaker) in MODES.iter().enumerate() {
        for (j, stronger) in MODES.iter().enumerate() {
            assert_eq!(weaker.is_weaker_than(*stronger), i < j);
        }
    }
}

#[test]
fn order_follows_the_engine_s_checkpoint_levels() {
    let levels = [
        libsql_sys::wal::CheckpointMode::Passive,
        libsql_sys::wal::CheckpointMode::Full,
        libsql_sys::wal::CheckpointMode::Restart,
        libsql_sys::wal::CheckpointMode::Truncate,
    ];
    for i in 0..4 {
        for j in 0..4 {
            assert_eq!(MODES[i].is_weaker_than(MODES[j]), levels[i] < levels[j]);
        }
    }
}

#[test]
fn truncate_is_the_strongest_mode() {
    for mode in MODES {
        assert!(!CheckpointMode::Truncate.is_weaker_than(mode));
        assert_eq!(mode.is_weaker_than(CheckpointMode::Truncate), mode != CheckpointMode::Truncate);
    }
}

#[test]
fn no_mode_is_weaker_than_itself() {
    for mode in MODES {
        assert!(!mode.is_weaker_than(mode));
    }
}
