use init::fdflags::clear_flag;
use init::reap::{reap_outcome, ReapOutcome};
use init::spawner::plan_exec;
use init::INIT_ENV_FORMAT;

#[test]
fn cleared_flag_is_absent_from_flag_word() {
    // FD_CLOEXEC is bit 0 of the descriptor-flag word.
    let cloexec: u32 = 1;
    let flags: u32 = 0b101;
    let new_flags = clear_flag(flags, cloexec);
    assert_eq!(new_flags & cloexec, 0);
    assert_eq!(new_flags, 0b100);
}

#[test]
fn clearing_keeps_every_other_bit() {
    let flags: u32 = 0xDEAD_BEEF;
    let mask: u32 = 0x0000_0F0F;
    let new_flags = clear_flag(flags, mask);
    assert_eq!(new_flags & mask, 0);
    assert_eq!(new_flags | (flags & mask), flags);
    assert_eq!(clear_flag(flags, 0), flags);
}

#[test]
fn exec_plan_joins_build_dir_and_sets_handoff_variable() {
    let plan = plan_exec("serviceA", 3);
    assert_eq!(plan.program_path, "target/debug/serviceA");
    assert_eq!(plan.env_name, INIT_ENV_FORMAT);
    assert_eq!(plan.env_name, "INIT_FD");
    assert_eq!(plan.env_value, b"3".to_vec());
}

#[test]
fn reap_retries_on_wait_failure_and_logs_dead_child() {
    assert_eq!(reap_outcome(-1), ReapOutcome::Retry);
    assert_eq!(reap_outcome(1234), ReapOutcome::ChildDied(1234));
    assert_eq!(reap_outcome(0), ReapOutcome::ChildDied(0));
}
