use blocklist::lrc_activity::{
    aggregate_state, process_state, BlockActivity, LrcActivityMonitor, LrcProcessState,
    PidSample, ProcessSample, ProcessStatusKind,
};
use blocklist::process_tree::{command_process_tree, descendants_of, ProcessEntry};

/// Milliseconds in `n` seconds.
fn secs(n: u64) -> u64 {
    n * 1_000
}

/// A process tree sample from `(pid, cpu_ms)` pairs.
fn process_sample(pids: &[(u32, u64)]) -> ProcessSample {
    ProcessSample {
        per_pid: pids
            .iter()
            .map(|(pid, cpu_ms)| PidSample {
                pid: *pid,
                cpu_ms: *cpu_ms,
                io_write_bytes: 0,
            })
            .collect(),
        state: LrcProcessState::Running,
    }
}

/// A process tree sample from `(pid, io_write_bytes)` pairs, with no CPU use.
fn io_sample(pids: &[(u32, u64)]) -> ProcessSample {
    ProcessSample {
        per_pid: pids
            .iter()
            .map(|(pid, io_write_bytes)| PidSample {
                pid: *pid,
                cpu_ms: 0,
                io_write_bytes: *io_write_bytes,
            })
            .collect(),
        state: LrcProcessState::Running,
    }
}

const START: u64 = 50_000;

#[test]
fn a_quiet_process_tree_accumulates_time_since_last_activity() {
    let start = START;
    let mut activity = BlockActivity::new(start);

    // The first sample's pid churn (nothing -> one pid) counts as activity;
    // every later sample is identical, so the clock runs from there.
    for second in 1..=5 {
        activity.apply_sample(process_sample(&[(100, 1_000)]), start + secs(second));
    }

    let report = activity.take_report(start + secs(5)).expect("report");
    assert_eq!(report.since_last_activity_ms, Some(secs(4)));
}

#[test]
fn first_sighting_of_a_process_contributes_no_cpu_delta() {
    let start = START;
    let mut activity = BlockActivity::new(start);

    activity.apply_sample(process_sample(&[(100, 900_000)]), start + secs(1));

    let report = activity.take_report(start + secs(1)).expect("report");
    let process = report.process.expect("process tier should be reported");
    assert_eq!(process.cpu_time_delta_ms, 0);
    assert_eq!(process.live_process_count, 1);
}

#[test]
fn cpu_time_counts_as_activity() {
    let start = START;
    let mut activity = BlockActivity::new(start);

    activity.apply_sample(process_sample(&[(100, 1_000)]), start + secs(1));
    activity.apply_sample(process_sample(&[(100, 1_750)]), start + secs(2));

    let report = activity.take_report(start + secs(3)).expect("report");
    let process = report.process.expect("process tier should be reported");
    assert_eq!(process.cpu_time_delta_ms, 750);
    // The last activity was the CPU accrual at t+2, not the report at t+3.
    assert_eq!(report.since_last_activity_ms, Some(secs(1)));
}

#[test]
fn io_writes_count_as_activity() {
    let start = START;
    let mut activity = BlockActivity::new(start);

    activity.apply_sample(io_sample(&[(100, 0)]), start + secs(1));
    activity.apply_sample(io_sample(&[(100, 4_096)]), start + secs(5));

    let report = activity.take_report(start + secs(5)).expect("report");
    let process = report.process.expect("process tier should be reported");
    assert_eq!(process.io_write_bytes_delta, 4_096);
    assert_eq!(report.since_last_activity_ms, Some(0));
}

#[test]
fn cpu_delta_is_summed_across_the_process_tree() {
    let start = START;
    let mut activity = BlockActivity::new(start);

    activity.apply_sample(process_sample(&[(100, 0), (101, 0)]), start + secs(1));
    activity.apply_sample(process_sample(&[(100, 200), (101, 300)]), start + secs(2));

    let report = activity.take_report(start + secs(2)).expect("report");
    let process = report.process.expect("process tier should be reported");
    assert_eq!(process.cpu_time_delta_ms, 500);
    assert_eq!(process.live_process_count, 2);
}

#[test]
fn cpu_delta_accumulates_across_samples_within_one_report() {
    let start = START;
    let mut activity = BlockActivity::new(start);

    for second in 1..=4 {
        activity.apply_sample(process_sample(&[(100, second * 100)]), start + secs(second));
    }

    let report = activity.take_report(start + secs(4)).expect("report");
    let process = report.process.expect("process tier should be reported");
    // 3 deltas of 100ms; the first sample established the baseline.
    assert_eq!(process.cpu_time_delta_ms, 300);
}

#[test]
fn cpu_delta_resets_between_reports() {
    let start = START;
    let mut activity = BlockActivity::new(start);

    activity.apply_sample(process_sample(&[(100, 0)]), start + secs(1));
    activity.apply_sample(process_sample(&[(100, 500)]), start + secs(2));
    let _ = activity.take_report(start + secs(2));

    let second = activity.take_report(start + secs(3)).expect("report");
    let process = second.process.expect("process tier should be reported");
    assert_eq!(process.cpu_time_delta_ms, 0);
}

#[test]
fn exited_process_tree_reports_no_live_processes_and_no_stale_cpu() {
    let start = START;
    let mut activity = BlockActivity::new(start);

    activity.apply_sample(process_sample(&[(100, 1_000)]), start + secs(1));
    activity.apply_sample(process_sample(&[(100, 2_000)]), start + secs(2));
    let _ = activity.take_report(start + secs(2));

    // The command's processes are gone: an empty tree, not a missing sample.
    activity.apply_sample(process_sample(&[]), start + secs(3));

    let report = activity.take_report(start + secs(4)).expect("report");
    let process = report.process.expect("process tier should be reported");
    assert_eq!(process.live_process_count, 0);
    assert_eq!(process.cpu_time_delta_ms, 0);
}

#[test]
fn a_pid_that_exits_stops_contributing_to_later_deltas() {
    let start = START;
    let mut activity = BlockActivity::new(start);

    activity.apply_sample(process_sample(&[(100, 1_000)]), start + secs(1));
    activity.apply_sample(process_sample(&[]), start + secs(2));
    let _ = activity.take_report(start + secs(2));

    // The same pid number reappears, now belonging to an unrelated process
    // with a large lifetime CPU total. It must be treated as newly seen.
    activity.apply_sample(process_sample(&[(100, 900_000)]), start + secs(3));

    let report = activity.take_report(start + secs(3)).expect("report");
    let process = report.process.expect("process tier should be reported");
    assert_eq!(process.cpu_time_delta_ms, 0);
}

#[test]
fn process_churn_counts_as_activity() {
    let start = START;
    let mut activity = BlockActivity::new(start);

    activity.apply_sample(process_sample(&[(100, 500)]), start + secs(1));
    let _ = activity.take_report(start + secs(1));

    activity.apply_sample(process_sample(&[(100, 500), (101, 0)]), start + secs(5));

    let report = activity.take_report(start + secs(5)).expect("report");
    assert_eq!(report.since_last_activity_ms, Some(0));
}

#[test]
fn same_count_pid_replacement_counts_as_activity() {
    let start = START;
    let mut activity = BlockActivity::new(start);

    activity.apply_sample(process_sample(&[(100, 500)]), start + secs(1));
    let _ = activity.take_report(start + secs(1));

    activity.apply_sample(process_sample(&[(101, 500)]), start + secs(5));

    let report = activity.take_report(start + secs(5)).expect("report");
    let process = report.process.expect("process tier should be reported");
    assert_eq!(process.cpu_time_delta_ms, 0);
    assert_eq!(process.live_process_count, 1);
    assert_eq!(report.since_last_activity_ms, Some(0));
}

#[test]
fn a_fully_quiet_process_tree_is_still_reported() {
    let start = START;
    let mut activity = BlockActivity::new(start);

    for second in 1..=5 {
        activity.apply_sample(
            ProcessSample {
                per_pid: vec![PidSample {
                    pid: 100,
                    cpu_ms: 0,
                    io_write_bytes: 0,
                }],
                state: LrcProcessState::Sleeping,
            },
            start + secs(second),
        );
    }

    let report = activity.take_report(start + secs(5)).expect("report");
    let process = report
        .process
        .expect("an all-zero reading is still a reading");
    assert_eq!(process.cpu_time_delta_ms, 0);
    assert_eq!(process.io_write_bytes_delta, 0);
    assert_eq!(process.live_process_count, 1);
    assert_eq!(process.state, LrcProcessState::Sleeping);
}

#[test]
fn no_report_until_the_process_tree_has_actually_been_sampled() {
    let start = START;
    let mut activity = BlockActivity::new(start);

    assert!(activity.take_report(start).is_none());

    activity.apply_sample(process_sample(&[(100, 1_000)]), start + secs(1));

    let report = activity
        .take_report(start + secs(1))
        .expect("a sampled tree produces a report");
    assert!(report.process.is_some());
}

#[test]
fn a_remote_terminal_reports_no_activity() {
    let mut monitor = LrcActivityMonitor::new();
    monitor.set_monitoring_enabled(false);

    assert!(monitor.report(7, START).is_none());
}

#[test]
fn a_remote_terminal_does_not_start_the_sampler() {
    let mut monitor = LrcActivityMonitor::new();
    monitor.set_monitoring_enabled(false);

    assert!(!monitor.arm());
}

#[test]
fn a_local_terminal_starts_the_sampler_but_reports_nothing_before_sampling() {
    let mut monitor = LrcActivityMonitor::new();
    monitor.set_monitoring_enabled(true);

    assert!(monitor.arm());
    // The sampler has not observed this block yet: no report is better than
    // a fabricated all-zeros reading.
    assert!(monitor.report(7, START).is_none());
}

#[test]
fn aggregate_state_prefers_the_strongest_evidence_of_progress() {
    assert_eq!(
        aggregate_state(&[LrcProcessState::Sleeping, LrcProcessState::Running]),
        LrcProcessState::Running
    );
    assert_eq!(
        aggregate_state(&[LrcProcessState::Sleeping, LrcProcessState::DiskWait]),
        LrcProcessState::DiskWait
    );
    assert_eq!(
        aggregate_state(&[LrcProcessState::Zombie, LrcProcessState::Sleeping]),
        LrcProcessState::Sleeping
    );
    assert_eq!(aggregate_state(&[]), LrcProcessState::Unknown);
}

#[test]
fn aggregate_state_ranks_stopped_above_zombie() {
    assert_eq!(
        aggregate_state(&[LrcProcessState::Zombie, LrcProcessState::Stopped]),
        LrcProcessState::Stopped
    );
    assert_eq!(
        aggregate_state(&[LrcProcessState::Unknown, LrcProcessState::Zombie]),
        LrcProcessState::Zombie
    );
}

#[test]
fn process_state_groups_scheduler_statuses() {
    assert_eq!(process_state(ProcessStatusKind::Waking), LrcProcessState::Running);
    assert_eq!(
        process_state(ProcessStatusKind::UninterruptibleDiskSleep),
        LrcProcessState::DiskWait
    );
    assert_eq!(process_state(ProcessStatusKind::Parked), LrcProcessState::Sleeping);
    assert_eq!(process_state(ProcessStatusKind::Tracing), LrcProcessState::Stopped);
    assert_eq!(process_state(ProcessStatusKind::Dead), LrcProcessState::Zombie);
    assert_eq!(process_state(ProcessStatusKind::Unknown(42)), LrcProcessState::Unknown);
}

#[test]
fn monitor_reports_once_sampled_and_stops_when_nothing_is_left() {
    let mut monitor = LrcActivityMonitor::new();
    monitor.set_monitoring_enabled(true);
    assert!(monitor.arm());
    // A second action does not start a second sampler.
    assert!(!monitor.arm());

    assert!(monitor.report(7, START).is_none());
    assert_eq!(monitor.tracked_blocks(), vec![7]);

    assert!(monitor.sample(&vec![], Some(process_sample(&[(100, 10)])), START + secs(5)));
    assert!(monitor.sample(&vec![], Some(process_sample(&[(100, 40)])), START + secs(10)));
    let report = monitor.report(7, START + secs(12)).expect("sampled");
    assert_eq!(report.since_last_activity_ms, Some(secs(2)));
    assert_eq!(report.process.unwrap().cpu_time_delta_ms, 30);

    monitor.disarm();
    monitor.disarm();
    // The command finished and no action is armed: sampling stops.
    assert!(!monitor.sample(&vec![7], None, START + secs(15)));
    assert!(monitor.tracked_blocks().is_empty());
    // A fresh action starts a new sampler.
    assert!(monitor.arm());
}

#[test]
fn forgetting_a_block_drops_its_history() {
    let mut monitor = LrcActivityMonitor::new();
    monitor.set_monitoring_enabled(true);
    assert!(monitor.report(3, START).is_none());
    assert!(monitor.sample(&vec![], Some(process_sample(&[(1, 1)])), START + secs(1)));
    assert!(monitor.report(3, START + secs(2)).is_some());
    monitor.forget(3);
    assert!(monitor.report(3, START + secs(3)).is_none());
}

fn entry(pid: u32, parent: u32, group: u32) -> ProcessEntry {
    ProcessEntry {
        pid,
        parent: Some(parent),
        process_group: Some(group),
    }
}

fn sorted(mut pids: Vec<u32>) -> Vec<u32> {
    pids.sort();
    pids
}

#[test]
fn descendants_follow_parent_links_in_any_table_order() {
    let table = vec![
        entry(12, 11, 20),
        entry(11, 10, 20),
        entry(13, 10, 30),
        entry(99, 1, 99),
        ProcessEntry {
            pid: 14,
            parent: None,
            process_group: None,
        },
    ];
    assert_eq!(sorted(descendants_of(&table, 10)), vec![11, 12, 13]);
    assert!(descendants_of(&table, 12).is_empty());
}

#[test]
fn the_shell_joins_the_tree_when_it_holds_the_terminal() {
    let table = vec![entry(10, 1, 10), entry(11, 10, 20)];
    let tree = command_process_tree(&table, 10, Some(10), Some(10));
    assert!(tree.contains(&10));
    assert!(!tree.contains(&11));
}

#[test]
fn the_shell_stays_out_of_the_tree_when_another_job_holds_the_terminal() {
    let table = vec![entry(10, 1, 10), entry(11, 10, 20), entry(12, 10, 30)];
    let tree = command_process_tree(&table, 10, Some(20), Some(10));
    assert_eq!(tree, vec![11]);
}

#[test]
fn a_stale_foreground_group_falls_back_to_all_descendants() {
    let table = vec![entry(11, 10, 20), entry(12, 11, 20)];
    assert_eq!(sorted(command_process_tree(&table, 10, Some(77), Some(10))), vec![11, 12]);
    assert_eq!(sorted(command_process_tree(&table, 10, None, None)), vec![11, 12]);
}

#[test]
fn each_process_of_the_tree_is_listed_once() {
    let table = vec![
        entry(11, 10, 20),
        entry(11, 10, 20),
        entry(12, 11, 20),
        entry(13, 12, 20),
        entry(12, 11, 20),
    ];
    let tree = command_process_tree(&table, 10, Some(20), Some(20));
    assert_eq!(sorted(tree), vec![10, 11, 12, 13]);
}
