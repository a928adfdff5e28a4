//! Liveness accounting for the long-running commands an agent monitors.
//!
//! A sampler observes the command's process tree every few seconds and hands
//! each observation (a `ProcessSample`) to `BlockActivity::apply_sample`,
//! which turns cumulative per-process counters into deltas. A report
//! (`BlockActivity::take_report`) folds everything accumulated since the
//! previous report, including how long the tree has been idle, and resets the
//! accumulators. `LrcActivityMonitor` holds one such record per monitored
//! command and decides when a sampler must run.
//!
//! Time is counted in milliseconds on a monotonic clock chosen by the caller.

use std::collections::HashMap;
use vstd::prelude::*;

verus! {

broadcast use vstd::std_specs::hash::group_hash_axioms;

/// What the processes of a command's tree are doing.
#[derive(Clone, Copy, Debug, PartialEq, Eq, Structural)]
pub enum LrcProcessState {
    Unknown,
    Running,
    DiskWait,
    Sleeping,
    Stopped,
    Zombie,
}

/// The scheduler states the operating system reports for one process.
#[derive(Clone, Copy, Debug, PartialEq, Eq, Structural)]
pub enum ProcessStatusKind {
    Run,
    Waking,
    UninterruptibleDiskSleep,
    Sleep,
    Idle,
    Parked,
    Stop,
    Tracing,
    LockBlocked,
    Zombie,
    Dead,
    Wakekill,
    Unknown(u32),
}

/// The state a process in `status` contributes to its tree.
pub open spec fn state_of_status(status: ProcessStatusKind) -> LrcProcessState {
    match status {
        ProcessStatusKind::Run | ProcessStatusKind::Waking => LrcProcessState::Running,
        ProcessStatusKind::UninterruptibleDiskSleep => LrcProcessState::DiskWait,
        ProcessStatusKind::Sleep | ProcessStatusKind::Idle | ProcessStatusKind::Parked => {
            LrcProcessState::Sleeping
        },
        ProcessStatusKind::Stop | ProcessStatusKind::Tracing | ProcessStatusKind::LockBlocked => {
            LrcProcessState::Stopped
        },
        ProcessStatusKind::Zombie | ProcessStatusKind::Dead | ProcessStatusKind::Wakekill => {
            LrcProcessState::Zombie
        },
        ProcessStatusKind::Unknown(_) => LrcProcessState::Unknown,
    }
}

/// Maps one process's scheduler status to the state it contributes.
pub fn process_state(status: ProcessStatusKind) -> (state: LrcProcessState)
    ensures
        state == state_of_status(status),
{
    match status {
        ProcessStatusKind::Run | ProcessStatusKind::Waking => LrcProcessState::Running,
        ProcessStatusKind::UninterruptibleDiskSleep => LrcProcessState::DiskWait,
        ProcessStatusKind::Sleep | ProcessStatusKind::Idle | ProcessStatusKind::Parked => {
            LrcProcessState::Sleeping
        },
        ProcessStatusKind::Stop | ProcessStatusKind::Tracing | ProcessStatusKind::LockBlocked => {
            LrcProcessState::Stopped
        },
        ProcessStatusKind::Zombie | ProcessStatusKind::Dead | ProcessStatusKind::Wakekill => {
            LrcProcessState::Zombie
        },
        ProcessStatusKind::Unknown(_) => LrcProcessState::Unknown,
    }
}

/// One state for a whole tree: the first of running, disk wait, sleeping,
/// stopped and zombie that some process is in, else unknown.
pub open spec fn aggregate_state_spec(states: Seq<LrcProcessState>) -> LrcProcessState {
    if states.contains(LrcProcessState::Running) {
        LrcProcessState::Running
    } else if states.contains(LrcProcessState::DiskWait) {
        LrcProcessState::DiskWait
    } else if states.contains(LrcProcessState::Sleeping) {
        LrcProcessState::Sleeping
    } else if states.contains(LrcProcessState::Stopped) {
        LrcProcessState::Stopped
    } else if states.contains(LrcProcessState::Zombie) {
        LrcProcessState::Zombie
    } else {
        LrcProcessState::Unknown
    }
}

/// How strongly a process state shows progress: running first, then waiting
/// on disk, sleeping, stopped and zombie; unknown last.
pub open spec fn progress_rank(state: LrcProcessState) -> int {
    match state {
        LrcProcessState::Running => 0,
        LrcProcessState::DiskWait => 1,
        LrcProcessState::Sleeping => 2,
        LrcProcessState::Stopped => 3,
        LrcProcessState::Zombie => 4,
        LrcProcessState::Unknown => 5,
    }
}

/// The state of a tree is one its processes are in (or unknown), and no
/// process shows stronger progress than it: any running process makes the
/// tree running, and a tree is unknown only when no process state is known.
pub proof fn law_tree_state_is_the_strongest_evidence(states: Seq<LrcProcessState>)
    ensures
        aggregate_state_spec(states) == LrcProcessState::Unknown || states.contains(aggregate_state_spec(states)),
        forall|i: int|
            0 <= i < states.len() ==> progress_rank(aggregate_state_spec(states)) <= progress_rank(
                #[trigger] states[i],
            ),
        states.contains(LrcProcessState::Running) ==> aggregate_state_spec(states) == LrcProcessState::Running,
{
    assert forall|i: int|
        0 <= i < states.len() implies progress_rank(aggregate_state_spec(states)) <= progress_rank(
            #[trigger] states[i],
        ) by {
        assert(states.contains(states[i]));
    }
}

/// Whether `states` holds `wanted`.
fn contains_state(states: &[LrcProcessState], wanted: LrcProcessState) -> (found: bool)
    ensures
        found == states@.contains(wanted),
{
    let mut i: usize = 0;
    while i < states.len()
        invariant
            i <= states.len(),
            forall|j: int| 0 <= j < i ==> states@[j] != wanted,
        decreases states.len() - i,
    {
        if states[i] == wanted {
            assert(states@[i as int] == wanted);
            return true;
        }
        i += 1;
    }
    false
}

/// Reduces per-process states to one state for the tree, preferring whichever
/// is the strongest evidence of progress.
pub fn aggregate_state(states: &[LrcProcessState]) -> (state: LrcProcessState)
    ensures
        state == aggregate_state_spec(states@),
{
    if contains_state(states, LrcProcessState::Running) {
        LrcProcessState::Running
    } else if contains_state(states, LrcProcessState::DiskWait) {
        LrcProcessState::DiskWait
    } else if contains_state(states, LrcProcessState::Sleeping) {
        LrcProcessState::Sleeping
    } else if contains_state(states, LrcProcessState::Stopped) {
        LrcProcessState::Stopped
    } else if contains_state(states, LrcProcessState::Zombie) {
        LrcProcessState::Zombie
    } else {
        LrcProcessState::Unknown
    }
}

/// One process's cumulative counters, as read in one sample.
#[derive(Clone, Copy, Debug, PartialEq, Eq, Structural)]
pub struct PidSample {
    pub pid: u32,
    pub cpu_ms: u64,
    pub io_write_bytes: u64,
}

/// One sample's raw observations of a command's process tree.
#[derive(Debug)]
pub struct ProcessSample {
    pub per_pid: Vec<PidSample>,
    pub state: LrcProcessState,
}

impl Clone for ProcessSample {
    fn clone(&self) -> (copy: Self)
        ensures
            copy.per_pid@ == self.per_pid@,
            copy.state == self.state,
    {
        let per_pid = self.per_pid.clone();
        assert(per_pid@ =~= self.per_pid@);
        ProcessSample { per_pid, state: self.state }
    }
}

/// The report attached to a snapshot of a monitored command.
#[derive(Clone, Copy, Debug, PartialEq, Eq, Structural)]
pub struct LrcActivity {
    /// How long the process tree has shown no activity, in milliseconds.
    pub since_last_activity_ms: Option<u64>,
    pub process: Option<LrcProcessActivity>,
}

/// What the process tree did since the previous report.
#[derive(Clone, Copy, Debug, PartialEq, Eq, Structural)]
pub struct LrcProcessActivity {
    /// CPU time used, in milliseconds.
    pub cpu_time_delta_ms: u64,
    pub state: LrcProcessState,
    pub live_process_count: u32,
    pub io_write_bytes_delta: u64,
}

/// Per-process counters of the previous sample and what was accumulated
/// since the previous report.
struct ProcessTier {
    cpu_ms_by_pid: HashMap<u32, u64>,
    io_write_bytes_by_pid: HashMap<u32, u64>,
    cpu_ms_since_report: u64,
    io_write_bytes_since_report: u64,
    state: LrcProcessState,
    live_process_count: u32,
    /// Whether the sampler has ever observed the process tree: until then every
    /// counter is zero, which would read as a tree with nothing running.
    sampled: bool,
}

/// Per-command state, accumulated across samples and reset on each report.
pub struct BlockActivity {
    process: ProcessTier,
    /// When the process tree last showed activity.
    last_activity_ms: u64,
}

/// What a `BlockActivity` holds.
pub struct BlockActivityView {
    /// Cumulative CPU milliseconds of each process in the previous sample.
    pub cpu_ms_by_pid: Map<u32, u64>,
    /// Cumulative bytes written by each process in the previous sample.
    pub io_write_bytes_by_pid: Map<u32, u64>,
    pub cpu_ms_since_report: u64,
    pub io_write_bytes_since_report: u64,
    pub state: LrcProcessState,
    pub live_process_count: u32,
    pub sampled: bool,
    pub last_activity_ms: u64,
}

impl View for BlockActivity {
    type V = BlockActivityView;

    closed spec fn view(&self) -> BlockActivityView {
        BlockActivityView {
            cpu_ms_by_pid: self.process.cpu_ms_by_pid@,
            io_write_bytes_by_pid: self.process.io_write_bytes_by_pid@,
            cpu_ms_since_report: self.process.cpu_ms_since_report,
            io_write_bytes_since_report: self.process.io_write_bytes_since_report,
            state: self.process.state,
            live_process_count: self.process.live_process_count,
            sampled: self.process.sampled,
            last_activity_ms: self.last_activity_ms,
        }
    }
}

/// Each pid of `per_pid` mapped to its CPU counter (a later entry for the
/// same pid wins).
pub open spec fn cpu_by_pid(per_pid: Seq<PidSample>) -> Map<u32, u64>
    decreases per_pid.len(),
{
    if per_pid.len() == 0 {
        Map::empty()
    } else {
        cpu_by_pid(per_pid.drop_last()).insert(per_pid.last().pid, per_pid.last().cpu_ms)
    }
}

/// Each pid of `per_pid` mapped to its bytes-written counter.
pub open spec fn io_by_pid(per_pid: Seq<PidSample>) -> Map<u32, u64>
    decreases per_pid.len(),
{
    if per_pid.len() == 0 {
        Map::empty()
    } else {
        io_by_pid(per_pid.drop_last()).insert(per_pid.last().pid, per_pid.last().io_write_bytes)
    }
}

/// How much `now` exceeds `before`, or zero.
pub open spec fn growth(now: u64, before: u64) -> int {
    if now >= before {
        now - before
    } else {
        0
    }
}

/// The CPU time used since `previous`: the growth of each process's counter,
/// where a process seen for the first time contributes nothing.
pub open spec fn cpu_delta(previous: Map<u32, u64>, per_pid: Seq<PidSample>) -> int
    decreases per_pid.len(),
{
    if per_pid.len() == 0 {
        0
    } else {
        let s = per_pid.last();
        cpu_delta(previous, per_pid.drop_last()) + if previous.contains_key(s.pid) {
            growth(s.cpu_ms, previous[s.pid])
        } else {
            0
        }
    }
}

/// The bytes written since `previous`, counted as `cpu_delta` counts time.
pub open spec fn io_delta(previous: Map<u32, u64>, per_pid: Seq<PidSample>) -> int
    decreases per_pid.len(),
{
    if per_pid.len() == 0 {
        0
    } else {
        let s = per_pid.last();
        io_delta(previous, per_pid.drop_last()) + if previous.contains_key(s.pid) {
            growth(s.io_write_bytes, previous[s.pid])
        } else {
            0
        }
    }
}

/// Whether the set of processes differs between two samples: a different
/// count, or a process that was not there before.
pub open spec fn pid_set_changed(previous: Map<u32, u64>, next: Map<u32, u64>) -> bool {
    next.len() != previous.len() || exists|pid: u32|
        #![trigger next.contains_key(pid)]
        next.contains_key(pid) && !previous.contains_key(pid)
}

/// Whether folding `sample` into `a` keeps the accumulators within `u64`.
pub open spec fn sample_fits(a: BlockActivityView, sample: ProcessSample) -> bool {
    &&& a.cpu_ms_since_report + cpu_delta(a.cpu_ms_by_pid, sample.per_pid@) <= u64::MAX
    &&& a.io_write_bytes_since_report + io_delta(a.io_write_bytes_by_pid, sample.per_pid@)
        <= u64::MAX
}

/// `a` after folding in `sample` taken at `now_ms`.
pub open spec fn applied(a: BlockActivityView, sample: ProcessSample, now_ms: u64) -> BlockActivityView {
    let cpu = cpu_delta(a.cpu_ms_by_pid, sample.per_pid@);
    let io = io_delta(a.io_write_bytes_by_pid, sample.per_pid@);
    let next_cpu = cpu_by_pid(sample.per_pid@);
    BlockActivityView {
        cpu_ms_by_pid: next_cpu,
        io_write_bytes_by_pid: io_by_pid(sample.per_pid@),
        cpu_ms_since_report: (a.cpu_ms_since_report + cpu) as u64,
        io_write_bytes_since_report: (a.io_write_bytes_since_report + io) as u64,
        state: sample.state,
        live_process_count: sample.per_pid@.len() as u32,
        sampled: true,
        last_activity_ms: if cpu > 0 || io > 0 || pid_set_changed(a.cpu_ms_by_pid, next_cpu) {
            now_ms
        } else {
            a.last_activity_ms
        },
    }
}

/// The report `a` gives at `now_ms`: none before the first sample.
pub open spec fn report_of(a: BlockActivityView, now_ms: u64) -> Option<LrcActivity> {
    if !a.sampled {
        None
    } else {
        Some(
            LrcActivity {
                since_last_activity_ms: Some(
                    if now_ms >= a.last_activity_ms {
                        (now_ms - a.last_activity_ms) as u64
                    } else {
                        0
                    },
                ),
                process: Some(
                    LrcProcessActivity {
                        cpu_time_delta_ms: a.cpu_ms_since_report,
                        state: a.state,
                        live_process_count: a.live_process_count,
                        io_write_bytes_delta: a.io_write_bytes_since_report,
                    },
                ),
            },
        )
    }
}

/// `a` after a report at `now_ms`: the accumulators are reset once sampled.
pub open spec fn after_report(a: BlockActivityView) -> BlockActivityView {
    if a.sampled {
        BlockActivityView { cpu_ms_since_report: 0, io_write_bytes_since_report: 0, ..a }
    } else {
        a
    }
}

/// The record of a command that came under monitoring at `now_ms`.
pub open spec fn fresh_activity(now_ms: u64) -> BlockActivityView {
    BlockActivityView {
        cpu_ms_by_pid: Map::empty(),
        io_write_bytes_by_pid: Map::empty(),
        cpu_ms_since_report: 0,
        io_write_bytes_since_report: 0,
        state: LrcProcessState::Unknown,
        live_process_count: 0,
        sampled: false,
        last_activity_ms: now_ms,
    }
}

/// A delta over a prefix of the sample is at most the delta over all of it.
proof fn lemma_delta_prefix(previous: Map<u32, u64>, io_previous: Map<u32, u64>, per_pid: Seq<PidSample>, i: int)
    requires
        0 <= i <= per_pid.len(),
    ensures
        0 <= cpu_delta(previous, per_pid.subrange(0, i)) <= cpu_delta(previous, per_pid),
        0 <= io_delta(io_previous, per_pid.subrange(0, i)) <= io_delta(io_previous, per_pid),
    decreases per_pid.len(),
{
    if per_pid.len() > 0 {
        if i == per_pid.len() {
            assert(per_pid.subrange(0, i) =~= per_pid);
            lemma_delta_prefix(previous, io_previous, per_pid.drop_last(), i - 1);
            assert(per_pid.drop_last().subrange(0, i - 1) =~= per_pid.drop_last());
        } else {
            lemma_delta_prefix(previous, io_previous, per_pid.drop_last(), i);
            assert(per_pid.drop_last().subrange(0, i) =~= per_pid.subrange(0, i));
        }
    }
}

/// One more element of a sequence's prefix: the prefix then holds exactly
/// what it held before and that element.
proof fn lemma_prefix_grows(s: Seq<u64>, i: int)
    requires
        0 <= i < s.len(),
    ensures
        forall|x: u64|
            #![trigger s.subrange(0, i + 1).contains(x)]
            s.subrange(0, i + 1).contains(x) <==> (s.subrange(0, i).contains(x) || x == s[i]),
{
    let pre = s.subrange(0, i);
    let post = s.subrange(0, i + 1);
    assert(post =~= pre.push(s[i]));
    assert forall|x: u64| #![trigger post.contains(x)] post.contains(x) <==> (pre.contains(x) || x == s[i]) by {
        if post.contains(x) {
            let k = choose|k: int| 0 <= k < post.len() && #[trigger] post[k] == x;
            if k < i {
                assert(pre[k] == x);
            }
        }
        if pre.contains(x) {
            let k = choose|k: int| 0 <= k < pre.len() && #[trigger] pre[k] == x;
            assert(post[k] == x);
        }
        if x == s[i] {
            assert(post[i] == x);
        }
    }
}

/// A pid is in the map built from a sample exactly when some entry has it.
proof fn lemma_cpu_by_pid_dom(per_pid: Seq<PidSample>, pid: u32)
    ensures
        cpu_by_pid(per_pid).contains_key(pid) <==> exists|j: int|
            0 <= j < per_pid.len() && #[trigger] per_pid[j].pid == pid,
    decreases per_pid.len(),
{
    if per_pid.len() > 0 {
        lemma_cpu_by_pid_dom(per_pid.drop_last(), pid);
        if cpu_by_pid(per_pid).contains_key(pid) && per_pid.last().pid != pid {
            let j = choose|j: int|
                0 <= j < per_pid.drop_last().len() && #[trigger] per_pid.drop_last()[j].pid == pid;
            assert(per_pid[j].pid == pid);
        }
        if exists|j: int| 0 <= j < per_pid.len() && #[trigger] per_pid[j].pid == pid {
            let j = choose|j: int| 0 <= j < per_pid.len() && #[trigger] per_pid[j].pid == pid;
            if j < per_pid.len() - 1 {
                assert(per_pid.drop_last()[j].pid == pid);
            }
        }
    }
}

/// Whether `a + b` fits in a `u64`, for values given as `u64` and an
/// accumulated delta.
fn fits_u64(a: u64, b: u64) -> (fits: bool)
    ensures
        fits == (a + b <= u64::MAX),
{
    a <= u64::MAX - b
}

impl BlockActivity {
    /// Whether folding `sample` into this record keeps its accumulators
    /// within `u64` (see `sample_fits`).
    pub fn sample_fits(&self, sample: &ProcessSample) -> (fits: bool)
        ensures
            fits == sample_fits(self@, *sample),
    {
        let ghost per_pid = sample.per_pid@;
        let mut cpu: u64 = 0;
        let mut io: u64 = 0;
        let mut i: usize = 0;
        while i < sample.per_pid.len()
            invariant
                i <= sample.per_pid.len(),
                per_pid == sample.per_pid@,
                cpu == cpu_delta(self@.cpu_ms_by_pid, per_pid.subrange(0, i as int)),
                io == io_delta(self@.io_write_bytes_by_pid, per_pid.subrange(0, i as int)),
                cpu + self@.cpu_ms_since_report <= u64::MAX,
                io + self@.io_write_bytes_since_report <= u64::MAX,
            decreases sample.per_pid.len() - i,
        {
            let s = sample.per_pid[i];
            let ghost prefix = per_pid.subrange(0, i as int);
            assert(per_pid.subrange(0, i + 1).drop_last() =~= prefix);
            proof {
                lemma_delta_prefix(self@.cpu_ms_by_pid, self@.io_write_bytes_by_pid, per_pid, i + 1);
                lemma_delta_prefix(self@.cpu_ms_by_pid, self@.io_write_bytes_by_pid, per_pid.subrange(0, i + 1), i as int);
                assert(per_pid.subrange(0, i + 1).subrange(0, i as int) =~= prefix);
            }
            let cpu_grown = match self.process.cpu_ms_by_pid.get(&s.pid) {
                Some(previous) => if s.cpu_ms >= *previous {
                    s.cpu_ms - *previous
                } else {
                    0
                },
                None => 0,
            };
            let io_grown = match self.process.io_write_bytes_by_pid.get(&s.pid) {
                Some(previous) => if s.io_write_bytes >= *previous {
                    s.io_write_bytes - *previous
                } else {
                    0
                },
                None => 0,
            };
            if !fits_u64(cpu, cpu_grown) || !fits_u64(cpu + cpu_grown, self.process.cpu_ms_since_report) {
                proof {
                    lemma_delta_prefix(self@.cpu_ms_by_pid, self@.io_write_bytes_by_pid, per_pid, i + 1);
                }
                return false;
            }
            if !fits_u64(io, io_grown) || !fits_u64(io + io_grown, self.process.io_write_bytes_since_report) {
                proof {
                    lemma_delta_prefix(self@.cpu_ms_by_pid, self@.io_write_bytes_by_pid, per_pid, i + 1);
                }
                return false;
            }
            cpu = cpu + cpu_grown;
            io = io + io_grown;
            i += 1;
        }
        assert(per_pid.subrange(0, per_pid.len() as int) =~= per_pid);
        true
    }

    /// A command that has only just come under monitoring: it has no history
    /// of inactivity, so its idle clock starts at `now_ms`.
    pub fn new(now_ms: u64) -> (activity: Self)
        ensures
            activity@ == fresh_activity(now_ms),
    {
        BlockActivity {
            process: ProcessTier {
                cpu_ms_by_pid: HashMap::new(),
                io_write_bytes_by_pid: HashMap::new(),
                cpu_ms_since_report: 0,
                io_write_bytes_since_report: 0,
                state: LrcProcessState::Unknown,
                live_process_count: 0,
                sampled: false,
            },
            last_activity_ms: now_ms,
        }
    }

    /// Folds one sample, taken at `now_ms`, into the accumulated state.
    pub fn apply_sample(&mut self, sample: ProcessSample, now_ms: u64)
        requires
            sample_fits(old(self)@, sample),
        ensures
            final(self)@ == applied(old(self)@, sample, now_ms),
    {
        let ghost start = self@;
        let ghost per_pid = sample.per_pid@;
        let mut cpu_ms_by_pid: HashMap<u32, u64> = HashMap::new();
        let mut io_write_bytes_by_pid: HashMap<u32, u64> = HashMap::new();
        let mut cpu: u64 = 0;
        let mut io: u64 = 0;
        let mut i: usize = 0;
        while i < sample.per_pid.len()
            invariant
                i <= sample.per_pid.len(),
                per_pid == sample.per_pid@,
                self@ == start,
                sample_fits(start, sample),
                cpu == cpu_delta(start.cpu_ms_by_pid, per_pid.subrange(0, i as int)),
                io == io_delta(start.io_write_bytes_by_pid, per_pid.subrange(0, i as int)),
                cpu_ms_by_pid@ == cpu_by_pid(per_pid.subrange(0, i as int)),
                io_write_bytes_by_pid@ == io_by_pid(per_pid.subrange(0, i as int)),
            decreases sample.per_pid.len() - i,
        {
            let s = sample.per_pid[i];
            let ghost prefix = per_pid.subrange(0, i as int);
            let ghost next = per_pid.subrange(0, i + 1);
            assert(next.drop_last() =~= prefix);
            assert(next.last() == s);
            proof {
                lemma_delta_prefix(
                    start.cpu_ms_by_pid,
                    start.io_write_bytes_by_pid,
                    per_pid,
                    i + 1,
                );
            }
            match self.process.cpu_ms_by_pid.get(&s.pid) {
                Some(previous) => {
                    let grown = if s.cpu_ms >= *previous {
                        s.cpu_ms - *previous
                    } else {
                        0
                    };
                    cpu = cpu + grown;
                },
                None => {},
            }
            match self.process.io_write_bytes_by_pid.get(&s.pid) {
                Some(previous) => {
                    let grown = if s.io_write_bytes >= *previous {
                        s.io_write_bytes - *previous
                    } else {
                        0
                    };
                    io = io + grown;
                },
                None => {},
            }
            cpu_ms_by_pid.insert(s.pid, s.cpu_ms);
            io_write_bytes_by_pid.insert(s.pid, s.io_write_bytes);
            i += 1;
        }
        assert(per_pid.subrange(0, per_pid.len() as int) =~= per_pid);

        let mut changed = cpu_ms_by_pid.len() != self.process.cpu_ms_by_pid.len();
        let mut j: usize = 0;
        while j < sample.per_pid.len()
            invariant
                j <= sample.per_pid.len(),
                per_pid == sample.per_pid@,
                self@ == start,
                changed == (cpu_ms_by_pid@.len() != start.cpu_ms_by_pid.len() || exists|k: int|
                    0 <= k < j && !start.cpu_ms_by_pid.contains_key(#[trigger] per_pid[k].pid)),
            decreases sample.per_pid.len() - j,
        {
            if !self.process.cpu_ms_by_pid.contains_key(&sample.per_pid[j].pid) {
                changed = true;
            }
            j += 1;
        }
        proof {
            let next_cpu = cpu_by_pid(per_pid);
            if exists|k: int| 0 <= k < per_pid.len() && !start.cpu_ms_by_pid.contains_key(#[trigger] per_pid[k].pid) {
                let k = choose|k: int| 0 <= k < per_pid.len() && !start.cpu_ms_by_pid.contains_key(#[trigger] per_pid[k].pid);
                lemma_cpu_by_pid_dom(per_pid, per_pid[k].pid);
                assert(next_cpu.contains_key(per_pid[k].pid));
            }
            if exists|pid: u32| #![trigger next_cpu.contains_key(pid)] next_cpu.contains_key(pid) && !start.cpu_ms_by_pid.contains_key(pid) {
                let pid = choose|pid: u32| #![trigger next_cpu.contains_key(pid)] next_cpu.contains_key(pid) && !start.cpu_ms_by_pid.contains_key(pid);
                lemma_cpu_by_pid_dom(per_pid, pid);
                let k = choose|k: int| 0 <= k < per_pid.len() && #[trigger] per_pid[k].pid == pid;
                assert(!start.cpu_ms_by_pid.contains_key(per_pid[k].pid));
            }
            assert(changed == pid_set_changed(start.cpu_ms_by_pid, next_cpu));
        }

        let count = sample.per_pid.len() as u32;
        self.process.cpu_ms_by_pid = cpu_ms_by_pid;
        self.process.io_write_bytes_by_pid = io_write_bytes_by_pid;
        self.process.cpu_ms_since_report = self.process.cpu_ms_since_report + cpu;
        self.process.io_write_bytes_since_report = self.process.io_write_bytes_since_report + io;
        self.process.state = sample.state;
        self.process.live_process_count = count;
        self.process.sampled = true;
        // Process churn is itself progress: a build spawning and reaping
        // compilers may never accumulate much CPU in any single process.
        if cpu > 0 || io > 0 || changed {
            self.last_activity_ms = now_ms;
        }
    }

    /// Produces the report for a snapshot taken at `now_ms` and resets the
    /// per-report accumulators. `None` until the sampler has observed the
    /// process tree; an all-zero reading from a real sample is reported.
    pub fn take_report(&mut self, now_ms: u64) -> (report: Option<LrcActivity>)
        ensures
            report == report_of(old(self)@, now_ms),
            final(self)@ == after_report(old(self)@),
    {
        if !self.process.sampled {
            return None;
        }
        let since = if now_ms >= self.last_activity_ms {
            now_ms - self.last_activity_ms
        } else {
            0
        };
        let report = LrcActivity {
            since_last_activity_ms: Some(since),
            process: Some(
                LrcProcessActivity {
                    cpu_time_delta_ms: self.process.cpu_ms_since_report,
                    state: self.process.state,
                    live_process_count: self.process.live_process_count,
                    io_write_bytes_delta: self.process.io_write_bytes_since_report,
                },
            ),
        };
        self.process.cpu_ms_since_report = 0;
        self.process.io_write_bytes_since_report = 0;
        Some(report)
    }
}

/// What a `LrcActivityMonitor` holds.
pub struct MonitorView {
    /// The record of each monitored command, by block id.
    pub blocks: Map<u64, BlockActivityView>,
    /// Agent actions in flight that could produce a snapshot.
    pub armed_actions: usize,
    /// Whether a sampler task is running, so that at most one exists.
    pub sampler_running: bool,
    /// Whether commands on this terminal can be monitored at all (remote
    /// sessions cannot: their processes live on another host).
    pub monitoring_enabled: bool,
}

/// Liveness records for the commands an agent is currently monitoring on one
/// terminal, and the bookkeeping that keeps at most one sampler running.
pub struct LrcActivityMonitor {
    blocks: HashMap<u64, BlockActivity>,
    armed_actions: usize,
    sampler_running: bool,
    monitoring_enabled: bool,
}

impl View for LrcActivityMonitor {
    type V = MonitorView;

    closed spec fn view(&self) -> MonitorView {
        MonitorView {
            blocks: self.blocks@.map_values(|b: BlockActivity| b@),
            armed_actions: self.armed_actions,
            sampler_running: self.sampler_running,
            monitoring_enabled: self.monitoring_enabled,
        }
    }
}

/// The records left after one sampling round: finished commands are dropped
/// and, when the process tree could be read, every other record folds in the
/// sample.
pub open spec fn sampled_blocks(
    blocks: Map<u64, BlockActivityView>,
    finished: Seq<u64>,
    sample: Option<ProcessSample>,
    now_ms: u64,
) -> Map<u64, BlockActivityView> {
    Map::new(
        |id: u64| blocks.contains_key(id) && !finished.contains(id),
        |id: u64|
            match sample {
                Some(s) => applied(blocks[id], s, now_ms),
                None => blocks[id],
            },
    )
}

impl LrcActivityMonitor {
    /// A monitor with nothing registered, on which monitoring is off until
    /// `set_monitoring_enabled` turns it on.
    pub fn new() -> (monitor: Self)
        ensures
            monitor@.blocks == Map::<u64, BlockActivityView>::empty(),
            monitor@.armed_actions == 0,
            !monitor@.sampler_running,
            !monitor@.monitoring_enabled,
    {
        let monitor = LrcActivityMonitor {
            blocks: HashMap::new(),
            armed_actions: 0,
            sampler_running: false,
            monitoring_enabled: false,
        };
        assert(monitor@.blocks =~= Map::<u64, BlockActivityView>::empty());
        monitor
    }

    /// Records whether commands on this terminal can be monitored.
    pub fn set_monitoring_enabled(&mut self, enabled: bool)
        ensures
            final(self)@ == (MonitorView { monitoring_enabled: enabled, ..old(self)@ }),
    {
        self.monitoring_enabled = enabled;
    }

    /// Registers an in-flight agent action and reports whether a sampler task
    /// must be started: only when monitoring is on and none is running.
    pub fn arm(&mut self) -> (start_sampler: bool)
        requires
            old(self)@.armed_actions < usize::MAX,
        ensures
            start_sampler == (old(self)@.monitoring_enabled && !old(self)@.sampler_running),
            final(self)@ == (MonitorView {
                armed_actions: (old(self)@.armed_actions + 1) as usize,
                sampler_running: old(self)@.sampler_running || start_sampler,
                ..old(self)@
            }),
    {
        self.armed_actions = self.armed_actions + 1;
        if !self.monitoring_enabled || self.sampler_running {
            return false;
        }
        self.sampler_running = true;
        true
    }

    /// The number of agent actions in flight.
    pub fn armed_actions(&self) -> (armed: usize)
        ensures
            armed == self@.armed_actions,
    {
        self.armed_actions
    }

    /// Ends an in-flight agent action registered by `arm`.
    pub fn disarm(&mut self)
        ensures
            final(self)@ == (MonitorView {
                armed_actions: if old(self)@.armed_actions > 0 {
                    (old(self)@.armed_actions - 1) as usize
                } else {
                    0
                },
                ..old(self)@
            }),
    {
        if self.armed_actions > 0 {
            self.armed_actions = self.armed_actions - 1;
        }
    }

    /// Builds the activity report for `block_id` at `now_ms`, registering the
    /// command on first sight. `None` when monitoring is off, or when the
    /// sampler has not yet observed the command's process tree.
    pub fn report(&mut self, block_id: u64, now_ms: u64) -> (report: Option<LrcActivity>)
        ensures
            ({
                let before = old(self)@;
                let record = if before.blocks.contains_key(block_id) {
                    before.blocks[block_id]
                } else {
                    fresh_activity(now_ms)
                };
                if !before.monitoring_enabled {
                    report is None && final(self)@ == before
                } else {
                    &&& report == report_of(record, now_ms)
                    &&& final(self)@ == (MonitorView {
                        blocks: before.blocks.insert(block_id, after_report(record)),
                        ..before
                    })
                }
            }),
    {
        if !self.monitoring_enabled {
            return None;
        }
        let ghost before = self.blocks@;
        let mut record = match self.blocks.remove(&block_id) {
            Some(record) => record,
            None => BlockActivity::new(now_ms),
        };
        let report = record.take_report(now_ms);
        self.blocks.insert(block_id, record);
        assert(self.blocks@.map_values(|b: BlockActivity| b@) =~= before.map_values(
            |b: BlockActivity| b@,
        ).insert(block_id, record@));
        report
    }

    /// Removes the record of a command that is no longer being monitored.
    pub fn forget(&mut self, block_id: u64)
        ensures
            final(self)@ == (MonitorView { blocks: old(self)@.blocks.remove(block_id), ..old(self)@ }),
    {
        let ghost before = self.blocks@;
        self.blocks.remove(&block_id);
        assert(self.blocks@.map_values(|b: BlockActivity| b@) =~= before.map_values(
            |b: BlockActivity| b@,
        ).remove(block_id));
    }

    /// The ids of the monitored commands, each once.
    pub fn tracked_blocks(&self) -> (ids: Vec<u64>)
        ensures
            ids@.to_set() == self@.blocks.dom(),
            ids@.no_duplicates(),
    {
        let mut ids: Vec<u64> = Vec::new();
        for id in it: self.blocks.keys()
            invariant
                it.seq().unref().to_set() == self.blocks@.dom(),
                it.seq().unref().no_duplicates(),
                ids@ == it.seq().unref().take(it.index() as int),
                it.index() == it.seq().len() ==> ids@ == it.seq().unref(),
        {
            ids.push(*id);
            assert(ids@ =~= it.seq().unref().take(it.index() + 1));
            assert(it.index() + 1 == it.seq().len() ==> ids@ =~= it.seq().unref());
        }
        ids
    }

    /// Whether every record that a sampling round with `sample` would update
    /// (those not `finished`) can fold it in (see `sample_fits`).
    pub fn sample_fits_all(&self, finished: &Vec<u64>, sample: &ProcessSample) -> (fits: bool)
        ensures
            fits == forall|id: u64|
                #![trigger self@.blocks.contains_key(id)]
                self@.blocks.contains_key(id) && !finished@.contains(id) ==> sample_fits(
                    self@.blocks[id],
                    *sample,
                ),
    {
        let ids = self.tracked_blocks();
        let mut j: usize = 0;
        while j < ids.len()
            invariant
                j <= ids.len(),
                ids@.to_set() == self@.blocks.dom(),
                forall|k: int|
                    0 <= k < j && !finished@.contains(#[trigger] ids@[k]) ==> sample_fits(
                        self@.blocks[ids@[k]],
                        *sample,
                    ),
            decreases ids.len() - j,
        {
            let id = ids[j];
            assert(ids@.to_set().contains(id));
            let mut is_finished = false;
            let mut f: usize = 0;
            while f < finished.len()
                invariant
                    f <= finished.len(),
                    is_finished == finished@.subrange(0, f as int).contains(id),
                decreases finished.len() - f,
            {
                proof {
                    let pre = finished@.subrange(0, f as int);
                    assert(finished@.subrange(0, f + 1) =~= pre.push(finished@[f as int]));
                    pre.lemma_push_to_set_commute(finished@[f as int]);
                    assert(pre.push(finished@[f as int]).to_set().contains(id) == pre.push(finished@[f as int]).contains(id));
                    assert(pre.to_set().contains(id) == pre.contains(id));
                }
                if finished[f] == id {
                    is_finished = true;
                }
                f += 1;
            }
            assert(finished@.subrange(0, finished.len() as int) =~= finished@);
            if !is_finished {
                let record = self.blocks.get(&id).unwrap();
                if !record.sample_fits(sample) {
                    return false;
                }
            }
            j += 1;
        }
        proof {
            assert forall|id: u64|
                #![trigger self@.blocks.contains_key(id)]
                self@.blocks.contains_key(id) && !finished@.contains(id) implies sample_fits(
                    self@.blocks[id],
                    *sample,
                ) by {
                assert(ids@.to_set().contains(id));
                let k = choose|k: int| 0 <= k < ids@.len() && ids@[k] == id;
            }
        }
        true
    }

    /// Takes one sampling round at `now_ms`: drops the records of `finished`
    /// commands and, when the process tree was read (`sample`), folds the
    /// sample into every other record. Returns whether sampling should go on:
    /// while a command is monitored or an action is armed.
    pub fn sample(&mut self, finished: &Vec<u64>, sample: Option<ProcessSample>, now_ms: u64) -> (keep_sampling: bool)
        requires
            match sample {
                Some(s) => forall|id: u64|
                    #![trigger old(self)@.blocks.contains_key(id)]
                    old(self)@.blocks.contains_key(id) && !finished@.contains(id) ==> sample_fits(
                        old(self)@.blocks[id],
                        s,
                    ),
                None => true,
            },
        ensures
            final(self)@.blocks == sampled_blocks(old(self)@.blocks, finished@, sample, now_ms),
            keep_sampling == (!final(self)@.blocks.is_empty() || old(self)@.armed_actions > 0),
            final(self)@.sampler_running == keep_sampling,
            final(self)@.armed_actions == old(self)@.armed_actions,
            final(self)@.monitoring_enabled == old(self)@.monitoring_enabled,
    {
        let ghost start = self@.blocks;
        let mut i: usize = 0;
        while i < finished.len()
            invariant
                i <= finished.len(),
                self@.armed_actions == old(self)@.armed_actions,
                self@.monitoring_enabled == old(self)@.monitoring_enabled,
                start == old(self)@.blocks,
                self@.blocks == Map::new(
                    |id: u64| start.contains_key(id) && !finished@.subrange(0, i as int).contains(id),
                    |id: u64| start[id],
                ),
            decreases finished.len() - i,
        {
            let ghost before = self.blocks@;
            let ghost view_before = self@.blocks;
            self.blocks.remove(&finished[i]);
            assert(self.blocks@ =~= before.remove(finished@[i as int]));
            assert(self@.blocks =~= view_before.remove(finished@[i as int]));
            proof { lemma_prefix_grows(finished@, i as int); }
            assert(self@.blocks =~= Map::new(
                |id: u64| start.contains_key(id) && !finished@.subrange(0, i + 1).contains(id),
                |id: u64| start[id],
            ));
            i += 1;
        }
        assert(finished@.subrange(0, finished.len() as int) =~= finished@);
        let ghost kept = self@.blocks;
        match sample {
            Some(s) => {
                let ids = self.tracked_blocks();
                let mut j: usize = 0;
                while j < ids.len()
                    invariant
                        j <= ids.len(),
                        ids@.to_set() == kept.dom(),
                        ids@.no_duplicates(),
                        self@.armed_actions == old(self)@.armed_actions,
                        self@.monitoring_enabled == old(self)@.monitoring_enabled,
                        kept == sampled_blocks(start, finished@, None, now_ms),
                        forall|id: u64|
                            #![trigger kept.contains_key(id)]
                            kept.contains_key(id) ==> sample_fits(kept[id], s),
                        self@.blocks.dom() == kept.dom(),
                        forall|id: u64|
                            #![trigger self@.blocks.contains_key(id)]
                            self@.blocks.contains_key(id) ==> self@.blocks[id] == if ids@.subrange(
                                0,
                                j as int,
                            ).contains(id) {
                                applied(kept[id], s, now_ms)
                            } else {
                                kept[id]
                            },
                    decreases ids.len() - j,
                {
                    let id = ids[j];
                    assert(ids@.to_set().contains(id));
                    let ghost before = self@.blocks;
                    let ghost raw_before = self.blocks@;
                    assert(!ids@.subrange(0, j as int).contains(id)) by {
                        let pre = ids@.subrange(0, j as int);
                        if pre.contains(id) {
                            let k = choose|k: int| 0 <= k < pre.len() && #[trigger] pre[k] == id;
                            assert(ids@[k] == ids@[j as int]);
                        }
                    }
                    let mut record = self.blocks.remove(&id).unwrap();
                    record.apply_sample(s.clone(), now_ms);
                    self.blocks.insert(id, record);
                    proof { lemma_prefix_grows(ids@, j as int); }
                    assert(self.blocks@ =~= raw_before.insert(id, record));
                    assert(self@.blocks.dom() =~= kept.dom());
                    j += 1;
                }
                assert forall|id: u64| #![auto] kept.contains_key(id) implies ids@.subrange(0, ids.len() as int).contains(id) by {
                    assert(ids@.subrange(0, ids.len() as int) =~= ids@);
                    assert(ids@.to_set().contains(id));
                }
                assert(self@.blocks =~= sampled_blocks(start, finished@, sample, now_ms));
            },
            None => {
                assert(self@.blocks =~= sampled_blocks(start, finished@, sample, now_ms));
            },
        }
        let keep_sampling = !self.blocks.is_empty() || self.armed_actions > 0;
        self.sampler_running = keep_sampling;
        proof {
            assert(self.blocks@.is_empty() <==> self@.blocks.is_empty()) by {
                if self@.blocks.is_empty() {
                    assert(self.blocks@.dom() =~= self@.blocks.dom());
                }
                if self.blocks@.is_empty() {
                    assert(self.blocks@.dom() =~= self@.blocks.dom());
                }
            }
        }
        keep_sampling
    }
}

/// A report folds in only what was sampled since the previous one: right
/// after a report, the next one shows no CPU time and no bytes written, and
/// the idle clock still runs from the last activity.
pub proof fn law_report_resets_the_deltas(a: BlockActivityView, now_ms: u64)
    requires
        a.sampled,
    ensures
        report_of(after_report(a), now_ms) matches Some(r) && r.process matches Some(p)
            && p.cpu_time_delta_ms == 0 && p.io_write_bytes_delta == 0,
        after_report(a).last_activity_ms == a.last_activity_ms,
{
}

/// A command is reported only once the sampler has observed its process
/// tree, whatever that first sample shows.
pub proof fn law_reports_start_with_the_first_sample(
    registered_ms: u64,
    sample: ProcessSample,
    sampled_ms: u64,
    now_ms: u64,
)
    ensures
        report_of(fresh_activity(registered_ms), now_ms) is None,
        report_of(applied(fresh_activity(registered_ms), sample, sampled_ms), now_ms) is Some,
{
}

/// The idle clock restarts exactly at a sample that shows CPU time, bytes
/// written, or a change in the set of processes; otherwise it keeps running.
pub proof fn law_idle_clock_restarts_on_activity(a: BlockActivityView, sample: ProcessSample, now_ms: u64)
    ensures
        applied(a, sample, now_ms).last_activity_ms == if cpu_delta(a.cpu_ms_by_pid, sample.per_pid@) > 0
            || io_delta(a.io_write_bytes_by_pid, sample.per_pid@) > 0 || pid_set_changed(
            a.cpu_ms_by_pid,
            cpu_by_pid(sample.per_pid@),
        ) {
            now_ms
        } else {
            a.last_activity_ms
        },
{
}

} // verus!
