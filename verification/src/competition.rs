//! Competition control: the status VEXos reports, the stream of its changes,
//! and the choice of which robot task runs.

use vstd::prelude::*;

verus! {

/// Status bit: the robot is in autonomous mode.
pub const AUTONOMOUS: u32 = 1u32;

/// Status bit: the robot is disabled.
pub const DISABLED: u32 = 2u32;

/// Status bit: a competition controller is connected.
pub const CONNECTED: u32 = 4u32;

/// Status bit: the controller is field control (as opposed to a competition
/// switch).
pub const SYSTEM: u32 = 8u32;

/// The competition status flags VEXos reports.
#[derive(Debug, Clone, Copy, PartialEq, Eq, Structural)]
pub struct CompetitionStatus {
    bits: u32,
}

impl View for CompetitionStatus {
    type V = u32;

    /// A status is seen as its bits.
    closed spec fn view(&self) -> u32 {
        self.bits
    }
}

/// The mode a robot is in during a competition.
#[derive(Debug, Clone, Copy, PartialEq, Eq, Structural)]
pub enum CompetitionMode {
    /// The robot may not move.
    Disabled,
    /// The robot runs on its own.
    Autonomous,
    /// A driver controls the robot.
    Driver,
}

/// The kind of competition controller connected.
#[derive(Debug, Clone, Copy, PartialEq, Eq, Structural)]
pub enum CompetitionSystem {
    /// A field controller.
    FieldControl,
    /// A competition switch.
    CompetitionSwitch,
}

/// Whether status word `bits` has every bit of `flag`.
pub open spec fn has_flag(bits: u32, flag: u32) -> bool {
    bits & flag == flag
}

/// The mode that status word `bits` reports: disabled wins over autonomous,
/// and neither bit means driver control.
pub open spec fn mode_of(bits: u32) -> CompetitionMode {
    if has_flag(bits, DISABLED) {
        CompetitionMode::Disabled
    } else if has_flag(bits, AUTONOMOUS) {
        CompetitionMode::Autonomous
    } else {
        CompetitionMode::Driver
    }
}

/// The competition controller that status word `bits` reports, if any.
pub open spec fn system_of(bits: u32) -> Option<CompetitionSystem> {
    if has_flag(bits, CONNECTED) {
        if has_flag(bits, SYSTEM) {
            Some(CompetitionSystem::FieldControl)
        } else {
            Some(CompetitionSystem::CompetitionSwitch)
        }
    } else {
        None
    }
}

impl CompetitionStatus {
    /// Keeps every bit of a raw status word.
    pub fn from_bits_retain(bits: u32) -> (r: CompetitionStatus)
        ensures
            r@ == bits,
    {
        CompetitionStatus { bits }
    }

    /// The raw status word.
    pub fn bits(&self) -> (r: u32)
        ensures
            r == self@,
    {
        self.bits
    }

    /// Whether every bit of `flag` is set.
    pub fn contains(&self, flag: u32) -> (r: bool)
        ensures
            r == has_flag(self@, flag),
    {
        self.bits & flag == flag
    }

    /// The mode this status reports.
    pub fn mode(&self) -> (r: CompetitionMode)
        ensures
            r == mode_of(self@),
    {
        if self.contains(DISABLED) {
            CompetitionMode::Disabled
        } else if self.contains(AUTONOMOUS) {
            CompetitionMode::Autonomous
        } else {
            CompetitionMode::Driver
        }
    }

    /// Whether a competition controller is connected.
    pub fn connected(&self) -> (r: bool)
        ensures
            r == has_flag(self@, CONNECTED),
    {
        self.contains(CONNECTED)
    }

    /// The kind of competition controller connected, or `None` when none is.
    pub fn system(&self) -> (r: Option<CompetitionSystem>)
        ensures
            r == system_of(self@),
    {
        if self.connected() {
            if self.contains(SYSTEM) {
                Some(CompetitionSystem::FieldControl)
            } else {
                Some(CompetitionSystem::CompetitionSwitch)
            }
        } else {
            None
        }
    }
}

/// A stream of changes to the competition status.
#[derive(Debug)]
pub struct CompetitionUpdates {
    last_status: Option<CompetitionStatus>,
}

/// Creates a stream of status updates, which yields the status when first
/// polled and thereafter whenever it changes.
pub fn updates() -> (r: CompetitionUpdates)
    ensures
        r.last_spec() == None::<CompetitionStatus>,
{
    CompetitionUpdates { last_status: None }
}

/// What the update stream yields when polled with status `current`, having
/// last yielded `last`: the status when it changed (or nothing was yielded
/// yet), nothing otherwise.
pub open spec fn next_update(last: Option<CompetitionStatus>, current: CompetitionStatus) -> Option<
    CompetitionStatus,
> {
    if last == Some(current) {
        None
    } else {
        Some(current)
    }
}

/// The update stream yields the current status when first polled, and
/// thereafter only when the status changes: a second poll with an unchanged
/// status yields nothing, a poll with a changed status yields it.
pub proof fn lemma_updates_yield_changes(
    last: Option<CompetitionStatus>,
    s: CompetitionStatus,
    t: CompetitionStatus,
)
    ensures
        next_update(None, s) == Some(s),
        next_update(Some(s), s) == None::<CompetitionStatus>,
        s != t ==> next_update(Some(s), t) == Some(t),
        next_update(last, s) is Some ==> next_update(Some(s), s) is None,
{
}

impl CompetitionUpdates {
    /// The last status the stream yielded, if any.
    pub closed spec fn last_spec(&self) -> Option<CompetitionStatus> {
        self.last_status
    }

    /// Polls the stream with the status VEXos reports now: yields it when it
    /// differs from the last one yielded (or nothing was yielded yet), and
    /// `None` (pending) otherwise.
    pub fn poll_next(&mut self, current: CompetitionStatus) -> (r: Option<CompetitionStatus>)
        ensures
            final(self).last_spec() == Some(current),
            r == next_update(old(self).last_spec(), current),
    {
        let changed = match self.last_status {
            Some(last) => last != current,
            None => true,
        };
        if changed {
            self.last_status = Some(current);
            Some(current)
        } else {
            None
        }
    }

    /// The last status the stream yielded, or `current` (the status VEXos
    /// reports now) when it has yielded none.
    pub fn last(&self, current: CompetitionStatus) -> (r: CompetitionStatus)
        ensures
            r == match self.last_spec() {
                Some(s) => s,
                None => current,
            },
    {
        match self.last_status {
            Some(s) => s,
            None => current,
        }
    }
}

/// A robot task that the competition runtime runs.
#[derive(Debug, Clone, Copy, PartialEq, Eq, Structural)]
pub enum CompetitionTask {
    /// Runs once a competition controller is first seen.
    Init,
    /// Runs while the robot is disabled.
    Disabled,
    /// Runs in autonomous mode.
    Autonomous,
    /// Runs under driver control.
    Driver,
}

/// The task that runs in a mode.
pub open spec fn task_for(mode: CompetitionMode) -> CompetitionTask {
    match mode {
        CompetitionMode::Disabled => CompetitionTask::Disabled,
        CompetitionMode::Autonomous => CompetitionTask::Autonomous,
        CompetitionMode::Driver => CompetitionTask::Driver,
    }
}

/// Each mode runs its own task: the disabled, autonomous and driver modes
/// run the tasks of those names, no two modes run the same task, and no mode
/// runs the init task. So the task started when a task finishes follows the
/// status bits: the disabled bit gives the disabled task, otherwise the
/// autonomous bit the autonomous task, and neither gives the driver task.
pub proof fn lemma_task_follows_mode(m1: CompetitionMode, m2: CompetitionMode, bits: u32)
    ensures
        task_for(CompetitionMode::Disabled) == CompetitionTask::Disabled,
        task_for(CompetitionMode::Autonomous) == CompetitionTask::Autonomous,
        task_for(CompetitionMode::Driver) == CompetitionTask::Driver,
        task_for(m1) == task_for(m2) ==> m1 == m2,
        task_for(m1) != CompetitionTask::Init,
        has_flag(bits, DISABLED) ==> task_for(mode_of(bits)) == CompetitionTask::Disabled,
        !has_flag(bits, DISABLED) && has_flag(bits, AUTONOMOUS) ==> task_for(mode_of(bits))
            == CompetitionTask::Autonomous,
        !has_flag(bits, DISABLED) && !has_flag(bits, AUTONOMOUS) ==> task_for(mode_of(bits))
            == CompetitionTask::Driver,
{
}

/// The decisions of a competition runtime: which task runs, given the status
/// updates and the tasks' completions. Starting, polling and dropping tasks
/// is left to the caller.
#[derive(Debug)]
pub struct Competition {
    updates: CompetitionUpdates,
    current: Option<CompetitionTask>,
}

/// Whether the runtime cannot take a new status `status`: a changed status
/// that reports a connected controller and a mode other than disabled, while
/// a task runs, has no decided handling.
pub open spec fn unhandled_update(
    last: Option<CompetitionStatus>,
    current: Option<CompetitionTask>,
    status: CompetitionStatus,
) -> bool {
    &&& last != Some(status)
    &&& has_flag(status@, CONNECTED)
    &&& current is Some
    &&& mode_of(status@) != CompetitionMode::Disabled
}

/// The task that starts when the runtime, having last seen `last` and running
/// `current`, takes status `status`: the init task, when the status is a
/// change that reports a connected controller while no task runs.
pub open spec fn update_task(
    last: Option<CompetitionStatus>,
    current: Option<CompetitionTask>,
    status: CompetitionStatus,
) -> Option<CompetitionTask> {
    if next_update(last, status) is Some && has_flag(status@, CONNECTED) && current is None {
        Some(CompetitionTask::Init)
    } else {
        None
    }
}

/// The init task starts at most once: once a task runs, no status starts a
/// task through an update, and the only task an update starts is init.
pub proof fn lemma_init_starts_once(
    last: Option<CompetitionStatus>,
    current: Option<CompetitionTask>,
    status: CompetitionStatus,
)
    ensures
        current is Some ==> update_task(last, current, status) is None,
        update_task(last, current, status) is Some ==> update_task(last, current, status)
            == Some(CompetitionTask::Init),
        update_task(None, None, status) is Some <==> has_flag(status@, CONNECTED),
{
}

impl Competition {
    /// The last status the runtime's update stream yielded.
    pub closed spec fn last_spec(&self) -> Option<CompetitionStatus> {
        self.updates.last_spec()
    }

    /// The task currently running, if any.
    pub closed spec fn current_spec(&self) -> Option<CompetitionTask> {
        self.current
    }

    /// Creates a runtime with no task running and no status seen.
    pub fn new_raw() -> (r: Competition)
        ensures
            r.last_spec() == None::<CompetitionStatus>,
            r.current_spec() == None::<CompetitionTask>,
    {
        Competition { updates: updates(), current: None }
    }

    /// The task currently running, if any.
    pub fn current(&self) -> (r: Option<CompetitionTask>)
        ensures
            r == self.current_spec(),
    {
        self.current
    }

    /// Whether the runtime can take status `status`: false exactly for a
    /// changed status that reports a connected controller and a mode other
    /// than disabled while a task runs.
    pub fn handles(&self, status: CompetitionStatus) -> (r: bool)
        ensures
            r == !unhandled_update(self.last_spec(), self.current_spec(), status),
    {
        let changed = match self.updates.last_status {
            Some(last) => last != status,
            None => true,
        };
        !(changed && status.connected() && self.current.is_some() && status.mode()
            != CompetitionMode::Disabled)
    }

    /// Takes the status VEXos reports now. When it is a change that reports a
    /// connected controller while no task runs, the init task is to be
    /// started and is returned; otherwise nothing starts.
    ///
    /// A changed, connected, non-disabled status while a task runs has no
    /// decided handling and is refused by `requires`.
    pub fn poll_update(&mut self, status: CompetitionStatus) -> (r: Option<CompetitionTask>)
        requires
            !unhandled_update(old(self).last_spec(), old(self).current_spec(), status),
        ensures
            final(self).last_spec() == Some(status),
            r == update_task(old(self).last_spec(), old(self).current_spec(), status),
            final(self).current_spec() == match r {
                Some(t) => Some(t),
                None => old(self).current_spec(),
            },
    {
        match self.updates.poll_next(status) {
            None => None,
            Some(update) => {
                if update.connected() && self.current.is_none() {
                    self.current = Some(CompetitionTask::Init);
                    Some(CompetitionTask::Init)
                } else {
                    None
                }
            },
        }
    }

    /// Takes the completion of the running task: the task for the mode of the
    /// last status seen (or of `status`, the status VEXos reports now, when
    /// none was seen) is to be started, and is returned.
    pub fn task_finished(&mut self, status: CompetitionStatus) -> (r: CompetitionTask)
        requires
            old(self).current_spec() is Some,
        ensures
            final(self).last_spec() == old(self).last_spec(),
            r == task_for(
                mode_of(
                    match old(self).last_spec() {
                        Some(s) => s,
                        None => status,
                    }@,
                ),
            ),
            final(self).current_spec() == Some(r),
    {
        let last = self.updates.last(status);
        let task = match last.mode() {
            CompetitionMode::Disabled => CompetitionTask::Disabled,
            CompetitionMode::Autonomous => CompetitionTask::Autonomous,
            CompetitionMode::Driver => CompetitionTask::Driver,
        };
        self.current = Some(task);
        task
    }
}

} // verus!
