//! Clocks, quotas, placement and wait queues.
use axkernel::config::TaskSystemConfig;
use axkernel::cpu::clock::RunQueueClock;
use axkernel::cpu::dispatch::grub_charge_ns;
use axkernel::error::TaskError;
use axkernel::ids::{CpuId, CpuSet, ThreadId};
use axkernel::scheduler::bandwidth::{RootRtBandwidth, RtRunQueueBandwidth};
use axkernel::thread::placement::ThreadPlacementState;
use axkernel::time::{MonotonicDeadline, MonotonicInstant, SchedulerTimestamp};
use axkernel::wait_queue::{blocking_permit, CurrentParkStart, WaitAction, WaitEvent, WaitQueue};

const CPU0: CpuId = CpuId { index: 0 };
const CPU1: CpuId = CpuId { index: 1 };

fn instant(ns: u64) -> MonotonicInstant {
    MonotonicInstant::from_nanos(ns).unwrap()
}

fn running_placement() -> ThreadPlacementState {
    let mut placement = ThreadPlacementState::new(CpuSet::all(2));
    placement.activate(CPU0);
    placement.set_next_task(CPU0);
    placement
}

#[test]
fn strict_runtime_edge_matches_linux_rt() {
    let mut rq = RtRunQueueBandwidth::new(100, 95);

    assert!(!rq.charge(95));
    assert!(rq.may_run(false));
    assert!(rq.charge(1));
    assert!(!rq.may_run(false));
    assert!(rq.may_run(true));
}

#[test]
fn period_unthrottles_only_below_runtime() {
    let mut rq = RtRunQueueBandwidth::new(100, 95);
    rq.charge(191);

    assert!(!rq.replenish(1));
    assert!(rq.is_throttled());
    assert_eq!(rq.time_ns(), 96);
    assert!(rq.replenish(1));
    assert!(!rq.is_throttled());
}

#[test]
fn firing_update_keeps_a_concurrent_activation_live() {
    let mut root = RootRtBandwidth::new(TaskSystemConfig::new(1));
    root.activate(CpuId::new(0), instant(0));
    let firing = root.begin_period(CpuId::new(0), instant(1_000_000_000)).unwrap();

    root.activate(CpuId::new(0), instant(1_000_000_000));
    root.finish_period(firing, false);

    assert_eq!(root.deadline.map(|deadline| deadline.as_nanos()), Some(2_000_000_000));
}

#[test]
fn hotplug_migrates_the_single_pinned_period_owner() {
    let mut root = RootRtBandwidth::new(TaskSystemConfig::new(2));
    assert!(root.activate(CpuId::new(0), instant(0)));

    assert!(root.migrate_owner(CpuId::new(0), CpuId::new(1)));
    assert_eq!(root.deadline_for(CpuId::new(0)), None);
    assert_eq!(
        root.deadline_for(CpuId::new(1)).map(|deadline| deadline.as_nanos()),
        Some(1_000_000_000)
    );
    assert!(root.begin_period(CpuId::new(0), instant(1_000_000_000)).is_none());
    assert_eq!(
        root.begin_period(CpuId::new(1), instant(1_000_000_000)).unwrap().overruns(),
        1
    );
}

#[test]
fn negative_source_delta_does_not_move_the_runqueue_clock_backwards() {
    let mut clock = RunQueueClock::new();

    assert_eq!(clock.update(SchedulerTimestamp::from_nanos(100)).as_nanos(), 100);
    assert_eq!(clock.update(SchedulerTimestamp::from_nanos(90)).as_nanos(), 100);
}

#[test]
fn scheduler_counter_wrap_advances_the_runqueue_clock() {
    let mut clock = RunQueueClock::new();

    clock.update(SchedulerTimestamp::from_nanos(u64::MAX - 2));

    assert_eq!(clock.update(SchedulerTimestamp::from_nanos(2)).as_nanos(), 2);
}

#[test]
fn grub_charge_uses_linux_fixed_point_truncation() {
    assert_eq!(grub_charge_ns(1, 1, 1, 0, 2), 0);
}

#[test]
fn current_remains_on_rq_across_put_prev() {
    let mut placement = running_placement();
    assert_eq!(placement.queued_cpu(), Some(CPU0));
    assert_eq!(placement.execution_cpu(), Some(CPU0));

    placement.put_prev(CPU0);
    assert_eq!(placement.queued_cpu(), Some(CPU0));
    assert_eq!(placement.on_cpu(), Some(CPU0));

    placement.finish_task(CPU0);
    assert_eq!(placement.queued_cpu(), Some(CPU0));
    assert_eq!(placement.execution_cpu(), None);
}

#[test]
fn migration_changes_on_rq_before_switch_tail_releases_on_cpu() {
    let mut placement = running_placement();
    placement.begin_migration(CPU0, CPU1);

    assert_eq!(placement.queued_cpu(), None);
    assert_eq!(placement.task_cpu(), Some(CPU1));
    assert_eq!(placement.committed_migration_target(), Some(CPU1));
    assert_eq!(placement.on_cpu(), Some(CPU0));

    placement.finish_task(CPU0);
    assert_eq!(placement.on_cpu(), None);
}

#[test]
fn later_affinity_request_does_not_retarget_committed_migration() {
    let mut placement = ThreadPlacementState::new(CpuSet::all(2));
    placement.begin_remote_wakeup(CPU1);

    placement.request_migration(Some(CPU0));

    assert_eq!(placement.committed_migration_target(), Some(CPU1));
    assert_eq!(placement.requested_migration(), Some(CPU0));
    assert_eq!(placement.assigned_cpu(), Some(CPU1));

    placement.activate(CPU1);
    placement.begin_migration(CPU1, CPU0);
    assert_eq!(placement.committed_migration_target(), Some(CPU0));
    assert_eq!(placement.requested_migration(), None);
}

#[test]
fn selecting_a_runnable_task_changes_only_on_cpu() {
    let mut placement = ThreadPlacementState::new(CpuSet::all(2));
    placement.activate(CPU0);
    placement.set_next_task(CPU0);

    assert_eq!(placement.queued_cpu(), Some(CPU0));
    assert_eq!(placement.execution_cpu(), Some(CPU0));
    assert_eq!(placement.on_cpu(), Some(CPU0));
}

#[test]
fn blocked_task_retains_task_cpu_without_runqueue_ownership() {
    let mut placement = running_placement();
    placement.block_current(CPU0);
    placement.finish_task(CPU0);

    assert_eq!(placement.task_cpu(), Some(CPU0));
    assert_eq!(placement.queued_cpu(), None);
    assert_eq!(placement.on_cpu(), None);
    assert_eq!(placement.assigned_cpu(), Some(CPU0));
}

#[test]
fn exit_cancels_only_the_unconsumed_remote_handoff() {
    let mut placement = ThreadPlacementState::new(CpuSet::all(2));
    placement.begin_remote_wakeup(CPU1);
    placement.request_migration(Some(CPU0));

    placement.cancel_remote_handoff_for_exit();

    assert_eq!(placement.committed_migration_target(), None);
    assert_eq!(placement.requested_migration(), None);
    assert_eq!(placement.assigned_cpu(), Some(CPU1));
}

#[test]
fn waiter_publication_uses_one_scheduler_owner_transaction() {
    let mut queue = WaitQueue::new();
    let (call, action) = queue.wait();
    assert_eq!(action, WaitAction::AcquirePermit);
    let (call, action) = queue.advance(call, WaitEvent::Permit(Ok(())));
    assert_eq!(action, WaitAction::BeginPark);

    // A wake-up that is already pending ends the wait in the same transaction
    // in which the current thread was identified.
    let (_, action) = queue.advance(call, WaitEvent::ParkStart(Ok(CurrentParkStart::Notified)));
    assert_eq!(action, WaitAction::Done(Ok(false)));
    assert!(queue.waiters.is_empty());
}

#[test]
fn elapsed_conditional_deadline_checks_predicate_outside_the_waiter_lock() {
    let mut queue = WaitQueue::new();
    let (call, action) = queue.wait_until_deadline(MonotonicDeadline::from_nanos(10).unwrap());
    assert_eq!(action, WaitAction::ReadClock);
    let (call, action) = queue.advance(call, WaitEvent::Clock(instant(10)));

    // The condition is checked before any permit or park was asked for.
    assert_eq!(action, WaitAction::CheckCondition);
    let (_, action) = queue.advance(call, WaitEvent::Condition(false));
    assert_eq!(action, WaitAction::Done(Ok(true)));
}

#[test]
fn notification_removal_wins_the_timeout_cleanup_race() {
    let thread = ThreadId::from_parts(0, 1);
    let mut queue = WaitQueue::new();
    queue.waiters.push(thread);

    assert_eq!(queue.notify_one(false), Some(thread));
    assert!(!queue.remove_waiter(thread));
}

#[test]
fn timeout_cleanup_removes_an_unselected_waiter() {
    let thread = ThreadId::from_parts(0, 1);
    let mut queue = WaitQueue::new();
    queue.waiters.push(thread);

    assert!(queue.remove_waiter(thread));
    assert_eq!(queue.notify_one(false), None);
}

#[test]
fn interrupt_handlers_may_not_wait() {
    assert_eq!(blocking_permit(true, Ok(())), Err(TaskError::UnsafeContext));
    assert_eq!(
        blocking_permit(true, Err(TaskError::StaleThreadId)),
        Err(TaskError::UnsafeContext)
    );
    assert_eq!(
        blocking_permit(false, Err(TaskError::StaleThreadId)),
        Err(TaskError::StaleThreadId)
    );
    assert_eq!(blocking_permit(false, Ok(())), Ok(()));

    let mut queue = WaitQueue::new();
    let (call, _) = queue.wait();
    let (_, action) = queue.advance(call, WaitEvent::Permit(blocking_permit(true, Ok(()))));
    assert_eq!(action, WaitAction::Done(Err(TaskError::UnsafeContext)));
    assert!(queue.waiters.is_empty());
}
