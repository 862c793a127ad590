//! Order, placement and membership on run queues.
use axkernel::cpu::dispatch::{
    CurrentClassState, CurrentDispatch, CurrentDispatchState, CurrentSchedule,
};
use axkernel::error::TaskError;
use axkernel::ids::ThreadId;
use axkernel::scheduler::entity::{EnqueueReason, FairCarry, FairEntity, SchedulingEntity};
use axkernel::scheduler::policy::{
    DeadlineFlags, DeadlinePolicy, FairMode, Nice, RtPriority, SchedulePolicy,
};
use axkernel::scheduler::run_queue::{RtEligibility, RunQueue};
use axkernel::scheduler::task::{
    ActiveSchedulingState, PickedThread, QueuedThread, RqTaskMetadata,
};

fn metadata() -> RqTaskMetadata {
    RqTaskMetadata { deadline_donor: None, deadline_bandwidth_scaled: 0, policy_generation: 1 }
}

fn new_queue() -> RunQueue {
    RunQueue::configured(1 << 20, 256)
}

fn nice_zero() -> Nice {
    Nice::new(0).unwrap()
}

fn fair_state(nice: Nice, mode: FairMode, vruntime: u64, virtual_deadline: u64) -> FairEntity {
    FairEntity {
        nice,
        mode,
        weight: nice.weight(),
        slice_ns: 1,
        vruntime,
        virtual_deadline,
        remaining_request_ns: 1,
        carry: FairCarry::Resident,
    }
}

fn task_schedule(policy: SchedulePolicy, entity: SchedulingEntity) -> CurrentSchedule {
    CurrentSchedule::task(ThreadId::from_parts(9, 1), policy, entity)
}

fn enqueue(
    queue: &mut RunQueue,
    id: ThreadId,
    policy: SchedulePolicy,
    entity: SchedulingEntity,
    exempt: bool,
    reason: EnqueueReason,
) -> Result<SchedulingEntity, TaskError> {
    queue.prepare_thread_slot(id.slot() as usize);
    let active = ActiveSchedulingState::new(policy, entity);
    let thread = QueuedThread::new(id, active, exempt, true, metadata());
    let entity = queue.enqueue_task(thread, reason, None)?;
    if reason == EnqueueReason::Preempted {
        queue.count_unlinked_current();
    }
    Ok(entity)
}

trait Scenario {
    fn enqueue_test(
        &mut self,
        id: ThreadId,
        policy: SchedulePolicy,
        entity: SchedulingEntity,
        now_ns: u64,
        reason: EnqueueReason,
    ) -> Result<SchedulingEntity, TaskError>;
    fn enqueue_rt_test(
        &mut self,
        id: ThreadId,
        policy: SchedulePolicy,
        quota_exempt: bool,
    ) -> Result<SchedulingEntity, TaskError>;
    fn dequeue(&mut self, id: ThreadId) -> Option<QueuedThread>;
}

impl Scenario for RunQueue {
    fn enqueue_test(
        &mut self,
        id: ThreadId,
        policy: SchedulePolicy,
        entity: SchedulingEntity,
        _now_ns: u64,
        reason: EnqueueReason,
    ) -> Result<SchedulingEntity, TaskError> {
        enqueue(self, id, policy, entity, false, reason)
    }

    fn enqueue_rt_test(
        &mut self,
        id: ThreadId,
        policy: SchedulePolicy,
        quota_exempt: bool,
    ) -> Result<SchedulingEntity, TaskError> {
        let entity = SchedulingEntity::new(policy, 1, 0);
        enqueue(self, id, policy, entity, quota_exempt, EnqueueReason::Wake)
    }

    fn dequeue(&mut self, id: ThreadId) -> Option<QueuedThread> {
        self.deactivate_task(id)
    }
}

fn pick_next(queue: &mut RunQueue, eligibility: RtEligibility) -> PickedThread {
    let picked = queue.pick_next_task(eligibility).unwrap();
    queue.set_next_task(&picked);
    picked
}

fn pick_linked_current(queue: &mut RunQueue) -> ThreadId {
    let picked = queue.pick_next_task(RtEligibility::Runnable).unwrap();
    assert!(matches!(picked, PickedThread::Linked(_)));
    queue.set_next_task(&picked);
    let metadata = picked.metadata();
    let thread = picked.id();
    let dispatch = CurrentDispatch::new(
        CurrentDispatchState {
            thread,
            schedule: CurrentClassState::Linked { policy: picked.policy() },
            deadline_donor: metadata.deadline_donor,
            blocks_pi_waiter: false,
            rt_quota_exempt: picked.rt_quota_exempt(),
            pi_critical_rescue: false,
            deadline_bandwidth_scaled: metadata.deadline_bandwidth_scaled,
            policy_generation: metadata.policy_generation,
        },
        0,
    );
    queue.install_current(dispatch);
    thread
}

#[test]
fn fair_wakeup_preemption_requires_the_wakee_to_be_the_eevdf_pick() {
    let mut queue = new_queue();
    let policy = SchedulePolicy::fair(nice_zero(), FairMode::Normal);
    let contender = ThreadId::from_parts(1, 1);
    let wakee = ThreadId::from_parts(2, 1);
    let contender_entity = fair_state(nice_zero(), FairMode::Normal, 900, 1_000);
    let wakee_entity = fair_state(nice_zero(), FairMode::Normal, 950, 1_100);
    queue
        .enqueue_test(
            contender,
            policy,
            SchedulingEntity::Fair(contender_entity),
            0,
            EnqueueReason::Preempted,
        )
        .unwrap();
    queue
        .enqueue_test(
            wakee,
            policy,
            SchedulingEntity::Fair(wakee_entity),
            0,
            EnqueueReason::Preempted,
        )
        .unwrap();
    let mut current_entity = fair_state(nice_zero(), FairMode::Normal, 1_000, 1_200);
    assert!(current_entity.charge(1, 0));
    queue.update_fair_virtual_time(Some(current_entity));
    let virtual_time = queue.virtual_time_for_mode(FairMode::Normal);
    let current = task_schedule(policy, SchedulingEntity::Fair(current_entity));

    assert!(queue.fair_wakee_is_selected(contender, FairMode::Normal, virtual_time));
    assert!(!queue.fair_wakee_is_selected(wakee, FairMode::Normal, virtual_time));
    assert!(wakee_entity.deadline_precedes(current_entity));
    let preempts_current =
        current.should_preempt(policy, SchedulingEntity::Fair(wakee_entity), virtual_time)
            && queue.fair_wakee_is_selected(wakee, FairMode::Normal, virtual_time);
    assert!(
        !preempts_current,
        "a wakee that loses the full EEVDF pick must not request preemption",
    );
}

#[test]
fn deadline_precedes_rt_and_fair() {
    let mut queue = new_queue();
    let fair = SchedulePolicy::fair(nice_zero(), FairMode::Normal);
    let rt = SchedulePolicy::fifo(RtPriority::new(99).unwrap());
    let deadline =
        SchedulePolicy::deadline(DeadlinePolicy::new(1, 2, 3, DeadlineFlags::none()).unwrap());
    queue
        .enqueue_test(
            ThreadId::from_parts(0, 1),
            fair,
            SchedulingEntity::new(fair, 1, 0),
            0,
            EnqueueReason::Wake,
        )
        .unwrap();
    queue
        .enqueue_test(
            ThreadId::from_parts(1, 1),
            rt,
            SchedulingEntity::new(rt, 1, 0),
            0,
            EnqueueReason::Wake,
        )
        .unwrap();
    let mut deadline_entity = SchedulingEntity::new(deadline, 1, 0);
    deadline_entity.activate_deadline(0);
    queue
        .enqueue_test(
            ThreadId::from_parts(2, 1),
            deadline,
            deadline_entity,
            0,
            EnqueueReason::Wake,
        )
        .unwrap();
    assert_eq!(
        pick_next(&mut queue, RtEligibility::Runnable).id(),
        ThreadId::from_parts(2, 1)
    );
}

#[test]
fn deadline_runqueue_orders_across_linux_rq_clock_wrap() {
    let mut queue = new_queue();
    let earlier_policy =
        SchedulePolicy::deadline(DeadlinePolicy::new(1, 4, 20, DeadlineFlags::none()).unwrap());
    let later_policy =
        SchedulePolicy::deadline(DeadlinePolicy::new(1, 10, 20, DeadlineFlags::none()).unwrap());
    let earlier_id = ThreadId::from_parts(0, 1);
    let later_id = ThreadId::from_parts(1, 1);
    let now = u64::MAX - 5;

    for (id, policy) in [(later_id, later_policy), (earlier_id, earlier_policy)] {
        let mut entity = SchedulingEntity::new(policy, 1, 0);
        entity.activate_deadline(now);
        queue
            .enqueue_test(id, policy, entity, now, EnqueueReason::Wake)
            .unwrap();
    }

    assert_eq!(
        pick_next(&mut queue, RtEligibility::Runnable).id(),
        earlier_id
    );
}

#[test]
fn kernel_stopper_runs_before_deadline_even_when_rt_is_throttled() {
    let mut queue = new_queue();
    let stopper = SchedulePolicy::kernel_stop();
    let deadline =
        SchedulePolicy::deadline(DeadlinePolicy::new(1, 2, 3, DeadlineFlags::none()).unwrap());
    let mut deadline_entity = SchedulingEntity::new(deadline, 1, 0);
    deadline_entity.activate_deadline(0);
    queue
        .enqueue_test(
            ThreadId::from_parts(0, 1),
            deadline,
            deadline_entity,
            0,
            EnqueueReason::Wake,
        )
        .unwrap();
    queue
        .enqueue_test(
            ThreadId::from_parts(1, 1),
            stopper,
            SchedulingEntity::new(stopper, 1, 0),
            0,
            EnqueueReason::Wake,
        )
        .unwrap();

    assert_eq!(
        pick_next(&mut queue, RtEligibility::Throttled).id(),
        ThreadId::from_parts(1, 1),
        "stopper work must bypass ordinary RT bandwidth throttling"
    );
}

#[test]
fn kernel_stopper_does_not_enter_the_realtime_priority_array() {
    let mut queue = new_queue();
    let stopper = SchedulePolicy::kernel_stop();
    queue
        .enqueue_test(
            ThreadId::from_parts(1, 1),
            stopper,
            SchedulingEntity::new(stopper, 1, 0),
            0,
            EnqueueReason::Wake,
        )
        .unwrap();

    assert_eq!(queue.rt_count_at_priority(100), 0);
    assert_eq!(queue.placement_demand(), 0);
}

#[test]
fn kernel_stopper_preempts_all_user_sched_classes() {
    let stopper = SchedulePolicy::kernel_stop();
    let stopper_entity = SchedulingEntity::new(stopper, 1, 0);
    for policy in [
        SchedulePolicy::default(),
        SchedulePolicy::fifo(RtPriority::new(99).unwrap()),
        SchedulePolicy::deadline(DeadlinePolicy::new(1, 2, 3, DeadlineFlags::none()).unwrap()),
    ] {
        let mut entity = SchedulingEntity::new(policy, 1, 0);
        entity.activate_deadline(0);
        let current = task_schedule(policy, entity);
        assert!(current.should_preempt(stopper, stopper_entity.clone(), 0));
    }

    let current = task_schedule(stopper, stopper_entity);
    assert!(!current.should_preempt(
        SchedulePolicy::default(),
        SchedulingEntity::new(SchedulePolicy::default(), 1, 0),
        0
    ));
}

#[test]
fn fifo_preemption_preserves_the_head_position() {
    let mut queue = new_queue();
    let policy = SchedulePolicy::fifo(RtPriority::new(10).unwrap());
    for slot in [1, 2] {
        queue
            .enqueue_test(
                ThreadId::from_parts(slot, 1),
                policy,
                SchedulingEntity::new(policy, 1, 0),
                0,
                EnqueueReason::Wake,
            )
            .unwrap();
    }
    queue
        .enqueue_test(
            ThreadId::from_parts(0, 1),
            policy,
            SchedulingEntity::new(policy, 1, 0),
            0,
            EnqueueReason::Preempted,
        )
        .unwrap();
    assert_eq!(
        pick_next(&mut queue, RtEligibility::Runnable).id(),
        ThreadId::from_parts(0, 1)
    );
}

#[test]
fn first_fair_placement_cannot_start_behind_runqueue_virtual_time() {
    let mut queue = new_queue();
    queue.set_virtual_time(10_000);
    let policy = SchedulePolicy::fair(nice_zero(), FairMode::Normal);
    let thread = ThreadId::from_parts(0, 1);

    queue
        .enqueue_test(
            thread,
            policy,
            SchedulingEntity::new(policy, 1_000, 0),
            0,
            EnqueueReason::Wake,
        )
        .unwrap();

    let entity = queue.dequeue(thread).unwrap().scheduling_entity().fair().unwrap();
    assert_eq!(entity.vruntime(), 10_000);
    assert_eq!(entity.virtual_deadline(), 10_500);
}

#[test]
fn fair_preemption_preserves_positive_lag_and_active_deadline() {
    let mut queue = new_queue();
    queue.set_virtual_time(1_000);
    let policy = SchedulePolicy::fair(nice_zero(), FairMode::Normal);
    let thread = ThreadId::from_parts(0, 1);

    queue
        .enqueue_test(
            thread,
            policy,
            SchedulingEntity::Fair(fair_state(
                nice_zero(),
                FairMode::Normal,
                900,
                950,
            )),
            0,
            EnqueueReason::Preempted,
        )
        .unwrap();

    let entity = queue.dequeue(thread).unwrap().scheduling_entity().fair().unwrap();
    assert_eq!(
        (entity.vruntime(), entity.virtual_deadline()),
        (900, 950),
        "a same-rq preemption must not erase the current EEVDF request's lag"
    );
}

#[test]
fn fair_migration_preserves_positive_lag_and_active_deadline() {
    let policy = SchedulePolicy::fair(nice_zero(), FairMode::Normal);
    let migrating = ThreadId::from_parts(0, 1);
    let peer = ThreadId::from_parts(1, 1);
    let mut source = new_queue();
    source
        .enqueue_test(
            migrating,
            policy,
            SchedulingEntity::Fair(fair_state(
                nice_zero(),
                FairMode::Normal,
                900,
                950,
            )),
            0,
            EnqueueReason::Preempted,
        )
        .unwrap();
    source
        .enqueue_test(
            peer,
            policy,
            SchedulingEntity::Fair(fair_state(
                nice_zero(),
                FairMode::Normal,
                1_100,
                1_200,
            )),
            0,
            EnqueueReason::Preempted,
        )
        .unwrap();
    let detached = source
        .detach_for_transfer(migrating, None, 500_000)
        .unwrap();

    let mut destination = new_queue();
    destination.set_virtual_time(2_000);
    destination
        .enqueue_test(
            peer,
            policy,
            SchedulingEntity::Fair(fair_state(
                nice_zero(),
                FairMode::Normal,
                2_000,
                2_100,
            )),
            0,
            EnqueueReason::Preempted,
        )
        .unwrap();
    destination
        .enqueue_task(detached, EnqueueReason::Migrated, None)
        .unwrap();

    let entity = destination
        .dequeue(migrating)
        .unwrap().scheduling_entity()
        .fair()
        .unwrap();
    assert_eq!(
        (entity.vruntime(), entity.virtual_deadline()),
        (1_800, 1_850),
        "migration must restore source vlag and relative deadline on the destination rq"
    );
}

#[test]
fn fair_yield_forfeits_request_before_positive_lag_peer() {
    let mut queue = new_queue();
    let policy = SchedulePolicy::fair(nice_zero(), FairMode::Normal);
    let yielding = ThreadId::from_parts(0, 1);
    let waiting = ThreadId::from_parts(1, 1);

    queue
        .enqueue_test(
            waiting,
            policy,
            SchedulingEntity::new(policy, 100, 100),
            0,
            EnqueueReason::Migrated,
        )
        .unwrap();
    queue
        .enqueue_test(
            yielding,
            policy,
            SchedulingEntity::new(policy, 100, 0),
            0,
            EnqueueReason::Yield,
        )
        .unwrap();

    assert_eq!(
        pick_next(&mut queue, RtEligibility::Runnable).id(),
        waiting,
        "yield must forfeit the active request so positive-lag peers become eligible",
    );
}

#[test]
fn weighted_virtual_time_makes_every_non_negative_lag_entity_eligible() {
    let mut queue = new_queue();
    let low_weight = SchedulePolicy::fair(Nice::new(19).unwrap(), FairMode::Normal);
    let normal_weight = SchedulePolicy::fair(nice_zero(), FairMode::Normal);
    for (slot, policy, vruntime, deadline) in [
        (0, low_weight, 0, 100),
        (1, normal_weight, 4, 8),
        (2, normal_weight, 10, 20),
    ] {
        let SchedulePolicy::Fair { nice, mode } = policy else {
            unreachable!();
        };
        queue
            .enqueue_test(
                ThreadId::from_parts(slot, 1),
                policy,
                SchedulingEntity::Fair(fair_state(nice, mode, vruntime, deadline)),
                0,
                EnqueueReason::Migrated,
            )
            .unwrap();
    }

    assert_eq!(
        pick_next(&mut queue, RtEligibility::Runnable).id(),
        ThreadId::from_parts(1, 1),
        "weighted V must make both vruntime 0 and 4 eligible, then choose vd=8",
    );
}

#[test]
fn fair_deadline_order_survives_virtual_time_wrap() {
    let mut queue = new_queue();
    let policy = SchedulePolicy::fair(nice_zero(), FairMode::Normal);
    let virtual_time = u64::MAX - 100;
    queue.set_virtual_time(virtual_time);
    let later = ThreadId::from_parts(0, 1);
    let earlier = ThreadId::from_parts(1, 1);

    queue
        .enqueue_test(
            later,
            policy,
            SchedulingEntity::new(policy, 200, virtual_time),
            0,
            EnqueueReason::Migrated,
        )
        .unwrap();
    queue
        .enqueue_test(
            earlier,
            policy,
            SchedulingEntity::new(policy, 110, virtual_time),
            0,
            EnqueueReason::Migrated,
        )
        .unwrap();

    assert_eq!(
        pick_next(&mut queue, RtEligibility::Runnable).id(),
        earlier,
        "EEVDF must order wrapped virtual deadlines by signed distance",
    );
}

#[test]
fn fair_weighted_virtual_time_includes_current_across_wrap() {
    let mut queue = new_queue();
    let policy = SchedulePolicy::fair(nice_zero(), FairMode::Normal);
    let before_wrap = u64::MAX - 100;
    queue.set_virtual_time(before_wrap);
    queue
        .enqueue_test(
            ThreadId::from_parts(0, 1),
            policy,
            SchedulingEntity::Fair(fair_state(
                nice_zero(),
                FairMode::Normal,
                before_wrap,
                before_wrap.wrapping_add(100),
            )),
            0,
            EnqueueReason::Migrated,
        )
        .unwrap();

    let current =
        fair_state(nice_zero(), FairMode::Normal, 20, 20_u64.wrapping_add(100));
    queue.update_fair_virtual_time(Some(current));

    assert_eq!(
        queue.virtual_time(),
        u64::MAX - 40,
        "the owner-rq mean must use signed deltas and include the running entity",
    );
}

#[test]
fn fair_pushable_summary_uses_wrapped_runqueue_order() {
    let mut queue = new_queue();
    let policy = SchedulePolicy::fair(nice_zero(), FairMode::Normal);
    let virtual_time = u64::MAX - 10;
    queue.set_virtual_time(virtual_time);
    for (slot, deadline) in [(0, 5), (1, u64::MAX - 1)] {
        queue
            .enqueue_test(
                ThreadId::from_parts(slot, 1),
                policy,
                SchedulingEntity::Fair(fair_state(
                    nice_zero(),
                    FairMode::Normal,
                    virtual_time,
                    deadline,
                )),
                0,
                EnqueueReason::Migrated,
            )
            .unwrap();
    }

    assert!(queue.has_pushable_fair());
    let epoch = queue.begin_balance_scan();
    assert_eq!(
        queue
            .next_balance_candidate(epoch, |_| true)
            .expect("one Fair candidate must be movable")
            .id,
        ThreadId::from_parts(1, 1),
        "the Fair class must retain the owner runqueue's modular EEVDF order",
    );
}

#[test]
fn deadline_preemption_does_not_reapply_the_cbs_wake_rule() {
    let mut queue = new_queue();
    let policy =
        SchedulePolicy::deadline(DeadlinePolicy::new(4, 8, 10, DeadlineFlags::none()).unwrap());
    let thread = ThreadId::from_parts(0, 1);
    let mut entity = SchedulingEntity::new(policy, 1, 0);
    entity.activate_deadline(0);
    assert!(!entity.charge(1, 0, 0));

    queue
        .enqueue_test(thread, policy, entity, 4, EnqueueReason::Preempted)
        .unwrap();

    let entity = queue.dequeue(thread).unwrap().scheduling_entity();
    let deadline = entity.deadline().unwrap();
    assert_eq!(deadline.absolute_deadline_ns(), Some(8));
    assert_eq!(deadline.remaining_runtime_ns(), 3);
}

#[test]
fn pushable_membership_tracks_each_non_idle_scheduler_class() {
    let mut queue = new_queue();
    let idle = SchedulePolicy::fair(nice_zero(), FairMode::Idle);
    let fair = SchedulePolicy::fair(nice_zero(), FairMode::Normal);
    let rt = SchedulePolicy::fifo(RtPriority::new(80).unwrap());
    let deadline =
        SchedulePolicy::deadline(DeadlinePolicy::new(1, 2, 3, DeadlineFlags::none()).unwrap());
    let idle_id = ThreadId::from_parts(0, 1);
    let fair_id = ThreadId::from_parts(1, 1);
    let rt_id = ThreadId::from_parts(2, 1);
    let deadline_id = ThreadId::from_parts(3, 1);

    queue
        .enqueue_test(
            idle_id,
            idle,
            SchedulingEntity::new(idle, 1, 0),
            0,
            EnqueueReason::Wake,
        )
        .unwrap();
    assert!(!queue.has_pushable_deadline());
    assert!(!queue.has_pushable_realtime());
    assert!(!queue.has_pushable_fair());
    for (id, policy) in [(fair_id, fair), (rt_id, rt), (deadline_id, deadline)] {
        let mut entity = SchedulingEntity::new(policy, 1, 0);
        if matches!(policy, SchedulePolicy::Deadline(_)) {
            entity.activate_deadline(0);
        }
        queue
            .enqueue_test(id, policy, entity, 0, EnqueueReason::Wake)
            .unwrap();
    }
    assert!(queue.has_pushable_deadline());
    assert!(queue.has_pushable_realtime());
    assert!(queue.has_pushable_fair());

    queue.dequeue(deadline_id).unwrap();
    assert!(!queue.has_pushable_deadline());
    assert!(queue.has_pushable_realtime());
    assert_eq!(pick_next(&mut queue, RtEligibility::Runnable).id(), rt_id);
    assert!(!queue.has_pushable_realtime());
    assert!(queue.has_pushable_fair());
    queue.dequeue(fair_id).unwrap();
    assert!(!queue.has_pushable_fair());
    assert_eq!(queue.dequeue(idle_id).unwrap().id, idle_id);
}

#[test]
fn direct_membership_rejects_a_retired_thread_generation() {
    let mut queue = new_queue();
    let policy = SchedulePolicy::fair(nice_zero(), FairMode::Normal);
    let retired = ThreadId::from_parts(7, 1);
    let replacement = ThreadId::from_parts(7, 2);

    queue
        .enqueue_test(
            retired,
            policy,
            SchedulingEntity::new(policy, 1_000, 0),
            0,
            EnqueueReason::Wake,
        )
        .unwrap();
    assert_eq!(queue.dequeue(retired).unwrap().id, retired);
    queue
        .enqueue_test(
            replacement,
            policy,
            SchedulingEntity::new(policy, 1_000, 0),
            0,
            EnqueueReason::Wake,
        )
        .unwrap();

    assert!(queue.dequeue(retired).is_none());
    assert_eq!(queue.dequeue(replacement).unwrap().id, replacement);
}

#[test]
fn realtime_bitmap_tracks_the_highest_nonempty_priority() {
    let mut queue = new_queue();
    let low = SchedulePolicy::fifo(RtPriority::new(1).unwrap());
    let high = SchedulePolicy::fifo(RtPriority::new(99).unwrap());
    let low_id = ThreadId::from_parts(0, 1);
    let high_id = ThreadId::from_parts(1, 1);
    for (id, policy) in [(low_id, low), (high_id, high)] {
        queue
            .enqueue_test(
                id,
                policy,
                SchedulingEntity::new(policy, 1_000, 0),
                0,
                EnqueueReason::Wake,
            )
            .unwrap();
    }

    assert_eq!(queue.highest_rt_priority(), Some(99));
    assert_eq!(queue.dequeue(high_id).unwrap().id, high_id);
    assert_eq!(queue.highest_rt_priority(), Some(1));
    assert_eq!(pick_next(&mut queue, RtEligibility::Runnable).id(), low_id);
    assert!(
        queue.has_rt(),
        "selected RT current remains represented in the active bitmap"
    );
    assert_eq!(queue.dequeue(low_id).unwrap().id, low_id);
    assert!(!queue.has_rt());
}

#[test]
fn realtime_running_entity_remains_linked_in_the_active_array() {
    let mut queue = new_queue();
    let policy = SchedulePolicy::fifo(RtPriority::new(10).unwrap());
    let running = ThreadId::from_parts(0, 1);
    queue
        .enqueue_test(
            running,
            policy,
            SchedulingEntity::new(policy, 1_000, 0),
            0,
            EnqueueReason::Wake,
        )
        .unwrap();

    assert_eq!(pick_linked_current(&mut queue), running);
    assert!(
        queue.contains(running),
        "Linux RT keeps current in the active priority array"
    );
    assert_eq!(queue.nr_queued(), 0, "current is not a queued balance candidate");
    assert!(!queue.has_pushable_realtime());
}

#[test]
fn deadline_running_entity_remains_linked_in_the_active_tree() {
    let mut queue = new_queue();
    let policy =
        SchedulePolicy::deadline(DeadlinePolicy::new(10, 20, 30, DeadlineFlags::none()).unwrap());
    let running = ThreadId::from_parts(0, 1);
    let mut entity = SchedulingEntity::new(policy, 1, 0);
    entity.activate_deadline(0);
    queue
        .enqueue_test(running, policy, entity, 0, EnqueueReason::Wake)
        .unwrap();

    assert_eq!(pick_linked_current(&mut queue), running);
    assert!(
        queue.contains(running),
        "Linux Deadline keeps current in the active EDF tree"
    );
    assert_eq!(queue.nr_queued(), 0, "current is not a queued balance candidate");
    assert!(!queue.has_pushable_deadline());
}

#[test]
fn rt_class_throttle_is_all_or_nothing() {
    let mut queue = new_queue();
    let ordinary = ThreadId::from_parts(0, 1);
    let lower_pi_owner = ThreadId::from_parts(1, 1);
    let higher_pi_owner = ThreadId::from_parts(2, 1);
    queue
        .enqueue_rt_test(
            ordinary,
            SchedulePolicy::fifo(RtPriority::new(99).unwrap()),
            false,
        )
        .unwrap();
    queue
        .enqueue_rt_test(
            lower_pi_owner,
            SchedulePolicy::fifo(RtPriority::new(10).unwrap()),
            true,
        )
        .unwrap();
    queue
        .enqueue_rt_test(
            higher_pi_owner,
            SchedulePolicy::fifo(RtPriority::new(20).unwrap()),
            true,
        )
        .unwrap();

    assert!(
        queue.pick_next_task(RtEligibility::Throttled).is_none(),
        "Linux skips a throttled RT class only when no boosted entity keeps the rq runnable"
    );
    assert_eq!(
        pick_next(&mut queue, RtEligibility::Runnable).id(),
        ordinary,
        "one boosted entity makes the whole RT rq runnable at normal priority order"
    );
}

#[test]
fn every_fair_thread_is_picked_once() {
    let mut queue = new_queue();
    let policy = SchedulePolicy::fair(nice_zero(), FairMode::Normal);
    for slot in 0..128 {
        queue
            .enqueue_test(
                ThreadId::from_parts(slot, 1),
                policy,
                SchedulingEntity::new(policy, 1_000, slot as u64),
                0,
                EnqueueReason::Migrated,
            )
            .unwrap();
    }

    queue.update_fair_virtual_time(None);
    let mut picked = Vec::new();
    while queue.has_fair() {
        picked.push(pick_next(&mut queue, RtEligibility::Runnable).id().slot());
    }
    picked.sort();
    assert_eq!(picked, (0..128).collect::<Vec<u32>>());
}

#[test]
fn fair_threads_leave_in_any_order() {
    let mut queue = new_queue();
    let policy = SchedulePolicy::fair(nice_zero(), FairMode::Normal);
    for slot in 0..128 {
        queue
            .enqueue_test(
                ThreadId::from_parts(slot, 1),
                policy,
                SchedulingEntity::new(policy, 1_000, slot as u64),
                0,
                EnqueueReason::Migrated,
            )
            .unwrap();
    }

    for index in 0..128 {
        let id = ThreadId::from_parts((index * 73) % 128, 1);
        assert_eq!(queue.dequeue(id).unwrap().id, id);
        assert!(queue.dequeue(id).is_none());
    }
    assert!(!queue.has_fair());
}

#[test]
fn the_earliest_of_many_deadlines_is_picked() {
    let mut queue = new_queue();
    let policy =
        SchedulePolicy::deadline(DeadlinePolicy::new(10, 20, 30, DeadlineFlags::none()).unwrap());
    for slot in 0..128 {
        let mut entity = SchedulingEntity::new(policy, 1, 0);
        entity.activate_deadline(slot as u64);
        queue
            .enqueue_test(
                ThreadId::from_parts(slot, 1),
                policy,
                entity,
                slot as u64,
                EnqueueReason::Wake,
            )
            .unwrap();
    }

    assert_eq!(
        pick_next(&mut queue, RtEligibility::Runnable).id(),
        ThreadId::from_parts(0, 1)
    );
}

#[test]
fn a_scan_offers_every_thread_that_may_leave_once() {
    let mut queue = new_queue();
    let fair = SchedulePolicy::fair(nice_zero(), FairMode::Normal);
    let rt = SchedulePolicy::fifo(RtPriority::new(80).unwrap());
    let deadline =
        SchedulePolicy::deadline(DeadlinePolicy::new(1, 2, 3, DeadlineFlags::none()).unwrap());
    let stays = ThreadId::from_parts(4, 1);
    for (slot, policy) in [(1, fair), (2, rt), (3, deadline), (4, rt), (5, fair)] {
        let mut entity = SchedulingEntity::new(policy, 1, 0);
        if matches!(policy, SchedulePolicy::Deadline(_)) {
            entity.activate_deadline(0);
        }
        queue
            .enqueue_test(
                ThreadId::from_parts(slot, 1),
                policy,
                entity,
                0,
                EnqueueReason::Wake,
            )
            .unwrap();
    }
    let mut offered = Vec::new();
    for _ in 0..2 {
        let epoch = queue.begin_balance_scan();
        let mut round = Vec::new();
        while let Some(candidate) =
            queue.next_balance_candidate(epoch, |thread: &QueuedThread| thread.id != stays)
        {
            round.push(candidate.id.slot());
        }
        offered.push(round);
    }
    assert_eq!(offered[0][..2], [3, 2]);
    for mut round in offered {
        round.sort_unstable();
        assert_eq!(round, vec![1, 2, 3, 5]);
    }
}
