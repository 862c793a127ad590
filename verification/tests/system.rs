//! The scheduler at work: threads that start, sleep, wake, exit and lend.
use axkernel::config::TaskSystemConfig;
use axkernel::cpu::inbox::{IdlePullReservation, InboxMessage, InboxOperation};
use axkernel::cpu::remote::CpuLifecycleState;
use axkernel::error::{PiWaitStateError, TaskError, ThreadState};
use axkernel::facade::{
    irq_wait_result, irq_wait_step, pi_block_current, pi_mutex_claim, pi_mutex_lock_slow,
    pi_mutex_release, pi_wait_cancel, pi_wake, prepare_pi_park_attempt, CurrentThreadToken,
    IrqRegisterResult, IrqWaitStep, PiBlock,
};
use axkernel::ids::{CpuId, CpuSet, ThreadId};
use axkernel::scheduler::entity::EnqueueReason;
use axkernel::scheduler::policy::{
    DeadlineFlags, DeadlinePolicy, FairMode, Nice, RtPriority, SchedulePolicy,
};
use axkernel::system::creation::ThreadSpec;
use axkernel::system::drain::OwnerControlDrain;
use axkernel::system::inherit::pi_inherited_policy;
use axkernel::system::park::{ParkCommit, ParkPrepare, ParkTicket, SwitchReason};
use axkernel::system::pi_mutex::PiMutexLockResult;
use axkernel::system::switch_tail::SwitchInCompletion;
use axkernel::system::task_system::TaskSystem;
use axkernel::system::wake::WakeResult;
use axkernel::thread::pi::PiMutexAcquire;
use axkernel::thread::placement::TaskOnRunQueue;
use axkernel::thread::record::{PendingPolicyUpdate, ThreadRecord};
use axkernel::time::MonotonicInstant;

const CPU0: CpuId = CpuId { index: 0 };
const CPU1: CpuId = CpuId { index: 1 };

fn at(ns: u64) -> MonotonicInstant {
    MonotonicInstant::from_nanos(ns).unwrap()
}

fn fair() -> SchedulePolicy {
    SchedulePolicy::fair(Nice::zero(), FairMode::Normal)
}

fn fifo(priority: u8) -> SchedulePolicy {
    SchedulePolicy::fifo(RtPriority::new(priority).unwrap())
}

fn pinned(policy: SchedulePolicy, cpu: CpuId, cpus: usize) -> ThreadSpec {
    let mut affinity = CpuSet::empty(cpus);
    affinity.insert(cpu);
    ThreadSpec {
        policy,
        affinity: Some(affinity),
        has_context: false,
    }
}

/// A machine whose CPUs are online, each with an idle thread and a thread that
/// has been running all along.
fn machine(cpus: usize) -> (TaskSystem, Vec<ThreadId>) {
    configured_machine(TaskSystemConfig::new(cpus))
}

fn configured_machine(config: TaskSystemConfig) -> (TaskSystem, Vec<ThreadId>) {
    let cpus = config.cpu_count;
    let mut system = TaskSystem::new(config);
    let mut running = Vec::new();
    for index in 0..cpus {
        let cpu = CpuId::new(index as u32);
        system.cpus[index].remote.lifecycle = CpuLifecycleState::Online;
        system.root_domain.online.insert(cpu);
    }
    system.root_domain.admission.set_online_cpus(cpus as u32);
    for index in 0..cpus {
        let cpu = CpuId::new(index as u32);
        let idle = SchedulePolicy::fair(Nice::zero(), FairMode::Idle);
        system
            .register_idle_thread(cpu, pinned(idle, cpu, cpus))
            .unwrap();
        running.push(
            system
                .install_bootstrap_thread(cpu, pinned(fair(), cpu, cpus), 0)
                .unwrap(),
        );
    }
    (system, running)
}

fn ready_thread(system: &mut TaskSystem, policy: SchedulePolicy) -> ThreadId {
    let thread = system.create_thread(ThreadSpec::new(policy)).unwrap();
    system.make_ready(thread).unwrap();
    thread
}

fn record(system: &TaskSystem, thread: ThreadId) -> &ThreadRecord {
    system.thread_record(thread).unwrap()
}

fn record_mut(system: &mut TaskSystem, thread: ThreadId) -> &mut ThreadRecord {
    system.slots[thread.slot as usize].record.as_mut().unwrap()
}

fn message(operation: InboxOperation, thread: Option<ThreadId>, source: CpuId, target: CpuId) -> InboxMessage {
    InboxMessage {
        operation,
        thread,
        source: Some(source),
        target: Some(target),
        generation: 0,
        placement_demand: 0,
        reservation: None,
    }
}

#[test]
fn a_booted_cpu_runs_its_bootstrap_thread() {
    let (system, running) = machine(2);

    assert_eq!(system.cpus[0].current, Some(running[0]));
    assert_eq!(system.cpus[1].current, Some(running[1]));
    assert_eq!(record(&system, running[0]).lifecycle, ThreadState::Running);
    assert_eq!(record(&system, running[0]).placement.on_cpu, Some(CPU0));
    assert_ne!(system.cpus[0].idle, system.cpus[1].idle);
}

#[test]
fn creation_is_refused_by_name() {
    let (mut system, _) = machine(2);

    let mut nowhere = ThreadSpec::new(fair());
    nowhere.affinity = Some(CpuSet::empty(2));
    assert_eq!(system.create_thread(nowhere), Err(TaskError::InvalidAffinity));

    let odd = ThreadSpec::new(SchedulePolicy::RoundRobin {
        priority: RtPriority::new(1).unwrap(),
        quantum_ns: 0,
    });
    assert_eq!(system.create_thread(odd), Err(TaskError::InvalidPolicy));
}

#[test]
fn enqueue_says_why_a_thread_cannot_wait() {
    let (mut system, running) = machine(2);
    let fresh = system.create_thread(ThreadSpec::new(fair())).unwrap();

    assert_eq!(
        system.enqueue(CpuId::new(9), fresh, 0, at(0)),
        Err(TaskError::InvalidCpu(9))
    );
    assert_eq!(system.enqueue(CPU0, fresh, 0, at(0)), Err(TaskError::NotReady));
    assert_eq!(
        system.enqueue(CPU0, ThreadId::from_parts(700, 1), 0, at(0)),
        Err(TaskError::StaleThreadId)
    );
    assert_eq!(
        system.enqueue(CPU0, running[0], 0, at(0)),
        Err(TaskError::NotReady)
    );
    system.make_ready(fresh).unwrap();
    system.cpus[1].remote.lifecycle = CpuLifecycleState::Draining;
    assert_eq!(
        system.enqueue(CPU1, fresh, 0, at(0)),
        Err(TaskError::CpuOffline(1))
    );
    assert_eq!(system.enqueue(CPU0, fresh, 0, at(0)), Ok(()));
    assert_eq!(record(&system, fresh).placement.on_rq, TaskOnRunQueue::Queued);
    assert!(system.enqueue(CPU0, fresh, 0, at(0)).is_err());
}

#[test]
fn dequeue_undoes_enqueue() {
    let (mut system, _) = machine(1);
    let thread = ready_thread(&mut system, fair());
    let before = system.cpus[0].remote.run_queue.queue.nr_running;

    system.enqueue(CPU0, thread, 0, at(0)).unwrap();
    assert_eq!(
        system.cpus[0].remote.run_queue.queue.nr_running,
        before + 1
    );
    system.dequeue(CPU0, thread).unwrap();
    assert_eq!(system.cpus[0].remote.run_queue.queue.nr_running, before);
    assert_eq!(record(&system, thread).placement.on_rq, TaskOnRunQueue::Off);
    assert!(record(&system, thread).policy.active.is_some());
    assert!(system.dequeue(CPU0, thread).is_err());
}

#[test]
fn a_blocked_thread_hands_the_cpu_to_the_one_that_waits() {
    let (mut system, running) = machine(1);
    let thread = ready_thread(&mut system, fair());
    system.enqueue(CPU0, thread, 10, at(10)).unwrap();

    let decision = system.block_current(CPU0, 20, at(20)).unwrap();

    assert_eq!(decision.previous, Some(running[0]));
    assert_eq!(decision.next, thread);
    assert_eq!(decision.switch_reason, SwitchReason::Blocked);
    assert_eq!(decision.timestamp_ns, 20);
    assert_eq!(record(&system, running[0]).lifecycle, ThreadState::Blocked);
    assert_eq!(record(&system, running[0]).placement.on_cpu, Some(CPU0));
    assert_eq!(record(&system, thread).lifecycle, ThreadState::Running);
    assert_eq!(system.cpus[0].current, Some(thread));

    assert_eq!(
        system.complete_context_switch(CPU0, 21, at(21)),
        Ok(SwitchInCompletion {
            incoming: Some(thread)
        })
    );
    assert_eq!(record(&system, running[0]).placement.on_cpu, None);
    assert_eq!(
        system.complete_context_switch(CPU0, 22, at(22)),
        Ok(SwitchInCompletion { incoming: None })
    );
    assert_eq!(
        system.complete_context_switch(CpuId::new(4), 22, at(22)),
        Err(TaskError::InvalidCpu(4))
    );
}

#[test]
fn a_cpu_with_nothing_to_run_idles() {
    let (mut system, running) = machine(1);

    let decision = system.block_current(CPU0, 5, at(5)).unwrap();

    assert_eq!(decision.previous, Some(running[0]));
    assert_eq!(Some(decision.next), system.cpus[0].idle);
    assert_eq!(system.cpus[0].current, system.cpus[0].idle);
}

#[test]
fn the_most_urgent_thread_is_chosen() {
    let (mut system, _) = machine(1);
    let low = ready_thread(&mut system, fifo(10));
    let high = ready_thread(&mut system, fifo(20));
    let plain = ready_thread(&mut system, fair());
    for thread in [plain, low, high] {
        system.enqueue(CPU0, thread, 0, at(0)).unwrap();
    }

    assert_eq!(system.block_current(CPU0, 1, at(1)).unwrap().next, high);
    system.complete_context_switch(CPU0, 1, at(1)).unwrap();
    assert_eq!(system.block_current(CPU0, 2, at(2)).unwrap().next, low);
    system.complete_context_switch(CPU0, 2, at(2)).unwrap();
    assert_eq!(system.block_current(CPU0, 3, at(3)).unwrap().next, plain);
}

#[test]
fn a_woken_thread_waits_to_run() {
    let (mut system, running) = machine(1);
    system.block_current(CPU0, 5, at(5)).unwrap();
    system.complete_context_switch(CPU0, 6, at(6)).unwrap();

    assert_eq!(
        system.wake_thread_direct(running[0], None, CPU0, 7, at(7)),
        WakeResult::Notified
    );
    assert_eq!(record(&system, running[0]).lifecycle, ThreadState::Ready);
    assert_eq!(
        record(&system, running[0]).placement.on_rq,
        TaskOnRunQueue::Queued
    );
    assert_eq!(queued_on(&system, running[0]), vec![0]);
    assert!(system.cpus[0].needs_reschedule());
}

#[test]
fn a_wake_up_while_the_stack_is_in_use_waits_for_the_switch() {
    let (mut system, running) = machine(1);
    system.block_current(CPU0, 5, at(5)).unwrap();

    assert_eq!(
        system.wake_thread_direct(running[0], None, CPU0, 6, at(6)),
        WakeResult::Notified
    );
    assert_eq!(record(&system, running[0]).lifecycle, ThreadState::Waking);
    assert_eq!(record(&system, running[0]).placement.on_rq, TaskOnRunQueue::Off);

    system.complete_context_switch(CPU0, 7, at(7)).unwrap();
    assert_eq!(record(&system, running[0]).lifecycle, ThreadState::Ready);
    assert_eq!(
        record(&system, running[0]).placement.on_rq,
        TaskOnRunQueue::Queued
    );
}

#[test]
fn a_wake_up_between_announcing_and_parking_is_not_lost() {
    let (mut system, running) = machine(1);
    let mut ticket = match system.prepare_park(CPU0, 1, at(1)).unwrap() {
        ParkPrepare::Prepared(ticket) => ticket,
        ParkPrepare::Notified => panic!("nobody has woken the thread yet"),
    };
    assert_eq!(record(&system, running[0]).lifecycle, ThreadState::Parking);

    assert_eq!(
        system.wake_thread_direct(running[0], None, CPU0, 2, at(2)),
        WakeResult::Notified
    );
    assert_eq!(
        system.wake_thread_direct(running[0], None, CPU0, 2, at(2)),
        WakeResult::AlreadyPending
    );
    assert_eq!(
        system.commit_park(CPU0, &mut ticket, 3, at(3)),
        Ok(ParkCommit::Notified)
    );
    assert_eq!(record(&system, running[0]).lifecycle, ThreadState::Running);
    assert_eq!(system.cpus[0].current, Some(running[0]));
    assert!(ticket.resolved);
}

#[test]
fn a_wake_up_before_announcing_is_taken_at_once() {
    let (mut system, running) = machine(1);
    system.wake_thread_direct(running[0], None, CPU0, 1, at(1));

    assert_eq!(
        system.prepare_park(CPU0, 2, at(2)),
        Ok(ParkPrepare::Notified)
    );
    assert!(!record(&system, running[0]).wake_pending);
    assert_eq!(record(&system, running[0]).lifecycle, ThreadState::Running);
}

#[test]
fn a_ticket_is_good_once() {
    let (mut system, running) = machine(1);
    let mut ticket = match system.prepare_park(CPU0, 1, at(1)).unwrap() {
        ParkPrepare::Prepared(ticket) => ticket,
        ParkPrepare::Notified => panic!("nobody has woken the thread yet"),
    };

    assert_eq!(system.cancel_park(CPU0, &mut ticket), Ok(()));
    assert_eq!(record(&system, running[0]).lifecycle, ThreadState::Running);
    assert_eq!(
        system.cancel_park(CPU0, &mut ticket),
        Err(TaskError::StaleThreadId)
    );
    assert_eq!(
        system.commit_park(CPU0, &mut ticket, 2, at(2)),
        Err(TaskError::StaleThreadId)
    );
    let mut forged = ParkTicket {
        thread: running[0],
        generation: 99,
        resolved: false,
    };
    assert_eq!(
        system.commit_park(CPU0, &mut forged, 2, at(2)),
        Err(TaskError::StaleThreadId)
    );
    assert_eq!(
        system.commit_park(CpuId::new(3), &mut forged, 2, at(2)),
        Err(TaskError::InvalidCpu(3))
    );
}

#[test]
fn an_exited_thread_stays_exited() {
    let (mut system, running) = machine(1);

    let decision = system.exit_current(CPU0, 4, at(4)).unwrap();

    assert_eq!(decision.previous, Some(running[0]));
    assert_eq!(Some(decision.next), system.cpus[0].idle);
    assert_eq!(decision.switch_reason, SwitchReason::Exited);
    assert_eq!(record(&system, running[0]).lifecycle, ThreadState::Exited);
    assert_eq!(system.exited, vec![running[0]]);
    let work = system.task_work;
    system.complete_context_switch(CPU0, 5, at(5)).unwrap();
    assert_eq!(system.task_work, work + 1);
    assert_eq!(
        system.wake_thread_direct(running[0], None, CPU0, 6, at(6)),
        WakeResult::Exited
    );
    assert_eq!(pi_wake(&mut system, running[0], CPU0, 6, at(6)), Ok(()));
}

#[test]
fn exits_are_refused_by_name() {
    let (mut system, running) = machine(1);

    assert_eq!(
        system.prepare_current_exit(CPU0, 1, at(1)),
        Err(TaskError::InvalidRuntimeHandle)
    );
    assert!(!record(&system, running[0]).exiting);

    record_mut(&mut system, running[0]).has_context = true;
    let permit = system.prepare_current_exit(CPU0, 1, at(1)).unwrap();
    assert_eq!(permit.thread(), running[0]);
    assert!(record(&system, running[0]).exiting);
    assert_eq!(
        system.prepare_current_exit(CPU0, 1, at(1)),
        Err(TaskError::ThreadBusy)
    );
    assert!(system
        .commit_prepared_current_exit(CPU0, permit, 2, at(2))
        .is_ok());

    system.complete_context_switch(CPU0, 3, at(3)).unwrap();
    assert_eq!(
        system.exit_current(CPU0, 3, at(3)),
        Err(TaskError::InvalidConfiguration)
    );
}

#[test]
fn an_owner_inherits_from_a_more_urgent_waiter() {
    let (mut system, running) = machine(1);
    let owner = running[0];
    let waiter = ready_thread(&mut system, fifo(30));
    let lock = system.register_pi_mutex();

    assert_eq!(
        pi_mutex_lock_slow(&mut system, lock, &CurrentThreadToken { id: owner }, 0, 1, CPU0),
        Ok(PiMutexLockResult::Acquired)
    );
    assert_eq!(
        pi_mutex_lock_slow(&mut system, lock, &CurrentThreadToken { id: owner }, 1, 1, CPU0),
        Err(TaskError::InvalidPiWaitState(PiWaitStateError::WaiterOwnsLock))
    );
    let token = match pi_mutex_lock_slow(
        &mut system,
        lock,
        &CurrentThreadToken { id: waiter },
        2,
        2,
        CPU0,
    ) {
        Ok(PiMutexLockResult::Waiting(token)) => token,
        other => panic!("the waiter must queue up: {other:?}"),
    };
    assert_eq!(token.thread, waiter);
    assert_eq!(record(&system, owner).policy.effective, fifo(30));
    assert_eq!(record(&system, owner).policy.base, fair());
    assert_eq!(record(&system, owner).pi.donor, Some(waiter));

    assert_eq!(
        system.exit_current(CPU0, 3, at(3)),
        Err(TaskError::InvalidPiState)
    );
    assert_eq!(pi_wait_cancel(&mut system, token, 4, CPU0), Ok(()));
    assert_eq!(record(&system, owner).policy.effective, fair());
    assert_eq!(record(&system, owner).pi.donor, None);
    assert_eq!(record(&system, waiter).pi.blocked_on, None);
}

#[test]
fn a_released_mutex_goes_to_the_most_urgent_waiter() {
    let (mut system, running) = machine(1);
    let owner = running[0];
    let lock = system.register_pi_mutex();
    system
        .pi_mutex_lock_slow(lock, owner, 0, 1, CPU0)
        .unwrap();
    let mut tokens = Vec::new();
    for (sequence, priority) in [(1, 10), (2, 40), (3, 20)] {
        let waiter = ready_thread(&mut system, fifo(priority));
        record_mut(&mut system, waiter).placement.task_cpu = Some(CPU0);
        match system
            .pi_mutex_lock_slow(lock, waiter, sequence, 1, CPU0)
            .unwrap()
        {
            PiMutexLockResult::Waiting(token) => tokens.push(token),
            PiMutexLockResult::Acquired => panic!("the mutex is taken"),
        }
    }
    assert_eq!(record(&system, owner).policy.effective, fifo(40));

    assert_eq!(
        pi_mutex_claim(&mut system, tokens[1], &CurrentThreadToken { id: owner }, 2, CPU0),
        Err(TaskError::InvalidPiState)
    );
    assert_eq!(
        pi_mutex_release(
            &mut system,
            lock,
            &CurrentThreadToken { id: owner },
            3,
            at(3),
            CPU0
        ),
        Ok(())
    );
    assert_eq!(record(&system, owner).policy.effective, fair());
    assert!(record(&system, tokens[1].thread).wake_pending);
    assert!(!record(&system, tokens[0].thread).wake_pending);
    assert!(!record(&system, tokens[2].thread).wake_pending);
}

#[test]
fn a_waiter_parks_until_it_is_served() {
    let (mut system, running) = machine(1);
    let owner = ready_thread(&mut system, fair());
    let waiter = running[0];
    let lock = system.register_pi_mutex();
    record_mut(&mut system, owner).placement.task_cpu = Some(CPU0);
    system
        .pi_mutex_lock_slow(lock, owner, 0, 1, CPU0)
        .unwrap();
    let token = match system.pi_mutex_lock_slow(lock, waiter, 1, 1, CPU0).unwrap() {
        PiMutexLockResult::Waiting(token) => token,
        PiMutexLockResult::Acquired => panic!("the mutex is taken"),
    };

    assert_eq!(
        prepare_pi_park_attempt(&mut system, CpuId::new(7), token, 2, at(2)),
        Err(TaskError::InvalidCpu(7))
    );
    system.wake_thread_direct(waiter, None, CPU0, 2, at(2));
    assert_eq!(
        pi_block_current(&mut system, CPU0, token, 2, at(2)),
        Ok(PiBlock::Retry)
    );
    match pi_block_current(&mut system, CPU0, token, 3, at(3)) {
        Ok(PiBlock::Blocked(decision)) => assert_eq!(decision.previous, Some(waiter)),
        other => panic!("the waiter must block: {other:?}"),
    }
    assert_eq!(record(&system, waiter).lifecycle, ThreadState::Blocked);
    assert_eq!(
        prepare_pi_park_attempt(&mut system, CPU0, token, 4, at(4)),
        Err(TaskError::InvalidPiState)
    );

    let mut served = token;
    served.generation = record(&system, waiter).pi.wait.selected_generation;
    assert_eq!(
        pi_block_current(&mut system, CPU0, served, 5, at(5)),
        Ok(PiBlock::Complete)
    );
}

#[test]
fn inheritance_respects_the_classes() {
    let round_robin = SchedulePolicy::round_robin(RtPriority::new(5).unwrap(), 77);
    assert_eq!(pi_inherited_policy(fair(), fifo(9)), Some(fifo(9)));
    assert_eq!(
        pi_inherited_policy(round_robin, fifo(9)),
        Some(SchedulePolicy::round_robin(RtPriority::new(9).unwrap(), 77))
    );
    assert_eq!(pi_inherited_policy(fifo(3), fair()), None);
    assert_eq!(pi_inherited_policy(SchedulePolicy::kernel_stop(), fifo(9)), None);
    assert_eq!(pi_inherited_policy(fair(), SchedulePolicy::kernel_stop()), None);
}

#[test]
fn a_policy_change_is_applied_by_the_owner() {
    let (mut system, running) = machine(1);
    let thread = running[0];
    {
        let record = record_mut(&mut system, thread);
        record.policy.update_generation = 1;
        record.policy.pending = Some(PendingPolicyUpdate {
            policy: fifo(12),
            reservation_scaled: 0,
            generation: 1,
        });
    }
    let mut update = message(InboxOperation::PolicyUpdate, Some(thread), CPU0, CPU0);
    update.generation = 1;
    system.cpus[0].remote.post(update);

    assert_eq!(
        system.drain_policy_updates(CPU0, 5, at(5)),
        Ok(OwnerControlDrain {
            drained: 1,
            pending: false
        })
    );
    assert_eq!(record(&system, thread).policy.base, fifo(12));
    assert_eq!(record(&system, thread).policy.effective, fifo(12));
    assert_eq!(record(&system, thread).policy.pending, None);
    assert_eq!(record(&system, thread).policy.dispatch_generation, 1);
    assert!(system.cpus[0].needs_reschedule());
}

#[test]
fn a_policy_change_of_a_waiting_thread_moves_it_to_its_class() {
    let (mut system, _) = machine(1);
    let thread = ready_thread(&mut system, fair());
    system.enqueue(CPU0, thread, 0, at(0)).unwrap();
    {
        let record = record_mut(&mut system, thread);
        record.policy.update_generation = 4;
        record.policy.pending = Some(PendingPolicyUpdate {
            policy: fifo(60),
            reservation_scaled: 0,
            generation: 4,
        });
    }
    let mut late = message(InboxOperation::PolicyUpdate, Some(thread), CPU0, CPU0);
    late.generation = 9;
    let mut update = late;
    update.generation = 4;
    system.cpus[0].remote.post(late);
    system.cpus[0].remote.post(update);

    assert_eq!(
        system.drain_policy_updates(CPU0, 5, at(5)),
        Ok(OwnerControlDrain {
            drained: 2,
            pending: false
        })
    );
    assert_eq!(record(&system, thread).policy.base, fifo(60));
    assert_eq!(system.block_current(CPU0, 6, at(6)).unwrap().next, thread);
}

#[test]
fn a_lent_reservation_puts_a_policy_change_off() {
    let (mut system, running) = machine(1);
    let thread = running[0];
    record_mut(&mut system, thread).pi.deadline_cbs_borrower = Some(running[0]);
    system.cpus[0]
        .remote
        .post(message(InboxOperation::PolicyUpdate, Some(thread), CPU0, CPU0));

    assert_eq!(
        system.drain_policy_updates(CPU0, 5, at(5)),
        Ok(OwnerControlDrain {
            drained: 1,
            pending: false
        })
    );
    assert_eq!(system.cpus[0].remote.inbox.messages.len(), 1);
    assert_eq!(
        system.cpus[0].remote.inbox.messages[0].operation,
        InboxOperation::PolicyUpdate
    );
}

#[test]
fn messages_are_refused_by_name() {
    let (mut system, running) = machine(2);

    system.cpus[0]
        .remote
        .post(message(InboxOperation::Reclaim, None, CPU0, CPU0));
    assert_eq!(
        system.drain_policy_updates(CPU0, 1, at(1)),
        Err(TaskError::InvalidConfiguration)
    );
    system.cpus[0].remote.post(message(
        InboxOperation::AffinityUpdate,
        Some(running[0]),
        CPU1,
        CPU0,
    ));
    assert_eq!(
        system.drain_policy_updates(CPU0, 1, at(1)),
        Err(TaskError::CpuOwnerMismatch {
            expected: 1,
            actual: 0
        })
    );
    system.cpus[0].remote.post(message(
        InboxOperation::Migration,
        Some(running[0]),
        CPU1,
        CPU0,
    ));
    assert_eq!(
        system.drain_policy_updates(CPU0, 1, at(1)),
        Err(TaskError::InvalidConfiguration)
    );
    let mut pull = message(InboxOperation::BalanceRequest, None, CPU0, CpuId::new(8));
    pull.reservation = Some(IdlePullReservation {
        source: CPU0,
        generation: 1,
    });
    system.cpus[0].remote.post(pull);
    assert_eq!(
        system.drain_policy_updates(CPU0, 1, at(1)),
        Err(TaskError::InvalidCpu(8))
    );
    let mut unannounced = message(InboxOperation::Migration, Some(running[0]), CPU1, CPU0);
    unannounced.placement_demand = 3;
    system.cpus[0].remote.post(unannounced);
    assert_eq!(
        system.drain_policy_updates(CPU0, 1, at(1)),
        Err(TaskError::InvalidConfiguration)
    );
    assert_eq!(
        system.drain_policy_updates(CpuId::new(6), 1, at(1)),
        Err(TaskError::InvalidCpu(6))
    );
}

#[test]
fn stale_messages_are_skipped() {
    let (mut system, running) = machine(1);
    system.cpus[0].remote.post(message(
        InboxOperation::PolicyUpdate,
        Some(ThreadId::from_parts(99, 3)),
        CPU1,
        CPU1,
    ));
    system.cpus[0]
        .remote
        .post(message(InboxOperation::AffinityUpdate, None, CPU1, CPU1));
    system.cpus[0].remote.post(message(
        InboxOperation::DeadlineRefresh,
        Some(running[0]),
        CPU0,
        CPU0,
    ));

    assert_eq!(
        system.drain_policy_updates(CPU0, 1, at(1)),
        Ok(OwnerControlDrain {
            drained: 3,
            pending: false
        })
    );
    assert!(record(&system, running[0]).deadline.timers_stale);
}

#[test]
fn nothing_is_drained_during_a_switch() {
    let (mut system, running) = machine(1);
    system.block_current(CPU0, 1, at(1)).unwrap();
    system.cpus[0].remote.post(message(
        InboxOperation::DeadlineRefresh,
        Some(running[0]),
        CPU0,
        CPU0,
    ));

    assert_eq!(
        system.drain_policy_updates(CPU0, 2, at(2)),
        Ok(OwnerControlDrain {
            drained: 0,
            pending: true
        })
    );
    assert_eq!(system.cpus[0].remote.inbox.messages.len(), 1);
}

#[test]
fn a_ready_thread_is_placed_on_the_cpu_that_has_least_to_do() {
    let (mut system, _) = machine(2);
    let mut placed = [0usize; 2];
    for _ in 0..4 {
        let thread = ready_thread(&mut system, fair());
        system.place_ready(CPU0, thread, 1, at(1)).unwrap();
        system.drain_policy_updates(CPU1, 1, at(1)).unwrap();
        let cpu = record(&system, thread).placement.task_cpu.unwrap();
        placed[cpu.index as usize] += 1;
        assert_eq!(record(&system, thread).placement.on_rq, TaskOnRunQueue::Queued);
    }
    assert_eq!(placed, [2, 2]);
    assert_eq!(system.cpus[1].remote.load.incoming_migration_demand, 0);
}

#[test]
fn an_idle_cpu_is_sent_a_waiting_thread() {
    let (mut system, _) = machine(2);
    let thread = ready_thread(&mut system, fair());
    system.enqueue(CPU0, thread, 0, at(0)).unwrap();
    let reservation = system.cpus[1].remote.idle_pull.reserve(CPU0).unwrap();
    let mut pull = message(InboxOperation::BalanceRequest, None, CPU0, CPU1);
    pull.reservation = Some(reservation);
    system.cpus[0].remote.post(pull);

    system.drain_policy_updates(CPU0, 1, at(1)).unwrap();
    assert_eq!(
        record(&system, thread).placement.on_rq,
        TaskOnRunQueue::Migrating
    );
    assert_eq!(record(&system, thread).placement.task_cpu, Some(CPU1));
    assert_eq!(system.cpus[1].remote.idle_pull.reservation, None);

    system.drain_policy_updates(CPU1, 2, at(2)).unwrap();
    assert_eq!(record(&system, thread).placement.on_rq, TaskOnRunQueue::Queued);
    assert_eq!(system.block_current(CPU1, 3, at(3)).unwrap().next, thread);
}

#[test]
fn a_waiting_thread_follows_its_affinity() {
    let (mut system, _) = machine(2);
    let thread = ready_thread(&mut system, fair());
    system.enqueue(CPU0, thread, 0, at(0)).unwrap();
    record_mut(&mut system, thread)
        .placement
        .affinity
        .remove(CPU0);

    assert_eq!(system.reconcile_owner_affinity_update(CPU0, thread), Ok(()));
    assert_eq!(
        record(&system, thread).placement.on_rq,
        TaskOnRunQueue::Migrating
    );
    system.drain_policy_updates(CPU1, 1, at(1)).unwrap();
    assert_eq!(record(&system, thread).placement.task_cpu, Some(CPU1));
    assert_eq!(record(&system, thread).placement.on_rq, TaskOnRunQueue::Queued);
}

#[test]
fn a_running_thread_that_may_not_stay_leaves_at_the_next_switch() {
    let (mut system, running) = machine(2);
    record_mut(&mut system, running[0]).placement.affinity.insert(CPU1);
    record_mut(&mut system, running[0]).placement.affinity.remove(CPU0);

    assert_eq!(system.reconcile_owner_affinity_update(CPU0, running[0]), Ok(()));
    assert_eq!(
        record(&system, running[0]).placement.migration_request,
        Some(CPU1)
    );
    let migration = system
        .schedule_out_owner_running(CPU0, running[0], EnqueueReason::Preempted, 2, at(2))
        .unwrap()
        .unwrap();
    assert_eq!(migration.thread, running[0]);
    assert_eq!(migration.target, CPU1);
    assert_eq!(record(&system, running[0]).lifecycle, ThreadState::Ready);
    assert_eq!(
        record(&system, running[0]).placement.on_rq,
        TaskOnRunQueue::Migrating
    );
    assert_eq!(record(&system, running[0]).placement.on_cpu, Some(CPU0));
}

#[test]
fn a_wait_for_an_interrupt_is_decided_by_its_registration() {
    assert_eq!(
        irq_wait_step(IrqRegisterResult::Occupied),
        IrqWaitStep::Refused(TaskError::InvalidConfiguration)
    );
    assert_eq!(
        irq_wait_step(IrqRegisterResult::ConsumedPending),
        IrqWaitStep::Done
    );
    assert_eq!(irq_wait_step(IrqRegisterResult::Registered), IrqWaitStep::Park);
    assert_eq!(
        irq_wait_step(IrqRegisterResult::NotificationInFlight),
        IrqWaitStep::Park
    );
    assert_eq!(
        irq_wait_result(Err(TaskError::NotReady), Err(TaskError::ThreadBusy)),
        Err(TaskError::ThreadBusy)
    );
    assert_eq!(
        irq_wait_result(Err(TaskError::NotReady), Ok(())),
        Err(TaskError::NotReady)
    );
    assert_eq!(irq_wait_result(Ok(()), Ok(())), Ok(()));
}

/// The CPUs whose run queues hold a thread.
fn queued_on(system: &TaskSystem, thread: ThreadId) -> Vec<u32> {
    let mut cpus = Vec::new();
    for cpu in &system.cpus {
        if cpu
            .remote
            .run_queue
            .queue
            .membership_class(thread)
            .is_some()
        {
            cpus.push(cpu.owner().index);
        }
    }
    cpus
}

#[test]
fn a_thread_is_on_one_run_queue_at_most() {
    let (mut system, running) = machine(2);
    let thread = ready_thread(&mut system, fifo(20));
    assert_eq!(queued_on(&system, thread), Vec::<u32>::new());

    system.enqueue(CPU0, thread, 10, at(10)).unwrap();
    assert_eq!(queued_on(&system, thread), vec![0]);
    assert_eq!(record(&system, thread).placement.queued_cpu(), Some(CPU0));

    let placement = &mut record_mut(&mut system, thread).placement;
    placement.affinity = CpuSet::empty(2);
    placement.affinity.insert(CPU1);
    system.reconcile_owner_affinity_update(CPU0, thread).unwrap();
    assert_eq!(queued_on(&system, thread), Vec::<u32>::new());

    system.drain_policy_updates(CPU1, 20, at(20)).unwrap();
    assert_eq!(queued_on(&system, thread), vec![1]);
    assert_eq!(record(&system, thread).placement.queued_cpu(), Some(CPU1));

    system.dequeue(CPU1, thread).unwrap();
    assert_eq!(queued_on(&system, thread), Vec::<u32>::new());
    assert_eq!(queued_on(&system, running[0]), Vec::<u32>::new());
}

fn deadline(runtime_ns: u64, period_ns: u64) -> SchedulePolicy {
    SchedulePolicy::deadline(
        DeadlinePolicy::new(runtime_ns, period_ns, period_ns, DeadlineFlags::none()).unwrap(),
    )
}

/// A thread that waits for its turn on the first CPU.
fn local_thread(system: &mut TaskSystem, policy: SchedulePolicy) -> ThreadId {
    let thread = ready_thread(system, policy);
    record_mut(system, thread).placement.task_cpu = Some(CPU0);
    thread
}

#[test]
fn reservations_are_refused_by_name() {
    let (mut system, _) = machine(2);

    assert_eq!(
        system.create_thread(pinned(deadline(10, 100), CPU0, 2)),
        Err(TaskError::DeadlineAffinity)
    );
    // Two CPUs, 95 percent each.
    system.create_thread(ThreadSpec::new(deadline(95, 100))).unwrap();
    assert_eq!(
        system.create_thread(ThreadSpec::new(deadline(96, 100))),
        Err(TaskError::DeadlineAdmission)
    );
    assert!(system.create_thread(ThreadSpec::new(deadline(94, 100))).is_ok());
}

#[test]
fn the_registry_holds_as_many_threads_as_it_was_made_for() {
    let mut system = TaskSystem::new(TaskSystemConfig::new(1).with_thread_capacity(1));

    assert_eq!(
        system.create_thread(ThreadSpec::new(fair())),
        Ok(ThreadId::from_parts(0, 1))
    );
    assert_eq!(
        system.create_thread(ThreadSpec::new(fair())),
        Err(TaskError::ThreadCapacity)
    );
}

#[test]
fn a_thread_without_a_context_gives_its_slot_back() {
    let (mut system, _) = machine(1);
    let spec = ThreadSpec {
        policy: deadline(50, 100),
        affinity: None,
        has_context: true,
    };
    let reserved = system.root_domain.admission.reserved_scaled;

    let pending = system.reserve_thread(spec).unwrap();
    let refused = pending.id;
    assert!(system.root_domain.admission.reserved_scaled > reserved);
    assert_eq!(
        system.commit_thread(pending, 12),
        Err(TaskError::RuntimeFailure(12))
    );
    assert_eq!(system.root_domain.admission.reserved_scaled, reserved);
    assert_eq!(
        system.create_thread(ThreadSpec::new(fair())),
        Ok(ThreadId::from_parts(refused.slot, refused.generation + 1))
    );
    assert!(system.thread_record(refused).is_err());
}

#[test]
fn transitions_and_placements_are_refused_by_name() {
    let (mut system, _) = machine(1);
    let thread = ready_thread(&mut system, fair());

    assert_eq!(
        system.make_ready(thread),
        Err(TaskError::InvalidTransition {
            from: ThreadState::Ready,
            to: ThreadState::Ready,
        })
    );
    assert_eq!(system.place_ready(CPU0, thread, 0, at(0)), Ok(()));
    assert_eq!(
        system.place_ready(CPU0, thread, 0, at(0)),
        Err(TaskError::AlreadyQueued)
    );
}

#[test]
fn a_cpu_without_a_thread_cannot_park() {
    let mut system = TaskSystem::new(TaskSystemConfig::new(1));
    assert_eq!(
        system.prepare_park(CPU0, 0, at(0)),
        Err(TaskError::CpuOffline(0))
    );
    system.cpus[0].remote.lifecycle = CpuLifecycleState::Online;
    assert_eq!(
        system.prepare_park(CPU0, 0, at(0)),
        Err(TaskError::NoRunnableThread)
    );
}

#[test]
fn waits_for_a_mutex_are_refused_by_name() {
    let (mut system, running) = machine(1);
    let owner = running[0];
    let waiter = local_thread(&mut system, fifo(30));
    let late = local_thread(&mut system, fifo(20));
    let lock = system.register_pi_mutex();
    let other = system.register_pi_mutex();
    system.pi_mutex_lock_slow(lock, owner, 0, 1, CPU0).unwrap();
    system.pi_mutex_lock_slow(lock, waiter, 1, 1, CPU0).unwrap();

    assert_eq!(
        system.pi_mutex_lock_slow(other, waiter, 2, 1, CPU0),
        Err(TaskError::InvalidPiWaitState(
            PiWaitStateError::WaiterAlreadyBlocked
        ))
    );
    record_mut(&mut system, late).exiting = true;
    assert_eq!(
        system.pi_mutex_lock_slow(lock, late, 3, 1, CPU0),
        Err(TaskError::InvalidPiWaitState(
            PiWaitStateError::ExitedParticipant
        ))
    );
    record_mut(&mut system, late).exiting = false;
    system.mutexes[0].owner = 0;
    assert_eq!(
        system.pi_mutex_lock_slow(lock, late, 4, 1, CPU0),
        Err(TaskError::InvalidPiWaitState(
            PiWaitStateError::StaleSchedulerOwnership
        ))
    );
}

#[test]
fn a_circle_of_owners_is_refused() {
    let (mut system, running) = machine(1);
    let first = running[0];
    let second = local_thread(&mut system, fifo(30));
    let ours = system.register_pi_mutex();
    let theirs = system.register_pi_mutex();
    system.pi_mutex_lock_slow(ours, first, 0, 1, CPU0).unwrap();
    system.pi_mutex_lock_slow(theirs, second, 1, 1, CPU0).unwrap();
    system.pi_mutex_lock_slow(ours, second, 2, 1, CPU0).unwrap();

    assert_eq!(
        system.pi_mutex_lock_slow(theirs, first, 3, 1, CPU0),
        Err(TaskError::PiCycle)
    );
    assert_eq!(record(&system, first).pi.blocked_on, None);
}

#[test]
fn a_chain_of_owners_is_followed_so_far() {
    let (mut system, running) = configured_machine(TaskSystemConfig::new(1).with_pi_chain_limit(1));
    let first = running[0];
    let second = local_thread(&mut system, fifo(30));
    let third = local_thread(&mut system, fifo(40));
    let ours = system.register_pi_mutex();
    let theirs = system.register_pi_mutex();
    system.pi_mutex_lock_slow(ours, first, 0, 1, CPU0).unwrap();
    system.pi_mutex_lock_slow(theirs, second, 1, 1, CPU0).unwrap();
    system.pi_mutex_lock_slow(ours, second, 2, 1, CPU0).unwrap();

    assert_eq!(
        system.pi_mutex_lock_slow(theirs, third, 3, 1, CPU0),
        Err(TaskError::PiChainLimit { limit: 1 })
    );
    assert_eq!(record(&system, third).pi.blocked_on, None);
}

#[test]
fn a_thread_that_may_run_nowhere_cannot_be_woken() {
    let (mut system, _) = machine(2);
    let thread = system
        .create_thread(pinned(fair(), CPU1, 2))
        .unwrap();
    record_mut(&mut system, thread).lifecycle = ThreadState::Blocked;
    system.cpus[1].remote.lifecycle = CpuLifecycleState::Offline;
    system.root_domain.online.remove(CPU1);

    assert_eq!(
        pi_wake(&mut system, thread, CPU0, 1, at(1)),
        Err(TaskError::NotInitialized)
    );
    assert_eq!(record(&system, thread).lifecycle, ThreadState::Blocked);
}

#[test]
fn a_timer_worker_keeps_its_cpu_up_while_timers_are_due() {
    let mut system = TaskSystem::new(TaskSystemConfig::new(1));
    let worker = &mut system.cpus[0].remote.ktimer;
    assert!(worker.is_quiescent_for_offline());
    assert_eq!(worker.begin_install(), Ok(()));
    assert!(!worker.is_quiescent_for_offline());
    assert_eq!(worker.begin_install(), Err(TaskError::InvalidConfiguration));

    assert!(!worker.take_event());
    worker.finish_install(ThreadId::from_parts(3, 1));
    assert_eq!(worker.worker_thread(), Some(ThreadId::from_parts(3, 1)));
    worker.publish();
    assert!(!worker.is_quiescent_for_offline());
    assert!(worker.take_event());
    assert!(worker.is_quiescent_for_offline());
}

#[test]
fn realtime_threads_become_ready_where_they_are() {
    let (mut system, _) = machine(2);
    for policy in [fifo(10), fifo(80), deadline(10, 100)] {
        let thread = ready_thread(&mut system, policy);
        system.place_ready(CPU1, thread, 1, at(1)).unwrap();
        assert_eq!(record(&system, thread).placement.task_cpu, Some(CPU1));
        assert_eq!(record(&system, thread).placement.on_rq, TaskOnRunQueue::Queued);
    }

    let elsewhere = system.create_thread(pinned(fifo(90), CPU0, 2)).unwrap();
    system.make_ready(elsewhere).unwrap();
    system.place_ready(CPU1, elsewhere, 1, at(1)).unwrap();
    assert_eq!(record(&system, elsewhere).placement.task_cpu, Some(CPU0));
}

#[test]
fn an_idle_cpu_has_no_current_thread() {
    let (mut system, running) = machine(1);
    assert_eq!(system.cpus[0].current(), Some(running[0]));
    system.block_current(CPU0, 5, at(5)).unwrap();
    assert_eq!(system.cpus[0].current, system.cpus[0].idle);
    assert_eq!(system.cpus[0].current(), None);
}

#[test]
fn a_cpu_that_is_off_switches_nothing_out() {
    let (mut system, running) = machine(1);
    system.cpus[0].remote.lifecycle = CpuLifecycleState::Offline;
    let result =
        system.schedule_out_owner_running(CPU0, running[0], EnqueueReason::Preempted, 1, at(1));
    assert_eq!(result.err(), Some(TaskError::CpuOffline(0)));
    assert_eq!(system.cpus[0].current, Some(running[0]));
}

#[test]
fn a_request_to_reschedule_stays_until_it_is_served() {
    for lifecycle in [CpuLifecycleState::Online, CpuLifecycleState::Draining] {
        let (mut system, _) = machine(1);
        let cpu = &mut system.cpus[0];
        cpu.remote.lifecycle = lifecycle;
        cpu.request_reschedule();
        cpu.request_scheduler_work();
        cpu.request_reschedule();
        assert!(cpu.needs_reschedule());
        assert!(cpu.remote.take_preempt_requested());
    }
    let (mut system, _) = machine(1);
    system.cpus[0].remote.lifecycle = CpuLifecycleState::Offline;
    system.cpus[0].request_reschedule();
    assert!(!system.cpus[0].remote.take_preempt_requested());
}

#[test]
fn published_load_belongs_together() {
    let (mut system, _) = machine(2);
    for waiting in 0..3usize {
        system.cpus[0].remote.publish_run_queue_load_summary();
        let load = system.cpus[0].remote.try_load_summary().unwrap();
        assert_eq!(load.epoch % 2, 0);
        assert_eq!(load.runnable_count, waiting);
        assert_eq!(load.workload_count, waiting + 1);
        assert_eq!(load.overloaded, waiting > 0);
        let thread = ready_thread(&mut system, fair());
        system.enqueue(CPU0, thread, 1, at(1)).unwrap();
    }
    system.cpus[0].remote.load.sequence += 1;
    assert_eq!(system.cpus[0].remote.try_load_summary(), None);
}

#[test]
fn a_mutex_stays_locked_while_it_is_handed_on() {
    let (mut system, running) = machine(1);
    let owner = running[0];
    let lock = system.register_pi_mutex();
    let place = lock.id.value as usize - 1;
    assert!(!system.mutexes[place].is_locked());
    system
        .pi_mutex_lock_slow(lock, owner, 0, 1, CPU0)
        .unwrap();
    let waiter = local_thread(&mut system, fifo(10));
    let thief = local_thread(&mut system, fifo(90));
    let token = match system.pi_mutex_lock_slow(lock, waiter, 1, 1, CPU0).unwrap() {
        PiMutexLockResult::Waiting(token) => token,
        PiMutexLockResult::Acquired => panic!("the mutex is taken"),
    };
    system
        .pi_mutex_release(lock, owner, 2, at(2), CPU0)
        .unwrap();

    assert!(system.mutexes[place].is_locked());
    for thread in [owner, waiter, thief] {
        assert!(!system.mutexes[place].is_owned_by(thread));
        assert_eq!(
            system.mutexes[place].try_acquire(thread),
            Ok(PiMutexAcquire::Contended)
        );
    }
    system.pi_mutex_claim(token, 3, CPU0).unwrap();
    assert!(system.mutexes[place].is_owned_by(waiter));
}
