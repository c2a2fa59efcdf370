use rcore_trace::event_log::{sort_by_event_id, UnifiedRecord};
use rcore_trace::kernel::{
    complete_syscall, conclude_trap, current_task_info, exit_current_and_run_next, final_report, run_first_task,
    run_next_task, suspend_current_and_run_next, AfterTrap, Trace,
};
use rcore_trace::switch_log::SwitchRecord;
use rcore_trace::task::{TaskContext, TaskManager, TaskStatus};
use rcore_trace::trap::{trap_handler, ExceptionCause, InterruptCause, TrapAction, TrapCause, TrapContext};
use rcore_trace::trap_log::{TrapBranch, TrapType};

const INTERRUPT: usize = 1 << (usize::BITS - 1);

fn manager(n: usize) -> TaskManager {
    TaskManager::new(n, (0..n).map(|i| TaskContext::goto_restore(0x1000 + i, 0x2000 + i)).collect())
}

fn addrs(n: usize) -> Vec<(usize, usize)> {
    (0..n).map(|i| (0x9000 + i * 0x100, 0x9008 + i * 0x100)).collect()
}

fn cx() -> TrapContext {
    let mut x = [0usize; 32];
    for (i, v) in x.iter_mut().enumerate() {
        *v = 500 + i;
    }
    TrapContext { x, sstatus: 0x22, sepc: 0x8040_0100 }
}

fn switch_of(e: &UnifiedRecord) -> SwitchRecord {
    match e {
        UnifiedRecord::Switch(r) => *r,
        UnifiedRecord::Trap(_) => panic!("expected a switch record"),
    }
}

#[test]
fn first_task_appends_the_boot_switch_record() {
    let mut m = manager(3);
    let a = addrs(3);
    let mut t = Trace::new();
    run_first_task(&mut m, &mut t, &a);
    assert_eq!(m.task(0).task_status, TaskStatus::Running);
    assert_eq!(t.unified.events().len(), 1);
    let r = switch_of(&t.unified.events()[0]);
    assert_eq!((r.global_event_id, r.local_switch_id), (1, 1));
    assert_eq!((r.old_pid, r.new_pid), (999, 0));
    assert_eq!((r.new_tcb_addr, r.new_context_addr), a[0]);
    assert_eq!(r.new_tcb_content.task_status, TaskStatus::Running);
    assert_eq!(t.switch_history.get_records().len(), 0);
}

#[test]
fn no_tasks_means_nothing_happens() {
    let mut m = manager(0);
    let a = addrs(0);
    let mut t = Trace::new();
    run_first_task(&mut m, &mut t, &a);
    assert_eq!(t.unified.events().len(), 0);
    assert_eq!(t.counter.current_event_id(), 0);
    m.mark_current_suspended();
    m.mark_current_exited();
    assert_eq!(m.num_app(), 0);
    assert_eq!(run_next_task(&mut m, &mut t, &a), None);
    assert_eq!(current_task_info(&m, &a), (0, 0, 0, 0));
}

#[test]
fn each_switch_appends_one_record_with_the_next_id() {
    let mut m = manager(3);
    let a = addrs(3);
    let mut t = Trace::new();
    run_first_task(&mut m, &mut t, &a);
    assert_eq!(suspend_current_and_run_next(&mut m, &mut t, &a), Some((0, 1)));
    assert_eq!(exit_current_and_run_next(&mut m, &mut t, &a), Some((1, 2)));
    let events = t.unified.events();
    assert_eq!(events.len(), 3);
    let r = switch_of(&events[2]);
    assert_eq!((r.global_event_id, r.local_switch_id), (3, 2));
    assert_eq!((r.old_pid, r.new_pid), (1, 2));
    assert_eq!(r.old_tcb_content.task_status, TaskStatus::Exited);
    assert_eq!(r.new_tcb_content.task_status, TaskStatus::Running);
    assert_eq!((r.old_tcb_addr, r.old_context_addr), a[1]);
    assert_eq!(t.switches, 2);
}

#[test]
fn completion_when_no_task_is_ready() {
    let mut m = manager(1);
    let a = addrs(1);
    let mut t = Trace::new();
    run_first_task(&mut m, &mut t, &a);
    assert_eq!(exit_current_and_run_next(&mut m, &mut t, &a), None);
    assert_eq!(m.task(0).task_status, TaskStatus::Exited);
    assert_eq!(t.unified.events().len(), 1);
    let report = final_report(&t.unified);
    assert_eq!(report[0], "All applications completed!");
    assert_eq!(report[1], "===============================Process Switch/Trap History===============================");
    assert_eq!(
        report.last().unwrap(),
        "===============================position of kernel stack and user stack==============================="
    );
    let chrono = t.unified.print_chronological();
    assert_eq!(report[2..2 + chrono.len()].to_vec(), chrono);
    assert!(report.contains(&"===============================Process 3 Switch/Trap Summary===============================".to_string()));
}

#[test]
fn system_call_is_recorded_once_with_its_result() {
    let m = manager(2);
    let a = addrs(2);
    let mut t = Trace::new();
    let mut c = cx();
    c.x[17] = 64;
    let action = trap_handler(TrapCause::Exception(ExceptionCause::UserEnvCall), &mut c);
    let (id, args) = match action {
        TrapAction::Syscall { syscall_id, args } => (syscall_id, args),
        _ => panic!("expected a system call"),
    };
    let lines = complete_syscall(&m, &mut t, &mut c, id, args, -3, 8, 0x77, &a);
    assert_eq!(c.x[10], (-3isize) as usize);
    assert_eq!(c.sepc, 0x8040_0104);
    assert_eq!(t.trap_history.count(), 1);
    assert_eq!(t.unified.events().len(), 1);
    let r = t.trap_history.records()[0];
    assert_eq!(r.trap_branch, TrapBranch::UserEnvCall);
    assert_eq!(r.interrupted_pid, 0);
    assert_eq!((r.interrupted_tcb_addr, r.interrupted_context_addr), a[0]);
    assert_eq!(r.kernel_stack_top, 0x2000);
    assert_eq!(r.interrupted_registers.sepc, 0x8040_0104);
    assert_eq!(r.interrupted_registers.x[10], (-3isize) as usize);
    let info = r.syscall_info.unwrap();
    assert_eq!((info.syscall_id, info.args, info.result), (64, [510, 511, 512], -3));
    assert_eq!(lines, r.display());
}

#[test]
fn timer_records_the_trap_before_the_switch() {
    let mut m = manager(2);
    let a = addrs(2);
    let mut t = Trace::new();
    run_first_task(&mut m, &mut t, &a);
    let mut c = cx();
    let action = trap_handler(TrapCause::Interrupt(InterruptCause::SupervisorTimer), &mut c);
    let (lines, after) = conclude_trap(&mut m, &mut t, action, &c, INTERRUPT + 5, 0, &a);
    assert!(matches!(after, AfterTrap::SwitchTo(Some((0, 1)))));
    let events = t.unified.events();
    assert_eq!(events.len(), 3);
    match events[1] {
        UnifiedRecord::Trap(r) => {
            assert_eq!(r.global_event_id, 2);
            assert_eq!(r.trap_branch, TrapBranch::TimerInterrupt);
            assert_eq!(r.trap_type, TrapType::TimerInterrupt);
            assert_eq!(r.interrupted_pid, 0);
            assert_eq!(lines, r.display());
        }
        _ => panic!("expected the trap record"),
    }
    assert_eq!(switch_of(&events[2]).global_event_id, 3);
    assert_eq!(m.task(0).task_status, TaskStatus::Ready);
    assert_eq!(m.task(1).task_status, TaskStatus::Running);
}

#[test]
fn faults_record_then_exit_the_task() {
    for (cause, branch, scause) in [
        (ExceptionCause::StorePageFault, TrapBranch::InstructionPageFault, 15usize),
        (ExceptionCause::IllegalInstruction, TrapBranch::IllegalInstruction, 2),
    ] {
        let mut m = manager(2);
        let a = addrs(2);
        let mut t = Trace::new();
        run_first_task(&mut m, &mut t, &a);
        let mut c = cx();
        let action = trap_handler(TrapCause::Exception(cause), &mut c);
        let (lines, after) = conclude_trap(&mut m, &mut t, action, &c, scause, 0x10, &a);
        assert!(matches!(after, AfterTrap::SwitchTo(Some((0, 1)))));
        assert_eq!(m.task(0).task_status, TaskStatus::Exited);
        let r = t.trap_history.records()[0];
        assert_eq!(r.trap_branch, branch);
        assert!(r.syscall_info.is_none());
        assert_eq!(lines.last().cloned(), action.report(0x10, c.sepc));
        assert_eq!(t.unified.events().len(), 3);
    }
}

#[test]
fn unhandled_and_unsupported_traps_halt() {
    let mut m = manager(2);
    let a = addrs(2);
    let mut t = Trace::new();
    run_first_task(&mut m, &mut t, &a);
    let mut c = cx();
    let action = trap_handler(TrapCause::Exception(ExceptionCause::LoadFault), &mut c);
    let (lines, after) = conclude_trap(&mut m, &mut t, action, &c, 5, 0, &a);
    assert!(matches!(after, AfterTrap::Halt));
    assert_eq!(t.trap_history.records()[0].trap_branch, TrapBranch::OtherException);
    assert_eq!(lines.last().unwrap(), &format!("[kernel] Unhandled Exception LoadFault at {:#x}", 0x8040_0100usize));
    assert_eq!(m.task(0).task_status, TaskStatus::Running);
    let action = trap_handler(TrapCause::Interrupt(InterruptCause::UserSoft), &mut c);
    let before = t.unified.events().len();
    let (lines, after) = conclude_trap(&mut m, &mut t, action, &c, INTERRUPT, 0, &a);
    assert!(matches!(after, AfterTrap::Halt));
    assert!(lines.is_empty());
    assert_eq!(t.unified.events().len(), before);
    assert_eq!(t.trap_history.count(), 1);
}

#[test]
fn sorting_keeps_equal_ids_in_order() {
    let mut m = manager(3);
    let a = addrs(3);
    let mut t = Trace::new();
    run_first_task(&mut m, &mut t, &a);
    let first = switch_of(&t.unified.events()[0]);
    let mut dup_a = first;
    dup_a.new_pid = 7;
    let mut dup_b = first;
    dup_b.new_pid = 8;
    let mut later = first;
    later.global_event_id = 0;
    let v = vec![UnifiedRecord::Switch(dup_a), UnifiedRecord::Switch(later), UnifiedRecord::Switch(dup_b)];
    let sorted = sort_by_event_id(&v);
    let order: Vec<(usize, usize)> = sorted.iter().map(|e| (e.event_id(), switch_of(e).new_pid)).collect();
    assert_eq!(order, vec![(0, 0), (1, 7), (1, 8)]);
}

#[test]
fn no_application_still_starts_slot_zero() {
    let mut m = TaskManager::new(0, (0..4).map(|i| TaskContext::goto_restore(0x1000 + i, 0x2000 + i)).collect());
    let a = addrs(4);
    let mut t = Trace::new();
    run_first_task(&mut m, &mut t, &a);
    assert_eq!(m.task(0).task_status, TaskStatus::Running);
    assert_eq!(t.unified.events().len(), 1);
    assert_eq!(switch_of(&t.unified.events()[0]).new_pid, 0);
    assert_eq!(current_task_info(&m, &a), (0, a[0].0, a[0].1, 0x2000));
    assert_eq!(m.current_task().map(|task| task.pid), Some(0));
    assert_eq!(exit_current_and_run_next(&mut m, &mut t, &a), None);
    assert_eq!(m.task(0).task_status, TaskStatus::Exited);
}
