use rcore_trace::event::{EventType, GlobalEventCounter};
use rcore_trace::event_log::{
    add_switch_record_to_unified, add_trap_record_to_unified, display_unified_by_pid, print_unified_by_pid,
    print_unified_chronological, print_unified_summary, sort_by_event_id, UnifiedEventHistory, UnifiedRecord,
};
use rcore_trace::fmt::{cat_dec, cat_hex, dec_string, truncate_bytes};
use rcore_trace::switch_log::{
    add_switch_record, print_all_switch_details, print_process_by_id, RegistersSnapshot, SwitchHistory,
    SwitchRecord, TcbContent, BOOT_PID,
};
use rcore_trace::task::{TaskContext, TaskControlBlock, TaskManager, TaskStatus};
use rcore_trace::trap::{
    decode_scause, finish_syscall, record_syscall_info, trap_handler, ExceptionCause, InterruptCause, TrapAction,
    TrapCause, TrapContext,
};
use rcore_trace::trap_log::{
    add_trap_record, direct_print, direct_println, print_branch_statistics, print_trap_summary,
    print_traces_by_pid, SyscallInfo, TrapBranch, TrapHistory, TrapRecord, TrapRegisters, TrapType,
    MAX_TRAP_RECORDS,
};

const INTERRUPT: usize = 1 << (usize::BITS - 1);

fn ctx(ra: usize, sp: usize) -> TaskContext {
    let mut s = [0usize; 12];
    for (i, v) in s.iter_mut().enumerate() {
        *v = 0x100 + i;
    }
    TaskContext { ra, sp, s }
}

fn trap_cx(seed: usize) -> TrapContext {
    let mut x = [0usize; 32];
    for (i, v) in x.iter_mut().enumerate() {
        *v = seed + i;
    }
    TrapContext { x, sstatus: 0x8000_0000_0000_6000, sepc: 0x8040_0000 }
}

fn manager(n: usize) -> TaskManager {
    let contexts: Vec<TaskContext> = (0..n).map(|i| ctx(0x1000 + i, 0x2000 + i * 0x10)).collect();
    TaskManager::new(n, contexts)
}

fn switch(global: &mut GlobalEventCounter, local: &mut usize, old_pid: usize, new_pid: usize) -> SwitchRecord {
    let m = manager(old_pid.max(new_pid) + 1);
    m.switch_record(global, local, old_pid, new_pid, 0x10 + old_pid, 0x20 + old_pid, 0x10 + new_pid, 0x20 + new_pid)
}

fn trap(global: &mut GlobalEventCounter, local: &mut usize, pid: usize, scause: usize, branch: TrapBranch) -> TrapRecord {
    TrapRecord::new(global, local, &trap_cx(pid * 100), pid, 0xa0, 0xb0, 0xc0, scause, 0xdead, branch, None)
}

// ---- event counter -------------------------------------------------------

#[test]
fn counter_hands_out_increasing_ids_and_resets() {
    let mut c = GlobalEventCounter::new();
    assert_eq!(c.current_event_id(), 0);
    assert_eq!(c.next_event_id(), 1);
    assert_eq!(c.next_event_id(), 2);
    assert_eq!(c.current_event_id(), 2);
    c.reset();
    assert_eq!(c.current_event_id(), 0);
    assert_eq!(c.next_event_id(), 1);
}

// ---- text rendering ------------------------------------------------------

#[test]
fn numbers_render_as_format_does() {
    for n in [0usize, 7, 10, 255, 4096, 123456789, usize::MAX] {
        assert_eq!(dec_string(n), format!("{}", n));
        assert_eq!(cat_hex("", n), format!("{:#x}", n));
        assert_eq!(cat_dec("id=", n), format!("id={}", n));
    }
}

#[test]
fn truncation_counts_bytes_of_utf8() {
    assert_eq!(truncate_bytes("Switch: 1 → 2", 100), "Switch: 1 → 2");
    assert_eq!(truncate_bytes("Switch: 1 → 2", 10), "Switch: 1 ");
    assert_eq!(truncate_bytes("Switch: 1 → 2", 11), "Switch: 1 ");
    assert_eq!(truncate_bytes("Switch: 1 → 2", 13), "Switch: 1 →");
    assert_eq!(truncate_bytes("abc", 0), "");
}

#[test]
fn console_codes_are_the_characters() {
    assert_eq!(direct_print("Hi!"), vec![72usize, 105, 33]);
    assert_eq!(direct_println("ok"), vec![111usize, 107, 10]);
    assert_eq!(direct_print(""), Vec::<usize>::new());
}

// ---- trap types ----------------------------------------------------------

#[test]
fn trap_type_decodes_cause_values() {
    assert_eq!(TrapType::from(0), TrapType::InstructionMisaligned);
    assert_eq!(TrapType::from(8), TrapType::UserEnvCall);
    assert_eq!(TrapType::from(15), TrapType::StorePageFault);
    assert_eq!(TrapType::from(10), TrapType::Unknown);
    assert_eq!(TrapType::from(14), TrapType::Unknown);
    assert_eq!(TrapType::from(INTERRUPT), TrapType::Interrupt);
    assert_eq!(TrapType::from(INTERRUPT + 5), TrapType::TimerInterrupt);
    assert_eq!(TrapType::from(INTERRUPT + 9), TrapType::ExternalInterrupt);
    assert_eq!(TrapType::from(INTERRUPT + 1), TrapType::Interrupt);
    // all bits set decodes as an interrupt, not as Unknown
    assert_eq!(TrapType::from(usize::MAX), TrapType::Interrupt);
}

#[test]
fn trap_type_round_trips_through_its_code() {
    let kinds = [
        (TrapType::InstructionMisaligned, 0usize),
        (TrapType::InstructionFault, 1),
        (TrapType::IllegalInstruction, 2),
        (TrapType::Breakpoint, 3),
        (TrapType::LoadMisaligned, 4),
        (TrapType::LoadFault, 5),
        (TrapType::StoreMisaligned, 6),
        (TrapType::StoreFault, 7),
        (TrapType::UserEnvCall, 8),
        (TrapType::SupervisorEnvCall, 9),
        (TrapType::InstructionPageFault, 12),
        (TrapType::LoadPageFault, 13),
        (TrapType::StorePageFault, 15),
        (TrapType::Interrupt, INTERRUPT),
        (TrapType::TimerInterrupt, INTERRUPT + 5),
        (TrapType::ExternalInterrupt, INTERRUPT + 9),
    ];
    for (t, code) in kinds {
        assert_eq!(TrapType::from(code), t);
    }
}

#[test]
fn trap_descriptions() {
    assert_eq!(TrapType::UserEnvCall.description(), "User Environment Call");
    assert_eq!(TrapType::TimerInterrupt.description(), "Timer Interrupt");
    assert_eq!(TrapType::Unknown.description(), "Unknown Trap");
    assert_eq!(TrapType::StorePageFault.description(), "Store Page Fault");
}

// ---- trap dispatch -------------------------------------------------------

#[test]
fn scause_bits_decode_to_causes() {
    assert_eq!(decode_scause(8), TrapCause::Exception(ExceptionCause::UserEnvCall));
    assert_eq!(decode_scause(7), TrapCause::Exception(ExceptionCause::StoreFault));
    assert_eq!(decode_scause(15), TrapCause::Exception(ExceptionCause::StorePageFault));
    assert_eq!(decode_scause(4), TrapCause::Exception(ExceptionCause::Unknown));
    assert_eq!(decode_scause(INTERRUPT + 5), TrapCause::Interrupt(InterruptCause::SupervisorTimer));
    assert_eq!(decode_scause(INTERRUPT + 9), TrapCause::Interrupt(InterruptCause::SupervisorExternal));
    assert_eq!(decode_scause(INTERRUPT + 2), TrapCause::Interrupt(InterruptCause::Unknown));
}

#[test]
fn syscall_trap_advances_sepc_and_reads_arguments() {
    let mut cx = trap_cx(0);
    cx.x[17] = 64;
    cx.x[10] = 1;
    cx.x[11] = 0x8040_1000;
    cx.x[12] = 13;
    let before = cx;
    match trap_handler(TrapCause::Exception(ExceptionCause::UserEnvCall), &mut cx) {
        TrapAction::Syscall { syscall_id, args } => {
            assert_eq!(syscall_id, 64);
            assert_eq!(args, [1, 0x8040_1000, 13]);
        }
        other => panic!("unexpected {:?}", other),
    }
    assert_eq!(cx.sepc, before.sepc + 4);
    assert_eq!(cx.x, before.x);
    finish_syscall(&mut cx, -1);
    assert_eq!(cx.x[10], usize::MAX);
    assert_eq!(cx.x[11], before.x[11]);
}

#[test]
fn other_traps_leave_the_context_alone() {
    let cases = [
        (TrapCause::Exception(ExceptionCause::StoreFault), Some(TrapBranch::InstructionPageFault)),
        (TrapCause::Exception(ExceptionCause::StorePageFault), Some(TrapBranch::InstructionPageFault)),
        (TrapCause::Exception(ExceptionCause::IllegalInstruction), Some(TrapBranch::IllegalInstruction)),
        (TrapCause::Interrupt(InterruptCause::SupervisorTimer), Some(TrapBranch::TimerInterrupt)),
        (TrapCause::Exception(ExceptionCause::LoadPageFault), Some(TrapBranch::OtherException)),
        (TrapCause::Interrupt(InterruptCause::UserSoft), None),
    ];
    for (cause, branch) in cases {
        let mut cx = trap_cx(3);
        let before = cx;
        let action = trap_handler(cause, &mut cx);
        assert_eq!(action.branch(), branch);
        assert_eq!(cx.sepc, before.sepc);
        assert_eq!(cx.x, before.x);
    }
}

#[test]
fn fault_reports() {
    assert_eq!(
        TrapAction::StoreFault.report(0x10, 0x8040_0010),
        Some(format!(
            "[kernel] PageFault in application, bad addr = {:#x}, bad instruction = {:#x}, kernel killed it.",
            0x10usize, 0x8040_0010usize
        ))
    );
    assert_eq!(
        TrapAction::IllegalInstruction.report(0, 0).as_deref(),
        Some("[kernel] IllegalInstruction in application, kernel killed it.")
    );
    assert_eq!(
        TrapAction::UnhandledException(ExceptionCause::LoadFault).report(0, 0x42),
        Some("[kernel] Unhandled Exception LoadFault at 0x42".to_string())
    );
    assert_eq!(TrapAction::Timer.report(0, 0), None);
}

// ---- scheduler -----------------------------------------------------------

#[test]
fn new_manager_makes_ready_tasks_with_their_pids() {
    let m = manager(3);
    assert_eq!(m.num_app(), 3);
    assert_eq!(m.current_index(), 0);
    for i in 0..3 {
        assert_eq!(m.task(i).pid, i);
        assert_eq!(m.task(i).task_status, TaskStatus::Ready);
        assert_eq!(m.task(i).task_cx.ra, 0x1000 + i);
    }
    assert_eq!(m.current_task().map(|t| t.pid), Some(0));
}

#[test]
fn round_robin_switches_in_order() {
    let mut m = manager(3);
    m.run_first_task();
    assert_eq!(m.task(0).task_status, TaskStatus::Running);
    m.mark_current_suspended();
    assert_eq!(m.task(0).task_status, TaskStatus::Ready);
    assert_eq!(m.run_next_task(), Some((0, 1)));
    assert_eq!(m.current_index(), 1);
    assert_eq!(m.task(1).task_status, TaskStatus::Running);
    m.mark_current_exited();
    assert_eq!(m.run_next_task(), Some((1, 2)));
    m.mark_current_suspended();
    // task 1 exited, so after 2 comes 0
    assert_eq!(m.find_next_task(), Some(0));
    assert_eq!(m.run_next_task(), Some((2, 0)));
}

#[test]
fn current_task_comes_last_in_round_robin() {
    let mut m = manager(3);
    m.run_first_task();
    m.mark_current_exited();
    m.run_next_task();
    m.mark_current_exited();
    m.run_next_task();
    assert_eq!(m.current_index(), 2);
    m.mark_current_suspended();
    // only the current task is ready: it is chosen again
    assert_eq!(m.find_next_task(), Some(2));
}

#[test]
fn all_exited_means_no_next_task() {
    let mut m = manager(2);
    m.run_first_task();
    m.mark_current_exited();
    m.run_next_task();
    m.mark_current_exited();
    assert_eq!(m.find_next_task(), None);
    assert_eq!(m.run_next_task(), None);
    assert_eq!(m.current_index(), 1);
    let empty = TaskManager::new(0, Vec::new());
    assert_eq!(empty.find_next_task(), None);
    assert!(empty.current_task().is_none());
}

#[test]
fn exactly_one_task_runs_after_a_switch() {
    let mut m = manager(4);
    m.run_first_task();
    for _ in 0..10 {
        m.mark_current_suspended();
        m.run_next_task();
        let running: Vec<usize> = (0..4).filter(|&i| m.task(i).task_status == TaskStatus::Running).collect();
        assert_eq!(running, vec![m.current_index()]);
    }
}

#[test]
fn task_contexts() {
    let z = TaskContext::zero_init();
    assert_eq!((z.ra, z.sp, z.s), (0, 0, [0; 12]));
    let g = TaskContext::goto_restore(0x8020_0000, 0x8030_0000);
    assert_eq!((g.ra, g.sp, g.s), (0x8020_0000, 0x8030_0000, [0; 12]));
}

// ---- switch records ------------------------------------------------------

#[test]
fn switch_records_number_themselves() {
    let mut global = GlobalEventCounter::new();
    let mut local = 0usize;
    let m = manager(2);
    let first = m.first_switch_record(&mut global, &mut local, 0x500, 0x510);
    assert_eq!((first.global_event_id, first.local_switch_id), (1, 1));
    assert_eq!(first.old_pid, BOOT_PID);
    assert_eq!(first.old_tcb_content.task_status, TaskStatus::UnInit);
    assert_eq!(first.old_tcb_content.pid, 999);
    assert_eq!(first.new_pid, 0);
    assert_eq!(first.new_registers.ra, 0x1000);
    let mut switch_local = 0usize;
    let r = m.switch_record(&mut global, &mut switch_local, 0, 1, 1, 2, 3, 4);
    assert_eq!((r.global_event_id, r.local_switch_id), (2, 1));
    assert_eq!((r.old_pid, r.new_pid), (0, 1));
    assert_eq!(r.new_tcb_content.kernel_stack_top, 0x2010);
    assert_eq!(r.new_tcb_content.entry_point, 0x1001);
    assert_eq!(global.current_event_id(), 2);
}

#[test]
fn switch_to_unified_event() {
    let mut g = GlobalEventCounter::new();
    let mut l = 0;
    let boot_like = switch(&mut g, &mut l, 0, 1);
    let e = boot_like.to_unified_event();
    assert_eq!((e.event_id, e.pid, e.timestamp), (1, 0, 0));
    assert_eq!(e.event_type, EventType::ProcessSwitch);
    assert_eq!(e.subtype_desc, "Boot -> Task");
    let other = switch(&mut g, &mut l, 2, 1);
    assert_eq!(other.to_unified_event().subtype_desc, "Task -> Task");
}

#[test]
fn tcb_and_register_text() {
    let tcb = TaskControlBlock { task_status: TaskStatus::Running, task_cx: ctx(0x80, 0x90), pid: 7 };
    let c = TcbContent::from_tcb(&tcb);
    assert_eq!(
        c.display("|"),
        vec![
            "|  |-- Task Control Block Content:".to_string(),
            "|  |-- PID: 7".to_string(),
            "|  |-- Task Status: Running".to_string(),
            "|  |-- Kernel Stack Top: 0x90".to_string(),
            "|  |-- Entry Point: 0x80".to_string(),
        ]
    );
    let r = RegistersSnapshot::from_task_context(&tcb.task_cx);
    let lines = r.display(">");
    assert_eq!(lines.len(), 15);
    assert_eq!(lines[1], format!(">  |-- ra (Return Address): {:#x}", 0x80));
    assert_eq!(lines[3], format!(">  |-- s0 (Frame Pointer): {:#x}", 0x100));
    assert_eq!(lines[14], format!(">  |-- s11: {:#x}", 0x10b));
    assert_eq!(
        r.display_compact("#"),
        format!("#  Registers: ra={:#x}, sp={:#x}, s0={:#x}, s1={:#x}, ...", 0x80, 0x90, 0x100, 0x101)
    );
    let d = RegistersSnapshot::default();
    assert_eq!((d.ra, d.sp, d.s), (0, 0, [0; 12]));
}

#[test]
fn switch_record_text() {
    let mut g = GlobalEventCounter::new();
    let mut l = 0;
    let m = manager(2);
    let first = m.first_switch_record(&mut g, &mut l, 0x500, 0x510);
    let lines = first.display();
    assert_eq!(lines[1], format!("|                      PROCESS CONTEXT SWITCH (Global Event #{}),Local_id #{}                     |", 1, 1));
    assert_eq!(lines[3], "[OLD PROCESS] - No Previous Process (Boot State)");
    assert_eq!(lines[6], "Process ID (PID): 0");
    assert_eq!(lines[7], "TCB Address: 0x500");
    assert_eq!(lines.len(), 3 + 1 + 5 + 5 + 15 + 1);
    let r = switch(&mut g, &mut l, 1, 0);
    let full = r.display();
    assert_eq!(full.len(), 3 + 3 + 5 + 15 + 5 + 5 + 15 + 1);
    assert_eq!(full[3], "[OLD PROCESS] - Process Being Interrupted/Switched Out");
    let by_old = r.display_by_pid(1);
    assert_eq!(by_old[0], "\n=== Process 1 Switch History by pid===");
    assert_eq!(by_old[2], format!("  Switch Global #{},Local #{}: Switched out --> Task{}", 2, 2, 1));
    let by_other = r.display_by_pid(5);
    assert_eq!(by_other.len(), 2);
}

#[test]
fn switch_history_listings() {
    let mut g = GlobalEventCounter::new();
    let mut l = 0;
    let mut h = SwitchHistory::new();
    let mut u = UnifiedEventHistory::new();
    let m = manager(2);
    let first = m.first_switch_record(&mut g, &mut l, 0x500, 0x510);
    add_switch_record(&mut h, &mut u, first);
    let second = switch(&mut g, &mut l, 0, 1);
    add_switch_record(&mut h, &mut u, second);
    assert_eq!(h.get_records().len(), 2);
    assert_eq!(u.events().len(), 2);
    let summary = h.print_summary();
    assert_eq!(summary[2], format!("| Total Switches: {}                                                        |", 2));
    assert_eq!(
        summary[3],
        format!("| Global #{:<4} │ Local #{:<3} | Boot --> Task{:<3} │ Old Ctx:{:#x} │ New Ctx:{:#x} │", 1, 1, 0, 0, 0x510)
    );
    assert_eq!(
        summary[4],
        format!("| Global #{:<4} │ Local #{:<3} | Task{} --> Task{:<3} │ Old Ctx:{:#x} │ New Ctx:{:#x} │", 2, 2, 0, 1, 0x20, 0x21)
    );
    let history = h.print_process_history(0);
    assert_eq!(history, vec![
        "\n=== Process 0 Switch History ===".to_string(),
        "  Switch Global #1,Local #1: Switched out --> Task0".to_string(),
        "  Switch Global #2,Local #2: Switched out --> Task0".to_string(),
    ]);
    let details = print_all_switch_details(&h);
    assert_eq!(details[0], "self.records.len():2");
    assert_eq!(details[5], "|  Record #1 of 2                                                     |");
    assert_eq!(details.last().unwrap(), "|---------------------------------------------------------------------------|\n");
    let by_id = print_process_by_id(&h, 1);
    assert_eq!(by_id[0], "self.records.len():2");
    assert_eq!(by_id[2], "record.old_pid:999");
    assert_eq!(by_id.last().unwrap(), "record.new_pid:1---");
    let empty = SwitchHistory::new();
    assert_eq!(empty.print_each_switch_detail(), vec!["self.records.len():0".to_string(), "No switch records found.".to_string()]);
}

// ---- trap records and history -------------------------------------------

#[test]
fn trap_records_capture_the_context() {
    let mut g = GlobalEventCounter::new();
    let mut l = 0;
    let cx = trap_cx(1000);
    let r = TrapRecord::new(&mut g, &mut l, &cx, 3, 0xa0, 0xb0, 0xc0, INTERRUPT + 5, 0, TrapBranch::TimerInterrupt, None);
    assert_eq!((r.global_event_id, r.local_trap_id), (1, 1));
    assert_eq!(r.trap_type, TrapType::TimerInterrupt);
    assert_eq!(r.interrupted_registers.x[0], 0);
    assert_eq!(r.interrupted_registers.x[31], 1031);
    assert_eq!(r.interrupted_registers.sepc, cx.sepc);
    assert_eq!(r.interrupted_registers.scause, INTERRUPT + 5);
    let e = r.to_unified_event();
    assert_eq!((e.event_id, e.pid), (1, 3));
    assert_eq!(e.event_type, EventType::Trap);
    assert_eq!(e.subtype_desc, "Timer Interrupt");
    let regs = TrapRegisters::from_trap_context(&cx, 8, 7);
    assert_eq!(regs.stval, 7);
    assert_eq!(regs.x[5], 1005);
}

#[test]
fn syscall_record_and_text() {
    let mut g = GlobalEventCounter::new();
    let mut l = 0;
    let cx = trap_cx(0);
    let r = record_syscall_info(&mut g, &mut l, &cx, 2, 1, 2, 3, 8, 0, 64, [1, 0x20, 3], -5);
    assert_eq!(r.trap_branch, TrapBranch::UserEnvCall);
    let info = r.syscall_info.unwrap();
    assert_eq!(info.result, -5);
    assert_eq!(
        info.display(),
        vec![
            "    Syscall ID: 64 (write)".to_string(),
            format!("    Args: [{:#x}, {:#x}, {:#x}]", 1, 0x20, 3),
            "    Result: -5".to_string(),
        ]
    );
    let plain = SyscallInfo::new(124, [0, 0, 0], isize::MIN);
    assert_eq!(plain.display()[0], "    Syscall ID: 124");
    assert_eq!(plain.display()[2], format!("    Result: {}", isize::MIN));
    let lines = r.display();
    assert_eq!(lines[2], format!("                           TRAP/EXCEPTION (Global Event #{}),Local Trap #{}                      ", 1, 1));
    assert_eq!(lines[5], "   Type: User Environment Call (UserEnvCall)");
    assert_eq!(lines[6], "   Branch: UserEnvCall");
    assert_eq!(lines[7], " [System Call Information]");
    assert_eq!(lines[13], format!("   Task Context Address: {:#x}", 2));
    let regs = r.interrupted_registers.display("|   ");
    assert_eq!(regs[3], format!("|   |-- scause: {:#x} (User Environment Call)", 8));
    assert_eq!(
        regs[8],
        format!("|   |-- a0-a7: {:#x}, {:#x}, {:#x}, {:#x}, {:#x}, {:#x}, {:#x}, {:#x}", 10, 11, 12, 13, 14, 15, 16, 17)
    );
    assert!(r.display_by_pid(9).is_empty());
    assert_eq!(r.display_by_pid(2)[0], "\n=== Process 2 TRAP/EXCEPTION History by pid===");
}

#[test]
fn trap_history_keeps_the_newest_records() {
    let mut g = GlobalEventCounter::new();
    let mut l = 0;
    let mut h = TrapHistory::new();
    let mut u = UnifiedEventHistory::new();
    for i in 0..MAX_TRAP_RECORDS {
        let lines = add_trap_record(&mut h, &mut u, trap(&mut g, &mut l, i % 4, 8, TrapBranch::UserEnvCall));
        assert_ne!(lines.last().unwrap(), "[TrapHistory] Warning: Buffer full, oldest record overwritten");
    }
    assert_eq!(h.count(), MAX_TRAP_RECORDS);
    let lines = add_trap_record(&mut h, &mut u, trap(&mut g, &mut l, 1, 8, TrapBranch::UserEnvCall));
    assert_eq!(lines.last().unwrap(), "[TrapHistory] Warning: Buffer full, oldest record overwritten");
    assert_eq!(h.count(), MAX_TRAP_RECORDS);
    assert_eq!(h.records()[0].global_event_id, 2);
    assert_eq!(h.records()[MAX_TRAP_RECORDS - 1].global_event_id, MAX_TRAP_RECORDS + 1);
    assert_eq!(u.events().len(), MAX_TRAP_RECORDS + 1);
}

#[test]
fn trap_history_listings_and_statistics() {
    let mut g = GlobalEventCounter::new();
    let mut l = 0;
    let mut h = TrapHistory::new();
    let mut u = UnifiedEventHistory::new();
    add_trap_record(&mut h, &mut u, trap(&mut g, &mut l, 0, INTERRUPT + 5, TrapBranch::TimerInterrupt));
    add_trap_record(&mut h, &mut u, trap(&mut g, &mut l, 1, 8, TrapBranch::UserEnvCall));
    add_trap_record(&mut h, &mut u, trap(&mut g, &mut l, 1, 15, TrapBranch::InstructionPageFault));
    add_trap_record(&mut h, &mut u, trap(&mut g, &mut l, 0, INTERRUPT + 5, TrapBranch::TimerInterrupt));
    add_trap_record(&mut h, &mut u, trap(&mut g, &mut l, 2, 2, TrapBranch::IllegalInstruction));
    let stats = print_branch_statistics(&h);
    assert_eq!(stats[3], format!("|  Timer Interrupts:     {:>6}                                   |", 2));
    assert_eq!(stats[4], format!("|  System Calls:         {:>6}                                   |", 1));
    assert_eq!(stats[5], format!("|  Page Faults:          {:>6}                                   |", 1));
    assert_eq!(stats[6], format!("|  Other:                {:>6}                                   |", 1));
    assert_eq!(stats[7], format!("|  Total:                {:>6}                                   |", 5));
    let summary = print_trap_summary(&h);
    assert_eq!(summary[3], " Total Traps/Exceptions: 5/8192");
    assert_eq!(
        summary[4],
        format!(" │ Global #{:<4} │ Local #{:<3} │ PID {:<3} │ {:<35} │ sepc={:#x} │", 1, 1, 0, "Timer Interrupt", 0x8040_0000usize)
    );
    let mine = print_traces_by_pid(&h, 1);
    assert_eq!(mine.len(), 3);
    assert_eq!(mine[2], format!("  Global #{:<4} │ Local #{:<3}: {} at sepc={:#x}", 3, 3, "Store Page Fault", 0x8040_0000usize));
    assert_eq!(print_traces_by_pid(&h, 7), vec![
        "\n=== Traps for Process 7 ===".to_string(),
        "  No traps recorded for this process".to_string(),
    ]);
}

// ---- unified history -----------------------------------------------------

#[test]
fn unified_history_is_shown_in_event_order() {
    let mut g = GlobalEventCounter::new();
    let mut l = 0;
    let mut tl = 0;
    let a = switch(&mut g, &mut l, 0, 1);
    let b = trap(&mut g, &mut tl, 1, 8, TrapBranch::UserEnvCall);
    let c = switch(&mut g, &mut l, 1, 2);
    let mut u = UnifiedEventHistory::new();
    add_switch_record_to_unified(&mut u, c);
    add_trap_record_to_unified(&mut u, b);
    add_switch_record_to_unified(&mut u, a);
    let sorted = sort_by_event_id(u.events());
    let ids: Vec<usize> = sorted.iter().map(|e| e.event_id()).collect();
    assert_eq!(ids, vec![1, 2, 3]);
    assert_eq!(sorted[1].event_type(), EventType::Trap);
    let chrono = print_unified_chronological(&u);
    assert_eq!(chrono[3], format!("|  Total Events: {}                                                         |", 3));
    assert_eq!(chrono[6], a.display()[1]);
    let summary = print_unified_summary(&u);
    assert_eq!(
        summary[5],
        format!("|  {:<3} │ {:<16} │ {:<4} │ {:<50} |", 1, "Switch", 0, "Switch: 0 → 1")
    );
    assert_eq!(
        summary[6],
        format!("|  {:<3} │ {:<16} │ {:<4} │ {:<50} |", 2, "Trap", 1, "System Call")
    );
    let pid2 = print_unified_by_pid(&u, 2);
    assert_eq!(pid2[1], "|               EVENTS FOR PROCESS 2 (Chronological Order)                 |");
    assert_eq!(pid2.len(), 3 + c.display().len() + 1);
    let by_pid = display_unified_by_pid(&u, 7);
    assert_eq!(by_pid[0], "\n=== Process 7 Switch TRAP/EXCEPTION History by pid===Start");
    assert_eq!(by_pid.last().unwrap(), "\n=== Process 7 Switch TRAP/EXCEPTION History by pid===End");
}

#[test]
fn summary_description_is_cut_to_fifty_bytes() {
    let mut g = GlobalEventCounter::new();
    let mut l = 0;
    let m = manager(1);
    let mut r = m.switch_record(&mut g, &mut l, 0, 0, 0, 0, 0, 0);
    r.old_pid = usize::MAX;
    r.new_pid = usize::MAX - 1;
    let desc = format!("Switch: {} → {}", r.old_pid, r.new_pid);
    let mut u = UnifiedEventHistory::new();
    u.add_switch_record(r);
    let summary = u.print_summary();
    let expected = format!("|  {:<3} │ {:<16} │ {:<4} │ {:<50} |", 1, "Switch", usize::MAX, &desc[..desc.len().min(50)]);
    assert_eq!(summary[5], expected);
}

#[test]
fn unified_record_display_matches_its_parts() {
    let mut g = GlobalEventCounter::new();
    let mut l = 0;
    let t = trap(&mut g, &mut l, 4, 7, TrapBranch::InstructionPageFault);
    let e = UnifiedRecord::Trap(t);
    assert_eq!(e.display(), t.display());
    assert_eq!(e.display_by_pid(4), t.display_by_pid(4));
    assert_eq!(e.event_id(), 1);
}

#[test]
fn applications_fill_the_first_slots() {
    let contexts: Vec<TaskContext> = (0..4).map(|i| ctx(0x1000 + i, 0x2000 + i)).collect();
    let mut m = TaskManager::new(2, contexts);
    assert_eq!((m.num_app(), m.slot_count()), (2, 4));
    assert_eq!(m.task(3).task_status, TaskStatus::Ready);
    assert_eq!(m.task(3).pid, 3);
    m.run_first_task();
    m.mark_current_suspended();
    assert_eq!(m.run_next_task(), Some((0, 1)));
    m.mark_current_suspended();
    // slots 2 and 3 hold no application and are never chosen
    assert_eq!(m.run_next_task(), Some((1, 0)));
    m.mark_current_exited();
    assert_eq!(m.run_next_task(), Some((0, 1)));
    m.mark_current_exited();
    assert_eq!(m.find_next_task(), None);
}
