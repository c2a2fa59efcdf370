//! The kernel's trace state and its steps: starting the first task,
//! switching to the next one, finishing a system call, concluding any other
//! trap, and the report printed when every application has completed. Each
//! step states exactly which records it appends to which history, and in
//! what order.
use vstd::prelude::*;
use crate::event::GlobalEventCounter;
use crate::event_log::{
    chronological_lines, event_summary_lines, history_by_pid_lines, UnifiedEventHistory, UnifiedRecord,
};
use crate::fmt::{append_lines, push_line, text};
use crate::switch_log::{first_record_of, switch_record_of, SwitchHistory};
use crate::task::{is_next_task, marked, TaskControlBlock, TaskManager, TaskStatus};
use crate::trap::{action_branch, finish_syscall, record_syscall_info, report_line, TrapAction, TrapContext};
use crate::trap_log::{
    add_lines, add_trap_record, history_after, trap_record_of, SyscallInfo, TrapBranch, TrapHistory, TrapRecord,
};

verus! {

/// Everything the kernel traces: the event counter, the local counter of
/// each kind of record, and the three histories.
pub struct Trace {
    pub counter: GlobalEventCounter,
    pub first_switches: usize,
    pub switches: usize,
    pub traps: usize,
    pub switch_history: SwitchHistory,
    pub trap_history: TrapHistory,
    pub unified: UnifiedEventHistory,
}

impl Trace {
    /// The trap history keeps at most its capacity.
    pub open spec fn wf(&self) -> bool {
        self.trap_history.wf()
    }

    /// Nothing traced yet.
    pub fn new() -> (t: Self)
        ensures
            t.wf(),
            t.counter@ == 0,
            t.first_switches == 0,
            t.switches == 0,
            t.traps == 0,
            t.switch_history@ == Seq::<crate::switch_log::SwitchRecord>::empty(),
            t.trap_history@ == Seq::<TrapRecord>::empty(),
            t.unified@ == Seq::<UnifiedRecord>::empty(),
    {
        Trace {
            counter: GlobalEventCounter::new(),
            first_switches: 0,
            switches: 0,
            traps: 0,
            switch_history: SwitchHistory::new(),
            trap_history: TrapHistory::new(),
            unified: UnifiedEventHistory::new(),
        }
    }
}

/// The current task's pid, control block address, context address and
/// kernel stack top (all zero when there is no current task); `addrs[i]` are
/// the control block and context addresses of task `i`.
pub open spec fn current_info(tasks: Seq<TaskControlBlock>, current: nat, addrs: Seq<(usize, usize)>) -> (
    usize,
    usize,
    usize,
    usize,
) {
    if current < tasks.len() {
        (tasks[current as int].pid, addrs[current as int].0, addrs[current as int].1, tasks[current as int].task_cx.sp)
    } else {
        (0, 0, 0, 0)
    }
}

/// The information on the current task that a trap record takes.
pub fn current_task_info(manager: &TaskManager, addrs: &Vec<(usize, usize)>) -> (info: (usize, usize, usize, usize))
    requires
        manager.wf(),
        addrs@.len() == manager.tasks_view().len(),
    ensures
        info == current_info(manager.tasks_view(), manager.current(), addrs@),
{
    let cur = manager.current_index();
    match manager.current_task() {
        Some(task) => (task.pid, addrs[cur].0, addrs[cur].1, task.task_cx.sp),
        None => (0, 0, 0, 0),
    }
}

/// What switching to the next task does, from tasks `tasks0` of which the
/// first `n` are applications, with current index `cur0`: when one of them
/// is `Ready`, the first one in round-robin order
/// becomes `Running` and current, and one switch record from the previous
/// current task to it (both as they are after the change, with global id
/// `gid0 + 1` and local number `lid0 + 1`) is `added`; otherwise nothing
/// changes and nothing is added.
pub open spec fn next_step(
    tasks0: Seq<TaskControlBlock>,
    n: nat,
    cur0: nat,
    addrs: Seq<(usize, usize)>,
    gid0: nat,
    lid0: nat,
    tasks1: Seq<TaskControlBlock>,
    cur1: nat,
    res: Option<(usize, usize)>,
    added: Seq<UnifiedRecord>,
) -> bool {
    match res {
        Some((prev, next)) => {
            &&& is_next_task(tasks0, n, cur0, Some(next))
            &&& prev == cur0
            &&& cur1 == next
            &&& tasks1 == tasks0.update(
                next as int,
                TaskControlBlock { task_status: TaskStatus::Running, ..tasks0[next as int] },
            )
            &&& added == seq![
                UnifiedRecord::Switch(
                    switch_record_of(
                        tasks1[prev as int],
                        addrs[prev as int],
                        tasks1[next as int],
                        addrs[next as int],
                        (gid0 + 1) as usize,
                        (lid0 + 1) as usize,
                    ),
                ),
            ]
        },
        None => {
            &&& is_next_task(tasks0, n, cur0, None)
            &&& tasks1 == tasks0
            &&& cur1 == cur0
            &&& added == Seq::<UnifiedRecord>::empty()
        },
    }
}

/// Starts the first task: task 0 becomes `Running` and the first-switch
/// record into it (as it is after the change) is appended to the unified
/// history, with the next global id, whether or not any application is in
/// the slots. With no task slots at all nothing changes.
pub fn run_first_task(manager: &mut TaskManager, trace: &mut Trace, addrs: &Vec<(usize, usize)>)
    requires
        old(manager).wf(),
        old(trace).counter@ < usize::MAX,
        old(trace).first_switches < usize::MAX,
        addrs@.len() == old(manager).tasks_view().len(),
    ensures
        final(manager).wf(),
        final(manager).app_count() == old(manager).app_count(),
        final(manager).current() == old(manager).current(),
        final(manager).tasks_view() == marked(old(manager).tasks_view(), 0, TaskStatus::Running),
        old(manager).tasks_view().len() == 0 ==> final(trace).unified@ == old(trace).unified@
            && final(trace).counter@ == old(trace).counter@ && final(trace).first_switches
            == old(trace).first_switches,
        old(manager).tasks_view().len() > 0 ==> final(trace).unified@ == old(trace).unified@.push(
            UnifiedRecord::Switch(
                first_record_of(
                    final(manager).tasks_view()[0],
                    addrs@[0],
                    (old(trace).counter@ + 1) as usize,
                    (old(trace).first_switches + 1) as usize,
                ),
            ),
        ) && final(trace).counter@ == old(trace).counter@ + 1 && final(trace).first_switches
            == old(trace).first_switches + 1,
        final(trace).switches == old(trace).switches,
        final(trace).traps == old(trace).traps,
        final(trace).switch_history@ == old(trace).switch_history@,
        final(trace).trap_history == old(trace).trap_history,
{
    manager.run_first_task();
    if manager.slot_count() > 0 {
        let r = manager.first_switch_record(&mut trace.counter, &mut trace.first_switches, addrs[0].0, addrs[0].1);
        trace.unified.add_switch_record(r);
    }
}

fn switch_from_current(manager: &mut TaskManager, trace: &mut Trace, addrs: &Vec<(usize, usize)>) -> (res: Option<
    (usize, usize),
>)
    requires
        old(manager).wf(),
        old(trace).counter@ < usize::MAX,
        old(trace).switches < usize::MAX,
        addrs@.len() == old(manager).tasks_view().len(),
    ensures
        final(manager).wf(),
        final(manager).app_count() == old(manager).app_count(),
        next_step(
            old(manager).tasks_view(),
            old(manager).app_count(),
            old(manager).current(),
            addrs@,
            old(trace).counter@,
            old(trace).switches as nat,
            final(manager).tasks_view(),
            final(manager).current(),
            res,
            final(trace).unified@.skip(old(trace).unified@.len() as int),
        ),
        final(trace).unified@.len() >= old(trace).unified@.len(),
        final(trace).unified@.take(old(trace).unified@.len() as int) == old(trace).unified@,
        final(trace).counter@ == old(trace).counter@ + final(trace).unified@.len() - old(trace).unified@.len(),
        final(trace).switches == old(trace).switches + final(trace).unified@.len() - old(trace).unified@.len(),
        final(trace).first_switches == old(trace).first_switches,
        final(trace).traps == old(trace).traps,
        final(trace).switch_history@ == old(trace).switch_history@,
        final(trace).trap_history == old(trace).trap_history,
{
    let ghost u0 = trace.unified@;
    proof {
        manager.lemma_current_in_range();
    }
    let res = manager.run_next_task();
    match res {
        Some((prev, next)) => {
            let r = manager.switch_record(
                &mut trace.counter,
                &mut trace.switches,
                prev,
                next,
                addrs[prev].0,
                addrs[prev].1,
                addrs[next].0,
                addrs[next].1,
            );
            trace.unified.add_switch_record(r);
            assert(trace.unified@.skip(u0.len() as int) =~= seq![UnifiedRecord::Switch(r)]);
            assert(trace.unified@.take(u0.len() as int) =~= u0);
        },
        None => {
            assert(trace.unified@.skip(u0.len() as int) =~= Seq::<UnifiedRecord>::empty());
            assert(trace.unified@.take(u0.len() as int) =~= u0);
        },
    }
    res
}

/// Switches to the next task (see `next_step`): the result is the pair
/// (previous current, next) when a task was `Ready`, and the records the
/// step adds are appended to the unified history.
pub fn run_next_task(manager: &mut TaskManager, trace: &mut Trace, addrs: &Vec<(usize, usize)>) -> (res: Option<
    (usize, usize),
>)
    requires
        old(manager).wf(),
        old(trace).counter@ < usize::MAX,
        old(trace).switches < usize::MAX,
        addrs@.len() == old(manager).tasks_view().len(),
    ensures
        final(manager).wf(),
        final(manager).app_count() == old(manager).app_count(),
        next_step(
            old(manager).tasks_view(),
            old(manager).app_count(),
            old(manager).current(),
            addrs@,
            old(trace).counter@,
            old(trace).switches as nat,
            final(manager).tasks_view(),
            final(manager).current(),
            res,
            final(trace).unified@.skip(old(trace).unified@.len() as int),
        ),
        final(trace).unified@.len() >= old(trace).unified@.len(),
        final(trace).unified@.take(old(trace).unified@.len() as int) == old(trace).unified@,
        final(trace).counter@ == old(trace).counter@ + final(trace).unified@.len() - old(trace).unified@.len(),
        final(trace).switches == old(trace).switches + final(trace).unified@.len() - old(trace).unified@.len(),
        final(trace).first_switches == old(trace).first_switches,
        final(trace).traps == old(trace).traps,
        final(trace).switch_history@ == old(trace).switch_history@,
        final(trace).trap_history == old(trace).trap_history,
{
    switch_from_current(manager, trace, addrs)
}

fn mark_and_switch(
    manager: &mut TaskManager,
    trace: &mut Trace,
    addrs: &Vec<(usize, usize)>,
    status: TaskStatus,
) -> (res: Option<(usize, usize)>)
    requires
        old(manager).wf(),
        old(trace).counter@ < usize::MAX,
        old(trace).switches < usize::MAX,
        addrs@.len() == old(manager).tasks_view().len(),
        status == TaskStatus::Ready || status == TaskStatus::Exited,
    ensures
        final(manager).wf(),
        final(manager).app_count() == old(manager).app_count(),
        next_step(
            marked(old(manager).tasks_view(), old(manager).current(), status),
            old(manager).app_count(),
            old(manager).current(),
            addrs@,
            old(trace).counter@,
            old(trace).switches as nat,
            final(manager).tasks_view(),
            final(manager).current(),
            res,
            final(trace).unified@.skip(old(trace).unified@.len() as int),
        ),
        final(trace).unified@.len() >= old(trace).unified@.len(),
        final(trace).unified@.take(old(trace).unified@.len() as int) == old(trace).unified@,
        final(trace).counter@ == old(trace).counter@ + final(trace).unified@.len() - old(trace).unified@.len(),
        final(trace).switches == old(trace).switches + final(trace).unified@.len() - old(trace).unified@.len(),
        final(trace).first_switches == old(trace).first_switches,
        final(trace).traps == old(trace).traps,
        final(trace).switch_history@ == old(trace).switch_history@,
        final(trace).trap_history == old(trace).trap_history,
{
    if status == TaskStatus::Ready {
        manager.mark_current_suspended();
    } else {
        manager.mark_current_exited();
    }
    switch_from_current(manager, trace, addrs)
}

/// Suspends the current task (it becomes `Ready`), then switches to the next
/// task as `run_next_task` does from there.
pub fn suspend_current_and_run_next(manager: &mut TaskManager, trace: &mut Trace, addrs: &Vec<(usize, usize)>) -> (res:
    Option<(usize, usize)>)
    requires
        old(manager).wf(),
        old(trace).counter@ < usize::MAX,
        old(trace).switches < usize::MAX,
        addrs@.len() == old(manager).tasks_view().len(),
    ensures
        final(manager).wf(),
        final(manager).app_count() == old(manager).app_count(),
        next_step(
            marked(old(manager).tasks_view(), old(manager).current(), TaskStatus::Ready),
            old(manager).app_count(),
            old(manager).current(),
            addrs@,
            old(trace).counter@,
            old(trace).switches as nat,
            final(manager).tasks_view(),
            final(manager).current(),
            res,
            final(trace).unified@.skip(old(trace).unified@.len() as int),
        ),
        final(trace).unified@.len() >= old(trace).unified@.len(),
        final(trace).unified@.take(old(trace).unified@.len() as int) == old(trace).unified@,
        final(trace).counter@ == old(trace).counter@ + final(trace).unified@.len() - old(trace).unified@.len(),
        final(trace).switches == old(trace).switches + final(trace).unified@.len() - old(trace).unified@.len(),
        final(trace).first_switches == old(trace).first_switches,
        final(trace).traps == old(trace).traps,
        final(trace).switch_history@ == old(trace).switch_history@,
        final(trace).trap_history == old(trace).trap_history,
{
    mark_and_switch(manager, trace, addrs, TaskStatus::Ready)
}

/// Exits the current task (it becomes `Exited`), then switches to the next
/// task as `run_next_task` does from there.
pub fn exit_current_and_run_next(manager: &mut TaskManager, trace: &mut Trace, addrs: &Vec<(usize, usize)>) -> (res:
    Option<(usize, usize)>)
    requires
        old(manager).wf(),
        old(trace).counter@ < usize::MAX,
        old(trace).switches < usize::MAX,
        addrs@.len() == old(manager).tasks_view().len(),
    ensures
        final(manager).wf(),
        final(manager).app_count() == old(manager).app_count(),
        next_step(
            marked(old(manager).tasks_view(), old(manager).current(), TaskStatus::Exited),
            old(manager).app_count(),
            old(manager).current(),
            addrs@,
            old(trace).counter@,
            old(trace).switches as nat,
            final(manager).tasks_view(),
            final(manager).current(),
            res,
            final(trace).unified@.skip(old(trace).unified@.len() as int),
        ),
        final(trace).unified@.len() >= old(trace).unified@.len(),
        final(trace).unified@.take(old(trace).unified@.len() as int) == old(trace).unified@,
        final(trace).counter@ == old(trace).counter@ + final(trace).unified@.len() - old(trace).unified@.len(),
        final(trace).switches == old(trace).switches + final(trace).unified@.len() - old(trace).unified@.len(),
        final(trace).first_switches == old(trace).first_switches,
        final(trace).traps == old(trace).traps,
        final(trace).switch_history@ == old(trace).switch_history@,
        final(trace).trap_history == old(trace).trap_history,
{
    mark_and_switch(manager, trace, addrs, TaskStatus::Exited)
}

/// What the kernel does after concluding a trap.
#[derive(Debug, Clone, Copy)]
pub enum AfterTrap {
    /// Switch contexts to the task that `run_next_task` chose (the pair
    /// previous current, next), or report completion when there was none.
    SwitchTo(Option<(usize, usize)>),
    /// Stop the kernel.
    Halt,
}

/// The line printed for an action, as a list of lines (empty when none).
pub open spec fn report_text(a: TrapAction, stval: usize, sepc: usize) -> Seq<Seq<char>> {
    match report_line(a, stval, sepc) {
        Some(l) => seq![l],
        None => Seq::empty(),
    }
}

/// Finishes a system call: its result goes to a0, and one `UserEnvCall`
/// record of the call (with the current task's details, the context as it
/// is now, and the next global id and trap number) is added to the trap
/// history and appended to the unified history. The result is the text that
/// adding it prints.
pub fn complete_syscall(
    manager: &TaskManager,
    trace: &mut Trace,
    cx: &mut TrapContext,
    syscall_id: usize,
    args: [usize; 3],
    result: isize,
    scause: usize,
    stval: usize,
    addrs: &Vec<(usize, usize)>,
) -> (lines: Vec<String>)
    requires
        manager.wf(),
        old(trace).wf(),
        old(trace).counter@ < usize::MAX,
        old(trace).traps < usize::MAX,
        addrs@.len() == manager.tasks_view().len(),
    ensures
        final(cx).x@ == old(cx).x@.update(10, result as usize),
        final(cx).sepc == old(cx).sepc,
        final(cx).sstatus == old(cx).sstatus,
        ({
            let info = current_info(manager.tasks_view(), manager.current(), addrs@);
            let r = trap_record_of(
                (old(trace).counter@ + 1) as usize,
                (old(trace).traps + 1) as usize,
                *final(cx),
                info.0,
                info.1,
                info.2,
                info.3,
                scause,
                stval,
                TrapBranch::UserEnvCall,
                Some(SyscallInfo { syscall_id, args, result }),
            );
            &&& final(trace).trap_history@ == history_after(old(trace).trap_history@, r)
            &&& final(trace).unified@ == old(trace).unified@.push(UnifiedRecord::Trap(r))
            &&& text(lines@) == add_lines(old(trace).trap_history@, r)
        }),
        final(trace).wf(),
        final(trace).counter@ == old(trace).counter@ + 1,
        final(trace).traps == old(trace).traps + 1,
        final(trace).first_switches == old(trace).first_switches,
        final(trace).switches == old(trace).switches,
        final(trace).switch_history@ == old(trace).switch_history@,
{
    finish_syscall(cx, result);
    let recorded = cx.x[10] as isize;
    assert(recorded == result) by (bit_vector)
        requires
            recorded == (result as usize) as isize,
    ;
    let info = current_task_info(manager, addrs);
    let r = record_syscall_info(
        &mut trace.counter,
        &mut trace.traps,
        cx,
        info.0,
        info.1,
        info.2,
        info.3,
        scause,
        stval,
        syscall_id,
        args,
        recorded,
    );
    add_trap_record(&mut trace.trap_history, &mut trace.unified, r)
}

/// Concludes any trap but a system call, after `trap_handler` decided its
/// action. An unsupported trap changes nothing and halts. Otherwise one
/// record with the action's branch (with the current task's details, the
/// context `cx`, and the next global id and trap number) is added to the trap
/// history and appended to the unified history first; then a fault exits the
/// current task and the timer suspends it, and either way the next task is
/// chosen and its switch record appended after the trap record (see
/// `next_step`); an unhandled exception leaves the tasks alone and halts.
/// The result is the text printed (the record, any overwrite warning, then
/// the action's report line) and what to do next.
pub fn conclude_trap(
    manager: &mut TaskManager,
    trace: &mut Trace,
    action: TrapAction,
    cx: &TrapContext,
    scause: usize,
    stval: usize,
    addrs: &Vec<(usize, usize)>,
) -> (out: (Vec<String>, AfterTrap))
    requires
        !(action is Syscall),
        old(manager).wf(),
        old(trace).wf(),
        old(trace).counter@ + 2 <= usize::MAX,
        old(trace).traps < usize::MAX,
        old(trace).switches < usize::MAX,
        addrs@.len() == old(manager).tasks_view().len(),
    ensures
        final(manager).wf(),
        final(manager).app_count() == old(manager).app_count(),
        final(trace).wf(),
        final(trace).first_switches == old(trace).first_switches,
        final(trace).switch_history@ == old(trace).switch_history@,
        action_branch(action) is None ==> {
            &&& *final(manager) == *old(manager)
            &&& final(trace).unified@ == old(trace).unified@
            &&& final(trace).trap_history == old(trace).trap_history
            &&& final(trace).counter@ == old(trace).counter@
            &&& final(trace).traps == old(trace).traps
            &&& final(trace).switches == old(trace).switches
            &&& out.0@.len() == 0
            &&& out.1 is Halt
        },
        action_branch(action) matches Some(b) ==> {
            let info = current_info(old(manager).tasks_view(), old(manager).current(), addrs@);
            let r = trap_record_of(
                (old(trace).counter@ + 1) as usize,
                (old(trace).traps + 1) as usize,
                *cx,
                info.0,
                info.1,
                info.2,
                info.3,
                scause,
                stval,
                b,
                None,
            );
            let n0 = old(trace).unified@.len() as int;
            let added = final(trace).unified@.skip(n0 + 1);
            &&& final(trace).trap_history@ == history_after(old(trace).trap_history@, r)
            &&& final(trace).unified@.len() > old(trace).unified@.len()
            &&& final(trace).unified@.take(n0 + 1) == old(trace).unified@.push(UnifiedRecord::Trap(r))
            &&& final(trace).traps == old(trace).traps + 1
            &&& final(trace).counter@ == old(trace).counter@ + 1 + added.len()
            &&& final(trace).switches == old(trace).switches + added.len()
            &&& text(out.0@) == add_lines(old(trace).trap_history@, r) + report_text(action, stval, cx.sepc)
            &&& match action {
                TrapAction::StoreFault | TrapAction::IllegalInstruction => out.1 matches AfterTrap::SwitchTo(s)
                    && next_step(
                    marked(old(manager).tasks_view(), old(manager).current(), TaskStatus::Exited),
                    old(manager).app_count(),
                    old(manager).current(),
                    addrs@,
                    old(trace).counter@ + 1,
                    old(trace).switches as nat,
                    final(manager).tasks_view(),
                    final(manager).current(),
                    s,
                    added,
                ),
                TrapAction::Timer => out.1 matches AfterTrap::SwitchTo(s) && next_step(
                    marked(old(manager).tasks_view(), old(manager).current(), TaskStatus::Ready),
                    old(manager).app_count(),
                    old(manager).current(),
                    addrs@,
                    old(trace).counter@ + 1,
                    old(trace).switches as nat,
                    final(manager).tasks_view(),
                    final(manager).current(),
                    s,
                    added,
                ),
                _ => out.1 is Halt && *final(manager) == *old(manager) && added.len() == 0,
            }
        },
{
    let info = current_task_info(manager, addrs);
    match action.branch() {
        None => (Vec::new(), AfterTrap::Halt),
        Some(b) => {
            let r = TrapRecord::new(
                &mut trace.counter,
                &mut trace.traps,
                cx,
                info.0,
                info.1,
                info.2,
                info.3,
                scause,
                stval,
                b,
                None,
            );
            let mut lines = add_trap_record(&mut trace.trap_history, &mut trace.unified, r);
            let ghost u1 = trace.unified@;
            match action.report(stval, cx.sepc) {
                Some(l) => push_line(&mut lines, l),
                None => {},
            }
            let next = match action {
                TrapAction::StoreFault | TrapAction::IllegalInstruction => AfterTrap::SwitchTo(
                    exit_current_and_run_next(manager, trace, addrs),
                ),
                TrapAction::Timer => AfterTrap::SwitchTo(suspend_current_and_run_next(manager, trace, addrs)),
                _ => AfterTrap::Halt,
            };
            assert(trace.unified@.take(u1.len() as int) == u1);
            assert(trace.unified@.take(u1.len() as int) =~= trace.unified@.take(old(trace).unified@.len() + 1int));
            assert(text(lines@) =~= add_lines(old(trace).trap_history@, r) + report_text(action, stval, cx.sepc));
            (lines, next)
        },
    }
}

/// The report printed when every application has completed: a line saying
/// so, then under their headings the chronological listing, the summary, and
/// the history as seen by processes 0 to 3, and the heading of the stack
/// addresses that follow.
pub open spec fn final_report_lines(u: Seq<UnifiedRecord>) -> Seq<Seq<char>> {
    seq![
        "All applications completed!"@,
        "===============================Process Switch/Trap History==============================="@,
    ] + chronological_lines(u) + seq![
        "===============================Process Switch/Trap Summary==============================="@,
    ] + event_summary_lines(u) + seq![
        "===============================Process 0 Switch/Trap Summary==============================="@,
    ] + history_by_pid_lines(u, 0) + seq![
        "===============================Process 1 Switch/Trap Summary==============================="@,
    ] + history_by_pid_lines(u, 1) + seq![
        "===============================Process 2 Switch/Trap Summary==============================="@,
    ] + history_by_pid_lines(u, 2) + seq![
        "===============================Process 3 Switch/Trap Summary==============================="@,
    ] + history_by_pid_lines(u, 3) + seq![
        "===============================position of kernel stack and user stack==============================="@,
    ]
}

/// The report printed when every application has completed.
pub fn final_report(unified: &UnifiedEventHistory) -> (lines: Vec<String>)
    ensures
        text(lines@) == final_report_lines(unified@),
{
    let mut out: Vec<String> = Vec::new();
    push_line(&mut out, String::from_str("All applications completed!"));
    push_line(&mut out, String::from_str("===============================Process Switch/Trap History==============================="));
    append_lines(&mut out, unified.print_chronological());
    push_line(&mut out, String::from_str("===============================Process Switch/Trap Summary==============================="));
    append_lines(&mut out, unified.print_summary());
    push_line(&mut out, String::from_str("===============================Process 0 Switch/Trap Summary==============================="));
    append_lines(&mut out, unified.display_by_pid(0));
    push_line(&mut out, String::from_str("===============================Process 1 Switch/Trap Summary==============================="));
    append_lines(&mut out, unified.display_by_pid(1));
    push_line(&mut out, String::from_str("===============================Process 2 Switch/Trap Summary==============================="));
    append_lines(&mut out, unified.display_by_pid(2));
    push_line(&mut out, String::from_str("===============================Process 3 Switch/Trap Summary==============================="));
    append_lines(&mut out, unified.display_by_pid(3));
    push_line(&mut out, String::from_str("===============================position of kernel stack and user stack==============================="));
    assert(text(out@) =~= final_report_lines(unified@));
    out
}

} // verus!
