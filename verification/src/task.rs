//! Tasks and the round-robin task manager: which task runs next, and how a
//! task's status changes when it yields, exits or is switched in.
use vstd::prelude::*;
use crate::event::GlobalEventCounter;
use crate::switch_log::{first_record_of, switch_record_of, RegistersSnapshot, SwitchRecord, TcbContent};

verus! {

/// The registers that a task switch saves and restores.
#[derive(Clone, Copy)]
pub struct TaskContext {
    /// Return address.
    pub ra: usize,
    /// Kernel stack pointer.
    pub sp: usize,
    /// Callee-saved registers s0 to s11.
    pub s: [usize; 12],
}

impl TaskContext {
    /// A context with every register zero.
    pub fn zero_init() -> (cx: Self)
        ensures
            cx.ra == 0,
            cx.sp == 0,
            forall|i: int| 0 <= i < 12 ==> cx.s[i] == 0,
    {
        TaskContext { ra: 0, sp: 0, s: [0; 12] }
    }

    /// A context that returns to the trap-restore routine at `restore_addr`
    /// on the kernel stack `kstack_ptr`.
    pub fn goto_restore(restore_addr: usize, kstack_ptr: usize) -> (cx: Self)
        ensures
            cx.ra == restore_addr,
            cx.sp == kstack_ptr,
            forall|i: int| 0 <= i < 12 ==> cx.s[i] == 0,
    {
        TaskContext { ra: restore_addr, sp: kstack_ptr, s: [0; 12] }
    }
}

/// The life-cycle state of a task.
#[derive(Copy, Clone, PartialEq, Eq, Structural, Debug)]
pub enum TaskStatus {
    UnInit,
    Ready,
    Running,
    Exited,
}

/// A task control block: status, saved context and process id.
#[derive(Copy, Clone)]
pub struct TaskControlBlock {
    pub task_status: TaskStatus,
    pub task_cx: TaskContext,
    pub pid: usize,
}

/// The task whose index comes `k` places after `current` in round-robin
/// order over `n` tasks (`k` from 0 to `n - 1`; `k == n - 1` is `current` itself).
pub open spec fn round_robin(current: nat, k: nat, n: nat) -> nat {
    (current + 1 + k) % n
}

/// What choosing the next task among the first `n` tasks (the
/// applications) means: `next` is the first `Ready` one in round-robin order
/// after `current`; `None` when none of them is `Ready`.
pub open spec fn is_next_task(tasks: Seq<TaskControlBlock>, n: nat, current: nat, next: Option<usize>) -> bool {
    match next {
        Some(id) => exists|k: nat|
            #![trigger round_robin(current, k, n)]
            k < n && round_robin(current, k, n) == id && tasks[id as int].task_status
                == TaskStatus::Ready && forall|j: nat|
                #![trigger round_robin(current, j, n)]
                j < k ==> tasks[round_robin(current, j, n) as int].task_status != TaskStatus::Ready,
        None => forall|i: int| 0 <= i < n ==> tasks[i].task_status != TaskStatus::Ready,
    }
}

/// Every task index is reached by round-robin order from any current task.
pub proof fn lemma_round_robin_covers(current: nat, i: nat, n: nat)
    requires
        current < n,
        i < n,
    ensures
        round_robin(current, if i > current { (i - current - 1) as nat } else { (n - current - 1 + i) as nat }, n) == i,
        (if i > current { (i - current - 1) as nat } else { (n - current - 1 + i) as nat }) < n,
{
    if i > current {
        assert(current + 1 + (i - current - 1) == i);
        vstd::arithmetic::div_mod::lemma_small_mod(i, n);
    } else {
        assert(current + 1 + (n - current - 1 + i) == n + i);
        vstd::arithmetic::div_mod::lemma_mod_add_multiples_vanish(i as int, n as int);
        vstd::arithmetic::div_mod::lemma_small_mod(i, n);
    }
}

/// `tasks` with the status of task `i` set to `status`, when there is such a task.
pub open spec fn marked(tasks: Seq<TaskControlBlock>, i: nat, status: TaskStatus) -> Seq<TaskControlBlock> {
    if i < tasks.len() {
        tasks.update(i as int, TaskControlBlock { task_status: status, ..tasks[i as int] })
    } else {
        tasks
    }
}

/// The task manager: a fixed number of task slots, of which the first
/// `num_app` hold the applications, and which task is current.
pub struct TaskManager {
    num_app: usize,
    tasks: Vec<TaskControlBlock>,
    current_task: usize,
}

impl TaskManager {
    /// The manager's invariant: the applications fit in the slots, and the
    /// current index names an application whenever there is one (and is 0
    /// otherwise).
    pub closed spec fn wf(&self) -> bool {
        &&& self.num_app <= self.tasks@.len()
        &&& (self.num_app == 0 ==> self.current_task == 0)
        &&& (self.num_app > 0 ==> self.current_task < self.num_app)
    }

    /// The number of applications: round-robin order runs over the first
    /// this many slots.
    pub closed spec fn app_count(&self) -> nat {
        self.num_app as nat
    }

    /// The task slots, by index.
    pub closed spec fn tasks_view(&self) -> Seq<TaskControlBlock> {
        self.tasks@
    }

    /// The index of the current task.
    pub closed spec fn current(&self) -> nat {
        self.current_task as nat
    }

    /// One task slot per context, of which the first `num_app` hold the
    /// applications: task `i` has pid `i`, context `contexts[i]` and is
    /// `Ready`; task 0 is current.
    pub fn new(num_app: usize, contexts: Vec<TaskContext>) -> (m: Self)
        requires
            num_app <= contexts@.len(),
        ensures
            m.tasks_view().len() == contexts@.len(),
            m.app_count() == num_app,
            m.wf(),
            m.current() == 0,
            forall|i: int|
                0 <= i < contexts@.len() ==> (#[trigger] m.tasks_view()[i]).task_status
                    == TaskStatus::Ready && m.tasks_view()[i].pid == i && m.tasks_view()[i].task_cx
                    == contexts@[i],
    {
        let mut tasks: Vec<TaskControlBlock> = Vec::new();
        let mut i: usize = 0;
        while i < contexts.len()
            invariant
                i <= contexts@.len(),
                tasks@.len() == i,
                forall|j: int|
                    0 <= j < i ==> (#[trigger] tasks@[j]).task_status == TaskStatus::Ready
                        && tasks@[j].pid == j && tasks@[j].task_cx == contexts@[j],
            decreases contexts@.len() - i,
        {
            tasks.push(TaskControlBlock { task_status: TaskStatus::Ready, task_cx: contexts[i], pid: i });
            i = i + 1;
        }
        TaskManager { num_app, tasks, current_task: 0 }
    }

    /// The number of applications.
    pub fn num_app(&self) -> (n: usize)
        ensures
            n == self.app_count(),
    {
        self.num_app
    }

    /// The number of task slots.
    pub fn slot_count(&self) -> (n: usize)
        ensures
            n == self.tasks_view().len(),
    {
        self.tasks.len()
    }

    /// The task with index `i`.
    pub fn task(&self, i: usize) -> (t: &TaskControlBlock)
        requires
            i < self.tasks_view().len(),
        ensures
            *t == self.tasks_view()[i as int],
    {
        &self.tasks[i]
    }

    /// The index of the current task.
    pub fn current_index(&self) -> (i: usize)
        ensures
            i == self.current(),
    {
        self.current_task
    }

    /// The current task, if there is a task at the current index.
    pub fn current_task(&self) -> (t: Option<&TaskControlBlock>)
        ensures
            self.current() < self.tasks_view().len() ==> t == Some(&self.tasks_view()[self.current() as int]),
            self.current() >= self.tasks_view().len() ==> t.is_none(),
    {
        if self.current_task < self.tasks.len() {
            Some(&self.tasks[self.current_task])
        } else {
            None
        }
    }

    /// What the invariant says of the current index.
    pub proof fn lemma_current_in_range(&self)
        requires
            self.wf(),
        ensures
            self.app_count() <= self.tasks_view().len(),
            self.app_count() > 0 ==> self.current() < self.app_count(),
            self.app_count() == 0 ==> self.current() == 0,
    {
    }

    /// Marks the current task `Ready` (it yields the processor); nothing else
    /// changes. With no task slots, nothing changes at all.
    pub fn mark_current_suspended(&mut self)
        requires
            old(self).wf(),
        ensures
            final(self).wf(),
            final(self).app_count() == old(self).app_count(),
            final(self).current() == old(self).current(),
            final(self).tasks_view() == marked(old(self).tasks_view(), old(self).current(), TaskStatus::Ready),
    {
        let current = self.current_task;
        if current < self.tasks.len() {
            self.set_status(current, TaskStatus::Ready);
        }
    }

    /// Marks the current task `Exited`; nothing else
    /// changes. With no task slots, nothing changes at all.
    pub fn mark_current_exited(&mut self)
        requires
            old(self).wf(),
        ensures
            final(self).wf(),
            final(self).app_count() == old(self).app_count(),
            final(self).current() == old(self).current(),
            final(self).tasks_view() == marked(old(self).tasks_view(), old(self).current(), TaskStatus::Exited),
    {
        let current = self.current_task;
        if current < self.tasks.len() {
            self.set_status(current, TaskStatus::Exited);
        }
    }

    /// The first `Ready` task in round-robin order after the current one
    /// (the current task itself comes last), or `None` when no task is `Ready`.
    pub fn find_next_task(&self) -> (next: Option<usize>)
        requires
            self.wf(),
        ensures
            is_next_task(self.tasks_view(), self.app_count(), self.current(), next),
            next matches Some(id) ==> id < self.app_count(),
    {
        let n = self.num_app;
        let current = self.current_task;
        let ghost tasks = self.tasks@;
        let mut k: usize = 0;
        while k < n
            invariant
                n == self.num_app,
                n <= tasks.len(),
                tasks == self.tasks@,
                current == self.current_task,
                n > 0 ==> current < n,
                k <= n,
                forall|j: nat|
                    #![trigger round_robin(current as nat, j, n as nat)]
                    j < k ==> tasks[round_robin(current as nat, j, n as nat) as int].task_status
                        != TaskStatus::Ready,
            decreases n - k,
        {
            let id: usize = if k + 1 < n - current { current + k + 1 } else { k + 1 - (n - current) };
            assert(id == round_robin(current as nat, k as nat, n as nat)) by {
                if k + 1 < n - current {
                    vstd::arithmetic::div_mod::lemma_small_mod(id as nat, n as nat);
                } else {
                    vstd::arithmetic::div_mod::lemma_mod_add_multiples_vanish(id as int, n as int);
                    vstd::arithmetic::div_mod::lemma_small_mod(id as nat, n as nat);
                }
            }
            if self.tasks[id].task_status == TaskStatus::Ready {
                assert(round_robin(current as nat, k as nat, n as nat) == id);
                return Some(id);
            }
            k = k + 1;
        }
        assert forall|i: int| 0 <= i < n implies tasks[i].task_status != TaskStatus::Ready by {
            lemma_round_robin_covers(current as nat, i as nat, n as nat);
            let k: nat = if i > current { (i - current - 1) as nat } else { (n - current - 1 + i) as nat };
            assert(round_robin(current as nat, k, n as nat) == i);
        }
        None
    }

    /// Starts the first task: task 0 becomes `Running` (with no task slots,
    /// nothing changes).
    pub fn run_first_task(&mut self)
        requires
            old(self).wf(),
        ensures
            final(self).wf(),
            final(self).app_count() == old(self).app_count(),
            final(self).current() == old(self).current(),
            final(self).tasks_view() == marked(old(self).tasks_view(), 0, TaskStatus::Running),
    {
        if self.tasks.len() > 0 {
            self.set_status(0, TaskStatus::Running);
        }
    }

    /// Switches to the next task: when `find_next_task` finds one, it becomes
    /// `Running` and current, and the result is the pair (previous current,
    /// next); when no task is `Ready`, nothing changes and the result is `None`
    /// (all applications have completed).
    pub fn run_next_task(&mut self) -> (switch: Option<(usize, usize)>)
        requires
            old(self).wf(),
        ensures
            final(self).wf(),
            final(self).app_count() == old(self).app_count(),
            match switch {
                Some((prev, next)) => {
                    &&& is_next_task(old(self).tasks_view(), old(self).app_count(), old(self).current(), Some(next))
                    &&& prev == old(self).current()
                    &&& final(self).current() == next
                    &&& final(self).tasks_view() == old(self).tasks_view().update(
                        next as int,
                        TaskControlBlock {
                            task_status: TaskStatus::Running,
                            ..old(self).tasks_view()[next as int]
                        },
                    )
                },
                None => {
                    &&& is_next_task(old(self).tasks_view(), old(self).app_count(), old(self).current(), None)
                    &&& *final(self) == *old(self)
                },
            },
    {
        match self.find_next_task() {
            Some(next) => {
                let current = self.current_task;
                self.set_status(next, TaskStatus::Running);
                self.current_task = next;
                Some((current, next))
            },
            None => None,
        }
    }

    fn set_status(&mut self, i: usize, status: TaskStatus)
        requires
            old(self).wf(),
            i < old(self).tasks_view().len(),
        ensures
            final(self).wf(),
            final(self).tasks_view() == old(self).tasks_view().update(
                i as int,
                TaskControlBlock { task_status: status, ..old(self).tasks_view()[i as int] },
            ),
            final(self).current() == old(self).current(),
            final(self).app_count() == old(self).app_count(),
    {
        let mut tcb = self.tasks[i];
        tcb.task_status = status;
        self.tasks.set(i, tcb);
    }
}

impl TaskManager {
    /// The record of a switch from task `prev` to task `next`, capturing both
    /// tasks as they are now; the addresses are those of the two control
    /// blocks and of their saved contexts.
    pub fn switch_record(
        &self,
        global: &mut GlobalEventCounter,
        local_counter: &mut usize,
        prev: usize,
        next: usize,
        old_tcb_addr: usize,
        old_context_addr: usize,
        new_tcb_addr: usize,
        new_context_addr: usize,
    ) -> (r: SwitchRecord)
        requires
            prev < self.tasks_view().len(),
            next < self.tasks_view().len(),
            *old(local_counter) < usize::MAX,
            old(global)@ < usize::MAX,
        ensures
            *final(local_counter) == *old(local_counter) + 1,
            final(global)@ == old(global)@ + 1,
            r == switch_record_of(
                self.tasks_view()[prev as int],
                (old_tcb_addr, old_context_addr),
                self.tasks_view()[next as int],
                (new_tcb_addr, new_context_addr),
                final(global)@ as usize,
                *final(local_counter),
            ),
            r.old_pid == self.tasks_view()[prev as int].pid,
            r.new_pid == self.tasks_view()[next as int].pid,
            r.old_tcb_addr == old_tcb_addr,
            r.old_context_addr == old_context_addr,
            r.new_tcb_addr == new_tcb_addr,
            r.new_context_addr == new_context_addr,
            r.old_tcb_content.task_status == self.tasks_view()[prev as int].task_status,
            r.old_tcb_content.kernel_stack_top == self.tasks_view()[prev as int].task_cx.sp,
            r.old_tcb_content.entry_point == self.tasks_view()[prev as int].task_cx.ra,
            r.new_tcb_content.task_status == self.tasks_view()[next as int].task_status,
            r.new_tcb_content.kernel_stack_top == self.tasks_view()[next as int].task_cx.sp,
            r.new_tcb_content.entry_point == self.tasks_view()[next as int].task_cx.ra,
            r.old_registers.ra == self.tasks_view()[prev as int].task_cx.ra,
            r.old_registers.sp == self.tasks_view()[prev as int].task_cx.sp,
            r.old_registers.s == self.tasks_view()[prev as int].task_cx.s,
            r.new_registers.ra == self.tasks_view()[next as int].task_cx.ra,
            r.new_registers.sp == self.tasks_view()[next as int].task_cx.sp,
            r.new_registers.s == self.tasks_view()[next as int].task_cx.s,
    {
        let old_task = &self.tasks[prev];
        let new_task = &self.tasks[next];
        SwitchRecord::new(
            global,
            local_counter,
            old_task.pid,
            old_tcb_addr,
            TcbContent::from_tcb(old_task),
            old_context_addr,
            RegistersSnapshot::from_task_context(&old_task.task_cx),
            new_task.pid,
            new_tcb_addr,
            TcbContent::from_tcb(new_task),
            new_context_addr,
            RegistersSnapshot::from_task_context(&new_task.task_cx),
        )
    }

    /// The record of the first switch after boot, into task 0 as it is now.
    pub fn first_switch_record(
        &self,
        global: &mut GlobalEventCounter,
        local_counter: &mut usize,
        new_tcb_addr: usize,
        new_context_addr: usize,
    ) -> (r: SwitchRecord)
        requires
            self.tasks_view().len() > 0,
            *old(local_counter) < usize::MAX,
            old(global)@ < usize::MAX,
        ensures
            *final(local_counter) == *old(local_counter) + 1,
            final(global)@ == old(global)@ + 1,
            r == first_record_of(
                self.tasks_view()[0],
                (new_tcb_addr, new_context_addr),
                final(global)@ as usize,
                *final(local_counter),
            ),
            r.new_pid == self.tasks_view()[0].pid,
            r.new_tcb_addr == new_tcb_addr,
            r.new_context_addr == new_context_addr,
            r.new_tcb_content.task_status == self.tasks_view()[0].task_status,
            r.new_registers.ra == self.tasks_view()[0].task_cx.ra,
            r.new_registers.sp == self.tasks_view()[0].task_cx.sp,
            r.new_registers.s == self.tasks_view()[0].task_cx.s,
            r.old_pid == crate::switch_log::BOOT_PID,
            r.old_context_addr == 0,
    {
        let task0 = &self.tasks[0];
        let r = SwitchRecord::new_first_task(
            global,
            local_counter,
            task0.pid,
            new_tcb_addr,
            TcbContent::from_tcb(task0),
            new_context_addr,
            RegistersSnapshot::from_task_context(&task0.task_cx),
        );
        assert(r.old_registers.s =~= [0usize, 0, 0, 0, 0, 0, 0, 0, 0, 0, 0, 0]);
        r
    }
}

/// Whether no task but the one at `current` is `Running`.
pub open spec fn only_current_running(tasks: Seq<TaskControlBlock>, current: nat) -> bool {
    forall|i: int| 0 <= i < tasks.len() && i != current ==> tasks[i].task_status != TaskStatus::Running
}

/// A task gives up the processor and the next one is switched in: when at
/// most the current task was running, marking it `Ready` or `Exited` and then
/// switching to the task `find_next_task` chose leaves exactly one task
/// running, the new current one.
pub proof fn lemma_switch_keeps_one_running(
    tasks0: Seq<TaskControlBlock>,
    n: nat,
    current0: nat,
    status: TaskStatus,
    next: usize,
    tasks2: Seq<TaskControlBlock>,
)
    requires
        n <= tasks0.len(),
        current0 < n,
        only_current_running(tasks0, current0),
        status == TaskStatus::Ready || status == TaskStatus::Exited,
        is_next_task(
            tasks0.update(current0 as int, TaskControlBlock { task_status: status, ..tasks0[current0 as int] }),
            n,
            current0,
            Some(next),
        ),
        tasks2 == tasks0.update(current0 as int, TaskControlBlock { task_status: status, ..tasks0[current0 as int] })
            .update(
            next as int,
            TaskControlBlock {
                task_status: TaskStatus::Running,
                ..tasks0.update(current0 as int, TaskControlBlock { task_status: status, ..tasks0[current0 as int] })[next as int]
            },
        ),
    ensures
        next < tasks2.len(),
        tasks2[next as int].task_status == TaskStatus::Running,
        only_current_running(tasks2, next as nat),
{
    let tasks1 = tasks0.update(current0 as int, TaskControlBlock { task_status: status, ..tasks0[current0 as int] });
    let k: nat = choose|k: nat|
        #![trigger round_robin(current0, k, n)]
        k < n && round_robin(current0, k, n) == next && tasks1[next as int].task_status == TaskStatus::Ready
            && forall|j: nat|
            #![trigger round_robin(current0, j, n)]
            j < k ==> tasks1[round_robin(current0, j, n) as int].task_status != TaskStatus::Ready;
    vstd::arithmetic::div_mod::lemma_mod_bound((current0 + 1 + k) as int, n as int);
}

} // verus!
