//! Process-switch records: what a switch captured of the task switched out
//! and of the task switched in, the history of switches, and their text.
use vstd::prelude::*;
use crate::event::{EventType, GlobalEventCounter, UnifiedEventRecord};
use crate::event_log::{add_switch_record_to_unified, UnifiedEventHistory, UnifiedRecord};
use crate::fmt::{
    append_dec, append_dec_left_aligned, append_hex, append_lines, cat, cat_dec, cat_hex, dec, hex,
    pad_right, push_line, text,
};
use crate::task::{TaskContext, TaskControlBlock, TaskStatus};

verus! {

/// The key fields of a task control block at the moment of a switch.
#[derive(Debug, Clone, Copy)]
pub struct TcbContent {
    pub task_status: TaskStatus,
    pub pid: usize,
    /// Top of the kernel stack (the saved stack pointer).
    pub kernel_stack_top: usize,
    /// Top of the user stack (not recorded: 0).
    pub user_stack_top: usize,
    /// Entry point (the saved return address).
    pub entry_point: usize,
}

/// The saved registers of a task context.
#[derive(Debug, Clone, Copy)]
pub struct RegistersSnapshot {
    pub ra: usize,
    pub sp: usize,
    pub s: [usize; 12],
}

/// One process switch: the global and local event numbers, and what was
/// captured of the task switched out (old) and of the task switched in (new).
#[derive(Debug, Clone, Copy)]
pub struct SwitchRecord {
    pub global_event_id: usize,
    pub local_switch_id: usize,
    pub old_pid: usize,
    pub old_tcb_addr: usize,
    pub old_tcb_content: TcbContent,
    pub old_context_addr: usize,
    pub old_registers: RegistersSnapshot,
    pub new_pid: usize,
    pub new_tcb_addr: usize,
    pub new_tcb_content: TcbContent,
    pub new_context_addr: usize,
    pub new_registers: RegistersSnapshot,
}

/// The pid that stands for "no process" in the first switch after boot.
pub const BOOT_PID: usize = 999;

/// What a switch record captures of a task control block.
pub open spec fn tcb_content_of(t: TaskControlBlock) -> TcbContent {
    TcbContent {
        task_status: t.task_status,
        pid: t.pid,
        kernel_stack_top: t.task_cx.sp,
        user_stack_top: 0,
        entry_point: t.task_cx.ra,
    }
}

/// What a switch record captures of a saved task context.
pub open spec fn registers_of(cx: TaskContext) -> RegistersSnapshot {
    RegistersSnapshot { ra: cx.ra, sp: cx.sp, s: cx.s }
}

/// The record of a switch from task `old` to task `new`, whose control block
/// and context addresses are `old_addrs` and `new_addrs`, with global id
/// `gid` and local number `lid`.
pub open spec fn switch_record_of(
    old: TaskControlBlock,
    old_addrs: (usize, usize),
    new: TaskControlBlock,
    new_addrs: (usize, usize),
    gid: usize,
    lid: usize,
) -> SwitchRecord {
    SwitchRecord {
        global_event_id: gid,
        local_switch_id: lid,
        old_pid: old.pid,
        old_tcb_addr: old_addrs.0,
        old_tcb_content: tcb_content_of(old),
        old_context_addr: old_addrs.1,
        old_registers: registers_of(old.task_cx),
        new_pid: new.pid,
        new_tcb_addr: new_addrs.0,
        new_tcb_content: tcb_content_of(new),
        new_context_addr: new_addrs.1,
        new_registers: registers_of(new.task_cx),
    }
}

/// The record of the first switch after boot, into task `new`.
pub open spec fn first_record_of(new: TaskControlBlock, new_addrs: (usize, usize), gid: usize, lid: usize) -> SwitchRecord {
    SwitchRecord {
        global_event_id: gid,
        local_switch_id: lid,
        old_pid: BOOT_PID,
        old_tcb_addr: 0,
        old_tcb_content: TcbContent {
            task_status: TaskStatus::UnInit,
            pid: BOOT_PID,
            kernel_stack_top: 0,
            user_stack_top: 0,
            entry_point: 0,
        },
        old_context_addr: 0,
        old_registers: RegistersSnapshot { ra: 0, sp: 0, s: [0usize, 0, 0, 0, 0, 0, 0, 0, 0, 0, 0, 0] },
        new_pid: new.pid,
        new_tcb_addr: new_addrs.0,
        new_tcb_content: tcb_content_of(new),
        new_context_addr: new_addrs.1,
        new_registers: registers_of(new.task_cx),
    }
}

impl TcbContent {
    /// The key fields of `tcb`: its status and pid, its saved stack pointer as
    /// kernel stack top and its saved return address as entry point.
    pub fn from_tcb(tcb: &TaskControlBlock) -> (c: Self)
        ensures
            c.task_status == tcb.task_status,
            c.pid == tcb.pid,
            c.kernel_stack_top == tcb.task_cx.sp,
            c.user_stack_top == 0,
            c.entry_point == tcb.task_cx.ra,
    {
        TcbContent {
            task_status: tcb.task_status,
            pid: tcb.pid,
            kernel_stack_top: tcb.task_cx.sp,
            user_stack_top: 0,
            entry_point: tcb.task_cx.ra,
        }
    }
}

impl RegistersSnapshot {
    /// The registers saved in `task_cx`.
    pub fn from_task_context(task_cx: &TaskContext) -> (r: Self)
        ensures
            r.ra == task_cx.ra,
            r.sp == task_cx.sp,
            r.s == task_cx.s,
    {
        RegistersSnapshot { ra: task_cx.ra, sp: task_cx.sp, s: task_cx.s }
    }
}

impl Default for RegistersSnapshot {
    /// All registers zero.
    fn default() -> (r: Self)
        ensures
            r.ra == 0,
            r.sp == 0,
            forall|i: int| 0 <= i < 12 ==> r.s[i] == 0,
    {
        RegistersSnapshot { ra: 0, sp: 0, s: [0; 12] }
    }
}

impl SwitchRecord {
    /// A record of a switch from the old task to the new one. The record's
    /// local number is the next value of `local_counter`, and its global event
    /// id the next id of `global`.
    pub fn new(
        global: &mut GlobalEventCounter,
        local_counter: &mut usize,
        old_pid: usize,
        old_tcb_addr: usize,
        old_tcb_content: TcbContent,
        old_context_addr: usize,
        old_regs: RegistersSnapshot,
        new_pid: usize,
        new_tcb_addr: usize,
        new_tcb_content: TcbContent,
        new_context_addr: usize,
        new_regs: RegistersSnapshot,
    ) -> (r: Self)
        requires
            *old(local_counter) < usize::MAX,
            old(global)@ < usize::MAX,
        ensures
            *final(local_counter) == *old(local_counter) + 1,
            final(global)@ == old(global)@ + 1,
            r == (SwitchRecord {
                global_event_id: final(global)@ as usize,
                local_switch_id: *final(local_counter),
                old_pid,
                old_tcb_addr,
                old_tcb_content,
                old_context_addr,
                old_registers: old_regs,
                new_pid,
                new_tcb_addr,
                new_tcb_content,
                new_context_addr,
                new_registers: new_regs,
            }),
    {
        *local_counter = *local_counter + 1;
        let timestamp = *local_counter;
        let global_event_id = global.next_event_id();
        SwitchRecord {
            global_event_id,
            local_switch_id: timestamp,
            old_pid,
            old_tcb_addr,
            old_tcb_content,
            old_context_addr,
            old_registers: old_regs,
            new_pid,
            new_tcb_addr,
            new_tcb_content,
            new_context_addr,
            new_registers: new_regs,
        }
    }

    /// A record of the first switch after boot: the old side is "no process"
    /// (pid 999, an `UnInit` content with pid 999 and all else zero, zero
    /// addresses and registers).
    pub fn new_first_task(
        global: &mut GlobalEventCounter,
        local_counter: &mut usize,
        new_pid: usize,
        new_tcb_addr: usize,
        new_tcb_content: TcbContent,
        new_context_addr: usize,
        new_regs: RegistersSnapshot,
    ) -> (r: Self)
        requires
            *old(local_counter) < usize::MAX,
            old(global)@ < usize::MAX,
        ensures
            *final(local_counter) == *old(local_counter) + 1,
            final(global)@ == old(global)@ + 1,
            r.global_event_id == final(global)@,
            r.local_switch_id == *final(local_counter),
            r.old_pid == BOOT_PID,
            r.old_tcb_addr == 0,
            r.old_tcb_content == (TcbContent {
                task_status: TaskStatus::UnInit,
                pid: BOOT_PID,
                kernel_stack_top: 0,
                user_stack_top: 0,
                entry_point: 0,
            }),
            r.old_context_addr == 0,
            r.old_registers.ra == 0,
            r.old_registers.sp == 0,
            forall|i: int| 0 <= i < 12 ==> r.old_registers.s[i] == 0,
            r.new_pid == new_pid,
            r.new_tcb_addr == new_tcb_addr,
            r.new_tcb_content == new_tcb_content,
            r.new_context_addr == new_context_addr,
            r.new_registers == new_regs,
    {
        *local_counter = *local_counter + 1;
        let timestamp = *local_counter;
        let global_event_id = global.next_event_id();
        let dummy_tcb_content = TcbContent {
            task_status: TaskStatus::UnInit,
            pid: BOOT_PID,
            kernel_stack_top: 0,
            user_stack_top: 0,
            entry_point: 0,
        };
        SwitchRecord {
            global_event_id,
            local_switch_id: timestamp,
            old_pid: BOOT_PID,
            old_tcb_addr: 0,
            old_tcb_content: dummy_tcb_content,
            old_context_addr: 0,
            old_registers: RegistersSnapshot::default(),
            new_pid,
            new_tcb_addr,
            new_tcb_content,
            new_context_addr,
            new_registers: new_regs,
        }
    }

    /// The summary of this switch: its global id, the old pid, and
    /// "Boot -> Task" when the old pid is 0, else "Task -> Task".
    pub fn to_unified_event(&self) -> (e: UnifiedEventRecord)
        ensures
            e.event_id == self.global_event_id,
            e.event_type == EventType::ProcessSwitch,
            e.timestamp == 0,
            e.pid == self.old_pid,
            e.subtype_desc@ == (if self.old_pid == 0 { "Boot -> Task"@ } else { "Task -> Task"@ }),
    {
        UnifiedEventRecord {
            event_id: self.global_event_id,
            event_type: EventType::ProcessSwitch,
            timestamp: 0,
            pid: self.old_pid,
            subtype_desc: if self.old_pid == 0 { "Boot -> Task" } else { "Task -> Task" },
        }
    }
}

/// How `{:?}` writes a task status.
pub open spec fn status_name(s: TaskStatus) -> Seq<char> {
    match s {
        TaskStatus::UnInit => "UnInit"@,
        TaskStatus::Ready => "Ready"@,
        TaskStatus::Running => "Running"@,
        TaskStatus::Exited => "Exited"@,
    }
}

/// The name of a task status, as `{:?}` writes it.
pub fn status_str(s: TaskStatus) -> (r: &'static str)
    ensures
        r@ == status_name(s),
{
    match s {
        TaskStatus::UnInit => "UnInit",
        TaskStatus::Ready => "Ready",
        TaskStatus::Running => "Running",
        TaskStatus::Exited => "Exited",
    }
}

/// The lines that show a task control block's content after `prefix`.
pub open spec fn tcb_lines(c: TcbContent, prefix: Seq<char>) -> Seq<Seq<char>> {
    seq![
        prefix + "  |-- Task Control Block Content:"@,
        prefix + "  |-- PID: "@ + dec(c.pid as nat),
        prefix + "  |-- Task Status: "@ + status_name(c.task_status),
        prefix + "  |-- Kernel Stack Top: "@ + hex(c.kernel_stack_top as nat),
        prefix + "  |-- Entry Point: "@ + hex(c.entry_point as nat),
    ]
}

/// The lines that show saved registers after `prefix`.
pub open spec fn register_lines(r: RegistersSnapshot, prefix: Seq<char>) -> Seq<Seq<char>> {
    seq![
        prefix + "  |-- Task Context Registers:"@,
        prefix + "  |-- ra (Return Address): "@ + hex(r.ra as nat),
        prefix + "  |-- sp (Stack Pointer): "@ + hex(r.sp as nat),
        prefix + "  |-- s0 (Frame Pointer): "@ + hex(r.s[0] as nat),
        prefix + "  |-- s1: "@ + hex(r.s[1] as nat),
        prefix + "  |-- s2: "@ + hex(r.s[2] as nat),
        prefix + "  |-- s3: "@ + hex(r.s[3] as nat),
        prefix + "  |-- s4: "@ + hex(r.s[4] as nat),
        prefix + "  |-- s5: "@ + hex(r.s[5] as nat),
        prefix + "  |-- s6: "@ + hex(r.s[6] as nat),
        prefix + "  |-- s7: "@ + hex(r.s[7] as nat),
        prefix + "  |-- s8: "@ + hex(r.s[8] as nat),
        prefix + "  |-- s9: "@ + hex(r.s[9] as nat),
        prefix + "  |-- s10: "@ + hex(r.s[10] as nat),
        prefix + "  |-- s11: "@ + hex(r.s[11] as nat),
    ]
}

/// The one-line register summary after `prefix`.
pub open spec fn compact_registers(r: RegistersSnapshot, prefix: Seq<char>) -> Seq<char> {
    prefix + "  Registers: ra="@ + hex(r.ra as nat) + ", sp="@ + hex(r.sp as nat) + ", s0="@
        + hex(r.s[0] as nat) + ", s1="@ + hex(r.s[1] as nat) + ", ..."@
}

fn prefixed(prefix: &str, label: &str) -> (s: String)
    ensures
        s@ == prefix@ + label@,
{
    cat(prefix, label)
}

fn prefixed_dec(prefix: &str, label: &str, n: usize) -> (s: String)
    ensures
        s@ == prefix@ + label@ + dec(n as nat),
{
    let mut s = cat(prefix, label);
    append_dec(&mut s, n);
    s
}

fn prefixed_hex(prefix: &str, label: &str, n: usize) -> (s: String)
    ensures
        s@ == prefix@ + label@ + hex(n as nat),
{
    let mut s = cat(prefix, label);
    append_hex(&mut s, n);
    s
}

impl TcbContent {
    /// The lines that show this content, each after `prefix`.
    pub fn display(&self, prefix: &str) -> (lines: Vec<String>)
        ensures
            text(lines@) == tcb_lines(*self, prefix@),
    {
        let mut out: Vec<String> = Vec::new();
        push_line(&mut out, prefixed(prefix, "  |-- Task Control Block Content:"));
        push_line(&mut out, prefixed_dec(prefix, "  |-- PID: ", self.pid));
        push_line(&mut out, prefixed(prefix, "  |-- Task Status: ").concat(status_str(self.task_status)));
        push_line(&mut out, prefixed_hex(prefix, "  |-- Kernel Stack Top: ", self.kernel_stack_top));
        push_line(&mut out, prefixed_hex(prefix, "  |-- Entry Point: ", self.entry_point));
        assert(text(out@) =~= tcb_lines(*self, prefix@));
        out
    }
}

impl RegistersSnapshot {
    /// The lines that show these registers, each after `prefix`.
    pub fn display(&self, prefix: &str) -> (lines: Vec<String>)
        ensures
            text(lines@) == register_lines(*self, prefix@),
    {
        let mut out: Vec<String> = Vec::new();
        push_line(&mut out, prefixed(prefix, "  |-- Task Context Registers:"));
        push_line(&mut out, prefixed_hex(prefix, "  |-- ra (Return Address): ", self.ra));
        push_line(&mut out, prefixed_hex(prefix, "  |-- sp (Stack Pointer): ", self.sp));
        push_line(&mut out, prefixed_hex(prefix, "  |-- s0 (Frame Pointer): ", self.s[0]));
        push_line(&mut out, prefixed_hex(prefix, "  |-- s1: ", self.s[1]));
        push_line(&mut out, prefixed_hex(prefix, "  |-- s2: ", self.s[2]));
        push_line(&mut out, prefixed_hex(prefix, "  |-- s3: ", self.s[3]));
        push_line(&mut out, prefixed_hex(prefix, "  |-- s4: ", self.s[4]));
        push_line(&mut out, prefixed_hex(prefix, "  |-- s5: ", self.s[5]));
        push_line(&mut out, prefixed_hex(prefix, "  |-- s6: ", self.s[6]));
        push_line(&mut out, prefixed_hex(prefix, "  |-- s7: ", self.s[7]));
        push_line(&mut out, prefixed_hex(prefix, "  |-- s8: ", self.s[8]));
        push_line(&mut out, prefixed_hex(prefix, "  |-- s9: ", self.s[9]));
        push_line(&mut out, prefixed_hex(prefix, "  |-- s10: ", self.s[10]));
        push_line(&mut out, prefixed_hex(prefix, "  |-- s11: ", self.s[11]));
        assert(text(out@) =~= register_lines(*self, prefix@));
        out
    }

    /// The one-line register summary (printed without a line break).
    pub fn display_compact(&self, prefix: &str) -> (line: String)
        ensures
            line@ == compact_registers(*self, prefix@),
    {
        let mut s = cat(prefix, "  Registers: ra=");
        append_hex(&mut s, self.ra);
        s.append(", sp=");
        append_hex(&mut s, self.sp);
        s.append(", s0=");
        append_hex(&mut s, self.s[0]);
        s.append(", s1=");
        append_hex(&mut s, self.s[1]);
        s.append(", ...");
        s
    }
}

/// Whether a record is the first switch after boot (no old process).
pub open spec fn is_boot_switch(r: SwitchRecord) -> bool {
    r.old_pid == BOOT_PID && r.old_context_addr == 0
}

/// The lines that show the task switched out of a switch.
pub open spec fn old_process_lines(r: SwitchRecord) -> Seq<Seq<char>> {
    seq![
        "[OLD PROCESS] - Process Being Interrupted/Switched Out"@,
        "Process ID (PID): "@ + dec(r.old_pid as nat),
        "TCB Address: "@ + hex(r.old_tcb_addr as nat),
    ] + tcb_lines(r.old_tcb_content, "|"@) + register_lines(r.old_registers, "|"@)
}

/// The lines that show the task switched in of a switch, without the closing border.
pub open spec fn new_process_lines(r: SwitchRecord) -> Seq<Seq<char>> {
    seq![
        "[NEW PROCESS] - Process Being Switched In                                                   |"@,
        "|------------------------------------------------------------------------------------|"@,
        "Process ID (PID): "@ + dec(r.new_pid as nat),
        "TCB Address: "@ + hex(r.new_tcb_addr as nat),
        "|------------------------------------------------------------------------------------|"@,
    ] + tcb_lines(r.new_tcb_content, "|"@) + register_lines(r.new_registers, "|"@)
}

/// The full text of a switch record.
pub open spec fn switch_lines(r: SwitchRecord) -> Seq<Seq<char>> {
    seq![
        "\n|-------------------------------------------------------------------------------|"@,
        "|                      PROCESS CONTEXT SWITCH (Global Event #"@ + dec(
            r.global_event_id as nat,
        ) + "),Local_id #"@ + dec(r.local_switch_id as nat)
            + "                     |"@,
        "|-----------------------------------------------------------------------------|"@,
    ] + (if is_boot_switch(r) {
        seq!["[OLD PROCESS] - No Previous Process (Boot State)"@]
    } else {
        old_process_lines(r)
    }) + new_process_lines(r) + seq![
        "|------------------------------------------------------------------------------------|\n"@,
    ]
}

/// The text of a switch record as seen by process `pid`: the old side when
/// `pid` was switched out, the new side when `pid` was switched in.
pub open spec fn switch_lines_by_pid(r: SwitchRecord, pid: usize) -> Seq<Seq<char>> {
    seq![
        "\n=== Process "@ + dec(pid as nat) + " Switch History by pid==="@,
        "\n|-------------------------------------------------------------------------------|"@,
    ] + (if r.old_pid == pid {
        seq![
            "  Switch Global #"@ + dec(r.global_event_id as nat) + ",Local #"@ + dec(
                r.local_switch_id as nat,
            ) + ": Switched out --> Task"@ + dec(r.old_pid as nat),
        ] + old_process_lines(r) + seq![
            "|------------------------------------------------------------------------------------|\n"@,
        ]
    } else {
        Seq::empty()
    }) + (if r.new_pid == pid {
        seq![
            "  Switch Global #"@ + dec(r.global_event_id as nat) + ",Local #"@ + dec(
                r.local_switch_id as nat,
            ) + ": Switched in --> Task"@ + dec(r.new_pid as nat),
        ] + new_process_lines(r) + seq![
            "|------------------------------------------------------------------------------------|\n"@,
        ]
    } else {
        Seq::empty()
    })
}

impl SwitchRecord {
    fn old_process_display(&self) -> (lines: Vec<String>)
        ensures
            text(lines@) == old_process_lines(*self),
    {
        let mut out: Vec<String> = Vec::new();
        push_line(&mut out, String::from_str("[OLD PROCESS] - Process Being Interrupted/Switched Out"));
        push_line(&mut out, cat_dec("Process ID (PID): ", self.old_pid));
        push_line(&mut out, cat_hex("TCB Address: ", self.old_tcb_addr));
        append_lines(&mut out, self.old_tcb_content.display("|"));
        append_lines(&mut out, self.old_registers.display("|"));
        assert(text(out@) =~= old_process_lines(*self));
        out
    }

    fn new_process_display(&self) -> (lines: Vec<String>)
        ensures
            text(lines@) == new_process_lines(*self),
    {
        let mut out: Vec<String> = Vec::new();
        push_line(&mut out, String::from_str("[NEW PROCESS] - Process Being Switched In                                                   |"));
        push_line(&mut out, String::from_str("|------------------------------------------------------------------------------------|"));
        push_line(&mut out, cat_dec("Process ID (PID): ", self.new_pid));
        push_line(&mut out, cat_hex("TCB Address: ", self.new_tcb_addr));
        push_line(&mut out, String::from_str("|------------------------------------------------------------------------------------|"));
        append_lines(&mut out, self.new_tcb_content.display("|"));
        append_lines(&mut out, self.new_registers.display("|"));
        assert(text(out@) =~= new_process_lines(*self));
        out
    }

    fn switch_id_line(&self, label: &str, pid: usize) -> (line: String)
        ensures
            line@ == "  Switch Global #"@ + dec(self.global_event_id as nat) + ",Local #"@ + dec(
                self.local_switch_id as nat,
            ) + label@ + dec(pid as nat),
    {
        let mut s = cat_dec("  Switch Global #", self.global_event_id);
        s.append(",Local #");
        append_dec(&mut s, self.local_switch_id);
        s.append(label);
        append_dec(&mut s, pid);
        s
    }

    fn by_id_display(&self, pid: usize) -> (lines: Vec<String>)
        ensures
            text(lines@) == by_id_entry(*self, pid),
    {
        let mut out: Vec<String> = Vec::new();
        push_line(&mut out, cat_dec("record.old_pid:", self.old_pid));
        push_line(&mut out, cat_dec("record.new_pid:", self.new_pid));
        if self.old_pid == pid {
            append_lines(&mut out, self.display_by_pid(pid));
            let mut l = cat_dec("record.old_pid:", self.old_pid);
            l.append("---");
            push_line(&mut out, l);
        }
        if self.new_pid == pid {
            append_lines(&mut out, self.display_by_pid(pid));
            let mut l = cat_dec("record.new_pid:", self.new_pid);
            l.append("---");
            push_line(&mut out, l);
        }
        assert(text(out@) =~= by_id_entry(*self, pid));
        out
    }

    /// The full text of this switch.
    pub fn display(&self) -> (lines: Vec<String>)
        ensures
            text(lines@) == switch_lines(*self),
    {
        let mut out: Vec<String> = Vec::new();
        push_line(&mut out, String::from_str("\n|-------------------------------------------------------------------------------|"));
        let mut title = cat_dec("|                      PROCESS CONTEXT SWITCH (Global Event #", self.global_event_id);
        title.append("),Local_id #");
        append_dec(&mut title, self.local_switch_id);
        title.append("                     |");
        push_line(&mut out, title);
        push_line(&mut out, String::from_str("|-----------------------------------------------------------------------------|"));
        if self.old_pid == BOOT_PID && self.old_context_addr == 0 {
            push_line(&mut out, String::from_str("[OLD PROCESS] - No Previous Process (Boot State)"));
        } else {
            append_lines(&mut out, self.old_process_display());
        }
        append_lines(&mut out, self.new_process_display());
        push_line(&mut out, String::from_str("|------------------------------------------------------------------------------------|\n"));
        assert(text(out@) =~= switch_lines(*self));
        out
    }

    /// The text of this switch as seen by process `pid`.
    pub fn display_by_pid(&self, pid: usize) -> (lines: Vec<String>)
        ensures
            text(lines@) == switch_lines_by_pid(*self, pid),
    {
        let mut out: Vec<String> = Vec::new();
        let mut title = cat_dec("\n=== Process ", pid);
        title.append(" Switch History by pid===");
        push_line(&mut out, title);
        push_line(&mut out, String::from_str("\n|-------------------------------------------------------------------------------|"));
        if self.old_pid == pid {
            push_line(&mut out, self.switch_id_line(": Switched out --> Task", self.old_pid));
            append_lines(&mut out, self.old_process_display());
            push_line(&mut out, String::from_str("|------------------------------------------------------------------------------------|\n"));
        }
        if self.new_pid == pid {
            push_line(&mut out, self.switch_id_line(": Switched in --> Task", self.new_pid));
            append_lines(&mut out, self.new_process_display());
            push_line(&mut out, String::from_str("|------------------------------------------------------------------------------------|\n"));
        }
        assert(text(out@) =~= switch_lines_by_pid(*self, pid));
        out
    }
}

/// The history of process switches, in the order they were added.
pub struct SwitchHistory {
    records: Vec<SwitchRecord>,
}

/// The lines that list the records of `rs` one by one with their numbers,
/// for the first `k` of them.
pub open spec fn detail_body(rs: Seq<SwitchRecord>, k: int) -> Seq<Seq<char>>
    decreases k,
{
    if k <= 0 {
        Seq::empty()
    } else {
        detail_body(rs, k - 1) + detail_entry(rs, k - 1)
    }
}

/// The lines for record `i` of `rs` in the detailed listing.
pub open spec fn detail_entry(rs: Seq<SwitchRecord>, i: int) -> Seq<Seq<char>> {
    seq![
        "\n|---------------------------------------------------------------------------|"@,
        "|  Record #"@ + dec((i + 1) as nat) + " of "@ + dec(rs.len())
            + "                                                     |"@,
        "|---------------------------------------------------------------------------|"@,
    ] + switch_lines(rs[i]) + (if i < rs.len() - 1 {
        seq!["|---------------------------------------------------------------------------|"@]
    } else {
        Seq::empty()
    })
}

/// The detailed listing of all switches.
pub open spec fn detail_lines(rs: Seq<SwitchRecord>) -> Seq<Seq<char>> {
    seq!["self.records.len():"@ + dec(rs.len())] + if rs.len() == 0 {
        seq!["No switch records found."@]
    } else {
        seq![
            "\n|---------------------------------------------------------------------------|"@,
            "|                         PROCESS SWITCH DETAILS ("@ + dec(rs.len())
                + " records)                           |"@,
            "|---------------------------------------------------------------------------|"@,
        ] + detail_body(rs, rs.len() as int) + seq![
            "|---------------------------------------------------------------------------|"@,
            "|                              END OF SWITCH DETAILS                        |"@,
            "|---------------------------------------------------------------------------|\n"@,
        ]
    }
}

/// The summary line of one switch.
pub open spec fn summary_line(r: SwitchRecord) -> Seq<char> {
    "| Global #"@ + pad_right(dec(r.global_event_id as nat), 4) + " │ Local #"@ + pad_right(
        dec(r.local_switch_id as nat),
        3,
    ) + (if is_boot_switch(r) {
        " | Boot --> Task"@
    } else {
        " | Task"@ + dec(r.old_pid as nat) + " --> Task"@
    }) + pad_right(dec(r.new_pid as nat), 3) + " │ Old Ctx:"@ + hex(r.old_context_addr as nat)
        + " │ New Ctx:"@ + hex(r.new_context_addr as nat) + " │"@
}

/// The summary lines of the first `k` switches.
pub open spec fn summary_body(rs: Seq<SwitchRecord>, k: int) -> Seq<Seq<char>>
    decreases k,
{
    if k <= 0 {
        Seq::empty()
    } else {
        summary_body(rs, k - 1).push(summary_line(rs[k - 1]))
    }
}

/// The summary of all switches.
pub open spec fn summary_lines(rs: Seq<SwitchRecord>) -> Seq<Seq<char>> {
    seq![
        "\n|---------------------------------------------------------------------------|"@,
        "|                       PROCESS SWITCH HISTORY SUMMARY                      |"@,
        "| Total Switches: "@ + dec(rs.len()) + "                                                        |"@,
    ] + summary_body(rs, rs.len() as int) + seq![
        "|---------------------------------------------------------------------------|\n"@,
    ]
}

/// The short line for a switch that moved process `pid` (out or in).
pub open spec fn history_line(r: SwitchRecord, pid: usize) -> Seq<char> {
    "  Switch Global #"@ + dec(r.global_event_id as nat) + ",Local #"@ + dec(r.local_switch_id as nat)
        + ": Switched out --> Task"@ + dec(pid as nat)
}

/// The short lines of the first `k` switches that concern process `pid`.
pub open spec fn history_body(rs: Seq<SwitchRecord>, pid: usize, k: int) -> Seq<Seq<char>>
    decreases k,
{
    if k <= 0 {
        Seq::empty()
    } else {
        let r = rs[k - 1];
        history_body(rs, pid, k - 1) + (if r.old_pid == pid {
            seq![history_line(r, r.old_pid)]
        } else {
            Seq::empty()
        }) + (if r.new_pid == pid {
            seq![history_line(r, r.new_pid)]
        } else {
            Seq::empty()
        })
    }
}

/// The short history of process `pid`.
pub open spec fn process_history_lines(rs: Seq<SwitchRecord>, pid: usize) -> Seq<Seq<char>> {
    seq!["\n=== Process "@ + dec(pid as nat) + " Switch History ==="@] + history_body(
        rs,
        pid,
        rs.len() as int,
    )
}

/// The traced lines of one record for process `pid`: its two pids, and the
/// switch as seen by `pid` once for each side that `pid` is on.
pub open spec fn by_id_entry(r: SwitchRecord, pid: usize) -> Seq<Seq<char>> {
    seq!["record.old_pid:"@ + dec(r.old_pid as nat), "record.new_pid:"@ + dec(r.new_pid as nat)] + (if r.old_pid
        == pid {
        switch_lines_by_pid(r, pid).push("record.old_pid:"@ + dec(r.old_pid as nat) + "---"@)
    } else {
        Seq::empty()
    }) + (if r.new_pid == pid {
        switch_lines_by_pid(r, pid).push("record.new_pid:"@ + dec(r.new_pid as nat) + "---"@)
    } else {
        Seq::empty()
    })
}

/// The traced lines of the first `k` records for process `pid`.
pub open spec fn by_id_body(rs: Seq<SwitchRecord>, pid: usize, k: int) -> Seq<Seq<char>>
    decreases k,
{
    if k <= 0 {
        Seq::empty()
    } else {
        by_id_body(rs, pid, k - 1) + by_id_entry(rs[k - 1], pid)
    }
}

/// The traced listing of the switches of process `pid`.
pub open spec fn process_by_id_lines(rs: Seq<SwitchRecord>, pid: usize) -> Seq<Seq<char>> {
    seq!["self.records.len():"@ + dec(rs.len()), "records.len():"@ + dec(rs.len())] + by_id_body(
        rs,
        pid,
        rs.len() as int,
    )
}

impl SwitchHistory {
    /// The records, oldest first.
    pub closed spec fn view(&self) -> Seq<SwitchRecord> {
        self.records@
    }

    /// An empty history.
    pub fn new() -> (h: Self)
        ensures
            h@ == Seq::<SwitchRecord>::empty(),
    {
        SwitchHistory { records: Vec::new() }
    }

    /// Appends a record.
    pub fn add_record(&mut self, record: SwitchRecord)
        ensures
            final(self)@ == old(self)@.push(record),
    {
        self.records.push(record);
    }

    /// The records, oldest first.
    pub fn get_records(&self) -> (r: &Vec<SwitchRecord>)
        ensures
            r@ == self@,
    {
        &self.records
    }

    fn detail_entry_display(rs: &Vec<SwitchRecord>, i: usize) -> (lines: Vec<String>)
        requires
            i < rs@.len(),
        ensures
            text(lines@) == detail_entry(rs@, i as int),
    {
        let n = rs.len();
        let mut out: Vec<String> = Vec::new();
        push_line(&mut out, String::from_str("\n|---------------------------------------------------------------------------|"));
        let mut l = cat_dec("|  Record #", i + 1);
        l.append(" of ");
        append_dec(&mut l, n);
        l.append("                                                     |");
        push_line(&mut out, l);
        push_line(&mut out, String::from_str("|---------------------------------------------------------------------------|"));
        append_lines(&mut out, rs[i].display());
        if i < n - 1 {
            push_line(&mut out, String::from_str("|---------------------------------------------------------------------------|"));
        }
        assert(text(out@) =~= detail_entry(rs@, i as int));
        out
    }

    /// Every switch in detail, numbered, between a header and a footer.
    pub fn print_each_switch_detail(&self) -> (lines: Vec<String>)
        ensures
            text(lines@) == detail_lines(self@),
    {
        let rs = &self.records;
        let n = rs.len();
        let mut out: Vec<String> = Vec::new();
        push_line(&mut out, cat_dec("self.records.len():", n));
        if n == 0 {
            push_line(&mut out, String::from_str("No switch records found."));
            assert(text(out@) =~= detail_lines(self@));
            return out;
        }
        push_line(&mut out, String::from_str("\n|---------------------------------------------------------------------------|"));
        let mut title = cat_dec("|                         PROCESS SWITCH DETAILS (", n);
        title.append(" records)                           |");
        push_line(&mut out, title);
        push_line(&mut out, String::from_str("|---------------------------------------------------------------------------|"));
        let ghost head = text(out@);
        let mut i: usize = 0;
        while i < n
            invariant
                n == rs@.len(),
                rs@ == self@,
                i <= n,
                text(out@) == head + detail_body(rs@, i as int),
            decreases n - i,
        {
            append_lines(&mut out, Self::detail_entry_display(rs, i));
            i = i + 1;
            assert(text(out@) =~= head + detail_body(rs@, i as int));
        }
        push_line(&mut out, String::from_str("|---------------------------------------------------------------------------|"));
        push_line(&mut out, String::from_str("|                              END OF SWITCH DETAILS                        |"));
        push_line(&mut out, String::from_str("|---------------------------------------------------------------------------|\n"));
        assert(text(out@) =~= detail_lines(self@));
        out
    }

    /// One summary line per switch, between a header with the count and a footer.
    pub fn print_summary(&self) -> (lines: Vec<String>)
        ensures
            text(lines@) == summary_lines(self@),
    {
        let rs = &self.records;
        let n = rs.len();
        let mut out: Vec<String> = Vec::new();
        push_line(&mut out, String::from_str("\n|---------------------------------------------------------------------------|"));
        push_line(&mut out, String::from_str("|                       PROCESS SWITCH HISTORY SUMMARY                      |"));
        let mut total = cat_dec("| Total Switches: ", n);
        total.append("                                                        |");
        push_line(&mut out, total);
        let ghost head = text(out@);
        let mut i: usize = 0;
        while i < n
            invariant
                n == rs@.len(),
                rs@ == self@,
                i <= n,
                text(out@) == head + summary_body(rs@, i as int),
            decreases n - i,
        {
            let r = &rs[i];
            let mut l = String::from_str("| Global #");
            append_dec_left_aligned(&mut l, r.global_event_id, 4);
            l.append(" │ Local #");
            append_dec_left_aligned(&mut l, r.local_switch_id, 3);
            if r.old_pid == BOOT_PID && r.old_context_addr == 0 {
                l.append(" | Boot --> Task");
            } else {
                l.append(" | Task");
                append_dec(&mut l, r.old_pid);
                l.append(" --> Task");
            }
            append_dec_left_aligned(&mut l, r.new_pid, 3);
            l.append(" │ Old Ctx:");
            append_hex(&mut l, r.old_context_addr);
            l.append(" │ New Ctx:");
            append_hex(&mut l, r.new_context_addr);
            l.append(" │");
            assert(l@ =~= summary_line(rs@[i as int]));
            push_line(&mut out, l);
            i = i + 1;
            assert(text(out@) =~= head + summary_body(rs@, i as int));
        }
        push_line(&mut out, String::from_str("|---------------------------------------------------------------------------|\n"));
        assert(text(out@) =~= summary_lines(self@));
        out
    }

    /// A short line for every switch that moved process `pid` out or in.
    pub fn print_process_history(&self, pid: usize) -> (lines: Vec<String>)
        ensures
            text(lines@) == process_history_lines(self@, pid),
    {
        let rs = &self.records;
        let n = rs.len();
        let mut out: Vec<String> = Vec::new();
        let mut title = cat_dec("\n=== Process ", pid);
        title.append(" Switch History ===");
        push_line(&mut out, title);
        let ghost head = text(out@);
        let mut i: usize = 0;
        while i < n
            invariant
                n == rs@.len(),
                rs@ == self@,
                i <= n,
                text(out@) == head + history_body(rs@, pid, i as int),
            decreases n - i,
        {
            let r = &rs[i];
            if r.old_pid == pid {
                push_line(&mut out, r.switch_id_line(": Switched out --> Task", r.old_pid));
            }
            if r.new_pid == pid {
                push_line(&mut out, r.switch_id_line(": Switched out --> Task", r.new_pid));
            }
            i = i + 1;
            assert(text(out@) =~= head + history_body(rs@, pid, i as int));
        }
        assert(text(out@) =~= process_history_lines(self@, pid));
        out
    }

    /// The traced listing of process `pid`: for every switch its two pids, and
    /// the switch as seen by `pid` once for each side that `pid` is on.
    pub fn print_process_by_id(&self, pid: usize) -> (lines: Vec<String>)
        ensures
            text(lines@) == process_by_id_lines(self@, pid),
    {
        let rs = &self.records;
        let n = rs.len();
        let mut out: Vec<String> = Vec::new();
        push_line(&mut out, cat_dec("self.records.len():", n));
        push_line(&mut out, cat_dec("records.len():", n));
        let ghost head = text(out@);
        let mut i: usize = 0;
        while i < n
            invariant
                n == rs@.len(),
                rs@ == self@,
                i <= n,
                text(out@) == head + by_id_body(rs@, pid, i as int),
            decreases n - i,
        {
            append_lines(&mut out, rs[i].by_id_display(pid));
            i = i + 1;
            assert(text(out@) =~= head + by_id_body(rs@, pid, i as int));
        }
        assert(text(out@) =~= process_by_id_lines(self@, pid));
        out
    }
}

/// Every switch of the history in detail.
pub fn print_all_switch_details(history: &SwitchHistory) -> (lines: Vec<String>)
    ensures
        text(lines@) == detail_lines(history@),
{
    history.print_each_switch_detail()
}

/// Records a switch in both the switch history and the unified history.
pub fn add_switch_record(history: &mut SwitchHistory, unified: &mut UnifiedEventHistory, record: SwitchRecord)
    ensures
        final(history)@ == old(history)@.push(record),
        final(unified)@ == old(unified)@.push(UnifiedRecord::Switch(record)),
{
    history.add_record(record);
    add_switch_record_to_unified(unified, record);
}

/// The traced listing of process `pid` in the switch history.
pub fn print_process_by_id(history: &SwitchHistory, pid: usize) -> (lines: Vec<String>)
    ensures
        text(lines@) == process_by_id_lines(history@, pid),
{
    history.print_process_by_id(pid)
}

/// A switch record holds the task switched out on its old side and the task
/// switched in on its new side: pids, addresses, the key fields of each
/// control block and each task's own saved registers.
pub proof fn lemma_switch_record_sides(
    old: TaskControlBlock,
    old_addrs: (usize, usize),
    new: TaskControlBlock,
    new_addrs: (usize, usize),
    gid: usize,
    lid: usize,
)
    ensures
        ({
            let r = switch_record_of(old, old_addrs, new, new_addrs, gid, lid);
            &&& r.global_event_id == gid && r.local_switch_id == lid
            &&& r.old_pid == old.pid && r.new_pid == new.pid
            &&& r.old_tcb_addr == old_addrs.0 && r.old_context_addr == old_addrs.1
            &&& r.new_tcb_addr == new_addrs.0 && r.new_context_addr == new_addrs.1
            &&& r.old_tcb_content.pid == old.pid && r.old_tcb_content.task_status == old.task_status
            &&& r.old_tcb_content.kernel_stack_top == old.task_cx.sp && r.old_tcb_content.entry_point
                == old.task_cx.ra && r.old_tcb_content.user_stack_top == 0
            &&& r.new_tcb_content.pid == new.pid && r.new_tcb_content.task_status == new.task_status
            &&& r.new_tcb_content.kernel_stack_top == new.task_cx.sp && r.new_tcb_content.entry_point
                == new.task_cx.ra && r.new_tcb_content.user_stack_top == 0
            &&& r.old_registers.ra == old.task_cx.ra && r.old_registers.sp == old.task_cx.sp
                && r.old_registers.s == old.task_cx.s
            &&& r.new_registers.ra == new.task_cx.ra && r.new_registers.sp == new.task_cx.sp
                && r.new_registers.s == new.task_cx.s
        }),
{
}

/// What a process sees of a switch into it (from another process): the
/// title, the switched-in line, then the new side's pid, control block
/// address, control block content and registers.
pub proof fn lemma_switched_in_view(r: SwitchRecord, pid: usize)
    requires
        r.new_pid == pid,
        r.old_pid != pid,
    ensures
        switch_lines_by_pid(r, pid) == seq![
            "\n=== Process "@ + dec(pid as nat) + " Switch History by pid==="@,
            "\n|-------------------------------------------------------------------------------|"@,
            "  Switch Global #"@ + dec(r.global_event_id as nat) + ",Local #"@ + dec(r.local_switch_id as nat)
                + ": Switched in --> Task"@ + dec(r.new_pid as nat),
            "[NEW PROCESS] - Process Being Switched In                                                   |"@,
            "|------------------------------------------------------------------------------------|"@,
            "Process ID (PID): "@ + dec(r.new_pid as nat),
            "TCB Address: "@ + hex(r.new_tcb_addr as nat),
            "|------------------------------------------------------------------------------------|"@,
        ] + tcb_lines(r.new_tcb_content, "|"@) + register_lines(r.new_registers, "|"@) + seq![
            "|------------------------------------------------------------------------------------|\n"@,
        ],
{
    assert(switch_lines_by_pid(r, pid) =~= seq![
            "\n=== Process "@ + dec(pid as nat) + " Switch History by pid==="@,
            "\n|-------------------------------------------------------------------------------|"@,
            "  Switch Global #"@ + dec(r.global_event_id as nat) + ",Local #"@ + dec(r.local_switch_id as nat)
                + ": Switched in --> Task"@ + dec(r.new_pid as nat),
            "[NEW PROCESS] - Process Being Switched In                                                   |"@,
            "|------------------------------------------------------------------------------------|"@,
            "Process ID (PID): "@ + dec(r.new_pid as nat),
            "TCB Address: "@ + hex(r.new_tcb_addr as nat),
            "|------------------------------------------------------------------------------------|"@,
        ] + tcb_lines(r.new_tcb_content, "|"@) + register_lines(r.new_registers, "|"@) + seq![
            "|------------------------------------------------------------------------------------|\n"@,
        ]);
}

/// What a process sees of a switch out of it (to another process): the
/// title, the switched-out line, then the old side's pid, control block
/// address, control block content and registers.
pub proof fn lemma_switched_out_view(r: SwitchRecord, pid: usize)
    requires
        r.old_pid == pid,
        r.new_pid != pid,
    ensures
        switch_lines_by_pid(r, pid) == seq![
            "\n=== Process "@ + dec(pid as nat) + " Switch History by pid==="@,
            "\n|-------------------------------------------------------------------------------|"@,
            "  Switch Global #"@ + dec(r.global_event_id as nat) + ",Local #"@ + dec(r.local_switch_id as nat)
                + ": Switched out --> Task"@ + dec(r.old_pid as nat),
            "[OLD PROCESS] - Process Being Interrupted/Switched Out"@,
            "Process ID (PID): "@ + dec(r.old_pid as nat),
            "TCB Address: "@ + hex(r.old_tcb_addr as nat),
        ] + tcb_lines(r.old_tcb_content, "|"@) + register_lines(r.old_registers, "|"@) + seq![
            "|------------------------------------------------------------------------------------|\n"@,
        ],
{
    assert(switch_lines_by_pid(r, pid) =~= seq![
            "\n=== Process "@ + dec(pid as nat) + " Switch History by pid==="@,
            "\n|-------------------------------------------------------------------------------|"@,
            "  Switch Global #"@ + dec(r.global_event_id as nat) + ",Local #"@ + dec(r.local_switch_id as nat)
                + ": Switched out --> Task"@ + dec(r.old_pid as nat),
            "[OLD PROCESS] - Process Being Interrupted/Switched Out"@,
            "Process ID (PID): "@ + dec(r.old_pid as nat),
            "TCB Address: "@ + hex(r.old_tcb_addr as nat),
        ] + tcb_lines(r.old_tcb_content, "|"@) + register_lines(r.old_registers, "|"@) + seq![
            "|------------------------------------------------------------------------------------|\n"@,
        ]);
}

/// A process that a switch neither moved out nor in sees only the title.
pub proof fn lemma_uninvolved_view(r: SwitchRecord, pid: usize)
    requires
        r.old_pid != pid,
        r.new_pid != pid,
    ensures
        switch_lines_by_pid(r, pid) == seq![
            "\n=== Process "@ + dec(pid as nat) + " Switch History by pid==="@,
            "\n|-------------------------------------------------------------------------------|"@,
        ],
{
    assert(switch_lines_by_pid(r, pid) =~= seq![
            "\n=== Process "@ + dec(pid as nat) + " Switch History by pid==="@,
            "\n|-------------------------------------------------------------------------------|"@,
        ]);
}

} // verus!
