//! Trap records: what a trap captured of the interrupted process, a bounded
//! history of them, branch statistics, and their text.
use vstd::prelude::*;
use crate::event::{EventType, GlobalEventCounter, UnifiedEventRecord};
use crate::fmt::{
    append_dec, append_dec_left_aligned, append_dec_right_aligned, append_hex, append_lines,
    append_padded_right, append_signed, cat, cat_dec, cat_hex, dec, dec_signed, hex, pad_left,
    pad_right, push_line, text,
};
use crate::event_log::{add_trap_record_to_unified, UnifiedEventHistory, UnifiedRecord};
use crate::trap::TrapContext;

verus! {

/// The largest number of trap records kept.
pub const MAX_TRAP_RECORDS: usize = 8192;

/// Which branch of the trap handler ran.
#[derive(Debug, Clone, Copy, PartialEq, Eq, Structural)]
pub enum TrapBranch {
    TimerInterrupt,
    UserEnvCall,
    SupervisorEnvCall,
    InstructionPageFault,
    LoadPageFault,
    StorePageFault,
    IllegalInstruction,
    Breakpoint,
    OtherException,
    OtherInterrupt,
    Unknown,
}

/// A system call: its number, its three arguments and its result.
#[derive(Debug, Clone, Copy)]
pub struct SyscallInfo {
    pub syscall_id: usize,
    pub args: [usize; 3],
    pub result: isize,
}

impl SyscallInfo {
    /// The record of a system call.
    pub fn new(syscall_id: usize, args: [usize; 3], result: isize) -> (s: Self)
        ensures
            s.syscall_id == syscall_id,
            s.args == args,
            s.result == result,
    {
        SyscallInfo { syscall_id, args, result }
    }
}

/// The kinds of trap that a supervisor cause value names.
#[derive(Debug, Clone, Copy, PartialEq, Eq, Structural)]
pub enum TrapType {
    InstructionMisaligned,
    InstructionFault,
    IllegalInstruction,
    Breakpoint,
    LoadMisaligned,
    LoadFault,
    StoreMisaligned,
    StoreFault,
    UserEnvCall,
    SupervisorEnvCall,
    InstructionPageFault,
    LoadPageFault,
    StorePageFault,
    Interrupt,
    TimerInterrupt,
    ExternalInterrupt,
    Unknown,
}

/// The interrupt bit of a cause value: the most significant bit of a `usize`.
pub open spec fn interrupt_bit() -> int {
    usize::MAX / 2 + 1
}

/// The kind of trap that the cause value `scause` names: exception codes
/// 0 to 9, 12, 13 and 15 by number; with the interrupt bit set, code 5 is the
/// timer interrupt, code 9 the external interrupt, any other an interrupt;
/// anything else is unknown.
pub open spec fn trap_type_of(scause: usize) -> TrapType {
    if scause == 0 {
        TrapType::InstructionMisaligned
    } else if scause == 1 {
        TrapType::InstructionFault
    } else if scause == 2 {
        TrapType::IllegalInstruction
    } else if scause == 3 {
        TrapType::Breakpoint
    } else if scause == 4 {
        TrapType::LoadMisaligned
    } else if scause == 5 {
        TrapType::LoadFault
    } else if scause == 6 {
        TrapType::StoreMisaligned
    } else if scause == 7 {
        TrapType::StoreFault
    } else if scause == 8 {
        TrapType::UserEnvCall
    } else if scause == 9 {
        TrapType::SupervisorEnvCall
    } else if scause == 12 {
        TrapType::InstructionPageFault
    } else if scause == 13 {
        TrapType::LoadPageFault
    } else if scause == 15 {
        TrapType::StorePageFault
    } else if scause >= interrupt_bit() {
        if scause - interrupt_bit() == 5 {
            TrapType::TimerInterrupt
        } else if scause - interrupt_bit() == 9 {
            TrapType::ExternalInterrupt
        } else {
            TrapType::Interrupt
        }
    } else {
        TrapType::Unknown
    }
}

/// The cause value that each kind of trap stands for (`Interrupt` is the bare
/// interrupt bit, `Unknown` is all bits set).
pub open spec fn trap_code(t: TrapType) -> int {
    match t {
        TrapType::InstructionMisaligned => 0,
        TrapType::InstructionFault => 1,
        TrapType::IllegalInstruction => 2,
        TrapType::Breakpoint => 3,
        TrapType::LoadMisaligned => 4,
        TrapType::LoadFault => 5,
        TrapType::StoreMisaligned => 6,
        TrapType::StoreFault => 7,
        TrapType::UserEnvCall => 8,
        TrapType::SupervisorEnvCall => 9,
        TrapType::InstructionPageFault => 12,
        TrapType::LoadPageFault => 13,
        TrapType::StorePageFault => 15,
        TrapType::Interrupt => interrupt_bit(),
        TrapType::TimerInterrupt => interrupt_bit() + 5,
        TrapType::ExternalInterrupt => interrupt_bit() + 9,
        TrapType::Unknown => usize::MAX as int,
    }
}

/// Decoding the cause value of a kind of trap gives that kind back, for every
/// kind but `Unknown` (whose value, all bits set, decodes as an interrupt).
pub proof fn lemma_trap_type_of_code(t: TrapType)
    requires
        t != TrapType::Unknown,
    ensures
        0 <= trap_code(t) <= usize::MAX,
        trap_type_of(trap_code(t) as usize) == t,
{
}

impl From<usize> for TrapType {
    /// The kind of trap that a cause value names.
    fn from(scause: usize) -> (t: Self) {
        let bit: usize = usize::MAX / 2 + 1;
        if scause == 0 {
            TrapType::InstructionMisaligned
        } else if scause == 1 {
            TrapType::InstructionFault
        } else if scause == 2 {
            TrapType::IllegalInstruction
        } else if scause == 3 {
            TrapType::Breakpoint
        } else if scause == 4 {
            TrapType::LoadMisaligned
        } else if scause == 5 {
            TrapType::LoadFault
        } else if scause == 6 {
            TrapType::StoreMisaligned
        } else if scause == 7 {
            TrapType::StoreFault
        } else if scause == 8 {
            TrapType::UserEnvCall
        } else if scause == 9 {
            TrapType::SupervisorEnvCall
        } else if scause == 12 {
            TrapType::InstructionPageFault
        } else if scause == 13 {
            TrapType::LoadPageFault
        } else if scause == 15 {
            TrapType::StorePageFault
        } else if scause >= bit {
            if scause - bit == 5 {
                TrapType::TimerInterrupt
            } else if scause - bit == 9 {
                TrapType::ExternalInterrupt
            } else {
                TrapType::Interrupt
            }
        } else {
            TrapType::Unknown
        }
    }
}

impl vstd::std_specs::convert::FromSpecImpl<usize> for TrapType {
    open spec fn obeys_from_spec() -> bool {
        true
    }

    open spec fn from_spec(v: usize) -> Self {
        trap_type_of(v)
    }
}

/// The description of each kind of trap.
pub open spec fn description_text(t: TrapType) -> Seq<char> {
    match t {
        TrapType::InstructionMisaligned => "Instruction Misaligned"@,
        TrapType::InstructionFault => "Instruction Fault"@,
        TrapType::IllegalInstruction => "Illegal Instruction"@,
        TrapType::Breakpoint => "Breakpoint"@,
        TrapType::LoadMisaligned => "Load Misaligned"@,
        TrapType::LoadFault => "Load Fault"@,
        TrapType::StoreMisaligned => "Store Misaligned"@,
        TrapType::StoreFault => "Store Fault"@,
        TrapType::UserEnvCall => "User Environment Call"@,
        TrapType::SupervisorEnvCall => "Supervisor Environment Call"@,
        TrapType::InstructionPageFault => "Instruction Page Fault"@,
        TrapType::LoadPageFault => "Load Page Fault"@,
        TrapType::StorePageFault => "Store Page Fault"@,
        TrapType::Interrupt => "Interrupt"@,
        TrapType::TimerInterrupt => "Timer Interrupt"@,
        TrapType::ExternalInterrupt => "External Interrupt"@,
        TrapType::Unknown => "Unknown Trap"@,
    }
}

/// How `{:?}` writes a kind of trap: the variant's name.
pub open spec fn trap_type_name(t: TrapType) -> Seq<char> {
    match t {
        TrapType::InstructionMisaligned => "InstructionMisaligned"@,
        TrapType::InstructionFault => "InstructionFault"@,
        TrapType::IllegalInstruction => "IllegalInstruction"@,
        TrapType::Breakpoint => "Breakpoint"@,
        TrapType::LoadMisaligned => "LoadMisaligned"@,
        TrapType::LoadFault => "LoadFault"@,
        TrapType::StoreMisaligned => "StoreMisaligned"@,
        TrapType::StoreFault => "StoreFault"@,
        TrapType::UserEnvCall => "UserEnvCall"@,
        TrapType::SupervisorEnvCall => "SupervisorEnvCall"@,
        TrapType::InstructionPageFault => "InstructionPageFault"@,
        TrapType::LoadPageFault => "LoadPageFault"@,
        TrapType::StorePageFault => "StorePageFault"@,
        TrapType::Interrupt => "Interrupt"@,
        TrapType::TimerInterrupt => "TimerInterrupt"@,
        TrapType::ExternalInterrupt => "ExternalInterrupt"@,
        TrapType::Unknown => "Unknown"@,
    }
}

/// How `{:?}` writes a trap branch: the variant's name.
pub open spec fn branch_name(b: TrapBranch) -> Seq<char> {
    match b {
        TrapBranch::TimerInterrupt => "TimerInterrupt"@,
        TrapBranch::UserEnvCall => "UserEnvCall"@,
        TrapBranch::SupervisorEnvCall => "SupervisorEnvCall"@,
        TrapBranch::InstructionPageFault => "InstructionPageFault"@,
        TrapBranch::LoadPageFault => "LoadPageFault"@,
        TrapBranch::StorePageFault => "StorePageFault"@,
        TrapBranch::IllegalInstruction => "IllegalInstruction"@,
        TrapBranch::Breakpoint => "Breakpoint"@,
        TrapBranch::OtherException => "OtherException"@,
        TrapBranch::OtherInterrupt => "OtherInterrupt"@,
        TrapBranch::Unknown => "Unknown"@,
    }
}

impl TrapType {
    /// A description of this kind of trap in words.
    pub fn description(&self) -> (d: &'static str)
        ensures
            d@ == description_text(*self),
    {
        match self {
            TrapType::InstructionMisaligned => "Instruction Misaligned",
            TrapType::InstructionFault => "Instruction Fault",
            TrapType::IllegalInstruction => "Illegal Instruction",
            TrapType::Breakpoint => "Breakpoint",
            TrapType::LoadMisaligned => "Load Misaligned",
            TrapType::LoadFault => "Load Fault",
            TrapType::StoreMisaligned => "Store Misaligned",
            TrapType::StoreFault => "Store Fault",
            TrapType::UserEnvCall => "User Environment Call",
            TrapType::SupervisorEnvCall => "Supervisor Environment Call",
            TrapType::InstructionPageFault => "Instruction Page Fault",
            TrapType::LoadPageFault => "Load Page Fault",
            TrapType::StorePageFault => "Store Page Fault",
            TrapType::Interrupt => "Interrupt",
            TrapType::TimerInterrupt => "Timer Interrupt",
            TrapType::ExternalInterrupt => "External Interrupt",
            TrapType::Unknown => "Unknown Trap",
        }
    }

    fn debug_name(&self) -> (d: &'static str)
        ensures
            d@ == trap_type_name(*self),
    {
        match self {
            TrapType::InstructionMisaligned => "InstructionMisaligned",
            TrapType::InstructionFault => "InstructionFault",
            TrapType::IllegalInstruction => "IllegalInstruction",
            TrapType::Breakpoint => "Breakpoint",
            TrapType::LoadMisaligned => "LoadMisaligned",
            TrapType::LoadFault => "LoadFault",
            TrapType::StoreMisaligned => "StoreMisaligned",
            TrapType::StoreFault => "StoreFault",
            TrapType::UserEnvCall => "UserEnvCall",
            TrapType::SupervisorEnvCall => "SupervisorEnvCall",
            TrapType::InstructionPageFault => "InstructionPageFault",
            TrapType::LoadPageFault => "LoadPageFault",
            TrapType::StorePageFault => "StorePageFault",
            TrapType::Interrupt => "Interrupt",
            TrapType::TimerInterrupt => "TimerInterrupt",
            TrapType::ExternalInterrupt => "ExternalInterrupt",
            TrapType::Unknown => "Unknown",
        }
    }
}

impl TrapBranch {
    /// The name of this branch, as `{:?}` writes it.
    pub fn debug_name(&self) -> (d: &'static str)
        ensures
            d@ == branch_name(*self),
    {
        match self {
            TrapBranch::TimerInterrupt => "TimerInterrupt",
            TrapBranch::UserEnvCall => "UserEnvCall",
            TrapBranch::SupervisorEnvCall => "SupervisorEnvCall",
            TrapBranch::InstructionPageFault => "InstructionPageFault",
            TrapBranch::LoadPageFault => "LoadPageFault",
            TrapBranch::StorePageFault => "StorePageFault",
            TrapBranch::IllegalInstruction => "IllegalInstruction",
            TrapBranch::Breakpoint => "Breakpoint",
            TrapBranch::OtherException => "OtherException",
            TrapBranch::OtherInterrupt => "OtherInterrupt",
            TrapBranch::Unknown => "Unknown",
        }
    }
}

/// The registers captured at a trap.
#[derive(Debug, Clone, Copy)]
pub struct TrapRegisters {
    /// General registers x0 to x31.
    pub x: [usize; 32],
    pub sepc: usize,
    pub sstatus: usize,
    pub stval: usize,
    pub scause: usize,
}

impl Default for TrapRegisters {
    /// All registers zero.
    fn default() -> (r: Self)
        ensures
            forall|i: int| 0 <= i < 32 ==> r.x[i] == 0,
            r.sepc == 0,
            r.sstatus == 0,
            r.stval == 0,
            r.scause == 0,
    {
        TrapRegisters { x: [0; 32], sepc: 0, sstatus: 0, stval: 0, scause: 0 }
    }
}

impl TrapRegisters {
    /// The registers of `trap_cx` (with x0 as 0), with the cause and trap
    /// value registers read at the trap.
    pub fn from_trap_context(trap_cx: &TrapContext, scause: usize, stval: usize) -> (r: Self)
        ensures
            r == trap_registers_of(*trap_cx, scause, stval),
            r.x[0] == 0,
            forall|i: int| 1 <= i < 32 ==> r.x[i] == trap_cx.x[i],
            r.sepc == trap_cx.sepc,
            r.sstatus == trap_cx.sstatus,
            r.scause == scause,
            r.stval == stval,
    {
        let mut regs = TrapRegisters::default();
        regs.x[0] = 0;
        let mut i: usize = 1;
        while i < 32
            invariant
                1 <= i <= 32,
                regs.x[0] == 0,
                forall|j: int| 1 <= j < i ==> regs.x[j] == trap_cx.x[j],
            decreases 32 - i,
        {
            regs.x[i] = trap_cx.x[i];
            i = i + 1;
        }
        regs.sepc = trap_cx.sepc;
        regs.sstatus = trap_cx.sstatus;
        regs.scause = scause;
        regs.stval = stval;
        assert(regs.x =~= vstd::array::spec_array_update(trap_cx.x, 0, 0usize));
        regs
    }
}

/// One trap: the global and local event numbers, its kind and the branch
/// taken, what was captured of the interrupted process, and for a system
/// call its details.
#[derive(Debug, Clone, Copy)]
pub struct TrapRecord {
    pub global_event_id: usize,
    pub local_trap_id: usize,
    pub trap_type: TrapType,
    pub trap_branch: TrapBranch,
    pub interrupted_pid: usize,
    pub interrupted_tcb_addr: usize,
    pub interrupted_context_addr: usize,
    pub interrupted_registers: TrapRegisters,
    pub kernel_stack_top: usize,
    pub user_stack_top: usize,
    pub scause: usize,
    pub stval: usize,
    pub syscall_info: Option<SyscallInfo>,
}

/// The registers captured at a trap: those of `cx`, with x0 as 0, and the
/// cause and trap value given.
pub open spec fn trap_registers_of(cx: TrapContext, scause: usize, stval: usize) -> TrapRegisters {
    TrapRegisters {
        x: vstd::array::spec_array_update(cx.x, 0, 0usize),
        sepc: cx.sepc,
        sstatus: cx.sstatus,
        stval,
        scause,
    }
}

/// The record of a trap with global id `gid`, local number `lid`, saved
/// registers `cx`, interrupted process `pid` (with its control block
/// address, context address and kernel stack top), cause and trap value,
/// branch and system call details.
pub open spec fn trap_record_of(
    gid: usize,
    lid: usize,
    cx: TrapContext,
    pid: usize,
    tcb_addr: usize,
    context_addr: usize,
    kernel_sp: usize,
    scause: usize,
    stval: usize,
    branch: TrapBranch,
    syscall_info: Option<SyscallInfo>,
) -> TrapRecord {
    TrapRecord {
        global_event_id: gid,
        local_trap_id: lid,
        trap_type: trap_type_of(scause),
        trap_branch: branch,
        interrupted_pid: pid,
        interrupted_tcb_addr: tcb_addr,
        interrupted_context_addr: context_addr,
        interrupted_registers: trap_registers_of(cx, scause, stval),
        kernel_stack_top: kernel_sp,
        user_stack_top: 0,
        scause,
        stval,
        syscall_info,
    }
}

/// The short description of a trap branch in an event summary.
pub open spec fn branch_subtype(b: TrapBranch) -> Seq<char> {
    match b {
        TrapBranch::TimerInterrupt => "Timer Interrupt"@,
        TrapBranch::UserEnvCall => "System Call"@,
        TrapBranch::InstructionPageFault => "Instruction Page Fault"@,
        TrapBranch::LoadPageFault => "Load Page Fault"@,
        TrapBranch::StorePageFault => "Store Page Fault"@,
        _ => "Other Trap"@,
    }
}

impl TrapRecord {
    /// A record of a trap. Its local number is the next value of
    /// `local_counter`, its global event id the next id of `global`, its kind
    /// the one `scause` names, and its registers those of `trap_cx` with the
    /// cause and trap value given.
    pub fn new(
        global: &mut GlobalEventCounter,
        local_counter: &mut usize,
        trap_cx: &TrapContext,
        pid: usize,
        tcb_addr: usize,
        context_addr: usize,
        kernel_sp: usize,
        scause: usize,
        stval: usize,
        trap_branch: TrapBranch,
        syscall_info: Option<SyscallInfo>,
    ) -> (r: Self)
        requires
            *old(local_counter) < usize::MAX,
            old(global)@ < usize::MAX,
        ensures
            *final(local_counter) == *old(local_counter) + 1,
            final(global)@ == old(global)@ + 1,
            r == trap_record_of(
                final(global)@ as usize,
                *final(local_counter),
                *trap_cx,
                pid,
                tcb_addr,
                context_addr,
                kernel_sp,
                scause,
                stval,
                trap_branch,
                syscall_info,
            ),
            r.global_event_id == final(global)@,
            r.local_trap_id == *final(local_counter),
            r.trap_type == trap_type_of(scause),
            r.trap_branch == trap_branch,
            r.interrupted_pid == pid,
            r.interrupted_tcb_addr == tcb_addr,
            r.interrupted_context_addr == context_addr,
            r.interrupted_registers.x[0] == 0,
            forall|i: int| 1 <= i < 32 ==> r.interrupted_registers.x[i] == trap_cx.x[i],
            r.interrupted_registers.sepc == trap_cx.sepc,
            r.interrupted_registers.sstatus == trap_cx.sstatus,
            r.interrupted_registers.scause == scause,
            r.interrupted_registers.stval == stval,
            r.kernel_stack_top == kernel_sp,
            r.user_stack_top == 0,
            r.scause == scause,
            r.stval == stval,
            r.syscall_info == syscall_info,
    {
        *local_counter = *local_counter + 1;
        let timestamp = *local_counter;
        let global_event_id = global.next_event_id();
        TrapRecord {
            global_event_id,
            local_trap_id: timestamp,
            trap_type: TrapType::from(scause),
            trap_branch,
            interrupted_pid: pid,
            interrupted_tcb_addr: tcb_addr,
            interrupted_context_addr: context_addr,
            interrupted_registers: TrapRegisters::from_trap_context(trap_cx, scause, stval),
            kernel_stack_top: kernel_sp,
            user_stack_top: 0,
            scause,
            stval,
            syscall_info,
        }
    }

    /// The summary of this trap: its global id, the interrupted pid, and a
    /// short description of the branch taken.
    pub fn to_unified_event(&self) -> (e: UnifiedEventRecord)
        ensures
            e.event_id == self.global_event_id,
            e.event_type == EventType::Trap,
            e.timestamp == 0,
            e.pid == self.interrupted_pid,
            e.subtype_desc@ == branch_subtype(self.trap_branch),
    {
        UnifiedEventRecord {
            event_id: self.global_event_id,
            event_type: EventType::Trap,
            timestamp: 0,
            pid: self.interrupted_pid,
            subtype_desc: match self.trap_branch {
                TrapBranch::TimerInterrupt => "Timer Interrupt",
                TrapBranch::UserEnvCall => "System Call",
                TrapBranch::InstructionPageFault => "Instruction Page Fault",
                TrapBranch::LoadPageFault => "Load Page Fault",
                TrapBranch::StorePageFault => "Store Page Fault",
                _ => "Other Trap",
            },
        }
    }
}

/// The lines that show a system call.
pub open spec fn syscall_lines(s: SyscallInfo) -> Seq<Seq<char>> {
    seq![
        "    Syscall ID: "@ + dec(s.syscall_id as nat) + (if s.syscall_id == 64 {
            " (write)"@
        } else if s.syscall_id == 57 {
            " (close)"@
        } else if s.syscall_id == 80 {
            " (exit)"@
        } else {
            Seq::empty()
        }),
        "    Args: ["@ + hex(s.args[0] as nat) + ", "@ + hex(s.args[1] as nat) + ", "@ + hex(
            s.args[2] as nat,
        ) + "]"@,
        "    Result: "@ + dec_signed(s.result as int),
    ]
}

impl SyscallInfo {
    /// The lines that show this system call: its number (with the call's name
    /// for write, close and exit), its arguments and its result.
    pub fn display(&self) -> (lines: Vec<String>)
        ensures
            text(lines@) == syscall_lines(*self),
    {
        let mut out: Vec<String> = Vec::new();
        let mut l = cat_dec("    Syscall ID: ", self.syscall_id);
        if self.syscall_id == 64 {
            l.append(" (write)");
        } else if self.syscall_id == 57 {
            l.append(" (close)");
        } else if self.syscall_id == 80 {
            l.append(" (exit)");
        }
        push_line(&mut out, l);
        let mut args = cat_hex("    Args: [", self.args[0]);
        args.append(", ");
        append_hex(&mut args, self.args[1]);
        args.append(", ");
        append_hex(&mut args, self.args[2]);
        args.append("]");
        push_line(&mut out, args);
        let mut r = String::from_str("    Result: ");
        append_signed(&mut r, self.result);
        push_line(&mut out, r);
        assert(text(out@) =~= syscall_lines(*self));
        out
    }
}

/// The lines that show trap registers after `prefix`.
pub open spec fn trap_register_lines(r: TrapRegisters, prefix: Seq<char>) -> Seq<Seq<char>> {
    seq![
        prefix + "|-- Trap Context Registers:"@,
        prefix + "|-- sepc (Return Address): "@ + hex(r.sepc as nat),
        prefix + "|-- sstatus: "@ + hex(r.sstatus as nat),
        prefix + "|-- scause: "@ + hex(r.scause as nat) + " ("@ + description_text(trap_type_of(r.scause)) + ")"@,
        prefix + "|-- stval: "@ + hex(r.stval as nat),
        prefix + "|-- ra (x1): "@ + hex(r.x[1] as nat),
        prefix + "|-- sp (x2): "@ + hex(r.x[2] as nat),
        prefix + "|-- tp (x4): "@ + hex(r.x[4] as nat),
        prefix + "|-- a0-a7: "@ + hex(r.x[10] as nat) + ", "@ + hex(r.x[11] as nat) + ", "@ + hex(r.x[12] as nat)
            + ", "@ + hex(r.x[13] as nat) + ", "@ + hex(r.x[14] as nat) + ", "@ + hex(r.x[15] as nat) + ", "@
            + hex(r.x[16] as nat) + ", "@ + hex(r.x[17] as nat),
        prefix + "|-- ..."@,
    ]
}

fn reg_line(prefix: &str, label: &str, v: usize) -> (s: String)
    ensures
        s@ == prefix@ + label@ + hex(v as nat),
{
    let mut s = cat(prefix, label);
    append_hex(&mut s, v);
    s
}

impl TrapRegisters {
    /// The lines that show these registers after `prefix`: the control
    /// registers (the cause with its description), ra, sp, tp and a0 to a7.
    pub fn display(&self, prefix: &str) -> (lines: Vec<String>)
        ensures
            text(lines@) == trap_register_lines(*self, prefix@),
    {
        let mut out: Vec<String> = Vec::new();
        push_line(&mut out, cat(prefix, "|-- Trap Context Registers:"));
        push_line(&mut out, reg_line(prefix, "|-- sepc (Return Address): ", self.sepc));
        push_line(&mut out, reg_line(prefix, "|-- sstatus: ", self.sstatus));
        let mut c = reg_line(prefix, "|-- scause: ", self.scause);
        c.append(" (");
        c.append(TrapType::from(self.scause).description());
        c.append(")");
        push_line(&mut out, c);
        push_line(&mut out, reg_line(prefix, "|-- stval: ", self.stval));
        push_line(&mut out, reg_line(prefix, "|-- ra (x1): ", self.x[1]));
        push_line(&mut out, reg_line(prefix, "|-- sp (x2): ", self.x[2]));
        push_line(&mut out, reg_line(prefix, "|-- tp (x4): ", self.x[4]));
        let mut a = reg_line(prefix, "|-- a0-a7: ", self.x[10]);
        a.append(", ");
        append_hex(&mut a, self.x[11]);
        a.append(", ");
        append_hex(&mut a, self.x[12]);
        a.append(", ");
        append_hex(&mut a, self.x[13]);
        a.append(", ");
        append_hex(&mut a, self.x[14]);
        a.append(", ");
        append_hex(&mut a, self.x[15]);
        a.append(", ");
        append_hex(&mut a, self.x[16]);
        a.append(", ");
        append_hex(&mut a, self.x[17]);
        push_line(&mut out, a);
        push_line(&mut out, cat(prefix, "|-- ..."));
        assert(text(out@) =~= trap_register_lines(*self, prefix@));
        out
    }
}

/// The lines of a trap record after its first line: the title, the trap's
/// kind and branch, the system call if any, the interrupted process and its
/// registers.
pub open spec fn trap_body_lines(r: TrapRecord) -> Seq<Seq<char>> {
    seq![
        "                           TRAP/EXCEPTION OCCURRED                                          "@,
        "                           TRAP/EXCEPTION (Global Event #"@ + dec(r.global_event_id as nat) + "),Local Trap #"@ + dec(
            r.local_trap_id as nat,
        ) + "                      "@,
        "|------------------------------------------------------------------------------------------|"@,
        " [Trap Information]"@,
        "   Type: "@ + description_text(r.trap_type) + " ("@ + trap_type_name(r.trap_type) + ")"@,
        "   Branch: "@ + branch_name(r.trap_branch),
    ] + (match r.syscall_info {
        Some(s) => seq![" [System Call Information]"@] + syscall_lines(s),
        None => Seq::empty(),
    }) + seq![
        " [Interrupted Process]"@,
        "   PID: "@ + dec(r.interrupted_pid as nat),
        "   Task Context Address: "@ + hex(r.interrupted_context_addr as nat),
        "   Kernel Stack Top: "@ + hex(r.kernel_stack_top as nat),
    ] + trap_register_lines(r.interrupted_registers, "|   "@) + seq!["|-------------------------------------------------------------------------------|"@]
}

/// The full text of a trap record.
pub open spec fn trap_lines(r: TrapRecord) -> Seq<Seq<char>> {
    seq!["\n|------------------------------------------------------------------------------------------|"@] + trap_body_lines(r)
}

/// The text of a trap record as seen by process `pid`: nothing unless `pid`
/// is the interrupted process.
pub open spec fn trap_lines_by_pid(r: TrapRecord, pid: usize) -> Seq<Seq<char>> {
    if r.interrupted_pid == pid {
        seq!["\n=== Process "@ + dec(pid as nat) + " TRAP/EXCEPTION History by pid==="@] + trap_body_lines(r)
    } else {
        Seq::empty()
    }
}

impl TrapRecord {
    fn body_display(&self) -> (lines: Vec<String>)
        ensures
            text(lines@) == trap_body_lines(*self),
    {
        let mut out: Vec<String> = Vec::new();
        push_line(&mut out, String::from_str("                           TRAP/EXCEPTION OCCURRED                                          "));
        let mut t = cat_dec("                           TRAP/EXCEPTION (Global Event #", self.global_event_id);
        t.append("),Local Trap #");
        append_dec(&mut t, self.local_trap_id);
        t.append("                      ");
        push_line(&mut out, t);
        push_line(&mut out, String::from_str("|------------------------------------------------------------------------------------------|"));
        push_line(&mut out, String::from_str(" [Trap Information]"));
        let mut ty = cat("   Type: ", self.trap_type.description());
        ty.append(" (");
        ty.append(self.trap_type.debug_name());
        ty.append(")");
        push_line(&mut out, ty);
        push_line(&mut out, cat("   Branch: ", self.trap_branch.debug_name()));
        match &self.syscall_info {
            Some(s) => {
                push_line(&mut out, String::from_str(" [System Call Information]"));
                append_lines(&mut out, s.display());
            },
            None => {},
        }
        push_line(&mut out, String::from_str(" [Interrupted Process]"));
        push_line(&mut out, cat_dec("   PID: ", self.interrupted_pid));
        push_line(&mut out, cat_hex("   Task Context Address: ", self.interrupted_context_addr));
        push_line(&mut out, cat_hex("   Kernel Stack Top: ", self.kernel_stack_top));
        append_lines(&mut out, self.interrupted_registers.display("|   "));
        push_line(&mut out, String::from_str("|-------------------------------------------------------------------------------|"));
        assert(text(out@) =~= trap_body_lines(*self));
        out
    }

    /// The full text of this trap.
    pub fn display(&self) -> (lines: Vec<String>)
        ensures
            text(lines@) == trap_lines(*self),
    {
        let mut out: Vec<String> = Vec::new();
        push_line(&mut out, String::from_str("\n|------------------------------------------------------------------------------------------|"));
        append_lines(&mut out, self.body_display());
        assert(text(out@) =~= trap_lines(*self));
        out
    }

    /// The text of this trap as seen by process `pid` (nothing unless `pid`
    /// was interrupted).
    pub fn display_by_pid(&self, pid: usize) -> (lines: Vec<String>)
        ensures
            text(lines@) == trap_lines_by_pid(*self, pid),
    {
        let mut out: Vec<String> = Vec::new();
        if self.interrupted_pid == pid {
            let mut t = cat_dec("\n=== Process ", pid);
            t.append(" TRAP/EXCEPTION History by pid===");
            push_line(&mut out, t);
            append_lines(&mut out, self.body_display());
        }
        assert(text(out@) =~= trap_lines_by_pid(*self, pid));
        out
    }
}

/// The branch classes that the statistics count: 0 timer interrupts,
/// 1 system calls, 2 page faults (instruction, load or store), 3 the rest.
pub open spec fn branch_class(b: TrapBranch) -> int {
    match b {
        TrapBranch::TimerInterrupt => 0,
        TrapBranch::UserEnvCall => 1,
        TrapBranch::InstructionPageFault | TrapBranch::LoadPageFault | TrapBranch::StorePageFault => 2,
        _ => 3,
    }
}

/// The number of the first `k` records whose branch is in class `c`.
pub open spec fn count_class(rs: Seq<TrapRecord>, c: int, k: int) -> nat
    decreases k,
{
    if k <= 0 {
        0
    } else {
        count_class(rs, c, k - 1) + if branch_class(rs[k - 1].trap_branch) == c {
            1nat
        } else {
            0nat
        }
    }
}

/// Every record falls in exactly one class, so the four counts add up to the
/// number of records.
pub proof fn lemma_branch_counts_sum(rs: Seq<TrapRecord>, k: int)
    requires
        0 <= k <= rs.len(),
    ensures
        count_class(rs, 0, k) + count_class(rs, 1, k) + count_class(rs, 2, k) + count_class(rs, 3, k)
            == k,
    decreases k,
{
    if k > 0 {
        lemma_branch_counts_sum(rs, k - 1);
    }
}

/// The last `n` elements of `s` (all of them when it has fewer).
pub open spec fn last_n<A>(s: Seq<A>, n: nat) -> Seq<A> {
    if s.len() <= n {
        s
    } else {
        s.subrange(s.len() - n, s.len() as int)
    }
}

/// The bounded history of traps, oldest first.
pub struct TrapHistory {
    records: Vec<TrapRecord>,
}

/// The summary line of one trap.
pub open spec fn trap_summary_line(r: TrapRecord) -> Seq<char> {
    " │ Global #"@ + pad_right(dec(r.global_event_id as nat), 4) + " │ Local #"@ + pad_right(
        dec(r.local_trap_id as nat),
        3,
    ) + " │ PID "@ + pad_right(dec(r.interrupted_pid as nat), 3) + " │ "@ + pad_right(
        description_text(r.trap_type),
        35,
    ) + " │ sepc="@ + hex(r.interrupted_registers.sepc as nat) + " │"@
}

/// The summary lines of the first `k` traps.
pub open spec fn trap_summary_body(rs: Seq<TrapRecord>, k: int) -> Seq<Seq<char>>
    decreases k,
{
    if k <= 0 {
        Seq::empty()
    } else {
        trap_summary_body(rs, k - 1).push(trap_summary_line(rs[k - 1]))
    }
}

/// The summary of the trap history.
pub open spec fn trap_summary_lines(rs: Seq<TrapRecord>) -> Seq<Seq<char>> {
    seq![
        "\n|------------------------------------------------------------------------------------------|"@,
        "|                           TRAP/EXCEPTION HISTORY SUMMARY                                   |"@,
        "|------------------------------------------------------------------------------------------|"@,
        " Total Traps/Exceptions: "@ + dec(rs.len()) + "/"@ + dec(MAX_TRAP_RECORDS as nat),
    ] + trap_summary_body(rs, rs.len() as int) + seq!["|_____________________________________________________________________________________|\n"@]
}

/// The line for one trap of a process.
pub open spec fn trap_pid_line(r: TrapRecord) -> Seq<char> {
    "  Global #"@ + pad_right(dec(r.global_event_id as nat), 4) + " │ Local #"@ + pad_right(
        dec(r.local_trap_id as nat),
        3,
    ) + ": "@ + description_text(r.trap_type) + " at sepc="@ + hex(r.interrupted_registers.sepc as nat)
}

/// The lines for the traps of process `pid` among the first `k`.
pub open spec fn trap_pid_body(rs: Seq<TrapRecord>, pid: usize, k: int) -> Seq<Seq<char>>
    decreases k,
{
    if k <= 0 {
        Seq::empty()
    } else if rs[k - 1].interrupted_pid == pid {
        trap_pid_body(rs, pid, k - 1).push(trap_pid_line(rs[k - 1]))
    } else {
        trap_pid_body(rs, pid, k - 1)
    }
}

/// The traps of process `pid`, or a line saying there are none.
pub open spec fn trap_pid_lines(rs: Seq<TrapRecord>, pid: usize) -> Seq<Seq<char>> {
    seq!["\n=== Traps for Process "@ + dec(pid as nat) + " ==="@] + if trap_pid_body(
        rs,
        pid,
        rs.len() as int,
    ).len() == 0 {
        seq!["  No traps recorded for this process"@]
    } else {
        trap_pid_body(rs, pid, rs.len() as int)
    }
}

/// The branch statistics of the trap history.
pub open spec fn statistics_lines(rs: Seq<TrapRecord>) -> Seq<Seq<char>> {
    seq![
        "\n|----------------------------------------------------------------|"@,
        "|                    TRAP BRANCH STATISTICS                        |"@,
        "|----------------------------------------------------------------|"@,
        "|  Timer Interrupts:     "@ + pad_left(dec(count_class(rs, 0, rs.len() as int)), 6) + "                                   |"@,
        "|  System Calls:         "@ + pad_left(dec(count_class(rs, 1, rs.len() as int)), 6) + "                                   |"@,
        "|  Page Faults:          "@ + pad_left(dec(count_class(rs, 2, rs.len() as int)), 6) + "                                   |"@,
        "|  Other:                "@ + pad_left(dec(count_class(rs, 3, rs.len() as int)), 6) + "                                   |"@,
        "|  Total:                "@ + pad_left(dec(rs.len()), 6) + "                                   |"@,
        "|----------------------------------------------------------------|\n"@,
    ]
}

/// The kept records after adding `r` to a history holding `h`: `r` at the
/// end, and the oldest record gone when `h` was full.
pub open spec fn history_after(h: Seq<TrapRecord>, r: TrapRecord) -> Seq<TrapRecord> {
    if h.len() < MAX_TRAP_RECORDS {
        h.push(r)
    } else {
        h.skip(1).push(r)
    }
}

/// The text printed when `r` is added to a history holding `h`: the record,
/// and the overwrite warning when `h` was full.
pub open spec fn add_lines(h: Seq<TrapRecord>, r: TrapRecord) -> Seq<Seq<char>> {
    if h.len() < MAX_TRAP_RECORDS {
        trap_lines(r)
    } else {
        trap_lines(r).push(overwrite_warning())
    }
}

/// The warning printed when the history is full and its oldest record goes.
pub open spec fn overwrite_warning() -> Seq<char> {
    "[TrapHistory] Warning: Buffer full, oldest record overwritten"@
}

fn stat_line(head: &str, n: usize, tail: &str) -> (s: String)
    ensures
        s@ == head@ + pad_left(dec(n as nat), 6) + tail@,
{
    let mut s = String::from_str(head);
    append_dec_right_aligned(&mut s, n, 6);
    s.append(tail);
    s
}

impl TrapHistory {
    /// The kept records, oldest first.
    pub closed spec fn view(&self) -> Seq<TrapRecord> {
        self.records@
    }

    /// The history keeps at most `MAX_TRAP_RECORDS` records.
    pub closed spec fn wf(&self) -> bool {
        self.records@.len() <= MAX_TRAP_RECORDS
    }

    /// An empty history.
    pub fn new() -> (h: Self)
        ensures
            h.wf(),
            h@ == Seq::<TrapRecord>::empty(),
    {
        TrapHistory { records: Vec::new() }
    }

    /// The number of records kept.
    pub fn count(&self) -> (n: usize)
        requires
            self.wf(),
        ensures
            n == self@.len(),
            n <= MAX_TRAP_RECORDS,
    {
        self.records.len()
    }

    /// Adds a record. When the history is full, the oldest record goes and
    /// the others move up one place. The result is the text printed: the
    /// record, then the overwrite warning if the oldest record went.
    pub fn add_record(&mut self, record: TrapRecord) -> (lines: Vec<String>)
        requires
            old(self).wf(),
        ensures
            final(self).wf(),
            final(self)@ == history_after(old(self)@, record),
            text(lines@) == add_lines(old(self)@, record),
            old(self)@.len() < MAX_TRAP_RECORDS ==> final(self)@ == old(self)@.push(record)
                && text(lines@) == trap_lines(record),
            old(self)@.len() == MAX_TRAP_RECORDS ==> final(self)@ == old(self)@.skip(1).push(record)
                && text(lines@) == trap_lines(record).push(overwrite_warning()),
    {
        if self.records.len() < MAX_TRAP_RECORDS {
            self.records.push(record);
            record.display()
        } else {
            let _oldest = self.records.remove(0);
            self.records.push(record);
            assert(self.records@ =~= old(self)@.skip(1).push(record));
            let mut out = record.display();
            push_line(&mut out, String::from_str("[TrapHistory] Warning: Buffer full, oldest record overwritten"));
            out
        }
    }

    /// The kept records.
    pub fn records(&self) -> (r: &Vec<TrapRecord>)
        ensures
            r@ == self@,
    {
        &self.records
    }

    /// The summary: the count out of the capacity, then one line per trap.
    pub fn print_summary(&self) -> (lines: Vec<String>)
        ensures
            text(lines@) == trap_summary_lines(self@),
    {
        let rs = &self.records;
        let n = rs.len();
        let mut out: Vec<String> = Vec::new();
        push_line(&mut out, String::from_str("\n|------------------------------------------------------------------------------------------|"));
        push_line(&mut out, String::from_str("|                           TRAP/EXCEPTION HISTORY SUMMARY                                   |"));
        push_line(&mut out, String::from_str("|------------------------------------------------------------------------------------------|"));
        let mut total = cat_dec(" Total Traps/Exceptions: ", n);
        total.append("/");
        append_dec(&mut total, MAX_TRAP_RECORDS);
        push_line(&mut out, total);
        let ghost head = text(out@);
        let mut i: usize = 0;
        while i < n
            invariant
                n == rs@.len(),
                rs@ == self@,
                i <= n,
                text(out@) == head + trap_summary_body(rs@, i as int),
            decreases n - i,
        {
            let r = &rs[i];
            let mut l = String::from_str(" │ Global #");
            append_dec_left_aligned(&mut l, r.global_event_id, 4);
            l.append(" │ Local #");
            append_dec_left_aligned(&mut l, r.local_trap_id, 3);
            l.append(" │ PID ");
            append_dec_left_aligned(&mut l, r.interrupted_pid, 3);
            l.append(" │ ");
            append_padded_right(&mut l, r.trap_type.description(), 35);
            l.append(" │ sepc=");
            append_hex(&mut l, r.interrupted_registers.sepc);
            l.append(" │");
            push_line(&mut out, l);
            i = i + 1;
            assert(text(out@) =~= head + trap_summary_body(rs@, i as int));
        }
        push_line(&mut out, String::from_str("|_____________________________________________________________________________________|\n"));
        assert(text(out@) =~= trap_summary_lines(self@));
        out
    }

    /// The traps of process `pid`, one line each, or a line saying there are none.
    pub fn print_by_pid(&self, pid: usize) -> (lines: Vec<String>)
        ensures
            text(lines@) == trap_pid_lines(self@, pid),
    {
        let rs = &self.records;
        let n = rs.len();
        let mut out: Vec<String> = Vec::new();
        let mut title = cat_dec("\n=== Traps for Process ", pid);
        title.append(" ===");
        push_line(&mut out, title);
        let ghost head = text(out@);
        let mut found = false;
        let mut i: usize = 0;
        while i < n
            invariant
                n == rs@.len(),
                rs@ == self@,
                i <= n,
                text(out@) == head + trap_pid_body(rs@, pid, i as int),
                found == (trap_pid_body(rs@, pid, i as int).len() > 0),
            decreases n - i,
        {
            let r = &rs[i];
            if r.interrupted_pid == pid {
                found = true;
                let mut l = String::from_str("  Global #");
                append_dec_left_aligned(&mut l, r.global_event_id, 4);
                l.append(" │ Local #");
                append_dec_left_aligned(&mut l, r.local_trap_id, 3);
                l.append(": ");
                l.append(r.trap_type.description());
                l.append(" at sepc=");
                append_hex(&mut l, r.interrupted_registers.sepc);
                push_line(&mut out, l);
            }
            i = i + 1;
            assert(text(out@) =~= head + trap_pid_body(rs@, pid, i as int));
        }
        if !found {
            push_line(&mut out, String::from_str("  No traps recorded for this process"));
        }
        assert(text(out@) =~= trap_pid_lines(self@, pid));
        out
    }

    /// How many traps took each branch class, and the total.
    pub fn print_branch_statistics(&self) -> (lines: Vec<String>)
        requires
            self.wf(),
        ensures
            text(lines@) == statistics_lines(self@),
    {
        let rs = &self.records;
        let n = rs.len();
        let mut timer_count: usize = 0;
        let mut syscall_count: usize = 0;
        let mut page_fault_count: usize = 0;
        let mut other_count: usize = 0;
        let mut i: usize = 0;
        while i < n
            invariant
                n == rs@.len(),
                n <= MAX_TRAP_RECORDS,
                i <= n,
                timer_count == count_class(rs@, 0, i as int),
                syscall_count == count_class(rs@, 1, i as int),
                page_fault_count == count_class(rs@, 2, i as int),
                other_count == count_class(rs@, 3, i as int),
            decreases n - i,
        {
            proof {
                lemma_branch_counts_sum(rs@, i as int);
            }
            match rs[i].trap_branch {
                TrapBranch::TimerInterrupt => timer_count = timer_count + 1,
                TrapBranch::UserEnvCall => syscall_count = syscall_count + 1,
                TrapBranch::InstructionPageFault | TrapBranch::LoadPageFault | TrapBranch::StorePageFault => {
                    page_fault_count = page_fault_count + 1
                },
                _ => other_count = other_count + 1,
            }
            i = i + 1;
        }
        let mut out: Vec<String> = Vec::new();
        push_line(&mut out, String::from_str("\n|----------------------------------------------------------------|"));
        push_line(&mut out, String::from_str("|                    TRAP BRANCH STATISTICS                        |"));
        push_line(&mut out, String::from_str("|----------------------------------------------------------------|"));
        push_line(&mut out, stat_line("|  Timer Interrupts:     ", timer_count, "                                   |"));
        push_line(&mut out, stat_line("|  System Calls:         ", syscall_count, "                                   |"));
        push_line(&mut out, stat_line("|  Page Faults:          ", page_fault_count, "                                   |"));
        push_line(&mut out, stat_line("|  Other:                ", other_count, "                                   |"));
        push_line(&mut out, stat_line("|  Total:                ", n, "                                   |"));
        push_line(&mut out, String::from_str("|----------------------------------------------------------------|\n"));
        assert(text(out@) =~= statistics_lines(self@));
        out
    }
}

/// A full history keeps the newest records: adding records one by one to a
/// history that holds the last `MAX_TRAP_RECORDS` of some sequence leaves it
/// holding the last `MAX_TRAP_RECORDS` of that sequence with the new record.
pub proof fn lemma_history_keeps_newest(kept: Seq<TrapRecord>, all: Seq<TrapRecord>, record: TrapRecord, next: Seq<TrapRecord>)
    requires
        kept == last_n(all, MAX_TRAP_RECORDS as nat),
        kept.len() < MAX_TRAP_RECORDS ==> next == kept.push(record),
        kept.len() == MAX_TRAP_RECORDS ==> next == kept.skip(1).push(record),
    ensures
        next == last_n(all.push(record), MAX_TRAP_RECORDS as nat),
        next.len() <= MAX_TRAP_RECORDS,
        next.last() == record,
{
    let m = MAX_TRAP_RECORDS as int;
    if all.len() < m {
        assert(next =~= all.push(record));
    } else if all.len() == m {
        assert(next =~= all.push(record).subrange(all.push(record).len() - m, all.push(record).len() as int));
    } else {
        assert(next =~= all.push(record).subrange(all.push(record).len() - m, all.push(record).len() as int));
    }
}

/// Records a trap in both the trap history and the unified history; the
/// result is the text that adding it to the trap history prints.
pub fn add_trap_record(history: &mut TrapHistory, unified: &mut UnifiedEventHistory, record: TrapRecord) -> (lines: Vec<String>)
    requires
        old(history).wf(),
    ensures
        final(history).wf(),
        final(history)@ == history_after(old(history)@, record),
        text(lines@) == add_lines(old(history)@, record),
        old(history)@.len() < MAX_TRAP_RECORDS ==> final(history)@ == old(history)@.push(record)
            && text(lines@) == trap_lines(record),
        old(history)@.len() == MAX_TRAP_RECORDS ==> final(history)@ == old(history)@.skip(1).push(record)
            && text(lines@) == trap_lines(record).push(overwrite_warning()),
        final(unified)@ == old(unified)@.push(UnifiedRecord::Trap(record)),
{
    let lines = history.add_record(record);
    add_trap_record_to_unified(unified, record);
    lines
}

/// The summary of the trap history.
pub fn print_trap_summary(history: &TrapHistory) -> (lines: Vec<String>)
    ensures
        text(lines@) == trap_summary_lines(history@),
{
    history.print_summary()
}

/// The traps of process `pid`.
pub fn print_traces_by_pid(history: &TrapHistory, pid: usize) -> (lines: Vec<String>)
    ensures
        text(lines@) == trap_pid_lines(history@, pid),
{
    history.print_by_pid(pid)
}

/// The branch statistics of the trap history.
pub fn print_branch_statistics(history: &TrapHistory) -> (lines: Vec<String>)
    requires
        history.wf(),
    ensures
        text(lines@) == statistics_lines(history@),
{
    history.print_branch_statistics()
}

/// The character codes that the console is sent for `s`, one per character.
pub open spec fn console_codes(s: Seq<char>) -> Seq<usize> {
    s.map_values(|c: char| c as usize)
}

/// The codes to send to the console, one character at a time, to print `s`.
pub fn direct_print(s: &str) -> (codes: Vec<usize>)
    ensures
        codes@ == console_codes(s@),
{
    let len = s.unicode_len();
    let mut codes: Vec<usize> = Vec::new();
    let mut i: usize = 0;
    while i < len
        invariant
            len == s@.len(),
            i <= len,
            codes@ == console_codes(s@.take(i as int)),
        decreases len - i,
    {
        let c = s.get_char(i);
        codes.push(c as usize);
        i = i + 1;
        assert(codes@ =~= console_codes(s@.take(i as int)));
    }
    assert(s@.take(len as int) =~= s@);
    codes
}

/// The codes to send to the console to print `s` and a line break.
pub fn direct_println(s: &str) -> (codes: Vec<usize>)
    ensures
        codes@ == console_codes(s@).push('\n' as usize),
{
    let mut codes = direct_print(s);
    codes.push('\n' as usize);
    codes
}

/// The number of the first `k` records that satisfy `p`.
pub open spec fn count_matching(rs: Seq<TrapRecord>, p: spec_fn(TrapRecord) -> bool, k: int) -> nat
    decreases k,
{
    if k <= 0 {
        0
    } else {
        count_matching(rs, p, k - 1) + if p(rs[k - 1]) {
            1nat
        } else {
            0nat
        }
    }
}

/// The branch statistics count, in order: the timer interrupts, the system
/// calls, the page faults (instruction, load or store) and every other
/// branch, each by the records' branches.
pub proof fn lemma_statistics_by_branch(rs: Seq<TrapRecord>, k: int)
    requires
        0 <= k <= rs.len(),
    ensures
        count_class(rs, 0, k) == count_matching(rs, |r: TrapRecord| r.trap_branch == TrapBranch::TimerInterrupt, k),
        count_class(rs, 1, k) == count_matching(rs, |r: TrapRecord| r.trap_branch == TrapBranch::UserEnvCall, k),
        count_class(rs, 2, k) == count_matching(
            rs,
            |r: TrapRecord|
                r.trap_branch == TrapBranch::InstructionPageFault || r.trap_branch == TrapBranch::LoadPageFault
                    || r.trap_branch == TrapBranch::StorePageFault,
            k,
        ),
        count_class(rs, 3, k) == count_matching(
            rs,
            |r: TrapRecord|
                r.trap_branch != TrapBranch::TimerInterrupt && r.trap_branch != TrapBranch::UserEnvCall
                    && r.trap_branch != TrapBranch::InstructionPageFault && r.trap_branch
                    != TrapBranch::LoadPageFault && r.trap_branch != TrapBranch::StorePageFault,
            k,
        ),
    decreases k,
{
    if k > 0 {
        lemma_statistics_by_branch(rs, k - 1);
    }
}

/// The statistics lines show those four counts and the total.
pub proof fn lemma_statistics_lines(rs: Seq<TrapRecord>)
    ensures
        statistics_lines(rs).len() == 9,
        statistics_lines(rs)[3] == "|  Timer Interrupts:     "@ + pad_left(
            dec(count_matching(rs, |r: TrapRecord| r.trap_branch == TrapBranch::TimerInterrupt, rs.len() as int)),
            6,
        ) + "                                   |"@,
        statistics_lines(rs)[4] == "|  System Calls:         "@ + pad_left(
            dec(count_matching(rs, |r: TrapRecord| r.trap_branch == TrapBranch::UserEnvCall, rs.len() as int)),
            6,
        ) + "                                   |"@,
        statistics_lines(rs)[5] == "|  Page Faults:          "@ + pad_left(
            dec(
                count_matching(
                    rs,
                    |r: TrapRecord|
                        r.trap_branch == TrapBranch::InstructionPageFault || r.trap_branch
                            == TrapBranch::LoadPageFault || r.trap_branch == TrapBranch::StorePageFault,
                    rs.len() as int,
                ),
            ),
            6,
        ) + "                                   |"@,
        statistics_lines(rs)[6] == "|  Other:                "@ + pad_left(
            dec(
                count_matching(
                    rs,
                    |r: TrapRecord|
                        r.trap_branch != TrapBranch::TimerInterrupt && r.trap_branch != TrapBranch::UserEnvCall
                            && r.trap_branch != TrapBranch::InstructionPageFault && r.trap_branch
                            != TrapBranch::LoadPageFault && r.trap_branch != TrapBranch::StorePageFault,
                    rs.len() as int,
                ),
            ),
            6,
        ) + "                                   |"@,
        statistics_lines(rs)[7] == "|  Total:                "@ + pad_left(dec(rs.len()), 6)
            + "                                   |"@,
{
    lemma_statistics_by_branch(rs, rs.len() as int);
}


/// A trap seen by the process it interrupted is the full trap text with its
/// first line replaced by the process's title; any other process sees nothing.
pub proof fn lemma_trap_view_by_pid(r: TrapRecord, pid: usize)
    ensures
        pid == r.interrupted_pid ==> trap_lines_by_pid(r, pid) == seq![
            "\n=== Process "@ + dec(pid as nat) + " TRAP/EXCEPTION History by pid==="@,
        ] + trap_lines(r).drop_first(),
        pid != r.interrupted_pid ==> trap_lines_by_pid(r, pid).len() == 0,
{
    assert(trap_lines(r).drop_first() =~= trap_body_lines(r));
}

/// Adding a record to a history of at most `MAX_TRAP_RECORDS` records keeps
/// the newest `MAX_TRAP_RECORDS` of the old records and the new one, in order.
pub proof fn lemma_history_after_keeps_newest(h: Seq<TrapRecord>, r: TrapRecord)
    requires
        h.len() <= MAX_TRAP_RECORDS,
    ensures
        history_after(h, r) == last_n(h.push(r), MAX_TRAP_RECORDS as nat),
{
    if h.len() == MAX_TRAP_RECORDS {
        assert(h.skip(1).push(r) =~= h.push(r).subrange(1, h.len() + 1int));
    }
}
} // verus!
