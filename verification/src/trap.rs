//! Trap handling decisions: the saved trap context, the decoding of the
//! trap cause, and what the kernel does for each kind of trap.
use vstd::prelude::*;
use riscv::register::scause::{Exception, Interrupt};
use crate::event::GlobalEventCounter;
use crate::fmt::{append_hex, cat, cat_hex, hex};
use crate::trap_log::{SyscallInfo, TrapBranch, TrapRecord};

verus! {

/// The user registers saved when a trap enters the kernel.
#[derive(Clone, Copy)]
pub struct TrapContext {
    /// General registers x0 to x31.
    pub x: [usize; 32],
    /// The supervisor status register, as its raw bits.
    pub sstatus: usize,
    /// The program counter to return to.
    pub sepc: usize,
}

/// The exceptions that the supervisor cause register names.
#[derive(Debug, Clone, Copy, PartialEq, Eq, Structural)]
pub enum ExceptionCause {
    InstructionMisaligned,
    InstructionFault,
    IllegalInstruction,
    Breakpoint,
    LoadFault,
    StoreMisaligned,
    StoreFault,
    UserEnvCall,
    InstructionPageFault,
    LoadPageFault,
    StorePageFault,
    Unknown,
}

/// The interrupts that the supervisor cause register names.
#[derive(Debug, Clone, Copy, PartialEq, Eq, Structural)]
pub enum InterruptCause {
    UserSoft,
    SupervisorSoft,
    UserTimer,
    SupervisorTimer,
    UserExternal,
    SupervisorExternal,
    Unknown,
}

/// The cause of a trap: an interrupt or an exception.
#[derive(Debug, Clone, Copy, PartialEq, Eq, Structural)]
pub enum TrapCause {
    Interrupt(InterruptCause),
    Exception(ExceptionCause),
}

/// The exception that an exception code names.
pub open spec fn exception_of_code(nr: usize) -> ExceptionCause {
    if nr == 0 {
        ExceptionCause::InstructionMisaligned
    } else if nr == 1 {
        ExceptionCause::InstructionFault
    } else if nr == 2 {
        ExceptionCause::IllegalInstruction
    } else if nr == 3 {
        ExceptionCause::Breakpoint
    } else if nr == 5 {
        ExceptionCause::LoadFault
    } else if nr == 6 {
        ExceptionCause::StoreMisaligned
    } else if nr == 7 {
        ExceptionCause::StoreFault
    } else if nr == 8 {
        ExceptionCause::UserEnvCall
    } else if nr == 12 {
        ExceptionCause::InstructionPageFault
    } else if nr == 13 {
        ExceptionCause::LoadPageFault
    } else if nr == 15 {
        ExceptionCause::StorePageFault
    } else {
        ExceptionCause::Unknown
    }
}

/// The interrupt that an interrupt code names.
pub open spec fn interrupt_of_code(nr: usize) -> InterruptCause {
    if nr == 0 {
        InterruptCause::UserSoft
    } else if nr == 1 {
        InterruptCause::SupervisorSoft
    } else if nr == 4 {
        InterruptCause::UserTimer
    } else if nr == 5 {
        InterruptCause::SupervisorTimer
    } else if nr == 8 {
        InterruptCause::UserExternal
    } else if nr == 9 {
        InterruptCause::SupervisorExternal
    } else {
        InterruptCause::Unknown
    }
}

/// The exception for an exception code.
///
/// Trusted: calls `riscv::register::scause::Exception::from`, whose source
/// maps codes 0, 1, 2, 3, 5, 6, 7, 8, 12, 13 and 15 to the exceptions of those
/// numbers and every other code to `Unknown`; the contract says the same.
#[verifier::external_body]
fn exception_from(nr: usize) -> (e: ExceptionCause)
    ensures
        e == exception_of_code(nr),
{
    match Exception::from(nr) {
        Exception::InstructionMisaligned => ExceptionCause::InstructionMisaligned,
        Exception::InstructionFault => ExceptionCause::InstructionFault,
        Exception::IllegalInstruction => ExceptionCause::IllegalInstruction,
        Exception::Breakpoint => ExceptionCause::Breakpoint,
        Exception::LoadFault => ExceptionCause::LoadFault,
        Exception::StoreMisaligned => ExceptionCause::StoreMisaligned,
        Exception::StoreFault => ExceptionCause::StoreFault,
        Exception::UserEnvCall => ExceptionCause::UserEnvCall,
        Exception::InstructionPageFault => ExceptionCause::InstructionPageFault,
        Exception::LoadPageFault => ExceptionCause::LoadPageFault,
        Exception::StorePageFault => ExceptionCause::StorePageFault,
        Exception::Unknown => ExceptionCause::Unknown,
    }
}

/// The interrupt for an interrupt code.
///
/// Trusted: calls `riscv::register::scause::Interrupt::from`, whose source
/// maps codes 0, 1, 4, 5, 8 and 9 to the interrupts of those numbers and every
/// other code to `Unknown`; the contract says the same.
#[verifier::external_body]
fn interrupt_from(nr: usize) -> (i: InterruptCause)
    ensures
        i == interrupt_of_code(nr),
{
    match Interrupt::from(nr) {
        Interrupt::UserSoft => InterruptCause::UserSoft,
        Interrupt::SupervisorSoft => InterruptCause::SupervisorSoft,
        Interrupt::UserTimer => InterruptCause::UserTimer,
        Interrupt::SupervisorTimer => InterruptCause::SupervisorTimer,
        Interrupt::UserExternal => InterruptCause::UserExternal,
        Interrupt::SupervisorExternal => InterruptCause::SupervisorExternal,
        Interrupt::Unknown => InterruptCause::Unknown,
    }
}

/// The cause that the raw bits of the cause register name: with the most
/// significant bit set, an interrupt whose code is the remaining bits; else an
/// exception whose code is the bits.
pub open spec fn cause_of_bits(bits: usize) -> TrapCause {
    if bits >= crate::trap_log::interrupt_bit() {
        TrapCause::Interrupt(interrupt_of_code((bits - crate::trap_log::interrupt_bit()) as usize))
    } else {
        TrapCause::Exception(exception_of_code(bits))
    }
}

/// The cause of a trap, from the raw bits of the cause register.
pub fn decode_scause(bits: usize) -> (c: TrapCause)
    ensures
        c == cause_of_bits(bits),
{
    let bit: usize = usize::MAX / 2 + 1;
    if bits >= bit {
        TrapCause::Interrupt(interrupt_from(bits - bit))
    } else {
        TrapCause::Exception(exception_from(bits))
    }
}

/// What the trap handler does for a trap.
#[derive(Debug, Clone, Copy)]
pub enum TrapAction {
    /// A system call: run it with this number and these arguments.
    Syscall { syscall_id: usize, args: [usize; 3] },
    /// A store fault: report it and kill the task.
    StoreFault,
    /// An illegal instruction: report it and kill the task.
    IllegalInstruction,
    /// The timer: re-arm it and switch to the next task.
    Timer,
    /// Any other exception: report it and stop the kernel.
    UnhandledException(ExceptionCause),
    /// Any other interrupt: stop the kernel.
    Unsupported(TrapCause),
}

/// The action for a trap with cause `cause`, given the saved registers `x`.
pub open spec fn action_of(cause: TrapCause, x: [usize; 32]) -> TrapAction {
    match cause {
        TrapCause::Exception(ExceptionCause::UserEnvCall) => TrapAction::Syscall {
            syscall_id: x[17],
            args: [x[10], x[11], x[12]],
        },
        TrapCause::Exception(ExceptionCause::StoreFault) => TrapAction::StoreFault,
        TrapCause::Exception(ExceptionCause::StorePageFault) => TrapAction::StoreFault,
        TrapCause::Exception(ExceptionCause::IllegalInstruction) => TrapAction::IllegalInstruction,
        TrapCause::Interrupt(InterruptCause::SupervisorTimer) => TrapAction::Timer,
        TrapCause::Exception(e) => TrapAction::UnhandledException(e),
        TrapCause::Interrupt(_) => TrapAction::Unsupported(cause),
    }
}

/// The branch that the trap record of an action carries (none for an
/// unsupported trap, which is not recorded).
pub open spec fn action_branch(a: TrapAction) -> Option<TrapBranch> {
    match a {
        TrapAction::Syscall { .. } => Some(TrapBranch::UserEnvCall),
        TrapAction::StoreFault => Some(TrapBranch::InstructionPageFault),
        TrapAction::IllegalInstruction => Some(TrapBranch::IllegalInstruction),
        TrapAction::Timer => Some(TrapBranch::TimerInterrupt),
        TrapAction::UnhandledException(_) => Some(TrapBranch::OtherException),
        TrapAction::Unsupported(_) => None,
    }
}

/// Decides what to do for a trap with cause `cause`. For a system call, the
/// return address moves past the calling instruction (4 bytes); nothing else
/// in the context changes.
pub fn trap_handler(cause: TrapCause, cx: &mut TrapContext) -> (a: TrapAction)
    requires
        cause == TrapCause::Exception(ExceptionCause::UserEnvCall) ==> old(cx).sepc + 4 <= usize::MAX,
    ensures
        a == action_of(cause, old(cx).x),
        cause == TrapCause::Exception(ExceptionCause::UserEnvCall) ==> *final(cx) == (TrapContext {
            sepc: (old(cx).sepc + 4) as usize,
            ..*old(cx)
        }),
        cause != TrapCause::Exception(ExceptionCause::UserEnvCall) ==> *final(cx) == *old(cx),
{
    match cause {
        TrapCause::Exception(ExceptionCause::UserEnvCall) => {
            let syscall_id = cx.x[17];
            let args = [cx.x[10], cx.x[11], cx.x[12]];
            cx.sepc = cx.sepc + 4;
            TrapAction::Syscall { syscall_id, args }
        },
        TrapCause::Exception(ExceptionCause::StoreFault) => TrapAction::StoreFault,
        TrapCause::Exception(ExceptionCause::StorePageFault) => TrapAction::StoreFault,
        TrapCause::Exception(ExceptionCause::IllegalInstruction) => TrapAction::IllegalInstruction,
        TrapCause::Interrupt(InterruptCause::SupervisorTimer) => TrapAction::Timer,
        TrapCause::Exception(e) => TrapAction::UnhandledException(e),
        TrapCause::Interrupt(_) => TrapAction::Unsupported(cause),
    }
}

impl TrapAction {
    /// The branch that this action's trap record carries, if it is recorded.
    pub fn branch(&self) -> (b: Option<TrapBranch>)
        ensures
            b == action_branch(*self),
    {
        match self {
            TrapAction::Syscall { .. } => Some(TrapBranch::UserEnvCall),
            TrapAction::StoreFault => Some(TrapBranch::InstructionPageFault),
            TrapAction::IllegalInstruction => Some(TrapBranch::IllegalInstruction),
            TrapAction::Timer => Some(TrapBranch::TimerInterrupt),
            TrapAction::UnhandledException(_) => Some(TrapBranch::OtherException),
            TrapAction::Unsupported(_) => None,
        }
    }
}

/// Stores a system call's result in the return-value register a0.
pub fn finish_syscall(cx: &mut TrapContext, result: isize)
    ensures
        final(cx).x@ == old(cx).x@.update(10, result as usize),
        final(cx).sstatus == old(cx).sstatus,
        final(cx).sepc == old(cx).sepc,
{
    cx.x[10] = result as usize;
}

/// How `{:?}` writes an exception: the variant's name.
pub open spec fn exception_name(e: ExceptionCause) -> Seq<char> {
    match e {
        ExceptionCause::InstructionMisaligned => "InstructionMisaligned"@,
        ExceptionCause::InstructionFault => "InstructionFault"@,
        ExceptionCause::IllegalInstruction => "IllegalInstruction"@,
        ExceptionCause::Breakpoint => "Breakpoint"@,
        ExceptionCause::LoadFault => "LoadFault"@,
        ExceptionCause::StoreMisaligned => "StoreMisaligned"@,
        ExceptionCause::StoreFault => "StoreFault"@,
        ExceptionCause::UserEnvCall => "UserEnvCall"@,
        ExceptionCause::InstructionPageFault => "InstructionPageFault"@,
        ExceptionCause::LoadPageFault => "LoadPageFault"@,
        ExceptionCause::StorePageFault => "StorePageFault"@,
        ExceptionCause::Unknown => "Unknown"@,
    }
}

impl ExceptionCause {
    /// The name of this exception, as `{:?}` writes it.
    pub fn debug_name(&self) -> (d: &'static str)
        ensures
            d@ == exception_name(*self),
    {
        match self {
            ExceptionCause::InstructionMisaligned => "InstructionMisaligned",
            ExceptionCause::InstructionFault => "InstructionFault",
            ExceptionCause::IllegalInstruction => "IllegalInstruction",
            ExceptionCause::Breakpoint => "Breakpoint",
            ExceptionCause::LoadFault => "LoadFault",
            ExceptionCause::StoreMisaligned => "StoreMisaligned",
            ExceptionCause::StoreFault => "StoreFault",
            ExceptionCause::UserEnvCall => "UserEnvCall",
            ExceptionCause::InstructionPageFault => "InstructionPageFault",
            ExceptionCause::LoadPageFault => "LoadPageFault",
            ExceptionCause::StorePageFault => "StorePageFault",
            ExceptionCause::Unknown => "Unknown",
        }
    }
}

/// The line the kernel prints for an action, given the trap value and the
/// faulting address: faults are reported with the addresses, an unhandled
/// exception with its name; the other actions print nothing here.
pub open spec fn report_line(a: TrapAction, stval: usize, sepc: usize) -> Option<Seq<char>> {
    match a {
        TrapAction::StoreFault => Some(
            "[kernel] PageFault in application, bad addr = "@ + hex(stval as nat) + ", bad instruction = "@
                + hex(sepc as nat) + ", kernel killed it."@,
        ),
        TrapAction::IllegalInstruction => Some("[kernel] IllegalInstruction in application, kernel killed it."@),
        TrapAction::UnhandledException(e) => Some(
            "[kernel] Unhandled Exception "@ + exception_name(e) + " at "@ + hex(sepc as nat),
        ),
        _ => None,
    }
}

impl TrapAction {
    /// The line the kernel prints for this action (see `report_line`).
    pub fn report(&self, stval: usize, sepc: usize) -> (line: Option<String>)
        ensures
            match line {
                Some(l) => report_line(*self, stval, sepc) == Some(l@),
                None => report_line(*self, stval, sepc).is_none(),
            },
    {
        match self {
            TrapAction::StoreFault => {
                let mut l = cat_hex("[kernel] PageFault in application, bad addr = ", stval);
                l.append(", bad instruction = ");
                append_hex(&mut l, sepc);
                l.append(", kernel killed it.");
                Some(l)
            },
            TrapAction::IllegalInstruction => Some(
                String::from_str("[kernel] IllegalInstruction in application, kernel killed it."),
            ),
            TrapAction::UnhandledException(e) => {
                let mut l = cat("[kernel] Unhandled Exception ", e.debug_name());
                l.append(" at ");
                append_hex(&mut l, sepc);
                Some(l)
            },
            _ => None,
        }
    }
}

/// The trap record of a finished system call: a `UserEnvCall` record whose
/// system call details are `syscall_id`, `args` and `result`.
pub fn record_syscall_info(
    global: &mut GlobalEventCounter,
    local_counter: &mut usize,
    trap_cx: &TrapContext,
    pid: usize,
    tcb_addr: usize,
    context_addr: usize,
    kernel_sp: usize,
    scause: usize,
    stval: usize,
    syscall_id: usize,
    args: [usize; 3],
    result: isize,
) -> (r: TrapRecord)
    requires
        *old(local_counter) < usize::MAX,
        old(global)@ < usize::MAX,
    ensures
        *final(local_counter) == *old(local_counter) + 1,
        final(global)@ == old(global)@ + 1,
        r == crate::trap_log::trap_record_of(
            final(global)@ as usize,
            *final(local_counter),
            *trap_cx,
            pid,
            tcb_addr,
            context_addr,
            kernel_sp,
            scause,
            stval,
            TrapBranch::UserEnvCall,
            Some(SyscallInfo { syscall_id, args, result }),
        ),
        r.global_event_id == final(global)@,
        r.local_trap_id == *final(local_counter),
        r.trap_type == crate::trap_log::trap_type_of(scause),
        r.trap_branch == TrapBranch::UserEnvCall,
        r.interrupted_pid == pid,
        r.interrupted_tcb_addr == tcb_addr,
        r.interrupted_context_addr == context_addr,
        r.interrupted_registers.x[0] == 0,
        forall|i: int| 1 <= i < 32 ==> r.interrupted_registers.x[i] == trap_cx.x[i],
        r.interrupted_registers.sepc == trap_cx.sepc,
        r.interrupted_registers.sstatus == trap_cx.sstatus,
        r.interrupted_registers.scause == scause,
        r.interrupted_registers.stval == stval,
        r.kernel_stack_top == kernel_sp,
        r.user_stack_top == 0,
        r.scause == scause,
        r.stval == stval,
        r.syscall_info == Some(SyscallInfo { syscall_id, args, result }),
{
    let syscall_info = SyscallInfo::new(syscall_id, args, result);
    TrapRecord::new(
        global,
        local_counter,
        trap_cx,
        pid,
        tcb_addr,
        context_addr,
        kernel_sp,
        scause,
        stval,
        TrapBranch::UserEnvCall,
        Some(syscall_info),
    )
}

} // verus!
