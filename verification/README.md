# rcore_trace

Process-switch and trap tracing for a small RISC-V teaching kernel, verified
with Verus.

- `src/` is the verified library:
  - `event`: the global event counter and the event summary record;
  - `task`: task control blocks and the round-robin task manager;
  - `switch_log`: switch records, the switch history and their text;
  - `trap`: the trap context, the decoding of the cause register and the
    trap handler's decisions;
  - `trap_log`: trap records, the bounded trap history, branch statistics
    and their text;
  - `event_log`: the unified history in chronological order;
  - `kernel`: the trace state and the kernel's steps (first task, next
    task, system call, other traps, final report), each stating which
    records it appends to which history and in what order;
  - `fmt`: decimal, hexadecimal and column formatting over `Seq<char>`.
  Every listing is returned as lines whose exact text the contracts state.
- `app/` is the kernel around it: boot, the global state, the assembly task
  switch, the CSR accesses, the system calls and the console.
- `tests/` runs the library on concrete values.
