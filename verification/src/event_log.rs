//! The unified event history: switch and trap records in one list, shown in
//! chronological order (by global event id), by process, or as a summary.
use vstd::prelude::*;
use crate::event::EventType;
use crate::fmt::{
    append_dec, append_dec_left_aligned, append_lines, append_padded_right, cat_dec, dec, pad_right,
    push_line, take_bytes, text, truncate_bytes,
};
use crate::switch_log::{switch_lines, switch_lines_by_pid, SwitchRecord};
use crate::trap_log::{branch_name, trap_lines, trap_lines_by_pid, SyscallInfo, TrapBranch, TrapRecord};

verus! {

/// A traced event of either kind, with its data.
#[derive(Clone, Copy)]
pub enum UnifiedRecord {
    Switch(SwitchRecord),
    Trap(TrapRecord),
}

/// The global event id of an event.
pub open spec fn event_id_of(e: UnifiedRecord) -> usize {
    match e {
        UnifiedRecord::Switch(r) => r.global_event_id,
        UnifiedRecord::Trap(r) => r.global_event_id,
    }
}

/// The full text of an event.
pub open spec fn record_lines(e: UnifiedRecord) -> Seq<Seq<char>> {
    match e {
        UnifiedRecord::Switch(r) => switch_lines(r),
        UnifiedRecord::Trap(r) => trap_lines(r),
    }
}

/// The text of an event as seen by process `pid`.
pub open spec fn record_lines_by_pid(e: UnifiedRecord, pid: usize) -> Seq<Seq<char>> {
    match e {
        UnifiedRecord::Switch(r) => switch_lines_by_pid(r, pid),
        UnifiedRecord::Trap(r) => trap_lines_by_pid(r, pid),
    }
}

impl UnifiedRecord {
    /// The global event id of this event.
    pub fn event_id(&self) -> (id: usize)
        ensures
            id == event_id_of(*self),
    {
        match self {
            UnifiedRecord::Switch(r) => r.global_event_id,
            UnifiedRecord::Trap(r) => r.global_event_id,
        }
    }

    /// The kind of this event.
    pub fn event_type(&self) -> (t: EventType)
        ensures
            t == (match *self {
                UnifiedRecord::Switch(_) => EventType::ProcessSwitch,
                UnifiedRecord::Trap(_) => EventType::Trap,
            }),
    {
        match self {
            UnifiedRecord::Switch(_) => EventType::ProcessSwitch,
            UnifiedRecord::Trap(_) => EventType::Trap,
        }
    }

    /// The full text of this event.
    pub fn display(&self) -> (lines: Vec<String>)
        ensures
            text(lines@) == record_lines(*self),
    {
        match self {
            UnifiedRecord::Switch(r) => r.display(),
            UnifiedRecord::Trap(r) => r.display(),
        }
    }

    /// The text of this event as seen by process `pid`.
    pub fn display_by_pid(&self, pid: usize) -> (lines: Vec<String>)
        ensures
            text(lines@) == record_lines_by_pid(*self, pid),
    {
        match self {
            UnifiedRecord::Switch(r) => r.display_by_pid(pid),
            UnifiedRecord::Trap(r) => r.display_by_pid(pid),
        }
    }
}

/// `s` (ordered by event id) with `e` inserted after every event whose id is
/// not greater than `e`'s.
pub open spec fn insert_by_id(s: Seq<UnifiedRecord>, e: UnifiedRecord) -> Seq<UnifiedRecord>
    decreases s.len(),
{
    if s.len() == 0 {
        seq![e]
    } else if event_id_of(s.last()) <= event_id_of(e) {
        s.push(e)
    } else {
        insert_by_id(s.drop_last(), e).push(s.last())
    }
}

/// `s` stably sorted by event id: events with equal ids keep their order.
pub open spec fn sort_by_id(s: Seq<UnifiedRecord>) -> Seq<UnifiedRecord>
    decreases s.len(),
{
    if s.len() == 0 {
        Seq::empty()
    } else {
        insert_by_id(sort_by_id(s.drop_last()), s.last())
    }
}

/// Whether the events of `s` come in non-decreasing order of event id.
pub open spec fn sorted_by_id(s: Seq<UnifiedRecord>) -> bool {
    forall|i: int, j: int| 0 <= i <= j < s.len() ==> event_id_of(s[i]) <= event_id_of(s[j])
}

proof fn lemma_insert_bounded(s: Seq<UnifiedRecord>, e: UnifiedRecord, b: int)
    requires
        forall|i: int| 0 <= i < s.len() ==> event_id_of(s[i]) <= b,
        event_id_of(e) <= b,
    ensures
        insert_by_id(s, e).len() == s.len() + 1,
        forall|i: int| 0 <= i < insert_by_id(s, e).len() ==> event_id_of(insert_by_id(s, e)[i]) <= b,
    decreases s.len(),
{
    if s.len() > 0 && event_id_of(s.last()) > event_id_of(e) {
        lemma_insert_bounded(s.drop_last(), e, b);
    }
}

proof fn lemma_insert_sorted(s: Seq<UnifiedRecord>, e: UnifiedRecord)
    requires
        sorted_by_id(s),
    ensures
        sorted_by_id(insert_by_id(s, e)),
        insert_by_id(s, e).to_multiset() =~= s.to_multiset().insert(e),
        insert_by_id(s, e).len() == s.len() + 1,
    decreases s.len(),
{
    broadcast use vstd::seq_lib::group_to_multiset_ensures;

    if s.len() == 0 {
        assert(seq![e] =~= Seq::<UnifiedRecord>::empty().push(e));
    } else if event_id_of(s.last()) <= event_id_of(e) {
    } else {
        let d = s.drop_last();
        lemma_insert_sorted(d, e);
        lemma_insert_bounded(d, e, event_id_of(s.last()) as int);
        assert(s =~= d.push(s.last()));
    }
}

/// Sorting gives the events in non-decreasing order of event id, and the
/// same events as before (the same multiset).
pub proof fn lemma_sort_by_id_sorted_permutation(s: Seq<UnifiedRecord>)
    ensures
        sorted_by_id(sort_by_id(s)),
        sort_by_id(s).to_multiset() =~= s.to_multiset(),
        sort_by_id(s).len() == s.len(),
    decreases s.len(),
{
    broadcast use vstd::seq_lib::group_to_multiset_ensures;

    if s.len() > 0 {
        lemma_sort_by_id_sorted_permutation(s.drop_last());
        lemma_insert_sorted(sort_by_id(s.drop_last()), s.last());
        assert(s =~= s.drop_last().push(s.last()));
    }
}

/// The events of `s` whose event id is `k`, in their order in `s`.
pub open spec fn with_id(s: Seq<UnifiedRecord>, k: usize) -> Seq<UnifiedRecord>
    decreases s.len(),
{
    if s.len() == 0 {
        Seq::empty()
    } else if event_id_of(s.last()) == k {
        with_id(s.drop_last(), k).push(s.last())
    } else {
        with_id(s.drop_last(), k)
    }
}

proof fn lemma_with_id_insert(t: Seq<UnifiedRecord>, e: UnifiedRecord, k: usize)
    requires
        sorted_by_id(t),
    ensures
        with_id(insert_by_id(t, e), k) == (if event_id_of(e) == k {
            with_id(t, k).push(e)
        } else {
            with_id(t, k)
        }),
    decreases t.len(),
{
    if t.len() == 0 {
        assert(seq![e].drop_last() =~= t);
        assert(seq![e].last() == e);
    } else if event_id_of(t.last()) <= event_id_of(e) {
        assert(t.push(e).drop_last() =~= t);
    } else {
        let d = t.drop_last();
        lemma_with_id_insert(d, e, k);
        assert(insert_by_id(d, e).push(t.last()).drop_last() =~= insert_by_id(d, e));
    }
}

/// Sorting is stable: the events that share an event id come out in the
/// order they came in.
pub proof fn lemma_sort_by_id_stable(s: Seq<UnifiedRecord>, k: usize)
    ensures
        with_id(sort_by_id(s), k) == with_id(s, k),
    decreases s.len(),
{
    if s.len() > 0 {
        lemma_sort_by_id_stable(s.drop_last(), k);
        lemma_sort_by_id_sorted_permutation(s.drop_last());
        lemma_with_id_insert(sort_by_id(s.drop_last()), s.last(), k);
    }
}

fn insert_by_event_id(v: &mut Vec<UnifiedRecord>, e: UnifiedRecord)
    ensures
        final(v)@ == insert_by_id(old(v)@, e),
    decreases old(v)@.len(),
{
    let n = v.len();
    if n == 0 {
        v.push(e);
    } else if v[n - 1].event_id() <= e.event_id() {
        v.push(e);
    } else {
        let last = v.pop().unwrap();
        insert_by_event_id(v, e);
        v.push(last);
    }
}

/// The events of `s` stably sorted by event id.
pub fn sort_by_event_id(s: &Vec<UnifiedRecord>) -> (sorted: Vec<UnifiedRecord>)
    ensures
        sorted@ == sort_by_id(s@),
{
    let mut out: Vec<UnifiedRecord> = Vec::new();
    let mut i: usize = 0;
    while i < s.len()
        invariant
            i <= s@.len(),
            out@ == sort_by_id(s@.take(i as int)),
        decreases s@.len() - i,
    {
        insert_by_event_id(&mut out, s[i]);
        assert(s@.take(i + 1).drop_last() =~= s@.take(i as int));
        i = i + 1;
    }
    assert(s@.take(s@.len() as int) =~= s@);
    out
}

/// The unified history: every traced event, in the order it was added.
pub struct UnifiedEventHistory {
    events: Vec<UnifiedRecord>,
}

impl UnifiedEventHistory {
    /// The events, in the order they were added.
    pub closed spec fn view(&self) -> Seq<UnifiedRecord> {
        self.events@
    }

    /// An empty history.
    pub fn new() -> (h: Self)
        ensures
            h@ == Seq::<UnifiedRecord>::empty(),
    {
        UnifiedEventHistory { events: Vec::new() }
    }

    /// Appends a switch record.
    pub fn add_switch_record(&mut self, record: SwitchRecord)
        ensures
            final(self)@ == old(self)@.push(UnifiedRecord::Switch(record)),
    {
        self.events.push(UnifiedRecord::Switch(record));
    }

    /// Appends a trap record.
    pub fn add_trap_record(&mut self, record: TrapRecord)
        ensures
            final(self)@ == old(self)@.push(UnifiedRecord::Trap(record)),
    {
        self.events.push(UnifiedRecord::Trap(record));
    }

    /// The events, in the order they were added.
    pub fn events(&self) -> (e: &Vec<UnifiedRecord>)
        ensures
            e@ == self@,
    {
        &self.events
    }
}

/// The full text of the first `k` events of `s`, one after the other.
pub open spec fn records_text(s: Seq<UnifiedRecord>, k: int) -> Seq<Seq<char>>
    decreases k,
{
    if k <= 0 {
        Seq::empty()
    } else {
        records_text(s, k - 1) + record_lines(s[k - 1])
    }
}

/// The text of the first `k` events of `s` as seen by process `pid`.
pub open spec fn records_text_by_pid(s: Seq<UnifiedRecord>, pid: usize, k: int) -> Seq<Seq<char>>
    decreases k,
{
    if k <= 0 {
        Seq::empty()
    } else {
        records_text_by_pid(s, pid, k - 1) + record_lines_by_pid(s[k - 1], pid)
    }
}

/// The chronological listing: a header with the number of events, then every
/// event in order of event id.
pub open spec fn chronological_lines(s: Seq<UnifiedRecord>) -> Seq<Seq<char>> {
    seq![
        "\n|---------------------------------------------------------------------------|"@,
        "|                  UNIFIED EVENT HISTORY (Chronological Order)             |"@,
        "|---------------------------------------------------------------------------|"@,
        "|  Total Events: "@ + dec(s.len()) + "                                                         |"@,
        "|---------------------------------------------------------------------------|"@,
    ] + records_text(sort_by_id(s), s.len() as int)
}

/// The events in the order they were added, each as seen by process `pid`,
/// between a start line and an end line.
pub open spec fn history_by_pid_lines(s: Seq<UnifiedRecord>, pid: usize) -> Seq<Seq<char>> {
    seq!["\n=== Process "@ + dec(pid as nat) + " Switch TRAP/EXCEPTION History by pid===Start"@] + records_text_by_pid(s, pid, s.len() as int)
        + seq!["\n=== Process "@ + dec(pid as nat) + " Switch TRAP/EXCEPTION History by pid===End"@]
}

/// The kind column of the summary.
pub open spec fn summary_type(e: UnifiedRecord) -> Seq<char> {
    match e {
        UnifiedRecord::Switch(_) => "Switch"@,
        UnifiedRecord::Trap(_) => "Trap"@,
    }
}

/// The process column of the summary: the process switched out, or the
/// interrupted process.
pub open spec fn summary_pid(e: UnifiedRecord) -> usize {
    match e {
        UnifiedRecord::Switch(r) => r.old_pid,
        UnifiedRecord::Trap(r) => r.interrupted_pid,
    }
}

/// The description column of the summary, before it is cut to 50 bytes.
pub open spec fn summary_desc(e: UnifiedRecord) -> Seq<char> {
    match e {
        UnifiedRecord::Switch(r) => "Switch: "@ + dec(r.old_pid as nat) + " → "@ + dec(r.new_pid as nat),
        UnifiedRecord::Trap(r) => match r.trap_branch {
            TrapBranch::TimerInterrupt => "Timer Interrupt (Task "@ + dec(r.interrupted_pid as nat) + ")"@,
            TrapBranch::UserEnvCall => match r.syscall_info {
                Some(s) => "Syscall: id="@ + dec(s.syscall_id as nat),
                None => "System Call"@,
            },
            _ => branch_name(r.trap_branch),
        },
    }
}

/// The summary line of an event.
pub open spec fn event_summary_line(e: UnifiedRecord) -> Seq<char> {
    "|  "@ + pad_right(dec(event_id_of(e) as nat), 3) + " │ "@ + pad_right(summary_type(e), 16) + " │ "@
        + pad_right(dec(summary_pid(e) as nat), 4) + " │ "@ + pad_right(take_bytes(summary_desc(e), 50), 50)
        + " |"@
}

/// The summary lines of the first `k` events of `s`.
pub open spec fn event_summary_body(s: Seq<UnifiedRecord>, k: int) -> Seq<Seq<char>>
    decreases k,
{
    if k <= 0 {
        Seq::empty()
    } else {
        event_summary_body(s, k - 1).push(event_summary_line(s[k - 1]))
    }
}

/// The summary table: one line per event in order of event id.
pub open spec fn event_summary_lines(s: Seq<UnifiedRecord>) -> Seq<Seq<char>> {
    seq![
        "\n|---------------------------------------------------------------------------|"@,
        "|                       EVENT SUMMARY (Chronological Order)                 |"@,
        "|---------------------------------------------------------------------------|"@,
        "|  #   │ Type              │ PID  │ Description                             |"@,
        "|---------------------------------------------------------------------------|"@,
    ] + event_summary_body(sort_by_id(s), s.len() as int) + seq!["|---------------------------------------------------------------------------|\n"@]
}

/// Whether an event concerns process `pid`: a switch out of or into it, or
/// a trap that interrupted it.
pub open spec fn involves(e: UnifiedRecord, pid: usize) -> bool {
    match e {
        UnifiedRecord::Switch(r) => r.old_pid == pid || r.new_pid == pid,
        UnifiedRecord::Trap(r) => r.interrupted_pid == pid,
    }
}

/// The events among the first `k` of `s` that concern process `pid`, in order.
pub open spec fn events_of(s: Seq<UnifiedRecord>, pid: usize, k: int) -> Seq<UnifiedRecord>
    decreases k,
{
    if k <= 0 {
        Seq::empty()
    } else if involves(s[k - 1], pid) {
        events_of(s, pid, k - 1).push(s[k - 1])
    } else {
        events_of(s, pid, k - 1)
    }
}

/// The events of process `pid` in order of event id, in full, with a header and footer.
pub open spec fn events_by_pid_lines(s: Seq<UnifiedRecord>, pid: usize) -> Seq<Seq<char>> {
    let mine = sort_by_id(events_of(s, pid, s.len() as int));
    seq![
        "\n|---------------------------------------------------------------------------|"@,
        "|               EVENTS FOR PROCESS "@ + dec(pid as nat) + " (Chronological Order)                 |"@,
        "|---------------------------------------------------------------------------|"@,
    ] + records_text(mine, mine.len() as int) + seq!["|---------------------------------------------------------------------------|\n"@]
}

/// Exactly the events that concern `pid` are kept, each as often as it occurs.
pub proof fn lemma_events_of_exact(s: Seq<UnifiedRecord>, pid: usize, k: int)
    requires
        0 <= k <= s.len(),
    ensures
        forall|i: int| 0 <= i < events_of(s, pid, k).len() ==> involves(#[trigger] events_of(s, pid, k)[i], pid),
        forall|e: UnifiedRecord| involves(e, pid) ==> events_of(s, pid, k).to_multiset().count(e)
            == s.take(k).to_multiset().count(e),
        forall|e: UnifiedRecord| !involves(e, pid) ==> events_of(s, pid, k).to_multiset().count(e) == 0,
    decreases k,
{
    broadcast use vstd::seq_lib::group_to_multiset_ensures;

    if k > 0 {
        lemma_events_of_exact(s, pid, k - 1);
        assert(s.take(k) =~= s.take(k - 1).push(s[k - 1]));
    } else {
        assert(s.take(0) =~= Seq::<UnifiedRecord>::empty());
    }
}

fn records_display(s: &Vec<UnifiedRecord>, out: &mut Vec<String>)
    ensures
        text(final(out)@) == text(old(out)@) + records_text(s@, s@.len() as int),
{
    let mut i: usize = 0;
    while i < s.len()
        invariant
            i <= s@.len(),
            text(out@) == text(old(out)@) + records_text(s@, i as int),
        decreases s@.len() - i,
    {
        append_lines(out, s[i].display());
        i = i + 1;
        assert(text(out@) =~= text(old(out)@) + records_text(s@, i as int));
    }
}

impl UnifiedRecord {
    fn summary_line(&self) -> (line: String)
        ensures
            line@ == event_summary_line(*self),
    {
        let mut desc = String::new();
        let mut l = String::from_str("|  ");
        append_dec_left_aligned(&mut l, self.event_id(), 3);
        l.append(" │ ");
        match self {
            UnifiedRecord::Switch(r) => {
                desc.append("Switch: ");
                append_dec(&mut desc, r.old_pid);
                desc.append(" → ");
                append_dec(&mut desc, r.new_pid);
                append_padded_right(&mut l, "Switch", 16);
                l.append(" │ ");
                append_dec_left_aligned(&mut l, r.old_pid, 4);
            },
            UnifiedRecord::Trap(r) => {
                match r.trap_branch {
                    TrapBranch::TimerInterrupt => {
                        desc.append("Timer Interrupt (Task ");
                        append_dec(&mut desc, r.interrupted_pid);
                        desc.append(")");
                    },
                    TrapBranch::UserEnvCall => {
                        match r.syscall_info {
                            Some(s) => {
                                desc.append("Syscall: id=");
                                append_dec(&mut desc, s.syscall_id);
                            },
                            None => {
                                desc.append("System Call");
                            },
                        }
                    },
                    _ => {
                        desc.append(r.trap_branch.debug_name());
                    },
                }
                append_padded_right(&mut l, "Trap", 16);
                l.append(" │ ");
                append_dec_left_aligned(&mut l, r.interrupted_pid, 4);
            },
        }
        assert(desc@ =~= summary_desc(*self));
        l.append(" │ ");
        let cut = truncate_bytes(desc.as_str(), 50);
        append_padded_right(&mut l, cut.as_str(), 50);
        l.append(" |");
        l
    }
}

impl UnifiedEventHistory {
    /// Every event in order of event id, after a header with the count.
    pub fn print_chronological(&self) -> (lines: Vec<String>)
        ensures
            text(lines@) == chronological_lines(self@),
    {
        let sorted = sort_by_event_id(&self.events);
        proof {
            lemma_sort_by_id_sorted_permutation(self@);
        }
        let mut out: Vec<String> = Vec::new();
        push_line(&mut out, String::from_str("\n|---------------------------------------------------------------------------|"));
        push_line(&mut out, String::from_str("|                  UNIFIED EVENT HISTORY (Chronological Order)             |"));
        push_line(&mut out, String::from_str("|---------------------------------------------------------------------------|"));
        let mut total = cat_dec("|  Total Events: ", sorted.len());
        total.append("                                                         |");
        push_line(&mut out, total);
        push_line(&mut out, String::from_str("|---------------------------------------------------------------------------|"));
        records_display(&sorted, &mut out);
        assert(text(out@) =~= chronological_lines(self@));
        out
    }

    /// Every event in the order added, as seen by process `pid`, between a
    /// start line and an end line.
    pub fn display_by_pid(&self, pid: usize) -> (lines: Vec<String>)
        ensures
            text(lines@) == history_by_pid_lines(self@, pid),
    {
        let s = &self.events;
        let mut out: Vec<String> = Vec::new();
        let mut title = cat_dec("\n=== Process ", pid);
        title.append(" Switch TRAP/EXCEPTION History by pid===Start");
        push_line(&mut out, title);
        let ghost head = text(out@);
        let mut i: usize = 0;
        while i < s.len()
            invariant
                s@ == self@,
                i <= s@.len(),
                text(out@) == head + records_text_by_pid(s@, pid, i as int),
            decreases s@.len() - i,
        {
            append_lines(&mut out, s[i].display_by_pid(pid));
            i = i + 1;
            assert(text(out@) =~= head + records_text_by_pid(s@, pid, i as int));
        }
        let mut end = cat_dec("\n=== Process ", pid);
        end.append(" Switch TRAP/EXCEPTION History by pid===End");
        push_line(&mut out, end);
        assert(text(out@) =~= history_by_pid_lines(self@, pid));
        out
    }

    /// One line per event in order of event id: id, kind, process and a
    /// short description cut to 50 bytes.
    pub fn print_summary(&self) -> (lines: Vec<String>)
        ensures
            text(lines@) == event_summary_lines(self@),
    {
        let sorted = sort_by_event_id(&self.events);
        proof {
            lemma_sort_by_id_sorted_permutation(self@);
        }
        let mut out: Vec<String> = Vec::new();
        push_line(&mut out, String::from_str("\n|---------------------------------------------------------------------------|"));
        push_line(&mut out, String::from_str("|                       EVENT SUMMARY (Chronological Order)                 |"));
        push_line(&mut out, String::from_str("|---------------------------------------------------------------------------|"));
        push_line(&mut out, String::from_str("|  #   │ Type              │ PID  │ Description                             |"));
        push_line(&mut out, String::from_str("|---------------------------------------------------------------------------|"));
        let ghost head = text(out@);
        let mut i: usize = 0;
        while i < sorted.len()
            invariant
                i <= sorted@.len(),
                text(out@) == head + event_summary_body(sorted@, i as int),
            decreases sorted@.len() - i,
        {
            push_line(&mut out, sorted[i].summary_line());
            i = i + 1;
            assert(text(out@) =~= head + event_summary_body(sorted@, i as int));
        }
        push_line(&mut out, String::from_str("|---------------------------------------------------------------------------|\n"));
        assert(text(out@) =~= event_summary_lines(self@));
        out
    }

    /// The events of process `pid` in order of event id, in full.
    pub fn print_by_pid(&self, target_pid: usize) -> (lines: Vec<String>)
        ensures
            text(lines@) == events_by_pid_lines(self@, target_pid),
    {
        let s = &self.events;
        let mut mine: Vec<UnifiedRecord> = Vec::new();
        let mut i: usize = 0;
        while i < s.len()
            invariant
                s@ == self@,
                i <= s@.len(),
                mine@ == events_of(s@, target_pid, i as int),
            decreases s@.len() - i,
        {
            let keep = match &s[i] {
                UnifiedRecord::Switch(r) => r.old_pid == target_pid || r.new_pid == target_pid,
                UnifiedRecord::Trap(r) => r.interrupted_pid == target_pid,
            };
            if keep {
                mine.push(s[i]);
            }
            i = i + 1;
        }
        let sorted = sort_by_event_id(&mine);
        proof {
            lemma_sort_by_id_sorted_permutation(mine@);
        }
        let mut out: Vec<String> = Vec::new();
        push_line(&mut out, String::from_str("\n|---------------------------------------------------------------------------|"));
        let mut title = cat_dec("|               EVENTS FOR PROCESS ", target_pid);
        title.append(" (Chronological Order)                 |");
        push_line(&mut out, title);
        push_line(&mut out, String::from_str("|---------------------------------------------------------------------------|"));
        records_display(&sorted, &mut out);
        push_line(&mut out, String::from_str("|---------------------------------------------------------------------------|\n"));
        assert(text(out@) =~= events_by_pid_lines(self@, target_pid));
        out
    }
}

/// Appends a switch record to the unified history.
pub fn add_switch_record_to_unified(unified: &mut UnifiedEventHistory, record: SwitchRecord)
    ensures
        final(unified)@ == old(unified)@.push(UnifiedRecord::Switch(record)),
{
    unified.add_switch_record(record);
}

/// Appends a trap record to the unified history.
pub fn add_trap_record_to_unified(unified: &mut UnifiedEventHistory, record: TrapRecord)
    ensures
        final(unified)@ == old(unified)@.push(UnifiedRecord::Trap(record)),
{
    unified.add_trap_record(record);
}

/// The chronological listing of the unified history.
pub fn print_unified_chronological(unified: &UnifiedEventHistory) -> (lines: Vec<String>)
    ensures
        text(lines@) == chronological_lines(unified@),
{
    unified.print_chronological()
}

/// The summary table of the unified history.
pub fn print_unified_summary(unified: &UnifiedEventHistory) -> (lines: Vec<String>)
    ensures
        text(lines@) == event_summary_lines(unified@),
{
    unified.print_summary()
}

/// The events of process `pid` in the unified history, in order of event id.
pub fn print_unified_by_pid(unified: &UnifiedEventHistory, pid: usize) -> (lines: Vec<String>)
    ensures
        text(lines@) == events_by_pid_lines(unified@, pid),
{
    unified.print_by_pid(pid)
}

/// The unified history as seen by process `pid`.
pub fn display_unified_by_pid(unified: &UnifiedEventHistory, pid: usize) -> (lines: Vec<String>)
    ensures
        text(lines@) == history_by_pid_lines(unified@, pid),
{
    unified.display_by_pid(pid)
}

/// The by-process listing keeps exactly the switches out of or into the
/// process and the traps that interrupted it: every kept event is one of
/// those, and each of those occurs as often as in the history; nothing else
/// is kept.
pub proof fn lemma_events_of_fields(s: Seq<UnifiedRecord>, pid: usize)
    ensures
        forall|i: int|
            0 <= i < events_of(s, pid, s.len() as int).len() ==> match #[trigger] events_of(
                s,
                pid,
                s.len() as int,
            )[i] {
                UnifiedRecord::Switch(r) => r.old_pid == pid || r.new_pid == pid,
                UnifiedRecord::Trap(r) => r.interrupted_pid == pid,
            },
        forall|r: SwitchRecord|
            r.old_pid == pid || r.new_pid == pid ==> #[trigger] events_of(s, pid, s.len() as int).to_multiset().count(
                UnifiedRecord::Switch(r),
            ) == s.to_multiset().count(UnifiedRecord::Switch(r)),
        forall|r: SwitchRecord|
            r.old_pid != pid && r.new_pid != pid ==> #[trigger] events_of(s, pid, s.len() as int).to_multiset().count(
                UnifiedRecord::Switch(r),
            ) == 0,
        forall|r: TrapRecord|
            r.interrupted_pid == pid ==> #[trigger] events_of(s, pid, s.len() as int).to_multiset().count(
                UnifiedRecord::Trap(r),
            ) == s.to_multiset().count(UnifiedRecord::Trap(r)),
        forall|r: TrapRecord|
            r.interrupted_pid != pid ==> #[trigger] events_of(s, pid, s.len() as int).to_multiset().count(
                UnifiedRecord::Trap(r),
            ) == 0,
{
    lemma_events_of_exact(s, pid, s.len() as int);
    assert(s.take(s.len() as int) =~= s);
    assert forall|r: SwitchRecord| r.old_pid == pid || r.new_pid == pid implies #[trigger] events_of(
        s,
        pid,
        s.len() as int,
    ).to_multiset().count(UnifiedRecord::Switch(r)) == s.to_multiset().count(UnifiedRecord::Switch(r)) by {
        assert(involves(UnifiedRecord::Switch(r), pid));
    }
    assert forall|r: SwitchRecord| r.old_pid != pid && r.new_pid != pid implies #[trigger] events_of(
        s,
        pid,
        s.len() as int,
    ).to_multiset().count(UnifiedRecord::Switch(r)) == 0 by {
        assert(!involves(UnifiedRecord::Switch(r), pid));
    }
    assert forall|r: TrapRecord| r.interrupted_pid == pid implies #[trigger] events_of(
        s,
        pid,
        s.len() as int,
    ).to_multiset().count(UnifiedRecord::Trap(r)) == s.to_multiset().count(UnifiedRecord::Trap(r)) by {
        assert(involves(UnifiedRecord::Trap(r), pid));
    }
    assert forall|r: TrapRecord| r.interrupted_pid != pid implies #[trigger] events_of(
        s,
        pid,
        s.len() as int,
    ).to_multiset().count(UnifiedRecord::Trap(r)) == 0 by {
        assert(!involves(UnifiedRecord::Trap(r), pid));
    }
}

/// The summary row of a finished system call: its id, "Trap", the
/// interrupted process, and "Syscall: id=" with the call's number.
pub proof fn lemma_summary_row_syscall(r: TrapRecord, s: SyscallInfo)
    requires
        r.trap_branch == TrapBranch::UserEnvCall,
        r.syscall_info == Some(s),
    ensures
        event_summary_line(UnifiedRecord::Trap(r)) == "|  "@ + pad_right(dec(r.global_event_id as nat), 3)
            + " │ "@ + pad_right("Trap"@, 16) + " │ "@ + pad_right(dec(r.interrupted_pid as nat), 4) + " │ "@
            + pad_right(take_bytes("Syscall: id="@ + dec(s.syscall_id as nat), 50), 50) + " |"@,
{
}

/// The summary row of a system call without details, and of a timer
/// interrupt (which names the interrupted task).
pub proof fn lemma_summary_row_trap(r: TrapRecord)
    ensures
        r.trap_branch == TrapBranch::UserEnvCall && r.syscall_info.is_none() ==> event_summary_line(
            UnifiedRecord::Trap(r),
        ) == "|  "@ + pad_right(dec(r.global_event_id as nat), 3) + " │ "@ + pad_right("Trap"@, 16) + " │ "@
            + pad_right(dec(r.interrupted_pid as nat), 4) + " │ "@ + pad_right(take_bytes("System Call"@, 50), 50)
            + " |"@,
        r.trap_branch == TrapBranch::TimerInterrupt ==> event_summary_line(UnifiedRecord::Trap(r)) == "|  "@
            + pad_right(dec(r.global_event_id as nat), 3) + " │ "@ + pad_right("Trap"@, 16) + " │ "@ + pad_right(
            dec(r.interrupted_pid as nat),
            4,
        ) + " │ "@ + pad_right(
            take_bytes("Timer Interrupt (Task "@ + dec(r.interrupted_pid as nat) + ")"@, 50),
            50,
        ) + " |"@,
{
}

/// The summary row of a switch: its id, "Switch", the process switched out,
/// and "Switch: old → new".
pub proof fn lemma_summary_row_switch(r: SwitchRecord)
    ensures
        event_summary_line(UnifiedRecord::Switch(r)) == "|  "@ + pad_right(dec(r.global_event_id as nat), 3)
            + " │ "@ + pad_right("Switch"@, 16) + " │ "@ + pad_right(dec(r.old_pid as nat), 4) + " │ "@
            + pad_right(take_bytes("Switch: "@ + dec(r.old_pid as nat) + " → "@ + dec(r.new_pid as nat), 50), 50)
            + " |"@,
{
}

} // verus!
