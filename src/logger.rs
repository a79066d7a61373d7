//! An in-memory log with a severity threshold.
//!
//! A `Log` holds the threshold and the buffer of records. A record is kept
//! only when its level is at least as severe as the threshold. The buffer is
//! unbounded: nothing is ever evicted but by `clear`. A fresh log admits every
//! level (its threshold is `Debug`).
use vstd::prelude::*;
use crate::decimal::{decimal, push_decimal};

verus! {

/// How severe a log record is.
#[derive(Debug, Clone, Copy, PartialEq, Eq, Structural)]
pub enum LogLevel {
    Error,
    Debug,
    Info,
    Warn,
}

/// The priority number of a level: the lower, the more severe.
pub open spec fn priority(level: LogLevel) -> nat {
    match level {
        LogLevel::Error => 1,
        LogLevel::Warn => 2,
        LogLevel::Info => 3,
        LogLevel::Debug => 4,
    }
}

/// Whether a log whose threshold is `threshold` keeps a record at `level`.
pub open spec fn admits(threshold: LogLevel, level: LogLevel) -> bool {
    priority(level) <= priority(threshold)
}

/// The name of a level, as it stands in a rendered line.
pub open spec fn level_name(level: LogLevel) -> Seq<char> {
    match level {
        LogLevel::Error => "Error"@,
        LogLevel::Debug => "Debug"@,
        LogLevel::Info => "Info"@,
        LogLevel::Warn => "Warn"@,
    }
}

/// One record as the log holds it.
pub struct LogEntry {
    pub message: Seq<char>,
    pub level: LogLevel,
    /// Whole seconds since the Unix epoch at the moment of recording.
    pub secs: u64,
}

/// The text of a record: `[level] @ secs s → message`.
pub open spec fn line(e: LogEntry) -> Seq<char> {
    "["@ + level_name(e.level) + "] @ "@ + decimal(e.secs as nat) + "s → "@ + e.message
}

/// What a log holds: its threshold and its records, oldest first.
pub struct LogState {
    pub threshold: LogLevel,
    pub records: Seq<LogEntry>,
}

impl LogState {
    /// The state after a record at `level` is offered at time `secs`.
    pub open spec fn logged(self, level: LogLevel, message: Seq<char>, secs: u64) -> LogState {
        if admits(self.threshold, level) {
            LogState {
                records: self.records.push(LogEntry { message, level, secs }),
                ..self
            }
        } else {
            self
        }
    }

    /// The state after the buffer is emptied.
    pub open spec fn cleared(self) -> LogState {
        LogState { records: Seq::empty(), ..self }
    }

    /// The rendered lines of the buffer, oldest first.
    pub open spec fn lines(self) -> Seq<Seq<char>> {
        self.records.map_values(|e: LogEntry| line(e))
    }
}

/// One record: a message, its level and the time it was made.
pub struct LogRecord {
    message: String,
    level: LogLevel,
    secs: u64,
}

impl View for LogRecord {
    type V = LogEntry;

    closed spec fn view(&self) -> LogEntry {
        LogEntry { message: self.message@, level: self.level, secs: self.secs }
    }
}

/// A log: a severity threshold and an append-only buffer of records.
pub struct Log {
    level: LogLevel,
    records: Vec<LogRecord>,
}

impl View for Log {
    type V = LogState;

    closed spec fn view(&self) -> LogState {
        LogState { threshold: self.level, records: self.records@.map_values(|r: LogRecord| r@) }
    }
}

/// The priority number of `level`.
pub fn level_priority(level: LogLevel) -> (r: u8)
    ensures
        r as nat == priority(level),
{
    match level {
        LogLevel::Error => 1,
        LogLevel::Warn => 2,
        LogLevel::Info => 3,
        LogLevel::Debug => 4,
    }
}

/// Relies on std's `SystemTime::now`, read as whole seconds since the Unix
/// epoch through `duration_since` and `Duration::as_secs` (0 for a clock set
/// before the epoch). Any value may come back.
#[verifier::external_body]
fn unix_now_secs() -> (r: u64) {
    std::time::SystemTime::now().duration_since(std::time::UNIX_EPOCH).map_or(0, |d| d.as_secs())
}

fn level_text(level: LogLevel) -> (r: &'static str)
    ensures
        r@ == level_name(level),
{
    match level {
        LogLevel::Error => "Error",
        LogLevel::Debug => "Debug",
        LogLevel::Info => "Info",
        LogLevel::Warn => "Warn",
    }
}

/// Renders one record as a line of text.
fn render(r: &LogRecord) -> (s: String)
    ensures
        s@ == line(r@),
{
    let mut s = String::from_str("[");
    s.append(level_text(r.level));
    s.append("] @ ");
    push_decimal(&mut s, r.secs);
    s.append("s → ");
    s.append(r.message.as_str());
    s
}

impl Log {
    /// An empty log whose threshold admits every level.
    pub fn new() -> (r: Log)
        ensures
            r@ == (LogState { threshold: LogLevel::Debug, records: Seq::empty() }),
    {
        let r = Log { level: LogLevel::Debug, records: Vec::new() };
        assert(r@.records =~= Seq::<LogEntry>::empty());
        r
    }

    /// The current threshold.
    pub fn get_level(&self) -> (r: LogLevel)
        ensures
            r == self@.threshold,
    {
        self.level
    }

    /// Sets the threshold; the buffer is kept.
    pub fn set_up_logger(&mut self, level: LogLevel)
        ensures
            final(self)@ == (LogState { threshold: level, ..old(self)@ }),
    {
        self.level = level;
    }

    /// Offers a record at `level`, made at `secs` seconds since the epoch.
    /// It is appended exactly when `level` is at least as severe as the threshold.
    pub fn log_with_level_at(&mut self, level: LogLevel, message: &str, secs: u64)
        ensures
            final(self)@ == old(self)@.logged(level, message@, secs),
    {
        if level_priority(level) <= level_priority(self.level) {
            let rec = LogRecord { message: String::from_str(message), level, secs };
            self.records.push(rec);
            assert(self@.records =~= old(self)@.records.push(rec@));
        }
    }

    /// Offers a record at `level`, stamped with the current time.
    pub fn log_with_level(&mut self, level: LogLevel, message: &str)
        ensures
            exists|secs: u64| final(self)@ == old(self)@.logged(level, message@, secs),
            final(self)@.records.len() == old(self)@.records.len() + if admits(
                old(self)@.threshold,
                level,
            ) {
                1int
            } else {
                0int
            },
    {
        let secs: u64 = unix_now_secs();
        self.log_with_level_at(level, message, secs);
    }

    /// Records at the threshold's own level, which always passes the filter.
    pub fn log(&mut self, message: &str)
        ensures
            exists|secs: u64| final(self)@ == old(self)@.logged(old(self)@.threshold, message@, secs),
            final(self)@.records.len() == old(self)@.records.len() + 1,
    {
        let level = self.get_level();
        self.log_with_level(level, message);
    }

    /// Offers a record at `Info`.
    pub fn log_info(&mut self, message: &str)
        ensures
            exists|secs: u64| final(self)@ == old(self)@.logged(LogLevel::Info, message@, secs),
    {
        self.log_with_level(LogLevel::Info, message);
    }

    /// Offers a record at `Debug`.
    pub fn log_debug(&mut self, message: &str)
        ensures
            exists|secs: u64| final(self)@ == old(self)@.logged(LogLevel::Debug, message@, secs),
    {
        self.log_with_level(LogLevel::Debug, message);
    }

    /// Offers a record at `Error`.
    pub fn log_error(&mut self, message: &str)
        ensures
            exists|secs: u64| final(self)@ == old(self)@.logged(LogLevel::Error, message@, secs),
    {
        self.log_with_level(LogLevel::Error, message);
    }

    /// Offers a record at `Warn`.
    pub fn log_warn(&mut self, message: &str)
        ensures
            exists|secs: u64| final(self)@ == old(self)@.logged(LogLevel::Warn, message@, secs),
    {
        self.log_with_level(LogLevel::Warn, message);
    }

    /// The rendered lines of every buffered record, oldest first.
    pub fn get_logs(&self) -> (r: Vec<String>)
        ensures
            r@.map_values(|s: String| s@) == self@.lines(),
            r@.len() == self@.records.len(),
            forall|i: int| 0 <= i < r@.len() ==> #[trigger] r@[i]@ == line(self@.records[i]),
    {
        let mut out: Vec<String> = Vec::new();
        let mut i: usize = 0;
        while i < self.records.len()
            invariant
                i <= self.records.len(),
                out@.len() == i,
                forall|j: int| 0 <= j < i ==> #[trigger] out@[j]@ == line(self.records@[j]@),
            decreases self.records.len() - i,
        {
            out.push(render(&self.records[i]));
            i = i + 1;
        }
        assert(out@.map_values(|s: String| s@) =~= self@.lines());
        out
    }

    /// Empties the buffer; the threshold is kept.
    pub fn clear(&mut self)
        ensures
            final(self)@ == old(self)@.cleared(),
    {
        self.records.clear();
        assert(self@.records =~= Seq::<LogEntry>::empty());
    }
}

/// Recording a text into a log.
pub trait Loggable {
    /// Records at the log's own threshold level.
    fn log(self, target: &mut Log);

    /// Offers a record at `Info`.
    fn log_info(self, target: &mut Log);

    /// Offers a record at `Error`.
    fn log_error(self, target: &mut Log);

    /// Offers a record at `Debug`.
    fn log_debug(self, target: &mut Log);
}

impl Loggable for &str {
    fn log(self, target: &mut Log)
        ensures
            exists|secs: u64|
                final(target)@ == old(target)@.logged(old(target)@.threshold, self@, secs),
    {
        target.log(self);
    }

    fn log_info(self, target: &mut Log)
        ensures
            exists|secs: u64| final(target)@ == old(target)@.logged(LogLevel::Info, self@, secs),
    {
        target.log_info(self);
    }

    fn log_error(self, target: &mut Log)
        ensures
            exists|secs: u64| final(target)@ == old(target)@.logged(LogLevel::Error, self@, secs),
    {
        target.log_error(self);
    }

    fn log_debug(self, target: &mut Log)
        ensures
            exists|secs: u64| final(target)@ == old(target)@.logged(LogLevel::Debug, self@, secs),
    {
        target.log_debug(self);
    }
}

impl Loggable for String {
    fn log(self, target: &mut Log)
        ensures
            exists|secs: u64|
                final(target)@ == old(target)@.logged(old(target)@.threshold, self@, secs),
    {
        self.as_str().log(target);
    }

    fn log_info(self, target: &mut Log)
        ensures
            exists|secs: u64| final(target)@ == old(target)@.logged(LogLevel::Info, self@, secs),
    {
        self.as_str().log_info(target);
    }

    fn log_error(self, target: &mut Log)
        ensures
            exists|secs: u64| final(target)@ == old(target)@.logged(LogLevel::Error, self@, secs),
    {
        self.as_str().log_error(target);
    }

    fn log_debug(self, target: &mut Log)
        ensures
            exists|secs: u64| final(target)@ == old(target)@.logged(LogLevel::Debug, self@, secs),
    {
        self.as_str().log_debug(target);
    }
}

/// One offered record, as `(level, message, secs)`.
pub open spec fn entry_of(c: (LogLevel, Seq<char>, u64)) -> LogEntry {
    LogEntry { message: c.1, level: c.0, secs: c.2 }
}

/// The state after each record of `calls` is offered in turn.
pub open spec fn logged_all(s: LogState, calls: Seq<(LogLevel, Seq<char>, u64)>) -> LogState
    decreases calls.len(),
{
    if calls.len() == 0 {
        s
    } else {
        let c = calls.last();
        logged_all(s, calls.drop_last()).logged(c.0, c.1, c.2)
    }
}

/// A record is appended exactly when the priority number of its level is at
/// most that of the threshold; otherwise nothing changes. The threshold is
/// never changed by recording.
pub proof fn lemma_record_filter(s: LogState, level: LogLevel, message: Seq<char>, secs: u64)
    ensures
        s.logged(level, message, secs).threshold == s.threshold,
        priority(level) <= priority(s.threshold) ==> s.logged(level, message, secs).records
            == s.records.push(LogEntry { message, level, secs }),
        priority(level) > priority(s.threshold) ==> s.logged(level, message, secs) == s,
        s.logged(level, message, secs).records.len() == s.records.len() + 1 <==> priority(level)
            <= priority(s.threshold),
{
}

/// A record whose level equals the threshold is kept, whichever the level.
pub proof fn lemma_same_level_kept(s: LogState, level: LogLevel, message: Seq<char>, secs: u64)
    requires
        s.threshold == level,
    ensures
        s.logged(level, message, secs).records == s.records.push(
            LogEntry { message, level, secs },
        ),
{
}

/// Whether `after` is `before` with a record at `level` carrying `message`
/// offered at some moment: what one `log_with_level` call guarantees.
pub open spec fn offered(before: LogState, after: LogState, level: LogLevel, message: Seq<char>) -> bool {
    exists|secs: u64| after == before.logged(level, message, secs)
}

/// Starting from an empty buffer, `n` calls that each offer a record passing
/// the filter in force at that call leave exactly `n` lines, the `i`-th for
/// the `i`-th call, with its level and message: `states[i]` is the state
/// before call `i` and `calls[i]` its level and message.
pub proof fn lemma_offered_calls_in_order(
    states: Seq<LogState>,
    calls: Seq<(LogLevel, Seq<char>)>,
)
    requires
        states.len() == calls.len() + 1,
        states[0].records.len() == 0,
        forall|i: int|
            0 <= i < calls.len() ==> admits(states[i].threshold, #[trigger] calls[i].0),
        forall|i: int|
            0 <= i < calls.len() ==> offered(states[i], states[i + 1], #[trigger] calls[i].0, calls[i].1),
    ensures
        states.last().lines().len() == calls.len(),
        forall|i: int|
            0 <= i < calls.len() ==> {
                &&& #[trigger] states.last().records[i].level == calls[i].0
                &&& states.last().records[i].message == calls[i].1
                &&& states.last().lines()[i] == line(states.last().records[i])
            },
    decreases calls.len(),
{
    let n: int = calls.len() as int;
    if n > 0 {
        let init_states = states.drop_last();
        let init_calls = calls.drop_last();
        assert forall|i: int| 0 <= i < init_calls.len() implies admits(
            init_states[i].threshold,
            #[trigger] init_calls[i].0,
        ) by {
            assert(calls[i] == init_calls[i]);
        }
        assert forall|i: int| 0 <= i < init_calls.len() implies offered(
            init_states[i],
            init_states[i + 1],
            #[trigger] init_calls[i].0,
            init_calls[i].1,
        ) by {
            assert(calls[i] == init_calls[i]);
        }
        lemma_offered_calls_in_order(init_states, init_calls);
        let prev = states[n - 1];
        assert(prev == init_states.last());
        assert(admits(states[n - 1].threshold, calls[n - 1].0));
        assert(offered(states[n - 1], states[n], calls[n - 1].0, calls[n - 1].1));
        let secs = choose|secs: u64| states[n] == #[trigger] prev.logged(calls[n - 1].0, calls[n - 1].1, secs);
        assert(states.last() == states[n]);
        assert(states[n].records == prev.records.push(
            LogEntry { message: calls[n - 1].1, level: calls[n - 1].0, secs },
        ));
        assert forall|i: int| 0 <= i < calls.len() implies {
            &&& #[trigger] states.last().records[i].level == calls[i].0
            &&& states.last().records[i].message == calls[i].1
            &&& states.last().lines()[i] == line(states.last().records[i])
        } by {
            if i < n - 1 {
                assert(init_calls[i] == calls[i]);
                assert(states.last().records[i] == prev.records[i]);
            }
        }
    }
}

/// Records that all pass the filter are appended in the order they are
/// offered: the lines afterwards are the lines before, then one line per
/// record, in call order.
pub proof fn lemma_passing_records_in_order(s: LogState, calls: Seq<(LogLevel, Seq<char>, u64)>)
    requires
        forall|i: int| 0 <= i < calls.len() ==> admits(s.threshold, #[trigger] calls[i].0),
    ensures
        logged_all(s, calls).threshold == s.threshold,
        logged_all(s, calls).records == s.records + calls.map_values(
            |c: (LogLevel, Seq<char>, u64)| entry_of(c),
        ),
        logged_all(s, calls).lines() == s.lines() + calls.map_values(
            |c: (LogLevel, Seq<char>, u64)| line(entry_of(c)),
        ),
    decreases calls.len(),
{
    if calls.len() > 0 {
        let init = calls.drop_last();
        assert forall|i: int| 0 <= i < init.len() implies admits(s.threshold, #[trigger] init[i].0) by {
            assert(init[i] == calls[i]);
        }
        lemma_passing_records_in_order(s, init);
        let c = calls.last();
        assert(admits(s.threshold, calls[calls.len() - 1].0));
        assert(logged_all(s, calls).records =~= s.records + calls.map_values(
            |c: (LogLevel, Seq<char>, u64)| entry_of(c),
        ));
        assert(logged_all(s, calls).lines() =~= s.lines() + calls.map_values(
            |c: (LogLevel, Seq<char>, u64)| line(entry_of(c)),
        ));
    } else {
        assert(s.records + calls.map_values(|c: (LogLevel, Seq<char>, u64)| entry_of(c))
            =~= s.records);
        assert(s.lines() + calls.map_values(|c: (LogLevel, Seq<char>, u64)| line(entry_of(c)))
            =~= s.lines());
    }
}

/// After the buffer is emptied there are no lines to read.
pub proof fn lemma_clear_leaves_no_lines(s: LogState)
    ensures
        s.cleared().lines() == Seq::<Seq<char>>::empty(),
{
    assert(s.cleared().lines() =~= Seq::<Seq<char>>::empty());
}


/// Reading the lines twice with no write between gives the same lines: what
/// `get_logs` returns is fixed by the state it reads.
pub proof fn lemma_snapshot_repeatable(s: LogState, first: Seq<String>, second: Seq<String>)
    requires
        first.map_values(|t: String| t@) == s.lines(),
        second.map_values(|t: String| t@) == s.lines(),
    ensures
        first.len() == second.len(),
        forall|i: int| 0 <= i < first.len() ==> #[trigger] first[i]@ == second[i]@,
{
    assert(first.map_values(|t: String| t@).len() == first.len());
    assert(second.map_values(|t: String| t@).len() == second.len());
    assert forall|i: int| 0 <= i < first.len() implies #[trigger] first[i]@ == second[i]@ by {
        assert(first.map_values(|t: String| t@)[i] == second.map_values(|t: String| t@)[i]);
    }
}

} // verus!
