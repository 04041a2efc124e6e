use vstd::prelude::*;
use std::collections::VecDeque;
use std::time::Instant;
use crate::clock::{instant_now, ns_since, system_time_now, unix_secs_of};
use crate::text::{decimal_text, decimal_string, decimal_value, lemma_decimal_text_reads_back};
use crate::bridge_health::whole_secs;

verus! {

broadcast use vstd::std_specs::vecdeque::group_vec_dequeue_axioms;

/// The log keeps at most this many events; older ones are dropped first.
pub const MAX_EVENTS: usize = 50;

/// What a diagnostics event holds, as text.
pub struct EntryView {
    pub timestamp: Seq<char>,
    pub level: Seq<char>,
    pub message: Seq<char>,
    pub location: Seq<char>,
}

/// One event of the diagnostics log.
#[derive(Debug, Clone)]
pub struct DiagnosticsEntry {
    timestamp: String,
    level: String,
    message: String,
    location: String,
}

impl View for DiagnosticsEntry {
    type V = EntryView;

    closed spec fn view(&self) -> EntryView {
        EntryView {
            timestamp: self.timestamp@,
            level: self.level@,
            message: self.message@,
            location: self.location@,
        }
    }
}

impl DiagnosticsEntry {
    /// An event with the given texts.
    pub fn new(timestamp: &str, level: &str, message: &str, location: &str) -> (e: Self)
        ensures
            e@ == (EntryView {
                timestamp: timestamp@,
                level: level@,
                message: message@,
                location: location@,
            }),
    {
        DiagnosticsEntry {
            timestamp: String::from_str(timestamp),
            level: String::from_str(level),
            message: String::from_str(message),
            location: String::from_str(location),
        }
    }

    /// When the event was recorded, in seconds since the Unix epoch.
    pub fn timestamp(&self) -> (t: &str)
        ensures
            t@ == self@.timestamp,
    {
        self.timestamp.as_str()
    }

    /// How severe the event is ("info", "warn", "error", ...).
    pub fn level(&self) -> (t: &str)
        ensures
            t@ == self@.level,
    {
        self.level.as_str()
    }

    /// What happened.
    pub fn message(&self) -> (t: &str)
        ensures
            t@ == self@.message,
    {
        self.message.as_str()
    }

    /// Where in the app it happened.
    pub fn location(&self) -> (t: &str)
        ensures
            t@ == self@.location,
    {
        self.location.as_str()
    }

    /// A copy of the event.
    pub fn duplicate(&self) -> (e: Self)
        ensures
            e@ == self@,
    {
        DiagnosticsEntry {
            timestamp: self.timestamp.clone(),
            level: self.level.clone(),
            message: self.message.clone(),
            location: self.location.clone(),
        }
    }
}

/// The log after one more event: the event goes last, and when the log was
/// full its oldest event goes.
pub open spec fn push_bounded(log: Seq<EntryView>, e: EntryView) -> Seq<EntryView> {
    if log.len() >= MAX_EVENTS {
        log.drop_first().push(e)
    } else {
        log.push(e)
    }
}

/// A timestamp as the log writes it: whole seconds since the Unix epoch, in
/// decimal.
pub open spec fn is_unix_secs_text(t: Seq<char>) -> bool {
    exists|n: nat| t == decimal_text(n)
}

/// The timestamp text for a reading of the system clock: its whole seconds
/// since the Unix epoch, or "0" when the clock reads before the epoch.
pub open spec fn timestamp_text(secs: Option<u64>) -> Seq<char> {
    match secs {
        Some(n) => decimal_text(n as nat),
        None => decimal_text(0),
    }
}

/// A timestamp reads back as the whole seconds since the Unix epoch of the
/// clock reading it was made from (zero for a reading before the epoch), so
/// readings a second or more apart never share a timestamp.
pub proof fn lemma_timestamp_reads_back(secs: Option<u64>)
    ensures
        decimal_value(timestamp_text(secs)) == match secs {
            Some(n) => n as int,
            None => 0,
        },
{
    match secs {
        Some(n) => lemma_decimal_text_reads_back(n as nat),
        None => lemma_decimal_text_reads_back(0),
    }
}

/// The timestamp text for a reading of the system clock.
pub fn timestamp_from(secs: Option<u64>) -> (t: String)
    ensures
        t@ == timestamp_text(secs),
{
    match secs {
        Some(n) => decimal_string(n),
        None => decimal_string(0),
    }
}

/// The current time as the log writes it: whole seconds since the Unix epoch.
pub fn chrono_now() -> (t: String)
    ensures
        is_unix_secs_text(t@),
{
    let secs = unix_secs_of(&system_time_now());
    let t = timestamp_from(secs);
    proof {
        match secs {
            Some(n) => assert(t@ == decimal_text(n as nat)),
            None => assert(t@ == decimal_text(0)),
        }
    }
    t
}

/// The log after recording each event of `history` in turn, starting empty.
pub open spec fn log_after(history: Seq<EntryView>) -> Seq<EntryView>
    decreases history.len(),
{
    if history.len() == 0 {
        Seq::empty()
    } else {
        push_bounded(log_after(history.drop_last()), history.last())
    }
}

/// How many of the oldest events of `history` the log has dropped.
pub open spec fn dropped(len: nat) -> nat {
    if len > MAX_EVENTS {
        (len - MAX_EVENTS) as nat
    } else {
        0
    }
}

/// Starting from an empty log and recording the events of `history` one by
/// one leaves exactly the most recent `MAX_EVENTS` of them, oldest first.
pub proof fn lemma_log_keeps_latest(history: Seq<EntryView>)
    ensures
        log_after(history) == history.skip(dropped(history.len()) as int),
        log_after(history).len() <= MAX_EVENTS,
    decreases history.len(),
{
    if history.len() == 0 {
        assert(history.skip(0) =~= history);
    } else {
        let prev = history.drop_last();
        lemma_log_keeps_latest(prev);
        let k = dropped(prev.len());
        if prev.len() >= MAX_EVENTS {
            assert(prev.skip(k as int).drop_first().push(history.last()) =~= history.skip(
                dropped(history.len()) as int,
            ));
        } else {
            assert(prev.skip(k as int).push(history.last()) =~= history.skip(
                dropped(history.len()) as int,
            ));
        }
    }
}

/// The diagnostics log: the most recent events, oldest first.
pub struct DiagnosticsState {
    events: VecDeque<DiagnosticsEntry>,
    startup: Instant,
}

impl View for DiagnosticsState {
    type V = Seq<EntryView>;

    closed spec fn view(&self) -> Seq<EntryView> {
        self.events@.map_values(|e: DiagnosticsEntry| e@)
    }
}

impl DiagnosticsState {
    #[verifier::type_invariant]
    closed spec fn bounded(self) -> bool {
        self.events@.len() <= MAX_EVENTS
    }

    /// When the log was created: the instant uptime is measured from.
    pub closed spec fn started(&self) -> Instant {
        self.startup
    }

    /// An empty log created at `startup`.
    pub fn starting_at(startup: Instant) -> (s: Self)
        ensures
            s@ == Seq::<EntryView>::empty(),
            s.started() == startup,
    {
        let s = DiagnosticsState { events: VecDeque::with_capacity(MAX_EVENTS), startup };
        assert(s@ =~= Seq::<EntryView>::empty());
        s
    }

    /// An empty log, created now.
    pub fn new() -> (s: Self)
        ensures
            s@ == Seq::<EntryView>::empty(),
    {
        Self::starting_at(instant_now())
    }

    /// Records an event with the given timestamp.
    pub fn record_event_at(&mut self, timestamp: &str, level: &str, message: &str, location: &str)
        ensures
            final(self)@ == push_bounded(
                old(self)@,
                EntryView {
                    timestamp: timestamp@,
                    level: level@,
                    message: message@,
                    location: location@,
                },
            ),
            final(self)@.len() <= MAX_EVENTS,
            final(self).started() == old(self).started(),
    {
        proof {
            use_type_invariant(&*self);
        }
        let entry = DiagnosticsEntry::new(timestamp, level, message, location);
        let mut events: VecDeque<DiagnosticsEntry> = VecDeque::new();
        std::mem::swap(&mut events, &mut self.events);
        let ghost before = events@;
        if events.len() >= MAX_EVENTS {
            events.pop_front();
        }
        events.push_back(entry);
        proof {
            if before.len() >= MAX_EVENTS {
                assert(events@ =~= before.subrange(1, before.len() as int).push(entry));
                assert(events@.map_values(|e: DiagnosticsEntry| e@) =~= before.map_values(
                    |e: DiagnosticsEntry| e@,
                ).drop_first().push(entry@));
            } else {
                assert(events@.map_values(|e: DiagnosticsEntry| e@) =~= before.map_values(
                    |e: DiagnosticsEntry| e@,
                ).push(entry@));
            }
        }
        self.events = events;
    }

    /// Records an event, stamped with the current time.
    pub fn record_event(&mut self, level: &str, message: &str, location: &str)
        ensures
            exists|t: Seq<char>|
                is_unix_secs_text(t) && final(self)@ == push_bounded(
                    old(self)@,
                    EntryView { timestamp: t, level: level@, message: message@, location: location@ },
                ),
            final(self).started() == old(self).started(),
    {
        let now = chrono_now();
        self.record_event_at(now.as_str(), level, message, location);
    }

    /// Copies of the events, oldest first.
    pub fn get_events(&self) -> (events: Vec<DiagnosticsEntry>)
        ensures
            events@.map_values(|e: DiagnosticsEntry| e@) == self@,
            events@.len() <= MAX_EVENTS,
    {
        proof {
            use_type_invariant(self);
        }
        let mut events: Vec<DiagnosticsEntry> = Vec::new();
        let n = self.events.len();
        let mut i: usize = 0;
        while i < n
            invariant
                n == self.events@.len(),
                i <= n,
                events@.len() == i,
                forall|j: int| 0 <= j < i ==> #[trigger] events@[j]@ == self.events@[j]@,
            decreases n - i,
        {
            events.push(self.events[i].duplicate());
            i = i + 1;
        }
        assert(events@.map_values(|e: DiagnosticsEntry| e@) =~= self@);
        events
    }

    /// Whole seconds since the log was created, when the clock stands
    /// `since_startup_ns` nanoseconds after its creation.
    pub fn uptime_secs_at(&self, since_startup_ns: u64) -> (secs: u64)
        ensures
            secs == whole_secs(since_startup_ns),
    {
        since_startup_ns / 1_000_000_000
    }

    /// Whole seconds since the log was created: the clock is read once, as
    /// nanoseconds since creation. Which reading that is depends on when the
    /// call is made.
    pub fn uptime_secs(&self) -> (secs: u64)
        ensures
            exists|since_startup_ns: u64| secs == #[trigger] whole_secs(since_startup_ns),
    {
        let since_startup_ns = ns_since(&self.startup);
        self.uptime_secs_at(since_startup_ns)
    }
}

/// Where a panic happened, as the panic line writes it: `file:line:column`,
/// or nothing when the place is unknown.
pub open spec fn panic_place_text(place: Option<(Seq<char>, u32, u32)>) -> Seq<char> {
    match place {
        Some((file, line, column)) => file + ":"@ + decimal_text(line as nat) + ":"@ + decimal_text(
            column as nat,
        ),
        None => Seq::empty(),
    }
}

/// The line written when the app panics, given the panic's message (when it
/// is text) and its place.
pub open spec fn panic_line_text(
    message: Option<Seq<char>>,
    place: Option<(Seq<char>, u32, u32)>,
) -> Seq<char> {
    "[yt-music] PANIC: "@ + match message {
        Some(m) => m,
        None => "unknown panic"@,
    } + " at "@ + panic_place_text(place)
}

/// The line written when the app panics: the panic's message ("unknown
/// panic" when it carries no text) and where it happened.
pub fn panic_line(message: Option<&str>, place: Option<(&str, u32, u32)>) -> (line: String)
    ensures
        line@ == panic_line_text(
            match message {
                Some(m) => Some(m@),
                None => None,
            },
            match place {
                Some((f, l, c)) => Some((f@, l, c)),
                None => None,
            },
        ),
{
    let mut line = String::from_str("[yt-music] PANIC: ");
    match message {
        Some(m) => line.append(m),
        None => line.append("unknown panic"),
    }
    line.append(" at ");
    match place {
        Some((file, row, column)) => {
            line.append(file);
            line.append(":");
            let row_text = decimal_string(row as u64);
            line.append(row_text.as_str());
            line.append(":");
            let column_text = decimal_string(column as u64);
            line.append(column_text.as_str());
        },
        None => {},
    }
    line
}

} // verus!
