use vstd::prelude::*;
use std::time::Instant;
use crate::clock::{instant_now, ns_since};

verus! {

/// A heartbeat older than this many seconds makes the bridge stale.
pub const STALE_THRESHOLD_SECS: u64 = 10;
/// Base waiting time, in seconds, between two recovery attempts.
pub const RECOVERY_COOLDOWN_SECS: u64 = 30;
/// The watchdog gives up after this many recovery attempts.
pub const MAX_RECOVERY_ATTEMPTS: u64 = 5;
/// Seconds the watchdog waits after it starts before its first round.
pub const WATCHDOG_GRACE_SECS: u64 = 12;
/// Seconds between two rounds of the watchdog.
pub const WATCHDOG_PERIOD_SECS: u64 = 1;

/// How the bridge is doing, as a report states it.
#[derive(PartialEq, Eq, Structural, Clone, Copy, Debug)]
pub enum BridgeStatus {
    /// A heartbeat arrived within the stale threshold.
    Healthy,
    /// Heartbeats arrived once, but the last one is stale.
    Degraded,
    /// No heartbeat yet, and the app started only recently.
    Starting,
    /// No heartbeat ever, long after start-up.
    Dead,
}

impl BridgeStatus {
    /// The word a report uses for this status.
    pub open spec fn spec_text(self) -> Seq<char> {
        match self {
            BridgeStatus::Healthy => "healthy"@,
            BridgeStatus::Degraded => "degraded"@,
            BridgeStatus::Starting => "starting"@,
            BridgeStatus::Dead => "dead"@,
        }
    }

    /// The word a report uses for this status.
    pub fn text(&self) -> (s: String)
        ensures
            s@ == self.spec_text(),
    {
        match self {
            BridgeStatus::Healthy => String::from_str("healthy"),
            BridgeStatus::Degraded => String::from_str("degraded"),
            BridgeStatus::Starting => String::from_str("starting"),
            BridgeStatus::Dead => String::from_str("dead"),
        }
    }
}

/// What a report of the bridge holds.
#[derive(Debug, Clone)]
pub struct BridgeHealthReport {
    pub status: String,
    pub last_heartbeat_ms_ago: u64,
    pub total_heartbeats: u64,
    pub recovery_attempts: u64,
}

/// One look at the clock for a bridge state: how long ago, in nanoseconds,
/// the app started, the last heartbeat arrived and the last recovery ran.
pub struct BridgeReadings {
    pub since_startup_ns: u64,
    pub since_heartbeat_ns: Option<u64>,
    pub since_recovery_ns: Option<u64>,
}

/// Whole seconds in a number of nanoseconds.
pub open spec fn whole_secs(ns: u64) -> int {
    ns as int / 1_000_000_000
}

/// The status that a set of readings shows.
pub open spec fn status_for(r: BridgeReadings) -> BridgeStatus {
    match r.since_heartbeat_ns {
        Some(ns) => if whole_secs(ns) < STALE_THRESHOLD_SECS {
            BridgeStatus::Healthy
        } else {
            BridgeStatus::Degraded
        },
        None => if whole_secs(r.since_startup_ns) < STALE_THRESHOLD_SECS + 5 {
            BridgeStatus::Starting
        } else {
            BridgeStatus::Dead
        },
    }
}

/// Nanoseconds since the last sign of life: the last heartbeat, or start-up
/// when none arrived.
pub open spec fn quiet_ns(r: BridgeReadings) -> u64 {
    match r.since_heartbeat_ns {
        Some(ns) => ns,
        None => r.since_startup_ns,
    }
}

/// Two to the power `n`.
pub open spec fn doubling(n: nat) -> nat
    decreases n,
{
    if n == 0 {
        1
    } else {
        2 * doubling((n - 1) as nat)
    }
}

/// Seconds the watchdog waits after the last recovery before it tries again,
/// once `attempts` recoveries have been made: the cooldown after the first,
/// doubled with each further one.
pub open spec fn backoff_secs(attempts: nat) -> nat {
    if attempts == 0 {
        RECOVERY_COOLDOWN_SECS as nat
    } else {
        (RECOVERY_COOLDOWN_SECS as nat) * doubling((attempts - 1) as nat)
    }
}

/// The bridge has been silent for longer than the stale threshold.
pub open spec fn bridge_dead(r: BridgeReadings) -> bool {
    match r.since_heartbeat_ns {
        Some(ns) => whole_secs(ns) > STALE_THRESHOLD_SECS,
        None => whole_secs(r.since_startup_ns) > STALE_THRESHOLD_SECS,
    }
}

/// The waiting time after the last recovery is over (or there was none).
pub open spec fn cooldown_over(r: BridgeReadings, attempts: nat) -> bool {
    match r.since_recovery_ns {
        Some(ns) => whole_secs(ns) > backoff_secs(attempts),
        None => true,
    }
}

/// Whether the watchdog should try to recover the bridge.
pub open spec fn recovery_due(attempts: u64, r: BridgeReadings) -> bool {
    &&& attempts < MAX_RECOVERY_ATTEMPTS
    &&& bridge_dead(r)
    &&& cooldown_over(r, attempts as nat)
}

/// Nanoseconds from `then` to `now`, or zero when `then` is later.
pub open spec fn ns_between(then: u64, now: u64) -> u64 {
    if now >= then {
        (now - then) as u64
    } else {
        0
    }
}

/// The readings of a state when the clock stands `now_ns` nanoseconds after
/// its start-up.
pub open spec fn readings_of(s: BridgeHealthState, now_ns: u64) -> BridgeReadings {
    BridgeReadings {
        since_startup_ns: now_ns,
        since_heartbeat_ns: match s.last_heartbeat {
            Some(t) => Some(ns_between(t, now_ns)),
            None => None,
        },
        since_recovery_ns: match s.last_recovery {
            Some(t) => Some(ns_between(t, now_ns)),
            None => None,
        },
    }
}

/// The state after a heartbeat at `now_ns`.
pub open spec fn with_heartbeat(s: BridgeHealthState, now_ns: u64) -> BridgeHealthState {
    BridgeHealthState {
        last_heartbeat: Some(now_ns),
        total_heartbeats: (s.total_heartbeats + 1) as u64,
        ..s
    }
}

/// The state after a recovery attempt at `now_ns`.
pub open spec fn with_recovery(s: BridgeHealthState, now_ns: u64) -> BridgeHealthState {
    BridgeHealthState {
        last_recovery: Some(now_ns),
        recovery_attempts: (s.recovery_attempts + 1) as u64,
        ..s
    }
}

/// The state after one round of the watchdog at `now_ns`: a recovery is
/// recorded when one is due, and nothing changes otherwise.
pub open spec fn after_watchdog(s: BridgeHealthState, now_ns: u64) -> BridgeHealthState {
    if recovery_due(s.recovery_attempts, readings_of(s, now_ns)) {
        with_recovery(s, now_ns)
    } else {
        s
    }
}

/// `doubling` grows with its argument.
proof fn lemma_doubling_monotone(m: nat, n: nat)
    requires
        m <= n,
    ensures
        doubling(m) <= doubling(n),
    decreases n,
{
    if m < n {
        lemma_doubling_monotone(m, (n - 1) as nat);
    }
}

/// The waiting time after `attempts` recoveries, in seconds.
fn backoff_secs_exec(attempts: u64) -> (secs: u64)
    requires
        attempts < MAX_RECOVERY_ATTEMPTS,
    ensures
        secs == backoff_secs(attempts as nat),
{
    let mut secs: u64 = RECOVERY_COOLDOWN_SECS;
    let mut i: u64 = 1;
    while i < attempts
        invariant
            1 <= i,
            attempts < MAX_RECOVERY_ATTEMPTS,
            attempts == 0 ==> i == 1,
            attempts >= 1 ==> i <= attempts,
            secs == RECOVERY_COOLDOWN_SECS * doubling((i - 1) as nat),
        decreases attempts - i,
    {
        proof {
            lemma_doubling_monotone((i - 1) as nat, 3);
            reveal_with_fuel(doubling, 4);
        }
        secs = secs * 2;
        i = i + 1;
    }
    proof {
        reveal_with_fuel(doubling, 1);
        if attempts == 0 {
            assert(doubling(0) == 1);
        } else {
            assert(i == attempts);
        }
    }
    secs
}

impl BridgeHealthState {
    /// The report computed from these readings.
    pub open spec fn reports(&self, r: BridgeReadings, rep: BridgeHealthReport) -> bool {
        &&& rep.status@ == status_for(r).spec_text()
        &&& rep.last_heartbeat_ms_ago == quiet_ns(r) / 1_000_000
        &&& rep.total_heartbeats == self.total_heartbeats
        &&& rep.recovery_attempts == self.recovery_attempts
    }

    /// The counts agree with the recorded times: a heartbeat (recovery) time
    /// is held exactly when at least one heartbeat (recovery) was counted.
    pub open spec fn counts_agree(&self) -> bool {
        &&& (self.last_heartbeat is Some <==> self.total_heartbeats > 0)
        &&& (self.last_recovery is Some <==> self.recovery_attempts > 0)
    }

    /// A state that started at `startup` and has seen no heartbeat and no
    /// recovery yet.
    pub fn starting_at(startup: Instant) -> (s: Self)
        ensures
            s.startup == startup,
            s.last_heartbeat is None,
            s.total_heartbeats == 0,
            s.recovery_attempts == 0,
            s.last_recovery is None,
            s.counts_agree(),
    {
        BridgeHealthState {
            startup,
            last_heartbeat: None,
            total_heartbeats: 0,
            recovery_attempts: 0,
            last_recovery: None,
        }
    }

    /// A state that starts now and has seen no heartbeat and no recovery yet.
    pub fn new() -> (s: Self)
        ensures
            s.last_heartbeat is None,
            s.total_heartbeats == 0,
            s.recovery_attempts == 0,
            s.last_recovery is None,
            s.counts_agree(),
    {
        Self::starting_at(instant_now())
    }

    /// Notes a heartbeat that arrived `now_ns` nanoseconds after start-up.
    pub fn record_heartbeat_at(&mut self, now_ns: u64)
        requires
            old(self).total_heartbeats < u64::MAX,
        ensures
            *final(self) == with_heartbeat(*old(self), now_ns),
            old(self).counts_agree() ==> final(self).counts_agree(),
    {
        self.last_heartbeat = Some(now_ns);
        self.total_heartbeats = self.total_heartbeats + 1;
    }

    /// Notes a heartbeat from the bridge, now.
    pub fn record_heartbeat(&mut self)
        requires
            old(self).total_heartbeats < u64::MAX,
        ensures
            exists|now_ns: u64| *final(self) == with_heartbeat(*old(self), now_ns),
            old(self).counts_agree() ==> final(self).counts_agree(),
    {
        let now_ns = ns_since(&self.startup);
        self.record_heartbeat_at(now_ns);
    }

    /// Notes a recovery attempt made `now_ns` nanoseconds after start-up.
    pub fn record_recovery_at(&mut self, now_ns: u64)
        requires
            old(self).recovery_attempts < u64::MAX,
        ensures
            *final(self) == with_recovery(*old(self), now_ns),
            old(self).counts_agree() ==> final(self).counts_agree(),
    {
        self.last_recovery = Some(now_ns);
        self.recovery_attempts = self.recovery_attempts + 1;
    }

    /// Notes a recovery attempt, now.
    pub fn record_recovery(&mut self)
        requires
            old(self).recovery_attempts < u64::MAX,
        ensures
            exists|now_ns: u64| *final(self) == with_recovery(*old(self), now_ns),
            old(self).counts_agree() ==> final(self).counts_agree(),
    {
        let now_ns = ns_since(&self.startup);
        self.record_recovery_at(now_ns);
    }

    /// The readings when the clock stands `now_ns` nanoseconds after
    /// start-up.
    pub fn readings_at(&self, now_ns: u64) -> (r: BridgeReadings)
        ensures
            r == readings_of(*self, now_ns),
    {
        let since_heartbeat_ns = match self.last_heartbeat {
            Some(t) => Some(now_ns.saturating_sub(t)),
            None => None,
        };
        let since_recovery_ns = match self.last_recovery {
            Some(t) => Some(now_ns.saturating_sub(t)),
            None => None,
        };
        BridgeReadings { since_startup_ns: now_ns, since_heartbeat_ns, since_recovery_ns }
    }

    /// The readings now: the clock is read once, as nanoseconds since
    /// start-up, and every age is measured against that one reading.
    pub fn readings(&self) -> (r: BridgeReadings)
        ensures
            exists|now_ns: u64| r == readings_of(*self, now_ns),
    {
        let now_ns = ns_since(&self.startup);
        self.readings_at(now_ns)
    }

    /// The status that the readings show.
    pub fn status_from(r: &BridgeReadings) -> (st: BridgeStatus)
        ensures
            st == status_for(*r),
    {
        match r.since_heartbeat_ns {
            Some(ns) => if ns / 1_000_000_000 < STALE_THRESHOLD_SECS {
                BridgeStatus::Healthy
            } else {
                BridgeStatus::Degraded
            },
            None => if r.since_startup_ns / 1_000_000_000 < STALE_THRESHOLD_SECS + 5 {
                BridgeStatus::Starting
            } else {
                BridgeStatus::Dead
            },
        }
    }

    /// The report for the given readings of the clock.
    pub fn report_from(&self, r: &BridgeReadings) -> (rep: BridgeHealthReport)
        ensures
            self.reports(*r, rep),
    {
        let quiet_ns = match r.since_heartbeat_ns {
            Some(ns) => ns,
            None => r.since_startup_ns,
        };
        let last_heartbeat_ms_ago = quiet_ns / 1_000_000;
        let status = Self::status_from(r);
        BridgeHealthReport {
            status: status.text(),
            last_heartbeat_ms_ago,
            total_heartbeats: self.total_heartbeats,
            recovery_attempts: self.recovery_attempts,
        }
    }

    /// The report when the clock stands `now_ns` nanoseconds after start-up.
    pub fn report_at(&self, now_ns: u64) -> (rep: BridgeHealthReport)
        ensures
            self.reports(readings_of(*self, now_ns), rep),
    {
        let r = self.readings_at(now_ns);
        self.report_from(&r)
    }

    /// The report as of now.
    pub fn report(&self) -> (rep: BridgeHealthReport)
        ensures
            exists|now_ns: u64| self.reports(readings_of(*self, now_ns), rep),
    {
        let now_ns = ns_since(&self.startup);
        self.report_at(now_ns)
    }

    /// Whether the watchdog should try a recovery, given the readings.
    pub fn should_recover_from(&self, r: &BridgeReadings) -> (due: bool)
        ensures
            due == recovery_due(self.recovery_attempts, *r),
    {
        if self.recovery_attempts >= MAX_RECOVERY_ATTEMPTS {
            return false;
        }
        let bridge_dead = match r.since_heartbeat_ns {
            Some(ns) => ns / 1_000_000_000 > STALE_THRESHOLD_SECS,
            None => r.since_startup_ns / 1_000_000_000 > STALE_THRESHOLD_SECS,
        };
        let backoff = backoff_secs_exec(self.recovery_attempts);
        let cooldown_ok = match r.since_recovery_ns {
            Some(ns) => ns / 1_000_000_000 > backoff,
            None => true,
        };
        bridge_dead && cooldown_ok
    }

    /// Whether the watchdog should try a recovery when the clock stands
    /// `now_ns` nanoseconds after start-up.
    pub fn should_recover_at(&self, now_ns: u64) -> (due: bool)
        ensures
            due == recovery_due(self.recovery_attempts, readings_of(*self, now_ns)),
    {
        let r = self.readings_at(now_ns);
        self.should_recover_from(&r)
    }

    /// Whether the watchdog should try a recovery now.
    pub fn should_recover(&self) -> (due: bool)
        ensures
            exists|now_ns: u64| due == recovery_due(self.recovery_attempts, readings_of(*self, now_ns)),
    {
        let now_ns = ns_since(&self.startup);
        self.should_recover_at(now_ns)
    }

    /// One round of the watchdog when the clock stands `now_ns` nanoseconds
    /// after start-up: when a recovery is due it is recorded, and the caller
    /// is told to re-inject the script.
    pub fn watchdog_step_at(&mut self, now_ns: u64) -> (recover: bool)
        ensures
            recover == recovery_due(old(self).recovery_attempts, readings_of(*old(self), now_ns)),
            *final(self) == after_watchdog(*old(self), now_ns),
            old(self).counts_agree() ==> final(self).counts_agree(),
            old(self).recovery_attempts <= MAX_RECOVERY_ATTEMPTS ==> final(self).recovery_attempts
                <= MAX_RECOVERY_ATTEMPTS,
    {
        let due = self.should_recover_at(now_ns);
        if due {
            self.record_recovery_at(now_ns);
        }
        due
    }

    /// One round of the watchdog, now.
    pub fn watchdog_step(&mut self) -> (recover: bool)
        ensures
            exists|now_ns: u64|
                recover == recovery_due(old(self).recovery_attempts, readings_of(*old(self), now_ns))
                    && *final(self) == after_watchdog(*old(self), now_ns),
            old(self).counts_agree() ==> final(self).counts_agree(),
            old(self).recovery_attempts <= MAX_RECOVERY_ATTEMPTS ==> final(self).recovery_attempts
                <= MAX_RECOVERY_ATTEMPTS,
    {
        let now_ns = ns_since(&self.startup);
        self.watchdog_step_at(now_ns)
    }
}

/// Something that happens to the bridge state over the app's life.
pub enum BridgeEvent {
    /// A heartbeat arrives, this many nanoseconds after start-up.
    Heartbeat(u64),
    /// The watchdog runs a round, this many nanoseconds after start-up.
    WatchdogTick(u64),
}

/// The state after one event.
pub open spec fn apply_event(s: BridgeHealthState, e: BridgeEvent) -> BridgeHealthState {
    match e {
        BridgeEvent::Heartbeat(t) => with_heartbeat(s, t),
        BridgeEvent::WatchdogTick(t) => after_watchdog(s, t),
    }
}

/// Whether an event makes the watchdog recover (and re-inject the script).
pub open spec fn event_recovers(s: BridgeHealthState, e: BridgeEvent) -> bool {
    match e {
        BridgeEvent::Heartbeat(_) => false,
        BridgeEvent::WatchdogTick(t) => recovery_due(s.recovery_attempts, readings_of(s, t)),
    }
}

/// The state after a sequence of events, in order.
pub open spec fn run_events(s: BridgeHealthState, events: Seq<BridgeEvent>) -> BridgeHealthState
    decreases events.len(),
{
    if events.len() == 0 {
        s
    } else {
        run_events(apply_event(s, events[0]), events.drop_first())
    }
}

/// How many recoveries a sequence of events brings about.
pub open spec fn recoveries_in(s: BridgeHealthState, events: Seq<BridgeEvent>) -> nat
    decreases events.len(),
{
    if events.len() == 0 {
        0
    } else {
        (if event_recovers(s, events[0]) {
            1nat
        } else {
            0nat
        }) + recoveries_in(apply_event(s, events[0]), events.drop_first())
    }
}

/// Over any run of heartbeats and watchdog rounds, every recovery adds one
/// attempt and the attempts never pass the cap: from a fresh state the
/// watchdog recovers (and re-injects the script) at most
/// `MAX_RECOVERY_ATTEMPTS` times in the app's whole life.
pub proof fn lemma_watchdog_recovers_at_most_cap(s: BridgeHealthState, events: Seq<BridgeEvent>)
    requires
        s.recovery_attempts <= MAX_RECOVERY_ATTEMPTS,
    ensures
        run_events(s, events).recovery_attempts == s.recovery_attempts + recoveries_in(s, events),
        run_events(s, events).recovery_attempts <= MAX_RECOVERY_ATTEMPTS,
        recoveries_in(s, events) <= MAX_RECOVERY_ATTEMPTS - s.recovery_attempts,
    decreases events.len(),
{
    if events.len() > 0 {
        lemma_watchdog_recovers_at_most_cap(apply_event(s, events[0]), events.drop_first());
    }
}

/// A heartbeat younger than the stale threshold makes the bridge healthy.
pub proof fn lemma_recent_heartbeat_is_healthy(r: BridgeReadings)
    requires
        r.since_heartbeat_ns matches Some(ns) && ns < STALE_THRESHOLD_SECS * 1_000_000_000,
    ensures
        status_for(r) == BridgeStatus::Healthy,
{
}

/// Once a heartbeat has been seen, the bridge is healthy or degraded, never
/// starting or dead; before any heartbeat it is starting during the first
/// fifteen seconds and dead afterwards.
pub proof fn lemma_status_by_heartbeat(r: BridgeReadings)
    ensures
        r.since_heartbeat_ns is Some ==> (status_for(r) == BridgeStatus::Healthy || status_for(r)
            == BridgeStatus::Degraded),
        r.since_heartbeat_ns is None ==> (status_for(r) == BridgeStatus::Starting <==> whole_secs(
            r.since_startup_ns,
        ) < STALE_THRESHOLD_SECS + 5),
        r.since_heartbeat_ns is None ==> (status_for(r) == BridgeStatus::Dead <==> whole_secs(
            r.since_startup_ns,
        ) >= STALE_THRESHOLD_SECS + 5),
{
}

/// For a state whose counts agree with its times (every state made by `new`
/// and the recording calls), a report says "healthy" or "degraded" exactly
/// when heartbeats have been counted, and otherwise "starting" or "dead".
pub proof fn lemma_report_matches_heartbeat_count(
    s: BridgeHealthState,
    now_ns: u64,
    rep: BridgeHealthReport,
)
    requires
        s.counts_agree(),
        s.reports(readings_of(s, now_ns), rep),
    ensures
        (rep.status@ == "healthy"@ || rep.status@ == "degraded"@) == (rep.total_heartbeats > 0),
        rep.total_heartbeats == 0 ==> (rep.status@ == "starting"@ || rep.status@ == "dead"@),
{
    reveal_strlit("healthy");
    reveal_strlit("degraded");
    reveal_strlit("starting");
    reveal_strlit("dead");
    assert("degraded"@[0] != "starting"@[0]);
    assert("healthy"@.len() != "starting"@.len());
    assert("dead"@.len() != "healthy"@.len() && "dead"@.len() != "degraded"@.len());
}

/// A bridge that a report calls healthy is never the target of a recovery.
pub proof fn lemma_healthy_bridge_is_not_recovered(attempts: u64, r: BridgeReadings)
    requires
        status_for(r) == BridgeStatus::Healthy,
    ensures
        !recovery_due(attempts, r),
{
}

/// No recovery is due once the cap on attempts is reached, so a recovery
/// never takes the count of attempts past the cap.
pub proof fn lemma_recovery_respects_cap(attempts: u64, r: BridgeReadings)
    ensures
        attempts >= MAX_RECOVERY_ATTEMPTS ==> !recovery_due(attempts, r),
        recovery_due(attempts, r) ==> attempts + 1 <= MAX_RECOVERY_ATTEMPTS,
{
}

/// A recovery is only ever due for a bridge that a report does not call
/// healthy; once heartbeats have been seen, only for a degraded one.
pub proof fn lemma_recovery_only_when_unhealthy(attempts: u64, r: BridgeReadings)
    requires
        recovery_due(attempts, r),
    ensures
        status_for(r) != BridgeStatus::Healthy,
        r.since_heartbeat_ns is Some ==> status_for(r) == BridgeStatus::Degraded,
{
}

/// After the first recovery the watchdog waits the cooldown, and each further
/// recovery doubles the wait.
pub proof fn lemma_backoff_doubles(attempts: nat)
    requires
        attempts >= 1,
    ensures
        backoff_secs(attempts + 1) == 2 * backoff_secs(attempts),
        backoff_secs(1) == RECOVERY_COOLDOWN_SECS,
{
    assert(doubling(attempts) == 2 * doubling((attempts - 1) as nat));
    assert((RECOVERY_COOLDOWN_SECS as nat) * (2 * doubling((attempts - 1) as nat)) == 2 * ((
    RECOVERY_COOLDOWN_SECS as nat) * doubling((attempts - 1) as nat))) by (nonlinear_arith);
    reveal_with_fuel(doubling, 1);
}

/// Whenever a heartbeat has been seen, fresh or stale, a report gives that
/// heartbeat's age in whole milliseconds; the time since start-up is given
/// only when no heartbeat has arrived.
pub proof fn lemma_report_age_is_heartbeat_age(
    s: BridgeHealthState,
    r: BridgeReadings,
    rep: BridgeHealthReport,
)
    requires
        s.reports(r, rep),
    ensures
        r.since_heartbeat_ns matches Some(ns) ==> rep.last_heartbeat_ms_ago == ns / 1_000_000,
        r.since_heartbeat_ns is None ==> rep.last_heartbeat_ms_ago == r.since_startup_ns
            / 1_000_000,
{
}

/// For a state whose last heartbeat came `t` nanoseconds after start-up, a
/// report taken at `now_ns >= t` gives `now_ns - t` in whole milliseconds as
/// the heartbeat's age, however long ago start-up was.
pub proof fn lemma_report_age_since_heartbeat(
    s: BridgeHealthState,
    t: u64,
    now_ns: u64,
    rep: BridgeHealthReport,
)
    requires
        s.last_heartbeat == Some(t),
        t <= now_ns,
        s.reports(readings_of(s, now_ns), rep),
    ensures
        rep.last_heartbeat_ms_ago == (now_ns - t) / 1_000_000,
{
}

/// The watchdog's decision, spelled out: below the cap, a bridge silent for
/// more than ten whole seconds (since the last heartbeat, or since start-up
/// when none came) whose last recovery, if any, lies more than the backoff
/// in the past (30 s after the first attempt, then 60, 120 and 240 s) is due
/// for recovery, whichever of its last heartbeat and last recovery came
/// later; and nothing else is.
pub proof fn lemma_recovery_decision(attempts: u64, r: BridgeReadings)
    ensures
        recovery_due(attempts, r) <==> {
            &&& attempts < 5
            &&& match r.since_heartbeat_ns {
                Some(ns) => ns / 1_000_000_000 > 10,
                None => r.since_startup_ns / 1_000_000_000 > 10,
            }
            &&& match r.since_recovery_ns {
                Some(ns) => ns / 1_000_000_000 > (if attempts <= 1 {
                    30int
                } else if attempts == 2 {
                    60int
                } else if attempts == 3 {
                    120int
                } else {
                    240int
                }),
                None => true,
            }
        },
{
    reveal_with_fuel(doubling, 4);
    if attempts < 5 {
        assert(backoff_secs(0) == 30);
        assert(backoff_secs(1) == 30);
        assert(backoff_secs(2) == 60);
        assert(backoff_secs(3) == 120);
        assert(backoff_secs(4) == 240);
    }
}

/// Two heartbeats in a row: the state keeps the second one's time and counts
/// both, whatever the first one's time was.
pub proof fn lemma_later_heartbeat_replaces_earlier(s: BridgeHealthState, t1: u64, t2: u64)
    requires
        s.total_heartbeats + 2 <= u64::MAX,
    ensures
        with_heartbeat(with_heartbeat(s, t1), t2).last_heartbeat == Some(t2),
        with_heartbeat(with_heartbeat(s, t1), t2).total_heartbeats == s.total_heartbeats + 2,
{
}

/// Within the waiting time after the last recovery, no recovery is due.
pub proof fn lemma_no_recovery_within_backoff(attempts: u64, r: BridgeReadings)
    requires
        r.since_recovery_ns matches Some(ns) && whole_secs(ns) <= backoff_secs(attempts as nat),
    ensures
        !recovery_due(attempts, r),
{
}

/// After a heartbeat at `t`, a report counts it and, while the heartbeat is
/// younger than the stale threshold, calls the bridge healthy.
pub proof fn lemma_report_after_heartbeat(
    before: BridgeHealthState,
    t: u64,
    now_ns: u64,
    rep: BridgeHealthReport,
)
    requires
        before.total_heartbeats < u64::MAX,
        t <= now_ns < t + STALE_THRESHOLD_SECS * 1_000_000_000,
        with_heartbeat(before, t).reports(readings_of(with_heartbeat(before, t), now_ns), rep),
    ensures
        rep.status@ == "healthy"@,
        rep.total_heartbeats == before.total_heartbeats + 1,
        rep.last_heartbeat_ms_ago == (now_ns - t) / 1_000_000,
{
}

/// Health of the content-script bridge, as tracked by the heartbeats it sends.
/// Heartbeat and recovery times are held as nanoseconds after `startup`.
pub struct BridgeHealthState {
    pub startup: Instant,
    pub last_heartbeat: Option<u64>,
    pub total_heartbeats: u64,
    pub recovery_attempts: u64,
    pub last_recovery: Option<u64>,
}

} // verus!
