//! Restarting a highlighter that exited without being asked to.
//!
//! The highlighter is a separate process, so a panic in it — a display
//! reconfiguration invalidating a monitor handle, a driver fault — takes
//! highlighting away silently. The service restarts it, backing off so that a
//! highlighter that cannot start does not spin, and forgiving the backoff only
//! once a restarted highlighter has stayed up.
//!
//! Time is a reading of a monotonic clock in nanoseconds.
use vstd::prelude::*;

verus! {

/// How long a restarted highlighter must survive before the backoff is
/// forgiven: one minute. Shorter than this and a process that dies a few
/// seconds after every start would be respawned forever at the shortest delay.
pub const HEALTHY_UPTIME: u64 = 60_000_000_000;

/// One second, in nanoseconds.
pub const SECOND: u64 = 1_000_000_000;

/// Restart attempts back off up to 2^6 seconds.
pub const MAX_BACKOFF_EXPONENT: u32 = 6;

/// Backoff state for restarting a highlighter that exited unexpectedly.
#[derive(Debug, Clone, Copy, PartialEq, Eq, Structural)]
pub struct RestartState {
    /// Restart attempts since the backoff was last forgiven.
    pub attempts: u32,
    /// No restart is attempted before this time.
    pub next_attempt_at: Option<u64>,
    /// When the service last restarted the highlighter itself.
    pub last_start: Option<u64>,
}

/// The delay before the attempt after `attempts` attempts: 2^min(attempts, 6)
/// seconds.
pub open spec fn backoff(attempts: u32) -> u64 {
    (SECOND * vstd::arithmetic::power2::pow2(
        if attempts < MAX_BACKOFF_EXPONENT {
            attempts as nat
        } else {
            MAX_BACKOFF_EXPONENT as nat
        },
    )) as u64
}

/// What supervising the highlighter at one moment decides.
#[derive(Debug, Clone, Copy, PartialEq, Eq, Structural)]
pub enum Supervision {
    /// Leave it: it is running, was stopped deliberately, or is backing off.
    Wait,
    /// Start it again now.
    Restart,
}

/// The restart state after supervising at `now` a highlighter that should
/// (`should_run`) and does (`running`) run, and the decision taken.
pub open spec fn supervised(state: RestartState, should_run: bool, running: bool, now: u64) -> (
    RestartState,
    Supervision,
) {
    if !should_run {
        (state, Supervision::Wait)
    } else if running {
        if state.last_start matches Some(at) && now >= at && now - at >= HEALTHY_UPTIME {
            (RestartState { attempts: 0, next_attempt_at: None, last_start: None }, Supervision::Wait)
        } else {
            (state, Supervision::Wait)
        }
    } else if state.next_attempt_at matches Some(at) && now < at {
        (state, Supervision::Wait)
    } else {
        let attempts = if state.attempts == u32::MAX {
            state.attempts
        } else {
            (state.attempts + 1) as u32
        };
        let delay = backoff(attempts);
        (
            RestartState {
                attempts,
                next_attempt_at: Some(if now + delay > u64::MAX {
                    u64::MAX
                } else {
                    (now + delay) as u64
                }),
                ..state
            },
            Supervision::Restart,
        )
    }
}

/// The delay before the attempt after `attempts` attempts.
pub fn backoff_delay(attempts: u32) -> (delay: u64)
    ensures
        delay == backoff(attempts),
{
    let exponent = if attempts < MAX_BACKOFF_EXPONENT {
        attempts
    } else {
        MAX_BACKOFF_EXPONENT
    };
    let mut factor: u64 = 1;
    let mut i: u32 = 0;
    proof {
        vstd::arithmetic::power2::lemma2_to64();
    }
    while i < exponent
        invariant
            i <= exponent <= MAX_BACKOFF_EXPONENT,
            factor == vstd::arithmetic::power2::pow2(i as nat),
        decreases exponent - i,
    {
        proof {
            vstd::arithmetic::power2::lemma_pow2_unfold((i + 1) as nat);
            vstd::arithmetic::power2::lemma2_to64();
        }
        factor = factor * 2;
        i = i + 1;
    }
    proof {
        vstd::arithmetic::power2::lemma2_to64();
    }
    SECOND * factor
}

impl Default for RestartState {
    /// No attempts made, nothing scheduled, never restarted.
    fn default() -> (state: Self)
        ensures
            state == (RestartState { attempts: 0, next_attempt_at: None, last_start: None }),
    {
        RestartState { attempts: 0, next_attempt_at: None, last_start: None }
    }
}

impl RestartState {
    /// Supervises the highlighter at `now`, given whether it should run and
    /// whether it is running, and decides whether to restart it.
    ///
    /// A deliberately stopped highlighter is left alone. A running one has its
    /// backoff forgiven once it was restarted at least [`HEALTHY_UPTIME`] ago.
    /// A dead one is restarted unless the backoff forbids it yet; each attempt
    /// counts, and the next is allowed 2^min(attempts, 6) seconds later.
    pub fn supervise(&mut self, should_run: bool, running: bool, now: u64) -> (decision: Supervision)
        ensures
            (*final(self), decision) == supervised(*old(self), should_run, running, now),
    {
        if !should_run {
            return Supervision::Wait;
        }
        if running {
            if let Some(at) = self.last_start {
                if now >= at && now - at >= HEALTHY_UPTIME {
                    *self = RestartState { attempts: 0, next_attempt_at: None, last_start: None };
                }
            }
            return Supervision::Wait;
        }
        if let Some(at) = self.next_attempt_at {
            if now < at {
                return Supervision::Wait;
            }
        }
        self.attempts = self.attempts.saturating_add(1);
        let delay = backoff_delay(self.attempts);
        self.next_attempt_at = Some(now.saturating_add(delay));
        Supervision::Restart
    }

    /// Records that a restart at `now` succeeded.
    pub fn restarted(&mut self, now: u64)
        ensures
            *final(self) == (RestartState { last_start: Some(now), ..*old(self) }),
    {
        self.last_start = Some(now);
    }
}

/// The backoff grows with every attempt and never exceeds 64 seconds.
pub proof fn lemma_backoff_bounded(attempts: u32)
    ensures
        SECOND <= backoff(attempts) <= 64 * SECOND,
        attempts < MAX_BACKOFF_EXPONENT ==> backoff((attempts + 1) as u32) == 2 * backoff(attempts),
{
    vstd::arithmetic::power2::lemma2_to64();
    if attempts < MAX_BACKOFF_EXPONENT {
        vstd::arithmetic::power2::lemma_pow2_unfold((attempts + 1) as nat);
    }
}

/// A dead highlighter is never restarted before its next attempt is due,
/// and a restart always pushes the next attempt at least a second later.
pub proof fn lemma_no_restart_while_backing_off(state: RestartState, now: u64)
    ensures
        (state.next_attempt_at matches Some(at) && now < at) ==> supervised(state, true, false, now).1
            == Supervision::Wait,
        supervised(state, true, false, now).1 == Supervision::Restart ==> (supervised(
            state,
            true,
            false,
            now,
        ).0.next_attempt_at matches Some(next) && (next >= now + SECOND || next == u64::MAX)),
{
    let attempts = if state.attempts == u32::MAX {
        state.attempts
    } else {
        (state.attempts + 1) as u32
    };
    lemma_backoff_bounded(attempts);
}

/// A deliberate stop is never undone: while the highlighter should not run,
/// supervising it neither restarts it nor changes the backoff.
pub proof fn lemma_deliberate_stop_is_kept(state: RestartState, running: bool, now: u64)
    ensures
        supervised(state, false, running, now) == (state, Supervision::Wait),
{
}

/// The bookkeeping of the highlighter service: whether the highlighter is
/// meant to run, whether a worker is live, and the restart backoff.
///
/// The worker itself (a thread that owns the highlighter process) belongs to
/// whoever drives the service: each method says what to do with it, and the
/// driver reports back what happened to it.
#[derive(Debug, Clone, Copy, PartialEq, Eq, Structural)]
pub struct HighlighterService {
    /// Whether the highlighter is meant to be running, so an unexpected exit
    /// can be told apart from a deliberate stop.
    pub should_run: bool,
    /// Whether the service owns a live worker.
    pub has_worker: bool,
    /// Backoff for restarting a highlighter that exited unexpectedly.
    pub restart: RestartState,
}

/// What toggling the service asks of its driver.
#[derive(Debug, Clone, Copy, PartialEq, Eq, Structural)]
pub enum Toggle {
    /// Stop the live worker: the service is now stopped.
    StopWorker,
    /// Spawn a worker: the service is now started.
    SpawnWorker,
}

/// The service after a deliberate stop.
pub open spec fn stopped(service: HighlighterService) -> HighlighterService {
    HighlighterService { should_run: false, has_worker: false, ..service }
}

/// The service, and the decision taken, after supervising it at `now`.
pub open spec fn supervise_service(service: HighlighterService, now: u64) -> (
    HighlighterService,
    Supervision,
) {
    let (restart, decision) = supervised(service.restart, service.should_run, service.has_worker, now);
    (HighlighterService { restart, ..service }, decision)
}

impl HighlighterService {
    /// A service that is not started: no worker, nothing to restart.
    pub fn new() -> (service: Self)
        ensures
            service == (HighlighterService {
                should_run: false,
                has_worker: false,
                restart: RestartState { attempts: 0, next_attempt_at: None, last_start: None },
            }),
    {
        HighlighterService { should_run: false, has_worker: false, restart: RestartState::default() }
    }

    /// Starts the highlighter: from now on it is meant to run. Returns whether
    /// a worker must be spawned, which is when none is live.
    pub fn start(&mut self) -> (spawn: bool)
        ensures
            *final(self) == (HighlighterService { should_run: true, ..*old(self) }),
            spawn == !old(self).has_worker,
    {
        self.should_run = true;
        !self.has_worker
    }

    /// Records that a worker was spawned.
    pub fn spawned(&mut self)
        ensures
            *final(self) == (HighlighterService { has_worker: true, ..*old(self) }),
    {
        self.has_worker = true;
    }

    /// Stops the highlighter deliberately, so that supervision does not undo
    /// it, and forgets the worker: its driver stops the worker it holds, if
    /// any ([`is_running`](Self::is_running) before the call tells). Returns
    /// whether the service runs afterwards: never.
    pub fn stop(&mut self) -> (running: bool)
        ensures
            *final(self) == stopped(*old(self)),
            !running,
    {
        self.should_run = false;
        self.has_worker = false;
        false
    }

    /// Forgets a worker whose thread has exited (`finished`). Returns whether
    /// there was one to join.
    pub fn reap_finished_worker(&mut self, finished: bool) -> (join: bool)
        ensures
            join == (old(self).has_worker && finished),
            *final(self) == if join {
                HighlighterService { has_worker: false, ..*old(self) }
            } else {
                *old(self)
            },
    {
        if self.has_worker && finished {
            self.has_worker = false;
            true
        } else {
            false
        }
    }

    /// Whether a live worker is owned by the service.
    pub fn is_running(&self) -> (running: bool)
        ensures
            running == self.has_worker,
    {
        self.has_worker
    }

    /// Starts a stopped service and stops a running one: the tray's single
    /// action for the highlighter.
    pub fn toggle(&mut self) -> (action: Toggle)
        ensures
            old(self).has_worker ==> action == Toggle::StopWorker && *final(self) == stopped(*old(self)),
            !old(self).has_worker ==> action == Toggle::SpawnWorker && *final(self) == (HighlighterService {
                should_run: true,
                ..*old(self)
            }),
    {
        if self.is_running() {
            self.stop();
            Toggle::StopWorker
        } else {
            self.start();
            Toggle::SpawnWorker
        }
    }

    /// Supervises the highlighter at `now`: restarts it if it exited without
    /// being asked to, backing off between attempts (see
    /// [`RestartState::supervise`]).
    pub fn ensure_running(&mut self, now: u64) -> (decision: Supervision)
        ensures
            (*final(self), decision) == supervise_service(*old(self), now),
    {
        self.restart.supervise(self.should_run, self.has_worker, now)
    }

    /// Records that a restart at `now` spawned a worker.
    pub fn restarted(&mut self, now: u64)
        ensures
            *final(self) == (HighlighterService {
                has_worker: true,
                restart: RestartState { last_start: Some(now), ..old(self).restart },
                ..*old(self)
            }),
    {
        self.has_worker = true;
        self.restart.restarted(now);
    }
}

/// A deliberate stop is kept: once the service is stopped, supervising it at
/// any time restarts nothing and changes nothing.
pub proof fn lemma_stopped_service_stays_stopped(service: HighlighterService, now: u64)
    ensures
        supervise_service(stopped(service), now) == (stopped(service), Supervision::Wait),
{
}

/// A live worker is never restarted: supervision restarts only a highlighter
/// that should run and has no worker.
pub proof fn lemma_only_dead_highlighter_restarts(service: HighlighterService, now: u64)
    ensures
        supervise_service(service, now).1 == Supervision::Restart ==> service.should_run
            && !service.has_worker,
{
}

} // verus!
