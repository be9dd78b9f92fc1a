//! Retrying Valkey commands while the server cannot be reached.
use std::collections::VecDeque;
use vstd::prelude::*;
use crate::time::Duration;

verus! {

/// How often a command is tried, and how long to wait in between.
#[derive(Debug, Clone, Copy, PartialEq, Eq)]
pub struct ValkeyRecoveryConfig {
    pub retry_attempts: usize,
    pub initial_backoff: Duration,
    pub max_backoff: Duration,
    pub probe_interval: Duration,
}

impl Default for ValkeyRecoveryConfig {
    fn default() -> (r: Self)
        ensures
            r.retry_attempts == 3,
            r.initial_backoff@ == 25_000_000,
            r.max_backoff@ == 250_000_000,
            r.probe_interval@ == 250_000_000,
    {
        ValkeyRecoveryConfig {
            retry_attempts: 3,
            initial_backoff: Duration::from_millis(25),
            max_backoff: Duration::from_millis(250),
            probe_interval: Duration::from_millis(250),
        }
    }
}

/// What distinguishes the errors of the client library that matter here.
#[derive(Debug, Clone, Copy, PartialEq, Eq, Structural)]
pub enum RedisErrorClass {
    Io,
    ClusterConnectionNotFound,
    BusyLoading,
    ClusterDown,
    MasterDown,
    TryAgain,
    Other,
}

/// What an error of the client library says about the connection.
#[derive(Debug, Clone, Copy, PartialEq, Eq, Structural)]
pub struct RedisErrorSigns {
    pub connection_dropped: bool,
    pub connection_refused: bool,
    pub timed_out: bool,
    pub class: RedisErrorClass,
}

/// Whether an error means that the server cannot be reached, or cannot answer
/// for now.
pub open spec fn connection_issue(signs: RedisErrorSigns) -> bool {
    signs.connection_dropped || signs.connection_refused || signs.timed_out || signs.class
        != RedisErrorClass::Other
}

/// Whether an error means that the server cannot be reached, or cannot answer
/// for now.
pub fn is_connection_issue(signs: &RedisErrorSigns) -> (r: bool)
    ensures
        r == connection_issue(*signs),
{
    signs.connection_dropped || signs.connection_refused || signs.timed_out || match signs.class {
        RedisErrorClass::Io => true,
        RedisErrorClass::ClusterConnectionNotFound => true,
        RedisErrorClass::BusyLoading => true,
        RedisErrorClass::ClusterDown => true,
        RedisErrorClass::MasterDown => true,
        RedisErrorClass::TryAgain => true,
        RedisErrorClass::Other => false,
    }
}

#[derive(Debug, PartialEq, Eq)]
pub enum ValkeyRuntimeEvent {
    Degraded { error: String },
    Recovered,
}

/// How a command ended: with an answer, or given up because the server could
/// not be reached.
#[derive(Debug, PartialEq, Eq)]
pub enum ValkeyCommandOutcome<T> {
    Available(T),
    Degraded,
}

/// How many times a command is tried: at least once.
pub open spec fn attempts_of(config: ValkeyRecoveryConfig) -> int {
    if config.retry_attempts == 0 {
        1
    } else {
        config.retry_attempts as int
    }
}

/// The wait after the attempt of the given number, in nanoseconds: the first
/// one is as configured, and each one after it twice the one before, up to the
/// configured longest.
pub open spec fn backoff_after(config: ValkeyRecoveryConfig, attempt: nat) -> int
    decreases attempt,
{
    if attempt == 0 {
        config.initial_backoff@
    } else {
        let doubled = backoff_after(config, (attempt - 1) as nat) * 2;
        if doubled <= config.max_backoff@ {
            doubled
        } else {
            config.max_backoff@
        }
    }
}

/// No wait but the first is longer than the configured longest.
pub proof fn law_backoff_bounded(config: ValkeyRecoveryConfig, attempt: nat)
    requires
        attempt > 0,
    ensures
        backoff_after(config, attempt) <= config.max_backoff@,
{
}

/// The attempts at a command.
#[derive(Debug)]
pub struct CommandAttempts {
    config: ValkeyRecoveryConfig,
    made: usize,
    backoff: Duration,
}

/// What follows an attempt that could not reach the server.
#[derive(Debug, Clone, Copy, PartialEq, Eq)]
pub enum RetryStep {
    WaitAndRetry(Duration),
    GiveUp,
}

impl CommandAttempts {
    /// The policy of the attempts.
    pub closed spec fn policy(&self) -> ValkeyRecoveryConfig {
        self.config
    }

    /// How many attempts failed.
    pub closed spec fn failed(&self) -> nat {
        self.made as nat
    }

    #[verifier::type_invariant]
    spec fn consistent(self) -> bool {
        self.made < attempts_of(self.config) ==> self.backoff@ == backoff_after(
            self.config,
            self.made as nat,
        )
    }

    /// Before the first attempt.
    pub fn start(config: ValkeyRecoveryConfig) -> (r: Self)
        ensures
            r.policy() == config,
            r.failed() == 0,
    {
        CommandAttempts { config, made: 0, backoff: config.initial_backoff }
    }

    /// Takes in that an attempt could not reach the server.
    pub fn on_unreachable(self) -> (r: (Self, RetryStep))
        requires
            self.failed() < attempts_of(self.policy()),
        ensures
            r.0.policy() == self.policy(),
            r.0.failed() == self.failed() + 1,
            match r.1 {
                RetryStep::WaitAndRetry(wait) => r.0.failed() < attempts_of(self.policy()) && wait@
                    == backoff_after(self.policy(), self.failed()),
                RetryStep::GiveUp => r.0.failed() == attempts_of(self.policy()),
            },
    {
        proof {
            use_type_invariant(&self);
        }
        let attempts: usize = if self.config.retry_attempts == 0 {
            1
        } else {
            self.config.retry_attempts
        };
        let made: usize = self.made + 1;
        if made < attempts {
            let wait = self.backoff;
            let doubled = wait.saturating_mul(2);
            let longest = self.config.max_backoff;
            let _bound: u128 = longest.as_nanos();
            let backoff = if doubled.shorter_than(&longest) {
                doubled
            } else {
                longest
            };
            assert(backoff@ == backoff_after(self.config, made as nat));
            (
                CommandAttempts { config: self.config, made, backoff },
                RetryStep::WaitAndRetry(wait),
            )
        } else {
            (
                CommandAttempts { config: self.config, made, backoff: self.backoff },
                RetryStep::GiveUp,
            )
        }
    }
}

/// Whether the server is taken to be out of reach, and what was not yet told
/// about it.
#[derive(Debug)]
pub struct ValkeyHealth {
    degraded: bool,
    events: VecDeque<ValkeyRuntimeEvent>,
}

impl View for ValkeyHealth {
    type V = (bool, Seq<ValkeyRuntimeEvent>);

    closed spec fn view(&self) -> (bool, Seq<ValkeyRuntimeEvent>) {
        (self.degraded, self.events@)
    }
}

impl ValkeyHealth {
    pub fn new() -> (r: Self)
        ensures
            r@ == (false, Seq::<ValkeyRuntimeEvent>::empty()),
    {
        ValkeyHealth { degraded: false, events: VecDeque::new() }
    }

    /// Takes in that the server answered.
    pub fn on_answer(&mut self)
        ensures
            final(self)@ == (
                false,
                if old(self)@.0 {
                    old(self)@.1.push(ValkeyRuntimeEvent::Recovered)
                } else {
                    old(self)@.1
                },
            ),
    {
        let was_degraded = self.degraded;
        self.degraded = false;
        if was_degraded {
            self.events.push_back(ValkeyRuntimeEvent::Recovered);
        }
    }

    /// Takes in that a command was given up.
    pub fn on_give_up(&mut self, error: String)
        ensures
            final(self)@ == (
                true,
                if old(self)@.0 {
                    old(self)@.1
                } else {
                    old(self)@.1.push(ValkeyRuntimeEvent::Degraded { error })
                },
            ),
    {
        let was_degraded = self.degraded;
        self.degraded = true;
        if !was_degraded {
            self.events.push_back(ValkeyRuntimeEvent::Degraded { error });
        }
    }

    /// Hands out what was not yet told, oldest first.
    pub fn drain_events(&mut self) -> (r: Vec<ValkeyRuntimeEvent>)
        ensures
            r@ == old(self)@.1,
            final(self)@ == (old(self)@.0, Seq::<ValkeyRuntimeEvent>::empty()),
    {
        let mut events: Vec<ValkeyRuntimeEvent> = Vec::new();
        let ghost all = self.events@;
        assert(events@ + self.events@ =~= all);
        while self.events.len() > 0
            invariant
                self.degraded == old(self)@.0,
                all == old(self)@.1,
                events@ + self.events@ == all,
            decreases self.events@.len(),
        {
            let ghost rest = self.events@;
            let ghost taken = events@;
            match self.events.pop_front() {
                Some(event) => {
                    events.push(event);
                    assert(events@ + self.events@ =~= taken + rest);
                },
                None => {},
            }
        }
        assert(self.events@ =~= Seq::<ValkeyRuntimeEvent>::empty());
        assert(events@ =~= all);
        events
    }
}

/// A command is tried as often as is configured, and at least once: it is given
/// up exactly with the last attempt.
pub proof fn law_call_attempts(
    config: ValkeyRecoveryConfig,
    start: CommandAttempts,
    attempts: CommandAttempts,
    r: (CommandAttempts, RetryStep),
)
    requires
        call_ensures(CommandAttempts::start, (config,), start),
        call_ensures(CommandAttempts::on_unreachable, (attempts,), r),
        attempts.policy() == config,
        attempts.failed() == 0 || attempts.failed() < config.retry_attempts,
    ensures
        start.failed() == 0,
        start.policy() == config,
        r.0.failed() == attempts.failed() + 1,
        r.0.policy() == config,
        r.1 is GiveUp <==> attempts.failed() + 1 >= config.retry_attempts,
{
}

/// The first wait is as configured, and each one after it is twice the one
/// before, or the configured longest where that is shorter.
pub proof fn law_call_waits(
    attempts: CommandAttempts,
    first: (CommandAttempts, RetryStep),
    second: (CommandAttempts, RetryStep),
)
    requires
        call_ensures(CommandAttempts::on_unreachable, (attempts,), first),
        call_ensures(CommandAttempts::on_unreachable, (first.0,), second),
        first.1 is WaitAndRetry,
        second.1 is WaitAndRetry,
    ensures
        attempts.failed() == 0 ==> first.1->WaitAndRetry_0@ == attempts.policy().initial_backoff@,
        first.1->WaitAndRetry_0@ * 2 <= attempts.policy().max_backoff@
            ==> second.1->WaitAndRetry_0@ == first.1->WaitAndRetry_0@ * 2,
        first.1->WaitAndRetry_0@ * 2 > attempts.policy().max_backoff@
            ==> second.1->WaitAndRetry_0@ == attempts.policy().max_backoff@,
{
}

/// A single sign of a lost connection, and each class of error that stands for
/// one, is enough; without any it is no matter of the connection.
pub proof fn law_call_connection_issue(signs: &RedisErrorSigns, r: bool)
    requires
        call_ensures(is_connection_issue, (signs,), r),
    ensures
        signs.connection_dropped ==> r,
        signs.connection_refused ==> r,
        signs.timed_out ==> r,
        signs.class is Io ==> r,
        signs.class is ClusterConnectionNotFound ==> r,
        signs.class is BusyLoading ==> r,
        signs.class is ClusterDown ==> r,
        signs.class is MasterDown ==> r,
        signs.class is TryAgain ==> r,
        !signs.connection_dropped && !signs.connection_refused && !signs.timed_out && signs.class
            is Other ==> !r,
{
}

/// Being out of reach and being back is told when it changes, and only then.
pub proof fn law_call_health(
    health: &mut ValkeyHealth,
    given_up: &mut ValkeyHealth,
    error: String,
)
    requires
        call_ensures(ValkeyHealth::on_answer, (health,), ()),
        call_ensures(ValkeyHealth::on_give_up, (given_up, error), ()),
    ensures
        !final(health)@.0,
        old(health)@.0 ==> final(health)@.1 == old(health)@.1.push(ValkeyRuntimeEvent::Recovered),
        !old(health)@.0 ==> final(health)@.1 == old(health)@.1,
        final(given_up)@.0,
        !old(given_up)@.0 ==> final(given_up)@.1 == old(given_up)@.1.push(
            ValkeyRuntimeEvent::Degraded { error },
        ),
        old(given_up)@.0 ==> final(given_up)@.1 == old(given_up)@.1,
{
}

} // verus!
