//! The errors of the library: what went wrong, and a message for people.
use vstd::prelude::*;
use crate::text::join2;

verus! {

#[derive(Debug, Clone, Copy, PartialEq, Eq, Structural)]
pub enum InvalidJobKind {
    ZeroInterval,
    IntervalOutOfRange,
    CronExpression,
    Other,
}

#[derive(Debug, Clone, Copy, PartialEq, Eq, Structural)]
pub enum StoreErrorKind {
    Connection,
    Data,
    Unknown,
}

#[derive(Debug, Clone, Copy, PartialEq, Eq, Structural)]
pub enum ExecutionGuardErrorKind {
    Connection,
    Data,
    Unknown,
}

#[derive(Debug, Clone, Copy, PartialEq, Eq, Structural)]
pub enum TaskJoinErrorKind {
    Cancelled,
    Panic,
    Unknown,
}

/// A job that the scheduler refuses to run.
#[derive(Debug)]
pub struct InvalidJobError {
    kind: InvalidJobKind,
    message: String,
}

impl View for InvalidJobError {
    type V = (InvalidJobKind, Seq<char>);

    closed spec fn view(&self) -> (InvalidJobKind, Seq<char>) {
        (self.kind, self.message@)
    }
}

impl InvalidJobError {
    pub fn kind(&self) -> (r: InvalidJobKind)
        ensures
            r == self@.0,
    {
        self.kind
    }

    pub fn message(&self) -> (r: &str)
        ensures
            r@ == self@.1,
    {
        self.message.as_str()
    }

    /// The text shown to people: the message alone.
    pub fn to_string(&self) -> (r: String)
        ensures
            r@ == self@.1,
    {
        self.message.as_str().to_owned()
    }
}

/// A failure of a state store.
#[derive(Debug)]
pub struct StoreError {
    kind: StoreErrorKind,
    message: String,
}

impl View for StoreError {
    type V = (StoreErrorKind, Seq<char>);

    closed spec fn view(&self) -> (StoreErrorKind, Seq<char>) {
        (self.kind, self.message@)
    }
}

impl StoreError {
    pub fn new(message: &str, kind: StoreErrorKind) -> (r: Self)
        ensures
            r@ == (kind, message@),
    {
        StoreError { kind, message: message.to_owned() }
    }

    pub fn kind(&self) -> (r: StoreErrorKind)
        ensures
            r == self@.0,
    {
        self.kind
    }

    /// The text shown to people: the message of the failure that is wrapped.
    pub fn to_string(&self) -> (r: String)
        ensures
            r@ == self@.1,
    {
        self.message.as_str().to_owned()
    }
}

/// A failure of an execution guard.
#[derive(Debug)]
pub struct ExecutionGuardError {
    kind: ExecutionGuardErrorKind,
    message: String,
}

impl View for ExecutionGuardError {
    type V = (ExecutionGuardErrorKind, Seq<char>);

    closed spec fn view(&self) -> (ExecutionGuardErrorKind, Seq<char>) {
        (self.kind, self.message@)
    }
}

impl ExecutionGuardError {
    pub fn new(message: &str, kind: ExecutionGuardErrorKind) -> (r: Self)
        ensures
            r@ == (kind, message@),
    {
        ExecutionGuardError { kind, message: message.to_owned() }
    }

    pub fn kind(&self) -> (r: ExecutionGuardErrorKind)
        ensures
            r == self@.0,
    {
        self.kind
    }

    /// The text shown to people: the message of the failure that is wrapped.
    pub fn to_string(&self) -> (r: String)
        ensures
            r@ == self@.1,
    {
        self.message.as_str().to_owned()
    }
}

/// A task that did not come to its end.
#[derive(Debug)]
pub struct TaskJoinError {
    kind: TaskJoinErrorKind,
    message: String,
}

impl View for TaskJoinError {
    type V = (TaskJoinErrorKind, Seq<char>);

    closed spec fn view(&self) -> (TaskJoinErrorKind, Seq<char>) {
        (self.kind, self.message@)
    }
}

impl TaskJoinError {
    pub fn kind(&self) -> (r: TaskJoinErrorKind)
        ensures
            r == self@.0,
    {
        self.kind
    }

    pub fn message(&self) -> (r: &str)
        ensures
            r@ == self@.1,
    {
        self.message.as_str()
    }

    /// The text shown to people: the message alone.
    pub fn to_string(&self) -> (r: String)
        ensures
            r@ == self@.1,
    {
        self.message.as_str().to_owned()
    }
}

#[derive(Debug)]
pub enum SchedulerError {
    InvalidJob(InvalidJobError),
    Store(StoreError),
    ExecutionGuard(ExecutionGuardError),
    TaskJoin(TaskJoinError),
}

/// What a [`SchedulerError`] says: its kind and its message.
pub enum ErrorView {
    InvalidJob(InvalidJobKind, Seq<char>),
    Store(StoreErrorKind, Seq<char>),
    ExecutionGuard(ExecutionGuardErrorKind, Seq<char>),
    TaskJoin(TaskJoinErrorKind, Seq<char>),
}

impl View for SchedulerError {
    type V = ErrorView;

    open spec fn view(&self) -> ErrorView {
        match self {
            SchedulerError::InvalidJob(error) => ErrorView::InvalidJob(error@.0, error@.1),
            SchedulerError::Store(error) => ErrorView::Store(error@.0, error@.1),
            SchedulerError::ExecutionGuard(error) => ErrorView::ExecutionGuard(error@.0, error@.1),
            SchedulerError::TaskJoin(error) => ErrorView::TaskJoin(error@.0, error@.1),
        }
    }
}

/// The error of an interval schedule of length zero.
pub open spec fn zero_interval_error() -> ErrorView {
    ErrorView::InvalidJob(
        InvalidJobKind::ZeroInterval,
        "interval schedule must be greater than zero"@,
    )
}

/// The error of an interval that leaves the calendar.
pub open spec fn interval_out_of_range_error() -> ErrorView {
    ErrorView::InvalidJob(
        InvalidJobKind::IntervalOutOfRange,
        "interval schedule is too large to represent"@,
    )
}

/// The error of a job that is wrong in another way.
pub open spec fn other_job_error(message: Seq<char>) -> ErrorView {
    ErrorView::InvalidJob(InvalidJobKind::Other, message)
}

/// The text that people see for an error.
pub open spec fn error_text(error: ErrorView) -> Seq<char> {
    match error {
        ErrorView::InvalidJob(_, message) => "invalid job: "@ + message,
        ErrorView::Store(_, message) => "state store error: "@ + message,
        ErrorView::ExecutionGuard(_, message) => "execution guard error: "@ + message,
        ErrorView::TaskJoin(_, message) => "task join error: "@ + message,
    }
}

impl SchedulerError {
    /// The text shown to people: where the error comes from, and its message.
    pub fn to_string(&self) -> (r: String)
        ensures
            r@ == error_text(self@),
    {
        match self {
            SchedulerError::InvalidJob(error) => join2("invalid job: ", error.message()),
            SchedulerError::Store(error) => {
                join2("state store error: ", error.message.as_str())
            },
            SchedulerError::ExecutionGuard(error) => {
                join2("execution guard error: ", error.message.as_str())
            },
            SchedulerError::TaskJoin(error) => join2("task join error: ", error.message()),
        }
    }

    pub fn invalid_zero_interval() -> (r: Self)
        ensures
            r@ == zero_interval_error(),
    {
        Self::invalid_job_with_kind(
            InvalidJobKind::ZeroInterval,
            "interval schedule must be greater than zero",
        )
    }

    pub fn invalid_interval_out_of_range() -> (r: Self)
        ensures
            r@ == interval_out_of_range_error(),
    {
        Self::invalid_job_with_kind(
            InvalidJobKind::IntervalOutOfRange,
            "interval schedule is too large to represent",
        )
    }

    pub fn invalid_cron(message: &str) -> (r: Self)
        ensures
            r@ == ErrorView::InvalidJob(InvalidJobKind::CronExpression, message@),
    {
        Self::invalid_job_with_kind(InvalidJobKind::CronExpression, message)
    }

    pub fn invalid_job_with_kind(kind: InvalidJobKind, message: &str) -> (r: Self)
        ensures
            r@ == ErrorView::InvalidJob(kind, message@),
            r is InvalidJob,
    {
        SchedulerError::InvalidJob(InvalidJobError { kind, message: message.to_owned() })
    }

    pub fn store(message: &str, kind: StoreErrorKind) -> (r: Self)
        ensures
            r@ == ErrorView::Store(kind, message@),
    {
        SchedulerError::Store(StoreError::new(message, kind))
    }

    /// The error of a task that was cancelled, that panicked, or that was lost
    /// in some other way; cancellation is looked at first.
    pub fn task_join(is_cancelled: bool, is_panic: bool, message: &str) -> (r: Self)
        ensures
            r@ == ErrorView::TaskJoin(
                if is_cancelled {
                    TaskJoinErrorKind::Cancelled
                } else if is_panic {
                    TaskJoinErrorKind::Panic
                } else {
                    TaskJoinErrorKind::Unknown
                },
                message@,
            ),
    {
        let kind = if is_cancelled {
            TaskJoinErrorKind::Cancelled
        } else if is_panic {
            TaskJoinErrorKind::Panic
        } else {
            TaskJoinErrorKind::Unknown
        };
        SchedulerError::TaskJoin(TaskJoinError { kind, message: message.to_owned() })
    }

    pub fn execution_guard(message: &str, kind: ExecutionGuardErrorKind) -> (r: Self)
        ensures
            r@ == ErrorView::ExecutionGuard(kind, message@),
    {
        SchedulerError::ExecutionGuard(ExecutionGuardError::new(message, kind))
    }
}

/// People see where an error comes from and then its message.
pub proof fn law_call_error_text(error: &SchedulerError, r: String)
    requires
        call_ensures(SchedulerError::to_string, (error,), r),
    ensures
        *error matches SchedulerError::InvalidJob(cause) ==> r@ == "invalid job: "@ + cause@.1,
        *error matches SchedulerError::Store(cause) ==> r@ == "state store error: "@ + cause@.1,
        *error matches SchedulerError::ExecutionGuard(cause) ==> r@ == "execution guard error: "@
            + cause@.1,
        *error matches SchedulerError::TaskJoin(cause) ==> r@ == "task join error: "@ + cause@.1,
{
}

/// The two errors of an interval: one of length zero, and one that leaves the
/// calendar.
pub proof fn law_call_interval_errors(zero: SchedulerError, too_large: SchedulerError)
    requires
        call_ensures(SchedulerError::invalid_zero_interval, (), zero),
        call_ensures(SchedulerError::invalid_interval_out_of_range, (), too_large),
    ensures
        zero@ == ErrorView::InvalidJob(
            InvalidJobKind::ZeroInterval,
            "interval schedule must be greater than zero"@,
        ),
        too_large@ == ErrorView::InvalidJob(
            InvalidJobKind::IntervalOutOfRange,
            "interval schedule is too large to represent"@,
        ),
{
}

/// A task that was cancelled counts as cancelled, even where it also panicked.
pub proof fn law_call_task_join(cancelled: bool, panicked: bool, message: &str, r: SchedulerError)
    requires
        call_ensures(SchedulerError::task_join, (cancelled, panicked, message), r),
    ensures
        cancelled ==> r@ == ErrorView::TaskJoin(TaskJoinErrorKind::Cancelled, message@),
        !cancelled && panicked ==> r@ == ErrorView::TaskJoin(TaskJoinErrorKind::Panic, message@),
        !cancelled && !panicked ==> r@ == ErrorView::TaskJoin(
            TaskJoinErrorKind::Unknown,
            message@,
        ),
{
}

} // verus!
