//! Error logging: categorisation, counters by category, and a bounded history of
//! the errors logged.

use crate::clock::system_time_now;
use crate::error::{copy_opt_string, opt_view, ErrorContext, NetworkError};
use std::collections::VecDeque;
use std::time::SystemTime;
use vstd::prelude::*;

verus! {

broadcast use vstd::std_specs::vecdeque::group_vec_dequeue_axioms;

/// Error category for classification
#[derive(Debug, Clone, Copy, PartialEq, Eq, Structural)]
pub enum ErrorCategory {
    /// Connection-related errors
    Connection,
    /// Message-related errors
    Message,
    /// Peer-related errors
    Peer,
    /// Configuration errors
    Configuration,
    /// Timeout errors
    Timeout,
    /// Rate limiting errors
    RateLimit,
    /// Resource errors
    Resource,
    /// Critical errors
    Critical,
    /// Other errors
    Other,
}

/// The category of each kind of error.
pub open spec fn category_of(error: NetworkError) -> ErrorCategory {
    match error {
        NetworkError::ConnectionFailed(_) => ErrorCategory::Connection,
        NetworkError::ConnectionTimeout(_) => ErrorCategory::Connection,
        NetworkError::ConnectionRefused(_) => ErrorCategory::Connection,
        NetworkError::ConnectionReset(_) => ErrorCategory::Connection,
        NetworkError::HandshakeFailed(_) => ErrorCategory::Connection,
        NetworkError::SerializationError(_) => ErrorCategory::Message,
        NetworkError::DeserializationError(_) => ErrorCategory::Message,
        NetworkError::MessageParsingFailed(_) => ErrorCategory::Message,
        NetworkError::MalformedMessage(_) => ErrorCategory::Message,
        NetworkError::InvalidMessageFormat(_) => ErrorCategory::Message,
        NetworkError::MessageTooLarge(_, _) => ErrorCategory::Message,
        NetworkError::InvalidPeer(_) => ErrorCategory::Peer,
        NetworkError::PeerNotFound(_) => ErrorCategory::Peer,
        NetworkError::PeerDisconnected(_) => ErrorCategory::Peer,
        NetworkError::PeerUnhealthy(_) => ErrorCategory::Peer,
        NetworkError::ConfigurationError(_) => ErrorCategory::Configuration,
        NetworkError::InvalidConfiguration(_) => ErrorCategory::Configuration,
        NetworkError::OperationTimeout(_) => ErrorCategory::Timeout,
        NetworkError::RateLimitExceeded(_) => ErrorCategory::RateLimit,
        NetworkError::ResourceExhaustion(_) => ErrorCategory::Resource,
        NetworkError::CriticalError(_) => ErrorCategory::Critical,
        _ => ErrorCategory::Other,
    }
}

impl ErrorCategory {
    /// Get category from error
    pub fn from_error(error: &NetworkError) -> (c: Self)
        ensures
            c == category_of(*error),
    {
        match error {
            NetworkError::ConnectionFailed(_) | NetworkError::ConnectionTimeout(_)
            | NetworkError::ConnectionRefused(_) | NetworkError::ConnectionReset(_)
            | NetworkError::HandshakeFailed(_) => ErrorCategory::Connection,
            NetworkError::SerializationError(_) | NetworkError::DeserializationError(_)
            | NetworkError::MessageParsingFailed(_) | NetworkError::MalformedMessage(_)
            | NetworkError::InvalidMessageFormat(_) | NetworkError::MessageTooLarge(_, _) => {
                ErrorCategory::Message
            },
            NetworkError::InvalidPeer(_) | NetworkError::PeerNotFound(_)
            | NetworkError::PeerDisconnected(_) | NetworkError::PeerUnhealthy(_) => {
                ErrorCategory::Peer
            },
            NetworkError::ConfigurationError(_) | NetworkError::InvalidConfiguration(_) => {
                ErrorCategory::Configuration
            },
            NetworkError::OperationTimeout(_) => ErrorCategory::Timeout,
            NetworkError::RateLimitExceeded(_) => ErrorCategory::RateLimit,
            NetworkError::ResourceExhaustion(_) => ErrorCategory::Resource,
            NetworkError::CriticalError(_) => ErrorCategory::Critical,
            _ => ErrorCategory::Other,
        }
    }
}

/// Error log entry
#[derive(Debug)]
pub struct ErrorLogEntry {
    /// Text of the error that occurred
    pub error: String,
    /// Error context
    pub context: ErrorContext,
    /// Error category
    pub category: ErrorCategory,
    /// Timestamp
    pub timestamp: SystemTime,
    /// Whether error was recovered
    pub recovered: bool,
    /// Recovery action taken
    pub recovery_action: Option<String>,
}

impl Clone for ErrorLogEntry {
    fn clone(&self) -> (res: Self)
        ensures
            res == *self,
    {
        ErrorLogEntry {
            error: self.error.clone(),
            context: self.context.clone(),
            category: self.category,
            timestamp: self.timestamp,
            recovered: self.recovered,
            recovery_action: copy_opt_string(&self.recovery_action),
        }
    }
}

/// Error counters, by category.
#[derive(Debug, Clone, Copy)]
pub struct ErrorMetrics {
    /// Total errors
    pub total_errors: u64,
    /// Connection errors
    pub connection_errors: u64,
    /// Message errors
    pub message_errors: u64,
    /// Peer errors
    pub peer_errors: u64,
    /// Timeout errors
    pub timeout_errors: u64,
    /// Rate limit errors
    pub rate_limit_errors: u64,
    /// Critical errors
    pub critical_errors: u64,
    /// Recovered errors
    pub recovered_errors: u64,
}

impl Default for ErrorMetrics {
    fn default() -> (m: Self)
        ensures
            m == ErrorMetrics::zero(),
    {
        ErrorMetrics {
            total_errors: 0,
            connection_errors: 0,
            message_errors: 0,
            peer_errors: 0,
            timeout_errors: 0,
            rate_limit_errors: 0,
            critical_errors: 0,
            recovered_errors: 0,
        }
    }
}

/// `n + 1`, wrapping at `u64::MAX`.
pub open spec fn bump(n: u64) -> u64 {
    if n == u64::MAX {
        0
    } else {
        (n + 1) as u64
    }
}

impl ErrorMetrics {
    /// All counters at zero.
    pub open spec fn zero() -> ErrorMetrics {
        ErrorMetrics {
            total_errors: 0,
            connection_errors: 0,
            message_errors: 0,
            peer_errors: 0,
            timeout_errors: 0,
            rate_limit_errors: 0,
            critical_errors: 0,
            recovered_errors: 0,
        }
    }

    /// The counters after one more error of `category`: the total, and the counter
    /// of the category where it has one (resource, configuration and other errors
    /// have none). Counters wrap around at `u64::MAX`.
    pub open spec fn after_error(self, category: ErrorCategory) -> ErrorMetrics {
        let m = ErrorMetrics { total_errors: bump(self.total_errors), ..self };
        match category {
            ErrorCategory::Connection => ErrorMetrics {
                connection_errors: bump(self.connection_errors),
                ..m
            },
            ErrorCategory::Message => ErrorMetrics { message_errors: bump(self.message_errors), ..m },
            ErrorCategory::Peer => ErrorMetrics { peer_errors: bump(self.peer_errors), ..m },
            ErrorCategory::Timeout => ErrorMetrics { timeout_errors: bump(self.timeout_errors), ..m },
            ErrorCategory::RateLimit => ErrorMetrics {
                rate_limit_errors: bump(self.rate_limit_errors),
                ..m
            },
            ErrorCategory::Critical => ErrorMetrics {
                critical_errors: bump(self.critical_errors),
                ..m
            },
            _ => m,
        }
    }

    /// The counters after one more recovered error.
    pub open spec fn after_recovered(self) -> ErrorMetrics {
        ErrorMetrics { recovered_errors: bump(self.recovered_errors), ..self }
    }

    /// Record error
    pub fn record_error(&mut self, category: ErrorCategory)
        ensures
            *final(self) == old(self).after_error(category),
    {
        self.total_errors = self.total_errors.wrapping_add(1);
        match category {
            ErrorCategory::Connection => {
                self.connection_errors = self.connection_errors.wrapping_add(1);
            },
            ErrorCategory::Message => {
                self.message_errors = self.message_errors.wrapping_add(1);
            },
            ErrorCategory::Peer => {
                self.peer_errors = self.peer_errors.wrapping_add(1);
            },
            ErrorCategory::Timeout => {
                self.timeout_errors = self.timeout_errors.wrapping_add(1);
            },
            ErrorCategory::RateLimit => {
                self.rate_limit_errors = self.rate_limit_errors.wrapping_add(1);
            },
            ErrorCategory::Critical => {
                self.critical_errors = self.critical_errors.wrapping_add(1);
            },
            _ => {},
        }
    }

    /// Record recovered error
    pub fn record_recovered(&mut self)
        ensures
            *final(self) == old(self).after_recovered(),
    {
        self.recovered_errors = self.recovered_errors.wrapping_add(1);
    }

    /// Get total errors
    pub fn get_total_errors(&self) -> (n: u64)
        ensures
            n == self.total_errors,
    {
        self.total_errors
    }

    /// Get connection errors
    pub fn get_connection_errors(&self) -> (n: u64)
        ensures
            n == self.connection_errors,
    {
        self.connection_errors
    }

    /// Get message errors
    pub fn get_message_errors(&self) -> (n: u64)
        ensures
            n == self.message_errors,
    {
        self.message_errors
    }

    /// Get peer errors
    pub fn get_peer_errors(&self) -> (n: u64)
        ensures
            n == self.peer_errors,
    {
        self.peer_errors
    }

    /// Get timeout errors
    pub fn get_timeout_errors(&self) -> (n: u64)
        ensures
            n == self.timeout_errors,
    {
        self.timeout_errors
    }

    /// Get rate limit errors
    pub fn get_rate_limit_errors(&self) -> (n: u64)
        ensures
            n == self.rate_limit_errors,
    {
        self.rate_limit_errors
    }

    /// Get critical errors
    pub fn get_critical_errors(&self) -> (n: u64)
        ensures
            n == self.critical_errors,
    {
        self.critical_errors
    }

    /// Get recovered errors
    pub fn get_recovered_errors(&self) -> (n: u64)
        ensures
            n == self.recovered_errors,
    {
        self.recovered_errors
    }
}

/// Error summary statistics
#[derive(Debug, Clone, Copy)]
pub struct ErrorSummary {
    /// Total errors
    pub total_errors: u64,
    /// Connection errors
    pub connection_errors: u64,
    /// Message errors
    pub message_errors: u64,
    /// Peer errors
    pub peer_errors: u64,
    /// Timeout errors
    pub timeout_errors: u64,
    /// Rate limit errors
    pub rate_limit_errors: u64,
    /// Critical errors
    pub critical_errors: u64,
    /// Recovered errors
    pub recovered_errors: u64,
}

/// The summary of a set of counters.
pub open spec fn summary_of(m: ErrorMetrics) -> ErrorSummary {
    ErrorSummary {
        total_errors: m.total_errors,
        connection_errors: m.connection_errors,
        message_errors: m.message_errors,
        peer_errors: m.peer_errors,
        timeout_errors: m.timeout_errors,
        rate_limit_errors: m.rate_limit_errors,
        critical_errors: m.critical_errors,
        recovered_errors: m.recovered_errors,
    }
}

/// What a log entry records of a logged error.
pub open spec fn entry_records(
    entry: ErrorLogEntry,
    error: NetworkError,
    context: ErrorContext,
    recovered: bool,
    recovery_action: Option<Seq<char>>,
) -> bool {
    &&& entry.error@ == error.display_text()
    &&& entry.context == context
    &&& entry.category == category_of(error)
    &&& entry.recovered == recovered
    &&& opt_view(entry.recovery_action) == recovery_action
}

/// The history after one more entry, the history holding at most `max` entries:
/// the oldest entry leaves first where the history is at its limit, and a limit
/// of zero keeps no entry at all.
pub open spec fn history_after(history: Seq<ErrorLogEntry>, max: usize, entry: ErrorLogEntry) -> Seq<
    ErrorLogEntry,
> {
    if max == 0 {
        history
    } else if history.len() >= max {
        history.drop_first().push(entry)
    } else {
        history.push(entry)
    }
}

/// Entries of one category.
pub open spec fn in_category(category: ErrorCategory) -> spec_fn(ErrorLogEntry) -> bool {
    |e: ErrorLogEntry| e.category == category
}

/// What logging an error does to a logger: the counters count it, and the
/// history gains an entry that records it.
pub open spec fn log_step(
    pre: ErrorLogger,
    post: ErrorLogger,
    error: NetworkError,
    context: ErrorContext,
    recovered: bool,
    recovery_action: Option<Seq<char>>,
) -> bool {
    &&& post.max_history() == pre.max_history()
    &&& post.metrics() == if recovered {
        pre.metrics().after_error(category_of(error)).after_recovered()
    } else {
        pre.metrics().after_error(category_of(error))
    }
    &&& pre.max_history() == 0 ==> post.history() == pre.history()
    &&& pre.max_history() > 0 ==> {
        &&& post.history().len() > 0
        &&& post.history() == history_after(pre.history(), pre.max_history(), post.history().last())
        &&& entry_records(post.history().last(), error, context, recovered, recovery_action)
    }
}

/// Error logger for tracking and reporting errors
pub struct ErrorLogger {
    history: VecDeque<ErrorLogEntry>,
    max_history_size: usize,
    metrics: ErrorMetrics,
}

impl ErrorLogger {
    /// The entries, oldest first
    pub closed spec fn history(&self) -> Seq<ErrorLogEntry> {
        self.history@
    }

    /// The history limit
    pub closed spec fn max_history(&self) -> usize {
        self.max_history_size
    }

    /// The counters
    pub closed spec fn metrics(&self) -> ErrorMetrics {
        self.metrics
    }

    /// The history holds no more entries than its limit.
    pub closed spec fn wf(&self) -> bool {
        self.history@.len() <= self.max_history_size
    }

    /// Create a new error logger
    pub fn new(max_history_size: usize) -> (l: Self)
        ensures
            l.wf(),
            l.history() == Seq::<ErrorLogEntry>::empty(),
            l.max_history() == max_history_size,
            l.metrics() == ErrorMetrics::zero(),
    {
        ErrorLogger {
            history: VecDeque::new(),
            max_history_size,
            metrics: ErrorMetrics::default(),
        }
    }

    /// Log an error
    pub fn log_error(
        &mut self,
        error: &NetworkError,
        context: &ErrorContext,
        recovered: bool,
        recovery_action: Option<String>,
    )
        requires
            old(self).wf(),
        ensures
            final(self).wf(),
            final(self).history().len() <= final(self).max_history(),
            log_step(
                *old(self),
                *final(self),
                *error,
                *context,
                recovered,
                opt_view(recovery_action),
            ),
    {
        let category = ErrorCategory::from_error(error);
        self.metrics.record_error(category);
        if recovered {
            self.metrics.record_recovered();
        }
        let entry = ErrorLogEntry {
            error: error.to_string(),
            context: context.clone(),
            category,
            timestamp: system_time_now(),
            recovered,
            recovery_action,
        };
        if self.max_history_size > 0 {
            if self.history.len() >= self.max_history_size {
                self.history.pop_front();
            }
            self.history.push_back(entry);
        }
        proof {
            let h0 = old(self).history@;
            if h0.len() >= old(self).max_history_size && old(self).max_history_size > 0 {
                assert(h0.subrange(1, h0.len() as int) =~= h0.drop_first());
            }
        }
    }

    /// Get error history, oldest first
    pub fn get_history(&self) -> (v: Vec<ErrorLogEntry>)
        ensures
            v@ == self.history(),
    {
        let mut v: Vec<ErrorLogEntry> = Vec::new();
        let n = self.history.len();
        let mut i: usize = 0;
        while i < n
            invariant
                n == self.history@.len(),
                i <= n,
                v@ == self.history@.take(i as int),
            decreases n - i,
        {
            v.push(self.history[i].clone());
            proof {
                assert(self.history@.take(i as int).push(self.history@[i as int])
                    =~= self.history@.take(i + 1));
            }
            i = i + 1;
        }
        proof {
            assert(self.history@.take(n as int) =~= self.history@);
        }
        v
    }

    /// Get recent errors: the last `count` entries, oldest first
    pub fn get_recent_errors(&self, count: usize) -> (v: Vec<ErrorLogEntry>)
        ensures
            v@ == self.history().skip(
                self.history().len() - (if count < self.history().len() {
                    count as int
                } else {
                    self.history().len() as int
                }),
            ),
    {
        let n = self.history.len();
        let start = if count < n {
            n - count
        } else {
            0
        };
        let mut v: Vec<ErrorLogEntry> = Vec::new();
        let mut i: usize = start;
        while i < n
            invariant
                n == self.history@.len(),
                start <= i <= n,
                v@ == self.history@.subrange(start as int, i as int),
            decreases n - i,
        {
            v.push(self.history[i].clone());
            proof {
                assert(self.history@.subrange(start as int, i as int).push(self.history@[i as int])
                    =~= self.history@.subrange(start as int, i + 1));
            }
            i = i + 1;
        }
        proof {
            assert(self.history@.subrange(start as int, n as int) =~= self.history@.skip(
                start as int,
            ));
        }
        v
    }

    /// Get errors by category, oldest first
    pub fn get_errors_by_category(&self, category: ErrorCategory) -> (v: Vec<ErrorLogEntry>)
        ensures
            v@ == self.history().filter(in_category(category)),
    {
        let ghost pred = in_category(category);
        let mut v: Vec<ErrorLogEntry> = Vec::new();
        let n = self.history.len();
        let mut i: usize = 0;
        while i < n
            invariant
                n == self.history@.len(),
                i <= n,
                pred == in_category(category),
                v@ == self.history@.take(i as int).filter(pred),
            decreases n - i,
        {
            let e = &self.history[i];
            proof {
                let s = self.history@.take(i as int);
                assert(s.push(self.history@[i as int]) =~= self.history@.take(i + 1));
                s.lemma_filter_push(self.history@[i as int], pred);
            }
            if e.category == category {
                v.push(e.clone());
            }
            i = i + 1;
        }
        proof {
            assert(self.history@.take(n as int) =~= self.history@);
        }
        v
    }

    /// Get metrics
    pub fn get_metrics(&self) -> (m: ErrorMetrics)
        ensures
            m == self.metrics(),
    {
        self.metrics
    }

    /// Clear history; the counters stay.
    pub fn clear_history(&mut self)
        ensures
            final(self).wf(),
            final(self).history() == Seq::<ErrorLogEntry>::empty(),
            final(self).max_history() == old(self).max_history(),
            final(self).metrics() == old(self).metrics(),
    {
        self.history = VecDeque::new();
    }

    /// Get error summary
    pub fn get_summary(&self) -> (s: ErrorSummary)
        ensures
            s == summary_of(self.metrics()),
    {
        ErrorSummary {
            total_errors: self.metrics.get_total_errors(),
            connection_errors: self.metrics.get_connection_errors(),
            message_errors: self.metrics.get_message_errors(),
            peer_errors: self.metrics.get_peer_errors(),
            timeout_errors: self.metrics.get_timeout_errors(),
            rate_limit_errors: self.metrics.get_rate_limit_errors(),
            critical_errors: self.metrics.get_critical_errors(),
            recovered_errors: self.metrics.get_recovered_errors(),
        }
    }
}

/// Logging keeps the history within its maximum size, and the last entries logged
/// are the ones kept: after logging, the history is the old one with the new entry
/// appended, less its oldest entry where the maximum was reached; a maximum of
/// zero keeps the history empty.
pub proof fn law_history_bounded(history: Seq<ErrorLogEntry>, max: usize, entry: ErrorLogEntry)
    requires
        history.len() <= max,
    ensures
        history_after(history, max, entry).len() <= max,
        max > 0 ==> history_after(history, max, entry).last() == entry,
        history.len() < max ==> history_after(history, max, entry) == history.push(entry),
        max == 0 ==> history_after(history, max, entry).len() == 0,
{
}

/// Each logged error adds one to the total and, where its category has a
/// counter, one to that counter; recovery adds one to the recovered counter
/// (below the wrap-around at `u64::MAX`).
pub proof fn law_metrics_count_each_error(m: ErrorMetrics, error: NetworkError)
    requires
        m.total_errors < u64::MAX,
        m.connection_errors < u64::MAX,
        m.message_errors < u64::MAX,
    ensures
        m.after_error(category_of(error)).total_errors == m.total_errors + 1,
        category_of(error) == ErrorCategory::Connection ==> m.after_error(
            category_of(error),
        ).connection_errors == m.connection_errors + 1,
        category_of(error) != ErrorCategory::Connection ==> m.after_error(
            category_of(error),
        ).connection_errors == m.connection_errors,
        category_of(error) == ErrorCategory::Message ==> m.after_error(
            category_of(error),
        ).message_errors == m.message_errors + 1,
        m.after_error(category_of(error)).recovered_errors == m.recovered_errors,
{
}

/// The counters after a sequence of updates, oldest first: `Some(c)` records an
/// error of category `c`, `None` a recovered error.
pub open spec fn after_updates(m: ErrorMetrics, updates: Seq<Option<ErrorCategory>>) -> ErrorMetrics
    decreases updates.len(),
{
    if updates.len() == 0 {
        m
    } else {
        let prev = after_updates(m, updates.drop_last());
        match updates.last() {
            Some(c) => prev.after_error(c),
            None => prev.after_recovered(),
        }
    }
}

/// The number of errors among the updates.
pub open spec fn error_updates(updates: Seq<Option<ErrorCategory>>) -> nat
    decreases updates.len(),
{
    if updates.len() == 0 {
        0
    } else {
        error_updates(updates.drop_last()) + if updates.last() is Some {
            1nat
        } else {
            0nat
        }
    }
}

/// The number of errors of `category` among the updates.
pub open spec fn category_updates(updates: Seq<Option<ErrorCategory>>, category: ErrorCategory) -> nat
    decreases updates.len(),
{
    if updates.len() == 0 {
        0
    } else {
        category_updates(updates.drop_last(), category) + if updates.last() == Some(category) {
            1nat
        } else {
            0nat
        }
    }
}

/// The number of recoveries among the updates.
pub open spec fn recovery_updates(updates: Seq<Option<ErrorCategory>>) -> nat
    decreases updates.len(),
{
    if updates.len() == 0 {
        0
    } else {
        recovery_updates(updates.drop_last()) + if updates.last() is None {
            1nat
        } else {
            0nat
        }
    }
}

/// Counters that start at zero count every update, whatever their order (below
/// the wrap-around at `u64::MAX`): the total counts the errors, each category's
/// counter the errors of its category, the recovered counter the recoveries; and
/// the categories' counters together never exceed the total.
pub proof fn law_metrics_count_updates(updates: Seq<Option<ErrorCategory>>)
    requires
        updates.len() < u64::MAX,
    ensures
        after_updates(ErrorMetrics::zero(), updates).total_errors == error_updates(updates),
        after_updates(ErrorMetrics::zero(), updates).connection_errors == category_updates(
            updates,
            ErrorCategory::Connection,
        ),
        after_updates(ErrorMetrics::zero(), updates).message_errors == category_updates(
            updates,
            ErrorCategory::Message,
        ),
        after_updates(ErrorMetrics::zero(), updates).peer_errors == category_updates(
            updates,
            ErrorCategory::Peer,
        ),
        after_updates(ErrorMetrics::zero(), updates).timeout_errors == category_updates(
            updates,
            ErrorCategory::Timeout,
        ),
        after_updates(ErrorMetrics::zero(), updates).rate_limit_errors == category_updates(
            updates,
            ErrorCategory::RateLimit,
        ),
        after_updates(ErrorMetrics::zero(), updates).critical_errors == category_updates(
            updates,
            ErrorCategory::Critical,
        ),
        after_updates(ErrorMetrics::zero(), updates).recovered_errors == recovery_updates(updates),
        ({
            let m = after_updates(ErrorMetrics::zero(), updates);
            m.connection_errors + m.message_errors + m.peer_errors + m.timeout_errors
                + m.rate_limit_errors + m.critical_errors <= m.total_errors
        }),
        error_updates(updates) + recovery_updates(updates) == updates.len(),
    decreases updates.len(),
{
    if updates.len() > 0 {
        let rest = updates.drop_last();
        law_metrics_count_updates(rest);
    }
}

} // verus!
