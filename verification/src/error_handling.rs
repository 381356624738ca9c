//! The error handling pipeline: an error is classified, reported to a custom
//! handler, turned into a recovery action, and logged.

use crate::error::{
    opt_view, DefaultErrorHandler, ErrorContext, ErrorHandler, NetworkError, RecoveryStrategy,
};
use crate::error_logging::{log_step, ErrorCategory, ErrorLogEntry, ErrorLogger, ErrorSummary};
use crate::error_recovery::{recovery_step, ErrorRecoveryManager, RecoveryAction};
use vstd::prelude::*;

verus! {

/// The peer an error is attributed to: the context's peer, or `unknown`.
pub open spec fn peer_key(context: ErrorContext) -> Seq<char> {
    match opt_view(context.peer_id) {
        Some(p) => p,
        None => "unknown"@,
    }
}

/// What the handler logs of an error, given the action it chose: where alerts are
/// on and the error calls for one, the error is logged first as recovered with the
/// alert's action; then it is logged with whether it is recoverable and the
/// description of the action.
pub open spec fn handling_logged(
    pre: ErrorLogger,
    post: ErrorLogger,
    error: NetworkError,
    context: ErrorContext,
    action: RecoveryAction,
    alerts: bool,
) -> bool {
    if alerts && error.spec_recovery_strategy() == RecoveryStrategy::Alert {
        exists|mid: ErrorLogger|
            {
                &&& #[trigger] log_step(pre, mid, error, context, true, Some("Alert"@))
                &&& log_step(
                    mid,
                    post,
                    error,
                    context,
                    error.spec_is_recoverable(),
                    Some(action.description()),
                )
            }
    } else {
        log_step(
            pre,
            post,
            error,
            context,
            error.spec_is_recoverable(),
            Some(action.description()),
        )
    }
}

/// Comprehensive error handler: coordinates classification, recovery and logging.
pub struct ComprehensiveErrorHandler<H> {
    logger: ErrorLogger,
    recovery_manager: ErrorRecoveryManager,
    custom_handler: Option<H>,
    enable_alerts: bool,
}

impl ComprehensiveErrorHandler<DefaultErrorHandler> {
    /// Create a new comprehensive error handler, with no custom handler.
    pub fn new(logger: ErrorLogger, recovery_manager: ErrorRecoveryManager, enable_alerts: bool) -> (h: Self)
        ensures
            h.spec_logger() == logger,
            h.spec_recovery_manager() == recovery_manager,
            h.alerts_enabled() == enable_alerts,
            h.custom_handler() is None,
    {
        ComprehensiveErrorHandler { logger, recovery_manager, custom_handler: None, enable_alerts }
    }
}

impl<H: ErrorHandler> ComprehensiveErrorHandler<H> {
    /// The error logger
    pub closed spec fn spec_logger(&self) -> ErrorLogger {
        self.logger
    }

    /// The recovery manager
    pub closed spec fn spec_recovery_manager(&self) -> ErrorRecoveryManager {
        self.recovery_manager
    }

    /// Whether operator alerts are sent
    pub closed spec fn alerts_enabled(&self) -> bool {
        self.enable_alerts
    }

    /// The custom handler
    pub closed spec fn custom_handler(&self) -> Option<H> {
        self.custom_handler
    }

    /// Set custom error handler
    pub fn with_custom_handler<H2: ErrorHandler>(self, handler: H2) -> (h: ComprehensiveErrorHandler<
        H2,
    >)
        ensures
            h.spec_logger() == self.spec_logger(),
            h.spec_recovery_manager() == self.spec_recovery_manager(),
            h.alerts_enabled() == self.alerts_enabled(),
            h.custom_handler() == Some(handler),
    {
        ComprehensiveErrorHandler {
            logger: self.logger,
            recovery_manager: self.recovery_manager,
            custom_handler: Some(handler),
            enable_alerts: self.enable_alerts,
        }
    }

    /// Handle error with the full recovery pipeline: the custom handler, if any, is
    /// told of the error as critical, recoverable or neither; the recovery manager
    /// chooses the action for the error's peer; the error is logged.
    pub fn handle_error(&mut self, error: NetworkError, context: ErrorContext) -> (r: Result<
        RecoveryAction,
        NetworkError,
    >)
        requires
            old(self).spec_logger().wf(),
            old(self).spec_recovery_manager().wf(),
        ensures
            final(self).spec_logger().wf(),
            final(self).spec_recovery_manager().wf(),
            final(self).alerts_enabled() == old(self).alerts_enabled(),
            final(self).custom_handler() == old(self).custom_handler(),
            r matches Ok(action) && {
                &&& recovery_step(
                    old(self).spec_recovery_manager()@,
                    final(self).spec_recovery_manager()@,
                    peer_key(context),
                    error,
                    action,
                )
                &&& handling_logged(
                    old(self).spec_logger(),
                    final(self).spec_logger(),
                    error,
                    context,
                    action,
                    old(self).alerts_enabled(),
                )
                &&& old(self).spec_logger().max_history() > 0 ==> (final(self).spec_logger().history().last().recovery_action matches Some(a) && a@ == action.description())
            },
    {
        let peer_id = match &context.peer_id {
            Some(p) => p.clone(),
            None => String::from_str("unknown"),
        };
        let is_critical = error.is_critical();
        let is_recoverable = error.is_recoverable();

        match &self.custom_handler {
            Some(handler) => {
                if is_critical {
                    handler.handle_critical_error(&error, &context);
                } else if is_recoverable {
                    handler.handle_recoverable_error(&error, &context);
                } else {
                    handler.handle_error(&error, &context);
                }
            },
            None => {},
        }

        let ghost logger0 = self.logger;
        let action = match error.recovery_strategy() {
            RecoveryStrategy::Alert => {
                if self.enable_alerts {
                    self.send_operator_alert(peer_id.as_str(), &error, &context);
                }
                RecoveryAction::Alert
            },
            RecoveryStrategy::FailStartup => RecoveryAction::FailStartup,
            RecoveryStrategy::Log => RecoveryAction::Log,
            _ => match self.recovery_manager.handle_error(peer_id.as_str(), &error) {
                Ok(action) => action,
                Err(_) => RecoveryAction::Log,
            },
        };
        let ghost logger1 = self.logger;
        let description = action.describe();
        self.logger.log_error(&error, &context, is_recoverable, Some(description));
        proof {
            if self.enable_alerts && error.spec_recovery_strategy() == RecoveryStrategy::Alert {
                assert(log_step(logger0, logger1, error, context, true, Some("Alert"@)));
            } else {
                assert(logger1 == logger0);
            }
        }
        Ok(action)
    }

    fn send_operator_alert(&mut self, peer_id: &str, error: &NetworkError, context: &ErrorContext)
        requires
            old(self).logger.wf(),
            old(self).recovery_manager.wf(),
            error.spec_recovery_strategy() == RecoveryStrategy::Alert,
            peer_id@ == peer_key(*context),
        ensures
            final(self).logger.wf(),
            final(self).recovery_manager.wf(),
            final(self).recovery_manager@ == old(self).recovery_manager@,
            final(self).enable_alerts == old(self).enable_alerts,
            final(self).custom_handler == old(self).custom_handler,
            log_step(old(self).logger, final(self).logger, *error, *context, true, Some("Alert"@)),
    {
        let recovery_action = match self.recovery_manager.handle_error(peer_id, error) {
            Ok(action) => Some(action.describe()),
            Err(_) => None,
        };
        self.logger.log_error(error, context, true, recovery_action);
        proof {
            assert(self.recovery_manager@.backoffs == old(self).recovery_manager@.backoffs);
        }
    }

    /// Get error logger
    pub fn logger(&self) -> (l: &ErrorLogger)
        ensures
            *l == self.spec_logger(),
    {
        &self.logger
    }

    /// Get recovery manager
    pub fn recovery_manager(&self) -> (m: &ErrorRecoveryManager)
        ensures
            *m == self.spec_recovery_manager(),
    {
        &self.recovery_manager
    }

    /// Get error summary
    pub fn get_error_summary(&self) -> (s: ErrorSummary)
        ensures
            s == crate::error_logging::summary_of(self.spec_logger().metrics()),
    {
        self.logger.get_summary()
    }

    /// Get recent errors
    pub fn get_recent_errors(&self, count: usize) -> (v: Vec<ErrorLogEntry>)
        ensures
            v@ == self.spec_logger().history().skip(
                self.spec_logger().history().len() - (if count < self.spec_logger().history().len() {
                    count as int
                } else {
                    self.spec_logger().history().len() as int
                }),
            ),
    {
        self.logger.get_recent_errors(count)
    }

    /// Get errors by category
    pub fn get_errors_by_category(&self, category: ErrorCategory) -> (v: Vec<ErrorLogEntry>)
        ensures
            v@ == self.spec_logger().history().filter(crate::error_logging::in_category(category)),
    {
        self.logger.get_errors_by_category(category)
    }
}

} // verus!
