//! Error types of the network layer, their classification and their texts.

use crate::clock::system_time_now;
use crate::text::{decimal, u64_to_decimal};
use std::time::SystemTime;
use vstd::prelude::*;

verus! {

/// Where and when an error occurred, with an optional recovery suggestion.
#[derive(Debug)]
pub struct ErrorContext {
    /// Operation that was being performed
    pub operation: String,
    /// Peer ID involved (if applicable)
    pub peer_id: Option<String>,
    /// Additional context information
    pub context: String,
    /// Timestamp when the context was created
    pub timestamp: SystemTime,
    /// Error recovery suggestion
    pub recovery_suggestion: Option<String>,
}

/// Copies an optional string, keeping its value.
pub fn copy_opt_string(s: &Option<String>) -> (r: Option<String>)
    ensures
        r == *s,
{
    match s {
        Some(v) => Some(v.clone()),
        None => None,
    }
}

impl Clone for ErrorContext {
    fn clone(&self) -> (res: Self)
        ensures
            res == *self,
    {
        ErrorContext {
            operation: self.operation.clone(),
            peer_id: copy_opt_string(&self.peer_id),
            context: self.context.clone(),
            timestamp: self.timestamp,
            recovery_suggestion: copy_opt_string(&self.recovery_suggestion),
        }
    }
}

/// The views of an optional string.
pub open spec fn opt_view(s: Option<String>) -> Option<Seq<char>> {
    match s {
        Some(v) => Some(v@),
        None => None,
    }
}

impl ErrorContext {
    /// The text of the context: operation and context, then the peer and the
    /// recovery suggestion where they are present.
    pub open spec fn display_text(&self) -> Seq<char> {
        let base = "Operation: "@ + self.operation@ + ", Context: "@ + self.context@;
        let with_peer = match self.peer_id {
            Some(p) => base + ", Peer: "@ + p@,
            None => base,
        };
        match self.recovery_suggestion {
            Some(r) => with_peer + ", Recovery: "@ + r@,
            None => with_peer,
        }
    }

    /// Create a new error context for `operation`, stamped with the current time.
    pub fn new(operation: &str) -> (c: Self)
        ensures
            c.operation@ == operation@,
            c.peer_id is None,
            c.context@ == Seq::<char>::empty(),
            c.recovery_suggestion is None,
    {
        ErrorContext {
            operation: String::from_str(operation),
            peer_id: None,
            context: String::new(),
            timestamp: system_time_now(),
            recovery_suggestion: None,
        }
    }

    /// Add a peer ID to the context.
    pub fn with_peer(self, peer_id: &str) -> (c: Self)
        ensures
            c == (ErrorContext { peer_id: c.peer_id, ..self }),
            opt_view(c.peer_id) == Some(peer_id@),
    {
        ErrorContext { peer_id: Some(String::from_str(peer_id)), ..self }
    }

    /// Set the context information.
    pub fn with_context(self, context: &str) -> (c: Self)
        ensures
            c == (ErrorContext { context: c.context, ..self }),
            c.context@ == context@,
    {
        ErrorContext { context: String::from_str(context), ..self }
    }

    /// Add a recovery suggestion.
    pub fn with_recovery(self, suggestion: &str) -> (c: Self)
        ensures
            c == (ErrorContext { recovery_suggestion: c.recovery_suggestion, ..self }),
            opt_view(c.recovery_suggestion) == Some(suggestion@),
    {
        ErrorContext { recovery_suggestion: Some(String::from_str(suggestion)), ..self }
    }

    /// The human-readable text of the context.
    pub fn to_string(&self) -> (s: String)
        ensures
            s@ == self.display_text(),
    {
        let mut s = String::from_str("Operation: ");
        s.append(self.operation.as_str());
        s.append(", Context: ");
        s.append(self.context.as_str());
        match &self.peer_id {
            Some(p) => {
                s.append(", Peer: ");
                s.append(p.as_str());
            },
            None => {},
        }
        match &self.recovery_suggestion {
            Some(r) => {
                s.append(", Recovery: ");
                s.append(r.as_str());
            },
            None => {},
        }
        s
    }
}

/// Network layer errors.
#[derive(Debug)]
pub enum NetworkError {
    /// Connection establishment failed
    ConnectionFailed(String),
    /// Connection timeout
    ConnectionTimeout(String),
    /// Connection refused by peer
    ConnectionRefused(String),
    /// Connection reset by peer
    ConnectionReset(String),
    /// Handshake failed
    HandshakeFailed(String),
    /// Peer discovery error (backward compatible)
    Discovery(String),
    /// Peer discovery error
    DiscoveryError(String),
    /// Message serialization error (backward compatible)
    Serialization(String),
    /// Message serialization error
    SerializationError(String),
    /// Message deserialization error (backward compatible)
    Deserialization(String),
    /// Message deserialization error
    DeserializationError(String),
    /// Message parsing failed
    MessageParsingFailed(String),
    /// Malformed message received
    MalformedMessage(String),
    /// Rate limit exceeded
    RateLimitExceeded(String),
    /// Invalid peer
    InvalidPeer(String),
    /// Peer not found
    PeerNotFound(String),
    /// Peer disconnected
    PeerDisconnected(String),
    /// Peer marked as unhealthy
    PeerUnhealthy(String),
    /// Message too large: size and maximum, in bytes
    MessageTooLarge(usize, usize),
    /// Invalid message (backward compatible)
    InvalidMessage(String),
    /// Invalid message format
    InvalidMessageFormat(String),
    /// Operation timeout
    OperationTimeout(String),
    /// IO error
    IoError(String),
    /// Configuration error
    ConfigurationError(String),
    /// Invalid configuration
    InvalidConfiguration(String),
    /// Transport error
    TransportError(String),
    /// Network partition detected
    NetworkPartition(String),
    /// Resource exhaustion
    ResourceExhaustion(String),
    /// Critical error requiring operator intervention
    CriticalError(String),
    /// Shutdown in progress
    ShutdownInProgress(String),
    /// Other network error
    Other(String),
}

/// Recovery strategy for different error types
#[derive(Debug, Clone, Copy, PartialEq, Eq, Structural)]
pub enum RecoveryStrategy {
    /// Retry with exponential backoff
    ExponentialBackoff,
    /// Throttle operations
    Throttle,
    /// Attempt to reconnect
    Reconnect,
    /// Retry operation
    Retry,
    /// Wait and retry
    WaitAndRetry,
    /// Alert operator
    Alert,
    /// Fail startup
    FailStartup,
    /// Just log the error
    Log,
}

impl NetworkError {
    /// Errors that a retry, a reconnection or waiting can overcome.
    pub open spec fn spec_is_recoverable(&self) -> bool {
        ||| self is ConnectionTimeout
        ||| self is ConnectionReset
        ||| self is OperationTimeout
        ||| self is RateLimitExceeded
        ||| self is PeerDisconnected
        ||| self is NetworkPartition
    }

    /// Errors that need an operator.
    pub open spec fn spec_is_critical(&self) -> bool {
        ||| self is CriticalError
        ||| self is InvalidConfiguration
        ||| self is ResourceExhaustion
    }

    /// The recovery strategy of each kind of error.
    pub open spec fn spec_recovery_strategy(&self) -> RecoveryStrategy {
        match self {
            NetworkError::ConnectionTimeout(_) => RecoveryStrategy::ExponentialBackoff,
            NetworkError::ConnectionReset(_) => RecoveryStrategy::ExponentialBackoff,
            NetworkError::RateLimitExceeded(_) => RecoveryStrategy::Throttle,
            NetworkError::PeerDisconnected(_) => RecoveryStrategy::Reconnect,
            NetworkError::OperationTimeout(_) => RecoveryStrategy::Retry,
            NetworkError::NetworkPartition(_) => RecoveryStrategy::WaitAndRetry,
            NetworkError::CriticalError(_) => RecoveryStrategy::Alert,
            NetworkError::InvalidConfiguration(_) => RecoveryStrategy::FailStartup,
            _ => RecoveryStrategy::Log,
        }
    }

    /// Check if error is recoverable
    pub fn is_recoverable(&self) -> (r: bool)
        ensures
            r == self.spec_is_recoverable(),
    {
        match self {
            NetworkError::ConnectionTimeout(_) => true,
            NetworkError::ConnectionReset(_) => true,
            NetworkError::OperationTimeout(_) => true,
            NetworkError::RateLimitExceeded(_) => true,
            NetworkError::PeerDisconnected(_) => true,
            NetworkError::NetworkPartition(_) => true,
            _ => false,
        }
    }

    /// Check if error is critical
    pub fn is_critical(&self) -> (r: bool)
        ensures
            r == self.spec_is_critical(),
    {
        match self {
            NetworkError::CriticalError(_) => true,
            NetworkError::InvalidConfiguration(_) => true,
            NetworkError::ResourceExhaustion(_) => true,
            _ => false,
        }
    }

    /// Get recovery strategy for this error
    pub fn recovery_strategy(&self) -> (s: RecoveryStrategy)
        ensures
            s == self.spec_recovery_strategy(),
    {
        match self {
            NetworkError::ConnectionTimeout(_) | NetworkError::ConnectionReset(_) => {
                RecoveryStrategy::ExponentialBackoff
            },
            NetworkError::RateLimitExceeded(_) => RecoveryStrategy::Throttle,
            NetworkError::PeerDisconnected(_) => RecoveryStrategy::Reconnect,
            NetworkError::OperationTimeout(_) => RecoveryStrategy::Retry,
            NetworkError::NetworkPartition(_) => RecoveryStrategy::WaitAndRetry,
            NetworkError::CriticalError(_) => RecoveryStrategy::Alert,
            NetworkError::InvalidConfiguration(_) => RecoveryStrategy::FailStartup,
            _ => RecoveryStrategy::Log,
        }
    }

    /// The text that precedes the detail of an error.
    pub open spec fn display_prefix(&self) -> Seq<char> {
        match self {
            NetworkError::ConnectionFailed(_) => "Connection failed: "@,
            NetworkError::ConnectionTimeout(_) => "Connection timeout: "@,
            NetworkError::ConnectionRefused(_) => "Connection refused: "@,
            NetworkError::ConnectionReset(_) => "Connection reset: "@,
            NetworkError::HandshakeFailed(_) => "Handshake failed: "@,
            NetworkError::Discovery(_) => "Peer discovery error: "@,
            NetworkError::DiscoveryError(_) => "Peer discovery error: "@,
            NetworkError::Serialization(_) => "Serialization error: "@,
            NetworkError::SerializationError(_) => "Serialization error: "@,
            NetworkError::Deserialization(_) => "Deserialization error: "@,
            NetworkError::DeserializationError(_) => "Deserialization error: "@,
            NetworkError::MessageParsingFailed(_) => "Message parsing failed: "@,
            NetworkError::MalformedMessage(_) => "Malformed message: "@,
            NetworkError::RateLimitExceeded(_) => "Rate limit exceeded for peer "@,
            NetworkError::InvalidPeer(_) => "Invalid peer: "@,
            NetworkError::PeerNotFound(_) => "Peer not found: "@,
            NetworkError::PeerDisconnected(_) => "Peer disconnected: "@,
            NetworkError::PeerUnhealthy(_) => "Peer unhealthy: "@,
            NetworkError::MessageTooLarge(_, _) => "Message too large: "@,
            NetworkError::InvalidMessage(_) => "Invalid message: "@,
            NetworkError::InvalidMessageFormat(_) => "Invalid message format: "@,
            NetworkError::OperationTimeout(_) => "Operation timed out: "@,
            NetworkError::IoError(_) => "IO error: "@,
            NetworkError::ConfigurationError(_) => "Configuration error: "@,
            NetworkError::InvalidConfiguration(_) => "Invalid configuration: "@,
            NetworkError::TransportError(_) => "Transport error: "@,
            NetworkError::NetworkPartition(_) => "Network partition: "@,
            NetworkError::ResourceExhaustion(_) => "Resource exhaustion: "@,
            NetworkError::CriticalError(_) => "Critical error: "@,
            NetworkError::ShutdownInProgress(_) => "Shutdown in progress: "@,
            NetworkError::Other(_) => "Network error: "@,
        }
    }

    /// The detail an error carries.
    pub open spec fn detail(&self) -> Seq<char> {
        match self {
            NetworkError::ConnectionFailed(s) => s@,
            NetworkError::ConnectionTimeout(s) => s@,
            NetworkError::ConnectionRefused(s) => s@,
            NetworkError::ConnectionReset(s) => s@,
            NetworkError::HandshakeFailed(s) => s@,
            NetworkError::Discovery(s) => s@,
            NetworkError::DiscoveryError(s) => s@,
            NetworkError::Serialization(s) => s@,
            NetworkError::SerializationError(s) => s@,
            NetworkError::Deserialization(s) => s@,
            NetworkError::DeserializationError(s) => s@,
            NetworkError::MessageParsingFailed(s) => s@,
            NetworkError::MalformedMessage(s) => s@,
            NetworkError::RateLimitExceeded(s) => s@,
            NetworkError::InvalidPeer(s) => s@,
            NetworkError::PeerNotFound(s) => s@,
            NetworkError::PeerDisconnected(s) => s@,
            NetworkError::PeerUnhealthy(s) => s@,
            NetworkError::MessageTooLarge(size, max) => decimal(*size as nat) + " bytes (max: "@
                + decimal(*max as nat) + ")"@,
            NetworkError::InvalidMessage(s) => s@,
            NetworkError::InvalidMessageFormat(s) => s@,
            NetworkError::OperationTimeout(s) => s@,
            NetworkError::IoError(s) => s@,
            NetworkError::ConfigurationError(s) => s@,
            NetworkError::InvalidConfiguration(s) => s@,
            NetworkError::TransportError(s) => s@,
            NetworkError::NetworkPartition(s) => s@,
            NetworkError::ResourceExhaustion(s) => s@,
            NetworkError::CriticalError(s) => s@,
            NetworkError::ShutdownInProgress(s) => s@,
            NetworkError::Other(s) => s@,
        }
    }

    /// The human-readable text of an error.
    pub open spec fn display_text(&self) -> Seq<char> {
        self.display_prefix() + self.detail()
    }

    fn prefix_str(&self) -> (p: &'static str)
        ensures
            p@ == self.display_prefix(),
    {
        match self {
            NetworkError::ConnectionFailed(_) => "Connection failed: ",
            NetworkError::ConnectionTimeout(_) => "Connection timeout: ",
            NetworkError::ConnectionRefused(_) => "Connection refused: ",
            NetworkError::ConnectionReset(_) => "Connection reset: ",
            NetworkError::HandshakeFailed(_) => "Handshake failed: ",
            NetworkError::Discovery(_) => "Peer discovery error: ",
            NetworkError::DiscoveryError(_) => "Peer discovery error: ",
            NetworkError::Serialization(_) => "Serialization error: ",
            NetworkError::SerializationError(_) => "Serialization error: ",
            NetworkError::Deserialization(_) => "Deserialization error: ",
            NetworkError::DeserializationError(_) => "Deserialization error: ",
            NetworkError::MessageParsingFailed(_) => "Message parsing failed: ",
            NetworkError::MalformedMessage(_) => "Malformed message: ",
            NetworkError::RateLimitExceeded(_) => "Rate limit exceeded for peer ",
            NetworkError::InvalidPeer(_) => "Invalid peer: ",
            NetworkError::PeerNotFound(_) => "Peer not found: ",
            NetworkError::PeerDisconnected(_) => "Peer disconnected: ",
            NetworkError::PeerUnhealthy(_) => "Peer unhealthy: ",
            NetworkError::MessageTooLarge(_, _) => "Message too large: ",
            NetworkError::InvalidMessage(_) => "Invalid message: ",
            NetworkError::InvalidMessageFormat(_) => "Invalid message format: ",
            NetworkError::OperationTimeout(_) => "Operation timed out: ",
            NetworkError::IoError(_) => "IO error: ",
            NetworkError::ConfigurationError(_) => "Configuration error: ",
            NetworkError::InvalidConfiguration(_) => "Invalid configuration: ",
            NetworkError::TransportError(_) => "Transport error: ",
            NetworkError::NetworkPartition(_) => "Network partition: ",
            NetworkError::ResourceExhaustion(_) => "Resource exhaustion: ",
            NetworkError::CriticalError(_) => "Critical error: ",
            NetworkError::ShutdownInProgress(_) => "Shutdown in progress: ",
            NetworkError::Other(_) => "Network error: ",
        }
    }

    /// The human-readable text of the error.
    pub fn to_string(&self) -> (s: String)
        ensures
            s@ == self.display_text(),
    {
        let mut s = String::from_str(self.prefix_str());
        match self {
            NetworkError::MessageTooLarge(size, max) => {
                let a = u64_to_decimal(*size as u64);
                s.append(a.as_str());
                s.append(" bytes (max: ");
                let b = u64_to_decimal(*max as u64);
                s.append(b.as_str());
                s.append(")");
            },
            NetworkError::ConnectionFailed(d) | NetworkError::ConnectionTimeout(d)
            | NetworkError::ConnectionRefused(d) | NetworkError::ConnectionReset(d)
            | NetworkError::HandshakeFailed(d) | NetworkError::Discovery(d)
            | NetworkError::DiscoveryError(d) | NetworkError::Serialization(d)
            | NetworkError::SerializationError(d) | NetworkError::Deserialization(d)
            | NetworkError::DeserializationError(d) | NetworkError::MessageParsingFailed(d)
            | NetworkError::MalformedMessage(d) | NetworkError::RateLimitExceeded(d)
            | NetworkError::InvalidPeer(d) | NetworkError::PeerNotFound(d)
            | NetworkError::PeerDisconnected(d) | NetworkError::PeerUnhealthy(d)
            | NetworkError::InvalidMessage(d) | NetworkError::InvalidMessageFormat(d)
            | NetworkError::OperationTimeout(d) | NetworkError::IoError(d)
            | NetworkError::ConfigurationError(d) | NetworkError::InvalidConfiguration(d)
            | NetworkError::TransportError(d) | NetworkError::NetworkPartition(d)
            | NetworkError::ResourceExhaustion(d) | NetworkError::CriticalError(d)
            | NetworkError::ShutdownInProgress(d) | NetworkError::Other(d) => {
                s.append(d.as_str());
            },
        }
        s
    }
}

/// A dropped connection, by timeout or by reset, is retried with exponential
/// backoff; and no error that a retry, a reconnection or waiting can overcome is
/// merely logged, nor is any critical one.
pub proof fn law_recovery_strategies(detail: String, e: NetworkError)
    ensures
        NetworkError::ConnectionReset(detail).spec_recovery_strategy()
            == RecoveryStrategy::ExponentialBackoff,
        NetworkError::ConnectionTimeout(detail).spec_recovery_strategy()
            == RecoveryStrategy::ExponentialBackoff,
        NetworkError::ConnectionReset(detail).spec_recovery_strategy()
            == NetworkError::ConnectionTimeout(detail).spec_recovery_strategy(),
        e.spec_is_recoverable() ==> e.spec_recovery_strategy() != RecoveryStrategy::Log
            && e.spec_recovery_strategy() != RecoveryStrategy::Alert,
        e.spec_is_critical() && !(e is ResourceExhaustion) ==> e.spec_recovery_strategy()
            != RecoveryStrategy::Log,
{
}

/// Hooks that a user of the library implements to be told of errors as the
/// comprehensive handler classifies them.
pub trait ErrorHandler {
    /// Handle a network error that is neither critical nor recoverable
    fn handle_error(&self, error: &NetworkError, context: &ErrorContext);

    /// Handle a critical error
    fn handle_critical_error(&self, error: &NetworkError, context: &ErrorContext);

    /// Handle a recoverable error
    fn handle_recoverable_error(&self, error: &NetworkError, context: &ErrorContext);
}

/// The handler used where none is supplied; it takes no action.
pub struct DefaultErrorHandler;

impl ErrorHandler for DefaultErrorHandler {
    fn handle_error(&self, error: &NetworkError, context: &ErrorContext) {
    }

    fn handle_critical_error(&self, error: &NetworkError, context: &ErrorContext) {
    }

    fn handle_recoverable_error(&self, error: &NetworkError, context: &ErrorContext) {
    }
}

} // verus!
