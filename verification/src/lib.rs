//! Peer-to-peer networking layer for SilverBitcoin: error handling and recovery,
//! rate limiting, gossip bookkeeping, peer discovery, mining pool support and
//! validator synchronisation, with their decisions stated as contracts.

pub mod clock;
pub mod digest;
pub mod discovery;
pub mod error;
pub mod error_handling;
pub mod error_logging;
pub mod error_recovery;
pub mod gossip;
pub mod handle;
pub mod message_cache;
pub mod message;
pub mod mining_pool;
pub mod peer_order;
pub mod peer_table;
pub mod text;
pub mod validator_sync;
pub mod wire;

pub use discovery::PeerDiscovery;
pub use error::{DefaultErrorHandler, ErrorContext, ErrorHandler, NetworkError, RecoveryStrategy};
pub use error_handling::ComprehensiveErrorHandler;
pub use error_logging::{ErrorCategory, ErrorLogEntry, ErrorLogger, ErrorMetrics, ErrorSummary};
pub use error_recovery::{ErrorRecoveryManager, ExponentialBackoff, RateLimiter, RecoveryAction};
pub use gossip::GossipProtocol;
pub use handle::NetworkHandle;
pub use message::{MessageType, NetworkMessage};
pub use mining_pool::{MinerShare, MiningPoolManager, WorkPackage};
