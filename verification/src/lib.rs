//! Bridge between a synchronous, frame-driven caller and an asynchronous
//! wallet provider.
//!
//! The caller fires an operation (account discovery, signing, transaction
//! submission, read-only contract call) and later polls, without blocking,
//! for the completed result.  Each operation kind has its own unbounded
//! multi-producer single-consumer channel; a background runner (outside this
//! crate) performs the provider call and delivers a tagged
//! success-or-failure message on the channel.  The session applies an
//! account-discovery result to its own state atomically; every other result
//! is handed to the caller as is.
//!
//! The companion `abi` module holds the contract-interface descriptor used
//! to encode calls and decode results; it is pure data transformation with
//! no concurrency.

pub mod abi;
pub mod addr;
pub mod channel;
pub mod errors;
pub mod session;

pub use abi::Contract;
pub use abi::Token;
pub use addr::Address;
pub use session::AccountRequest;
pub use session::CallRequest;
pub use session::EthWallet;
pub use session::SendRequest;
pub use session::SignRequest;
pub use errors::AbiError;
pub use errors::ParseError;
pub use errors::ProviderError;
pub use errors::RecvError;
