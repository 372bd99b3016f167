//! A minimal message-board library: clients append timestamped messages
//! and read the whole board back as one consistent snapshot.
//!
//! The verified core is the board state: the message log store, the
//! snapshot builder, and the board service that validates input and
//! coordinates the two. HTTP transport, CLI handling and the database
//! connection are adapters around this library.

pub mod bindings;
pub mod board;
pub mod messages;
pub mod service;
pub mod store;

pub use bindings::bindgen;
pub use board::build_board;
pub use board::Board;
pub use messages::is_valid_user;
pub use messages::validate;
pub use messages::Message;
pub use messages::StoredMessage;
pub use messages::ValidationError;
pub use messages::MAX_USER_LEN;
pub use service::PostError;
pub use service::ServerStatus;
pub use service::ServiceError;
pub use store::LogStore;
pub use store::MessageLog;
pub use store::StoreError;
