//! The persistence boundary: a key-addressed store of outbound and inbound
//! messages and their lifecycle status. The solver has no call into the
//! store; its winning `(trial value, nonce)` pair is attached to a message
//! record as an opaque stamp before the record is saved. The store itself
//! is an external collaborator, specified here only at its boundary.

use vstd::prelude::*;

verus! {

/// The lifecycle status of a stored message.
#[derive(Clone, Copy, PartialEq, Eq, Structural)]
pub enum MessageStatus {
    /// Queued for sending; no proof-of-work stamp yet.
    Queued,
    /// Stamped with a proof-of-work result, awaiting transport.
    PowCompleted,
    /// Handed to the network.
    Sent,
    /// Received from the network.
    Received,
}

/// A message before encoding and encryption.
pub struct UnencryptedMsg {
    pub sender: String,
    pub recipient: String,
    pub body: Vec<u8>,
}

/// A stored message record, addressed by its hash. The proof-of-work stamp
/// is the winning pair for the message's initial hash; the store treats it
/// as opaque.
pub struct Message {
    pub hash: String,
    pub sender: String,
    pub recipient: String,
    pub body: Vec<u8>,
    pub signature: Vec<u8>,
    pub status: MessageStatus,
    /// The winning trial value, at or below the target the stamp was made
    /// for.
    pub trial_value: u64,
    /// The winning nonce.
    pub nonce: u64,
}

/// The store's failure report: the record or the backend refused the
/// operation.
#[derive(Debug)]
pub enum RepositoryError {
    /// No record is stored under the given hash.
    NotFound,
    /// A record is already stored under the given hash.
    Duplicate,
    /// The backing store failed; the report is its message.
    Backend(String),
}

/// A key-addressed store of message records. An implementation is supplied
/// by the surrounding application; the solver core only shapes the records
/// it consumes.
pub trait MessageRepository {
    /// Save a new message in the repository under its hash.
    fn save(&mut self, hash: String, msg: UnencryptedMsg, signature: Vec<u8>) -> Result<
        (),
        RepositoryError,
    >;

    /// Save an already-assembled record.
    fn save_model(&mut self, model: Message) -> Result<(), RepositoryError>;

    /// Get all messages in the repository.
    fn get_messages(&self) -> Result<Vec<Message>, RepositoryError>;

    /// Get the messages addressed to `address`.
    fn get_messages_by_recipient(&self, address: String) -> Result<Vec<Message>, RepositoryError>;

    /// Get the messages sent by `address`.
    fn get_messages_by_sender(&self, address: String) -> Result<Vec<Message>, RepositoryError>;

    /// Move the message stored under `hash` to `status`.
    fn update_message_status(&mut self, hash: String, status: MessageStatus) -> Result<
        (),
        RepositoryError,
    >;

    /// Replace the record stored under `hash`.
    fn update_model(&mut self, hash: String, model: Message) -> Result<(), RepositoryError>;

    /// Get the messages whose lifecycle status is `status`.
    fn get_messages_by_status(&self, status: MessageStatus) -> Result<Vec<Message>, RepositoryError>;

    /// Remove the message stored under `hash`.
    fn remove_message(&mut self, hash: String) -> Result<(), RepositoryError>;
}

} // verus!
