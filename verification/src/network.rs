//! Network message vocabulary.
//!
//! The wire transport itself lives outside the core; these are the
//! message shapes the node exchanges with its peers.

use vstd::prelude::*;

verus! {

/// Network message types.
#[derive(Clone, Debug)]
pub enum MessageType {
    /// Handshake message for initial connection.
    Handshake,
    /// Ping message to check connection.
    Ping,
    /// Pong response to ping.
    Pong,
    /// Request for peers.
    GetPeers,
    /// Response with peers.
    Peers,
    /// New block announcement.
    NewBlock,
    /// Request for a specific block.
    GetBlock,
    /// Response with a block.
    Block,
    /// New transaction announcement.
    NewTransaction,
    /// Request for a specific transaction.
    GetTransaction,
    /// Response with a transaction.
    Transaction,
}

/// Network message structure.
pub struct Message {
    /// Message type.
    pub message_type: MessageType,
    /// Message payload.
    pub payload: Vec<u8>,
    /// Sender's node ID.
    pub sender: String,
    /// Message timestamp.
    pub timestamp: u64,
}

impl Message {
    /// Builds a message from its parts.
    pub fn new(message_type: MessageType, payload: Vec<u8>, sender: String, timestamp: u64) -> (r:
        Message)
        ensures
            r.message_type == message_type,
            r.payload == payload,
            r.sender == sender,
            r.timestamp == timestamp,
    {
        Message { message_type, payload, sender, timestamp }
    }
}

} // verus!
