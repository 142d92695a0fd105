//! Messages held in a user's inbox until they are read.

use crate::user::models::MessageInfo;
use vstd::prelude::*;

verus! {

/// An encrypted message with what the receiver needs to decrypt it.
#[derive(Debug, Clone)]
pub struct Message {
    pub uuid: String,
    pub sender: String,
    pub receiver: String,
    pub nonce: [u8; 12],
    pub ciphertext: Vec<u8>,
    /// The public key used in the ratchet step.
    pub ratchet_pub: [u8; 32],
    /// The index in the chain key.
    pub message_index: u32,
    pub opk_used: Option<[u8; 32]>,
    pub ek_used: Option<[u8; 32]>,
    pub created_at: i64,
}

impl Message {
    /// Whether `info` names this message, its sender and its receiver.
    pub open spec fn described_by(self, info: MessageInfo) -> bool {
        &&& info.uuid@ == self.uuid@
        &&& info.sender@ == self.sender@
        &&& info.receiver@ == self.receiver@
    }

    /// The message without its content: who sent what to whom.
    pub fn message_info(&self) -> (info: MessageInfo)
        ensures
            self.described_by(info),
    {
        MessageInfo {
            uuid: self.uuid.clone(),
            sender: self.sender.clone(),
            receiver: self.receiver.clone(),
        }
    }
}

} // verus!
