use vstd::prelude::*;

verus! {

/// The digest that identifies a block.
pub type BlockHash = u64;

/// The network address of a peer: an IPv4 address and a port.
#[derive(Clone, Copy, Debug, PartialEq, Eq, Structural)]
pub struct PeerAddr {
    pub ip: u32,
    pub port: u16,
}

/// What the synchronization logic reads of a block: its height, its own hash
/// and the hash of its parent.
#[derive(Clone, Copy, Debug, PartialEq, Eq, Structural)]
pub struct Block {
    pub height: u64,
    pub hash: BlockHash,
    pub previous_hash: BlockHash,
}

/// An outstanding request for the block at one height: the hash the block is
/// expected to have, the hash of its parent, and the peers asked for it.
#[derive(Clone, Debug)]
pub struct BlockRequestEntry {
    pub hash: BlockHash,
    pub previous_hash: BlockHash,
    pub peers: Vec<PeerAddr>,
}

/// The message sent to a peer to ask for the blocks in
/// `start_height..end_height`.
#[derive(Clone, Copy, Debug, PartialEq, Eq, Structural)]
pub struct BlockRequestMessage {
    pub start_height: u64,
    pub end_height: u64,
}

} // verus!
