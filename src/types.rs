//! Wire messages of the sync protocol and the data they carry.

use vstd::prelude::*;

verus! {

/// A 256-bit digest, held as its high and low halves.
#[derive(Clone, Copy, Debug, PartialEq, Eq, Structural)]
pub struct HashValue {
    pub high: u128,
    pub low: u128,
}

impl HashValue {
    pub fn new(high: u128, low: u128) -> (r: HashValue)
        ensures
            r.high == high,
            r.low == low,
    {
        HashValue { high, low }
    }
}

/// Identifier of a remote node.
#[derive(Clone, Copy, Debug, PartialEq, Eq, Structural)]
pub struct PeerId {
    pub id: u64,
}

/// What is known of a peer when it connects.
#[derive(Clone, Copy, Debug, PartialEq, Eq, Structural)]
pub struct PeerInfo {
    pub id: PeerId,
}

/// A transaction, known to this layer only by its identifier.
#[derive(Clone, Copy, Debug, PartialEq, Eq, Structural)]
pub struct Transaction {
    pub id: HashValue,
}

/// Chain-identifying metadata of a block.
#[derive(Clone, Copy, Debug, PartialEq, Eq, Structural)]
pub struct BlockHeader {
    pub parent_hash: HashValue,
    pub number: u64,
    pub timestamp: u64,
    pub id: HashValue,
}

/// A header and the ordered transactions of its body.
#[derive(Clone, Debug)]
pub struct Block {
    pub header: BlockHeader,
    pub transactions: Vec<Transaction>,
}

/// The tag of a data request.
#[derive(Clone, Copy, Debug, PartialEq, Eq, Structural)]
pub enum DataType {
    Header,
    Body,
}

/// A block number and the identifier of the block at that number.
#[derive(Clone, Copy, Debug, PartialEq, Eq, Structural)]
pub struct HashWithNumber {
    pub number: u64,
    pub hash: HashValue,
}

/// A header and the hash it was asked or announced under.
#[derive(Clone, Copy, Debug, PartialEq, Eq, Structural)]
pub struct HashWithBlockHeader {
    pub hash: HashValue,
    pub header: BlockHeader,
}

/// The transactions of the block asked for under `hash`; empty when this
/// node does not have that block.
#[derive(Clone, Debug)]
pub struct BlockBody {
    pub hash: HashValue,
    pub transactions: Vec<Transaction>,
}

/// Unsolicited announcement of the local chain head.
#[derive(Clone, Copy, Debug, PartialEq, Eq, Structural)]
pub struct LatestStateMsg {
    pub hash_header: HashWithBlockHeader,
}

/// Request for the block identifiers at the given numbers.
#[derive(Clone, Debug)]
pub struct GetHashByNumberMsg {
    pub numbers: Vec<u64>,
}

/// Request for headers or bodies of the blocks with the given identifiers.
#[derive(Clone, Debug)]
pub struct GetDataByHashMsg {
    pub hashs: Vec<HashValue>,
    pub data_type: DataType,
}

/// Answer to a `GetHashByNumberMsg`, in the order of the numbers asked for.
#[derive(Clone, Debug)]
pub struct BatchHashByNumberMsg {
    pub id: HashValue,
    pub hashs: Vec<HashWithNumber>,
}

/// Headers, in the order of the hashes asked for.
#[derive(Clone, Debug)]
pub struct BatchHeaderMsg {
    pub headers: Vec<HashWithBlockHeader>,
}

/// Bodies, in the order of the hashes asked for.
#[derive(Clone, Debug)]
pub struct BatchBodyMsg {
    pub bodies: Vec<BlockBody>,
}

/// Failures of the sync layer.
#[derive(Clone, Copy, Debug, PartialEq, Eq, Structural)]
pub enum SyncError {
    /// The node cannot produce its own head block.
    HeadUnavailable,
    /// A peer asked for a block number that this node does not have.
    BlockNumberNotFound(u64),
    /// A peer asked for a header under a hash that this node does not have.
    BlockHashNotFound(HashValue),
    /// A request kind that this node does not serve.
    UnsupportedRequest,
    /// Registration with the event bus failed.
    SubscriptionFailed,
    /// An inbound request arrived before registration completed.
    NotRegistered,
}

/// A sync intent, triggered locally (a new peer) or by a remote request.
#[derive(Clone, Debug)]
pub enum ProcessMessage {
    NewPeerMsg(PeerInfo),
    GetHashByNumberMsg(GetHashByNumberMsg),
    GetDataByHashMsg(GetDataByHashMsg),
}

/// The payload of an inbound request.
#[derive(Clone, Debug)]
pub enum RpcRequest {
    /// A liveness probe; nothing is answered.
    TestRequest(u64),
    GetHashByNumberMsg(GetHashByNumberMsg),
    GetDataByHashMsg(GetDataByHashMsg),
}

/// An inbound request with the peer it came from and its correlation token.
#[derive(Clone, Debug)]
pub struct RpcRequestMessage {
    pub peer_id: PeerId,
    pub id: HashValue,
    pub request: RpcRequest,
}

/// A message pushed to a peer without a request.
#[derive(Clone, Copy, Debug, PartialEq, Eq, Structural)]
pub enum PeerMessage {
    LatestStateMsg(LatestStateMsg),
}

/// The answer to an inbound request.
#[derive(Clone, Debug)]
pub enum RpcResponse {
    BatchHashByNumberMsg(BatchHashByNumberMsg),
    BatchHeaderAndBodyMsg(HashValue, BatchHeaderMsg, BatchBodyMsg),
    /// The request with this identifier failed as a whole.
    Failure(HashValue, SyncError),
}

/// What the coordinator asks the network layer to do.
#[derive(Clone, Debug)]
pub enum Action {
    Nothing,
    /// Send `message` to `peer` once `delay_secs` seconds have passed.
    SendToPeer { peer: PeerId, delay_secs: u64, message: PeerMessage },
    /// Answer the request `request_id` of `peer`.
    Respond { peer: PeerId, request_id: HashValue, response: RpcResponse },
}

/// The request identifier a response carries.
pub open spec fn response_id(r: RpcResponse) -> HashValue {
    match r {
        RpcResponse::BatchHashByNumberMsg(m) => m.id,
        RpcResponse::BatchHeaderAndBodyMsg(id, _, _) => id,
        RpcResponse::Failure(id, _) => id,
    }
}

} // verus!
