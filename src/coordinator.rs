//! Dispatch decisions of the sync coordinator: what to send, to whom and
//! when, for each inbound event. Running the sends and scheduling the work is
//! left to the caller.

use vstd::prelude::*;
use crate::chain::ChainSnapshot;
use crate::process::{bodies_answer, hashes_by_number, headers_by_hash, latest_state_of, Processor};
use crate::types::{
    Action, Block, DataType, PeerInfo, PeerMessage, ProcessMessage, RpcRequest,
    RpcRequestMessage, RpcResponse, SyncError, response_id,
};

verus! {

/// Seconds a new peer is given to settle before the head is announced to it.
pub const DEFAULT_ANNOUNCE_DELAY_SECS: u64 = 1;

/// The abstract state of a coordinator.
pub struct ProcessActorView {
    pub chain: Seq<Block>,
    pub peer_info: PeerInfo,
    pub announce_delay_secs: u64,
    pub registered: bool,
}

/// `r` is the coordinator's answer, in state `a`, to the inbound request `msg`.
pub open spec fn rpc_reply(a: ProcessActorView, msg: RpcRequestMessage, r: Result<Action, SyncError>) -> bool {
    if !a.registered {
        r == Err::<Action, SyncError>(SyncError::NotRegistered)
    } else {
        match msg.request {
            RpcRequest::TestRequest(_) => r matches Ok(Action::Nothing),
            RpcRequest::GetHashByNumberMsg(m) => r matches Ok(Action::Respond { peer, request_id, response })
                && peer == msg.peer_id && request_id == msg.id
                && match hashes_by_number(a.chain, m.numbers@) {
                    Ok(entries) => response matches RpcResponse::BatchHashByNumberMsg(b)
                        && b.id == msg.id && b.hashs@ == entries,
                    Err(e) => response == RpcResponse::Failure(msg.id, e),
                },
            RpcRequest::GetDataByHashMsg(m) => r matches Ok(Action::Respond { peer, request_id, response })
                && peer == msg.peer_id && request_id == msg.id
                && if m.data_type == DataType::Body {
                    response == RpcResponse::Failure(msg.id, SyncError::UnsupportedRequest)
                } else {
                    match headers_by_hash(a.chain, m.hashs@) {
                        Ok(headers) => response matches RpcResponse::BatchHeaderAndBodyMsg(id, hb, bb)
                            && id == msg.id && hb.headers@ == headers
                            && bodies_answer(a.chain, m.hashs@, bb.bodies@),
                        Err(e) => response == RpcResponse::Failure(msg.id, e),
                    }
                },
        }
    }
}

/// Every response the coordinator produces for a request goes back to the
/// requesting peer under the request's identifier, and the payload carries
/// that identifier too.
pub proof fn lemma_response_carries_request_id(a: ProcessActorView, msg: RpcRequestMessage, r: Result<Action, SyncError>)
    requires
        rpc_reply(a, msg, r),
    ensures
        r matches Ok(Action::Respond { peer, request_id, response })
            ==> peer == msg.peer_id && request_id == msg.id && response_id(response) == msg.id,
{
}

/// Two requests from distinct peers are answered independently: each
/// response goes to the peer that asked, under its own identifier, so
/// neither peer receives the other's response, whichever completes first.
pub proof fn lemma_no_cross_delivery(
    a: ProcessActorView,
    m1: RpcRequestMessage,
    r1: Result<Action, SyncError>,
    m2: RpcRequestMessage,
    r2: Result<Action, SyncError>,
)
    requires
        m1.peer_id != m2.peer_id,
        rpc_reply(a, m1, r1),
        rpc_reply(a, m2, r2),
    ensures
        r1 matches Ok(Action::Respond { peer, request_id, response })
            ==> peer == m1.peer_id && peer != m2.peer_id && request_id == m1.id && response_id(response) == m1.id,
        r2 matches Ok(Action::Respond { peer, request_id, response })
            ==> peer == m2.peer_id && peer != m1.peer_id && request_id == m2.id && response_id(response) == m2.id,
{
    lemma_response_carries_request_id(a, m1, r1);
    lemma_response_carries_request_id(a, m2, r2);
}

/// The sync coordinator of a node: announces the local head to new peers and
/// answers their requests from the chain.
pub struct ProcessActor {
    processor: Processor,
    peer_info: PeerInfo,
    announce_delay_secs: u64,
    registered: bool,
}

impl View for ProcessActor {
    type V = ProcessActorView;

    closed spec fn view(&self) -> ProcessActorView {
        ProcessActorView {
            chain: self.processor@,
            peer_info: self.peer_info,
            announce_delay_secs: self.announce_delay_secs,
            registered: self.registered,
        }
    }
}

impl ProcessActor {
    /// A coordinator for the local peer over `chain_reader`, not yet
    /// registered for inbound requests.
    pub fn launch(peer_info: PeerInfo, chain_reader: ChainSnapshot, announce_delay_secs: u64) -> (r: ProcessActor)
        ensures
            r@.chain == chain_reader@,
            r@.peer_info == peer_info,
            r@.announce_delay_secs == announce_delay_secs,
            !r@.registered,
    {
        ProcessActor { processor: Processor::new(chain_reader), peer_info, announce_delay_secs, registered: false }
    }

    /// Records the outcome of registering for inbound requests with the event
    /// bus; a failed registration is a startup fault.
    pub fn started(&mut self, subscribed: bool) -> (r: Result<(), SyncError>)
        ensures
            final(self)@ == (ProcessActorView { registered: subscribed, ..old(self)@ }),
            subscribed ==> r is Ok,
            !subscribed ==> r == Err::<(), SyncError>(SyncError::SubscriptionFailed),
    {
        self.registered = subscribed;
        if subscribed {
            Ok(())
        } else {
            Err(SyncError::SubscriptionFailed)
        }
    }

    pub fn is_registered(&self) -> (r: bool)
        ensures
            r == self@.registered,
    {
        self.registered
    }

    pub fn peer_info(&self) -> (r: PeerInfo)
        ensures
            r == self@.peer_info,
    {
        self.peer_info
    }

    pub fn announce_delay_secs(&self) -> (r: u64)
        ensures
            r == self@.announce_delay_secs,
    {
        self.announce_delay_secs
    }

    /// A new peer gets exactly one announcement of the local head, sent after
    /// the configured delay; other local events ask for nothing.
    pub fn handle_process_message(&self, msg: &ProcessMessage) -> (r: Result<Action, SyncError>)
        ensures
            match msg {
                ProcessMessage::NewPeerMsg(p) => match latest_state_of(self@.chain) {
                    Ok(l) => r == Ok::<Action, SyncError>(
                        (Action::SendToPeer {
                            peer: p.id,
                            delay_secs: self@.announce_delay_secs,
                            message: PeerMessage::LatestStateMsg(l),
                        }),
                    ),
                    Err(e) => r == Err::<Action, SyncError>(e),
                },
                _ => r matches Ok(Action::Nothing),
            },
    {
        match msg {
            ProcessMessage::NewPeerMsg(p) => {
                let latest = self.processor.send_latest_state_msg()?;
                Ok(Action::SendToPeer {
                    peer: p.id,
                    delay_secs: self.announce_delay_secs,
                    message: PeerMessage::LatestStateMsg(latest),
                })
            },
            _ => Ok(Action::Nothing),
        }
    }

    /// The answer to an inbound request: a response to the requesting peer
    /// under the request's identifier, a failure response when the batch
    /// cannot be served, nothing for a liveness probe.
    pub fn handle_rpc_request(&self, msg: &RpcRequestMessage) -> (r: Result<Action, SyncError>)
        ensures
            rpc_reply(self@, *msg, r),
    {
        if !self.registered {
            return Err(SyncError::NotRegistered);
        }
        let id = msg.id;
        let peer = msg.peer_id;
        match &msg.request {
            RpcRequest::TestRequest(_) => Ok(Action::Nothing),
            RpcRequest::GetHashByNumberMsg(m) => {
                let response = match self.processor.handle_get_hash_by_number_msg(id, m) {
                    Ok(batch) => RpcResponse::BatchHashByNumberMsg(batch),
                    Err(e) => RpcResponse::Failure(id, e),
                };
                Ok(Action::Respond { peer, request_id: id, response })
            },
            RpcRequest::GetDataByHashMsg(m) => {
                let response = match m.data_type {
                    DataType::Header => match self.processor.handle_get_header_by_hash_msg(m) {
                        Ok(headers) => {
                            let bodies = self.processor.handle_get_body_by_hash_msg(m);
                            RpcResponse::BatchHeaderAndBodyMsg(id, headers, bodies)
                        },
                        Err(e) => RpcResponse::Failure(id, e),
                    },
                    DataType::Body => RpcResponse::Failure(id, SyncError::UnsupportedRequest),
                };
                Ok(Action::Respond { peer, request_id: id, response })
            },
        }
    }
}

} // verus!
