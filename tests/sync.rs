use starcoin_sync::chain::ChainSnapshot;
use starcoin_sync::coordinator::{ProcessActor, DEFAULT_ANNOUNCE_DELAY_SECS};
use starcoin_sync::process::Processor;
use starcoin_sync::types::{
    Action, Block, BlockHeader, DataType, GetDataByHashMsg, GetHashByNumberMsg, HashValue, PeerId,
    PeerInfo, PeerMessage, ProcessMessage, RpcRequest, RpcRequestMessage, RpcResponse, SyncError,
    Transaction,
};

fn hash_of(n: u64) -> HashValue {
    HashValue::new(7, n as u128)
}

fn tx(n: u64) -> Transaction {
    Transaction { id: HashValue::new(9, n as u128) }
}

fn block(n: u64) -> Block {
    Block {
        header: BlockHeader {
            parent_hash: hash_of(n.saturating_sub(1)),
            number: n,
            timestamp: 1000 + n,
            id: hash_of(n),
        },
        transactions: vec![tx(n * 10), tx(n * 10 + 1)],
    }
}

fn chain_1_to_5() -> ChainSnapshot {
    ChainSnapshot::new((1..=5).map(block).collect())
}

fn hash_unknown() -> HashValue {
    HashValue::new(1, 1)
}

fn actor() -> ProcessActor {
    let mut a = ProcessActor::launch(PeerInfo { id: PeerId { id: 1 } }, chain_1_to_5(), DEFAULT_ANNOUNCE_DELAY_SECS);
    assert_eq!(a.started(true), Ok(()));
    a
}

#[test]
fn hashes_by_number_keep_request_order() {
    let p = Processor::new(chain_1_to_5());
    let req_id = HashValue::new(3, 3);
    let batch = p
        .handle_get_hash_by_number_msg(req_id, &GetHashByNumberMsg { numbers: vec![2, 4, 1] })
        .unwrap();
    assert_eq!(batch.id, req_id);
    let got: Vec<(u64, HashValue)> = batch.hashs.iter().map(|e| (e.number, e.hash)).collect();
    assert_eq!(got, vec![(2, hash_of(2)), (4, hash_of(4)), (1, hash_of(1))]);
}

#[test]
fn hashes_by_number_repeated_numbers() {
    let p = Processor::new(chain_1_to_5());
    let batch = p
        .handle_get_hash_by_number_msg(hash_of(0), &GetHashByNumberMsg { numbers: vec![5, 5, 3] })
        .unwrap();
    assert_eq!(batch.hashs.len(), 3);
    assert_eq!(batch.hashs[0].hash, hash_of(5));
    assert_eq!(batch.hashs[1].hash, hash_of(5));
    assert_eq!(batch.hashs[2].number, 3);
}

#[test]
fn hashes_by_number_empty_request() {
    let p = Processor::new(chain_1_to_5());
    let batch = p.handle_get_hash_by_number_msg(hash_of(0), &GetHashByNumberMsg { numbers: vec![] }).unwrap();
    assert!(batch.hashs.is_empty());
}

#[test]
fn hashes_by_number_unknown_number_fails_batch() {
    let p = Processor::new(chain_1_to_5());
    let r = p.handle_get_hash_by_number_msg(hash_of(0), &GetHashByNumberMsg { numbers: vec![1, 9, 2, 8] });
    assert_eq!(r.unwrap_err(), SyncError::BlockNumberNotFound(9));
}

#[test]
fn headers_by_hash_in_order() {
    let p = Processor::new(chain_1_to_5());
    let msg = GetDataByHashMsg { hashs: vec![hash_of(3), hash_of(1)], data_type: DataType::Header };
    let batch = p.handle_get_header_by_hash_msg(&msg).unwrap();
    assert_eq!(batch.headers.len(), 2);
    assert_eq!(batch.headers[0].hash, hash_of(3));
    assert_eq!(batch.headers[0].header.number, 3);
    assert_eq!(batch.headers[1].header, block(1).header);
}

#[test]
fn headers_by_hash_unknown_hash_fails_batch() {
    let p = Processor::new(chain_1_to_5());
    let msg = GetDataByHashMsg { hashs: vec![hash_of(2), hash_unknown()], data_type: DataType::Header };
    assert_eq!(p.handle_get_header_by_hash_msg(&msg).unwrap_err(), SyncError::BlockHashNotFound(hash_unknown()));
}

#[test]
fn bodies_for_known_and_unknown_hashes() {
    let p = Processor::new(chain_1_to_5());
    let msg = GetDataByHashMsg { hashs: vec![hash_of(4), hash_unknown()], data_type: DataType::Body };
    let batch = p.handle_get_body_by_hash_msg(&msg);
    assert_eq!(batch.bodies.len(), 2);
    assert_eq!(batch.bodies[0].hash, hash_of(4));
    assert_eq!(batch.bodies[0].transactions, vec![tx(40), tx(41)]);
    assert_eq!(batch.bodies[1].hash, hash_unknown());
    assert!(batch.bodies[1].transactions.is_empty());
}

#[test]
fn bodies_all_unknown_keep_length() {
    let p = Processor::new(ChainSnapshot::new(vec![]));
    let msg = GetDataByHashMsg { hashs: vec![hash_unknown(), hash_of(1), hash_unknown()], data_type: DataType::Body };
    let batch = p.handle_get_body_by_hash_msg(&msg);
    assert_eq!(batch.bodies.len(), 3);
    assert!(batch.bodies.iter().all(|b| b.transactions.is_empty()));
}

#[test]
fn head_block_and_latest_state() {
    let p = Processor::new(chain_1_to_5());
    let head = p.head_block().unwrap();
    assert_eq!(head.header.number, 5);
    assert_eq!(head.transactions, vec![tx(50), tx(51)]);
    let latest = p.send_latest_state_msg().unwrap();
    assert_eq!(latest.hash_header.hash, hash_of(5));
    assert_eq!(latest.hash_header.header, block(5).header);
}

#[test]
fn empty_chain_has_no_head() {
    let p = Processor::new(ChainSnapshot::new(vec![]));
    assert_eq!(p.head_block().unwrap_err(), SyncError::HeadUnavailable);
    assert_eq!(p.send_latest_state_msg().unwrap_err(), SyncError::HeadUnavailable);
}

#[test]
fn chain_push_moves_head() {
    let mut c = ChainSnapshot::new(vec![block(1)]);
    c.push(block(2));
    assert_eq!(c.len(), 2);
    assert_eq!(c.head_block().unwrap().header.number, 2);
    assert_eq!(c.header_by_number(1).unwrap().id, hash_of(1));
    assert_eq!(c.header_by_hash(hash_of(2)).unwrap().number, 2);
    assert_eq!(c.transactions_by_hash(hash_of(2)).unwrap(), vec![tx(20), tx(21)]);
    assert!(c.header_by_number(3).is_none());
    assert!(c.transactions_by_hash(hash_unknown()).is_none());
}

#[test]
fn new_peer_gets_one_delayed_announcement() {
    let a = actor();
    let peer = PeerId { id: 42 };
    match a.handle_process_message(&ProcessMessage::NewPeerMsg(PeerInfo { id: peer })).unwrap() {
        Action::SendToPeer { peer: to, delay_secs, message: PeerMessage::LatestStateMsg(m) } => {
            assert_eq!(to, peer);
            assert_eq!(delay_secs, 1);
            assert_eq!(m.hash_header.hash, hash_of(5));
        }
        other => panic!("unexpected action {:?}", other),
    }
}

#[test]
fn announcement_delay_is_configurable() {
    let a = ProcessActor::launch(PeerInfo { id: PeerId { id: 1 } }, chain_1_to_5(), 30);
    assert_eq!(a.announce_delay_secs(), 30);
    match a.handle_process_message(&ProcessMessage::NewPeerMsg(PeerInfo { id: PeerId { id: 2 } })).unwrap() {
        Action::SendToPeer { delay_secs, .. } => assert_eq!(delay_secs, 30),
        other => panic!("unexpected action {:?}", other),
    }
}

#[test]
fn new_peer_on_empty_chain_is_local_fault() {
    let a = ProcessActor::launch(PeerInfo { id: PeerId { id: 1 } }, ChainSnapshot::new(vec![]), 1);
    let r = a.handle_process_message(&ProcessMessage::NewPeerMsg(PeerInfo { id: PeerId { id: 2 } }));
    assert_eq!(r.unwrap_err(), SyncError::HeadUnavailable);
}

#[test]
fn local_request_messages_ask_nothing() {
    let a = actor();
    let r = a.handle_process_message(&ProcessMessage::GetHashByNumberMsg(GetHashByNumberMsg { numbers: vec![1] }));
    assert!(matches!(r, Ok(Action::Nothing)));
}

#[test]
fn registration_failure_is_startup_fault() {
    let mut a = ProcessActor::launch(PeerInfo { id: PeerId { id: 1 } }, chain_1_to_5(), 1);
    assert!(!a.is_registered());
    assert_eq!(a.started(false), Err(SyncError::SubscriptionFailed));
    assert!(!a.is_registered());
    assert_eq!(a.peer_info().id, PeerId { id: 1 });
}

#[test]
fn request_before_registration_is_refused() {
    let a = ProcessActor::launch(PeerInfo { id: PeerId { id: 1 } }, chain_1_to_5(), 1);
    let msg = RpcRequestMessage { peer_id: PeerId { id: 2 }, id: hash_of(0), request: RpcRequest::TestRequest(0) };
    assert_eq!(a.handle_rpc_request(&msg).unwrap_err(), SyncError::NotRegistered);
}

#[test]
fn rpc_hash_by_number_response_is_correlated() {
    let a = actor();
    let req_id = HashValue::new(5, 55);
    let msg = RpcRequestMessage {
        peer_id: PeerId { id: 8 },
        id: req_id,
        request: RpcRequest::GetHashByNumberMsg(GetHashByNumberMsg { numbers: vec![2, 4, 1] }),
    };
    match a.handle_rpc_request(&msg).unwrap() {
        Action::Respond { peer, request_id, response: RpcResponse::BatchHashByNumberMsg(b) } => {
            assert_eq!(peer, PeerId { id: 8 });
            assert_eq!(request_id, req_id);
            assert_eq!(b.id, req_id);
            let numbers: Vec<u64> = b.hashs.iter().map(|e| e.number).collect();
            assert_eq!(numbers, vec![2, 4, 1]);
        }
        other => panic!("unexpected action {:?}", other),
    }
}

#[test]
fn rpc_hash_by_number_unknown_reports_failure() {
    let a = actor();
    let msg = RpcRequestMessage {
        peer_id: PeerId { id: 8 },
        id: hash_of(77),
        request: RpcRequest::GetHashByNumberMsg(GetHashByNumberMsg { numbers: vec![6] }),
    };
    match a.handle_rpc_request(&msg).unwrap() {
        Action::Respond { request_id, response: RpcResponse::Failure(id, e), .. } => {
            assert_eq!(request_id, hash_of(77));
            assert_eq!(id, hash_of(77));
            assert_eq!(e, SyncError::BlockNumberNotFound(6));
        }
        other => panic!("unexpected action {:?}", other),
    }
}

#[test]
fn rpc_unknown_header_reports_batch_failure() {
    let a = actor();
    let msg = RpcRequestMessage {
        peer_id: PeerId { id: 3 },
        id: hash_of(11),
        request: RpcRequest::GetDataByHashMsg(GetDataByHashMsg { hashs: vec![hash_unknown()], data_type: DataType::Header }),
    };
    match a.handle_rpc_request(&msg).unwrap() {
        Action::Respond { peer, response: RpcResponse::Failure(id, e), .. } => {
            assert_eq!(peer, PeerId { id: 3 });
            assert_eq!(id, hash_of(11));
            assert_eq!(e, SyncError::BlockHashNotFound(hash_unknown()));
        }
        other => panic!("unexpected action {:?}", other),
    }
}

#[test]
fn rpc_header_request_returns_headers_and_bodies() {
    let a = actor();
    let msg = RpcRequestMessage {
        peer_id: PeerId { id: 3 },
        id: hash_of(12),
        request: RpcRequest::GetDataByHashMsg(GetDataByHashMsg { hashs: vec![hash_of(2), hash_of(5)], data_type: DataType::Header }),
    };
    match a.handle_rpc_request(&msg).unwrap() {
        Action::Respond { response: RpcResponse::BatchHeaderAndBodyMsg(id, headers, bodies), .. } => {
            assert_eq!(id, hash_of(12));
            assert_eq!(headers.headers.len(), 2);
            assert_eq!(headers.headers[1].header.number, 5);
            assert_eq!(bodies.bodies.len(), 2);
            assert_eq!(bodies.bodies[0].transactions, vec![tx(20), tx(21)]);
        }
        other => panic!("unexpected action {:?}", other),
    }
}

#[test]
fn rpc_body_only_request_is_unsupported() {
    let a = actor();
    let msg = RpcRequestMessage {
        peer_id: PeerId { id: 3 },
        id: hash_of(13),
        request: RpcRequest::GetDataByHashMsg(GetDataByHashMsg { hashs: vec![hash_of(2)], data_type: DataType::Body }),
    };
    match a.handle_rpc_request(&msg).unwrap() {
        Action::Respond { response: RpcResponse::Failure(id, e), .. } => {
            assert_eq!(id, hash_of(13));
            assert_eq!(e, SyncError::UnsupportedRequest);
        }
        other => panic!("unexpected action {:?}", other),
    }
}

#[test]
fn rpc_probe_is_ignored() {
    let a = actor();
    let msg = RpcRequestMessage { peer_id: PeerId { id: 2 }, id: hash_of(0), request: RpcRequest::TestRequest(5) };
    assert!(matches!(a.handle_rpc_request(&msg), Ok(Action::Nothing)));
}

#[test]
fn two_peers_get_their_own_responses() {
    let a = actor();
    let m1 = RpcRequestMessage {
        peer_id: PeerId { id: 100 },
        id: hash_of(1001),
        request: RpcRequest::GetHashByNumberMsg(GetHashByNumberMsg { numbers: vec![1] }),
    };
    let m2 = RpcRequestMessage {
        peer_id: PeerId { id: 200 },
        id: hash_of(2002),
        request: RpcRequest::GetHashByNumberMsg(GetHashByNumberMsg { numbers: vec![3] }),
    };
    // Answered in the opposite order to arrival.
    let r2 = a.handle_rpc_request(&m2).unwrap();
    let r1 = a.handle_rpc_request(&m1).unwrap();
    match (r1, r2) {
        (
            Action::Respond { peer: p1, request_id: i1, response: RpcResponse::BatchHashByNumberMsg(b1) },
            Action::Respond { peer: p2, request_id: i2, response: RpcResponse::BatchHashByNumberMsg(b2) },
        ) => {
            assert_eq!((p1, i1, b1.id), (PeerId { id: 100 }, hash_of(1001), hash_of(1001)));
            assert_eq!((p2, i2, b2.id), (PeerId { id: 200 }, hash_of(2002), hash_of(2002)));
            assert_eq!(b1.hashs[0].hash, hash_of(1));
            assert_eq!(b2.hashs[0].hash, hash_of(3));
        }
        other => panic!("unexpected actions {:?}", other),
    }
}
