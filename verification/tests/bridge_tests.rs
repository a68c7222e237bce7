use point_rpc::bridge::{ActorBridge, BridgeSession, BridgeState};
use point_rpc::point::Point;
use point_rpc::protocol::{
    accept_create, accept_delete, accept_read, accept_update, PointError, PointRequest,
    PointResponse,
};
use point_rpc::store::KeyedStore;

fn point_of(x: f64, y: f64) -> Point {
    Point { x_bits: x.to_bits(), y_bits: y.to_bits() }
}

#[test]
fn bridge_round_trip() {
    let mut session = BridgeSession::connect(KeyedStore::new());
    let v = point_of(2.0, 3.0);
    let id = session.create(v).unwrap();
    assert_eq!(session.read(id), Ok(v));
}

#[test]
fn bridge_crud_scenario_ten_updates() {
    let mut session = BridgeSession::connect(KeyedStore::new());
    let id = session.create(point_of(0.0, 0.0)).unwrap();

    let mut x: f64 = 0.0;
    let mut y: f64 = 0.0;
    for _ in 0..10 {
        x += 1.0;
        y += 2.0;
        let v = point_of(x, y);
        assert_eq!(session.update(id, v), Ok(()));
        assert_eq!(session.read(id), Ok(v));
    }

    assert_eq!(session.delete(id), Ok(()));
    session.cancel();
    assert_eq!(session.read(id), Err(PointError::Internal));
}

#[test]
fn bridge_backpressure_one_call_at_a_time() {
    let mut b = ActorBridge::new();
    let first = PointRequest::Delete(1);
    let second = PointRequest::Delete(2);

    assert!(b.try_send(first));
    // The previous call has produced no response yet: a second send is not
    // accepted in any of its phases.
    assert!(!b.try_send(second));
    assert_eq!(b.take(), Some(first));
    assert!(!b.try_send(second));
    b.respond(PointResponse::Delete);
    assert!(!b.try_send(second));
    assert_eq!(b.recv(), Some(PointResponse::Delete));
    // The first call is complete; now the second may enter.
    assert!(b.try_send(second));
}

#[test]
fn bridge_ordering_sequential_calls() {
    let mut b = ActorBridge::new();
    let first = PointRequest::Read(1);
    let second = PointRequest::Read(2);

    assert!(b.try_send(first));
    assert_eq!(b.take(), Some(first));
    b.respond(PointResponse::Read(point_of(1.0, 0.0)));
    // The response waiting in the slot answers the first request, and the
    // second request cannot have entered before it was received.
    assert_eq!(b.state, BridgeState::Responded(first, PointResponse::Read(point_of(1.0, 0.0))));
    assert_eq!(b.recv(), Some(PointResponse::Read(point_of(1.0, 0.0))));
    assert!(b.try_send(second));
    assert_eq!(b.take(), Some(second));
}

#[test]
fn cancelled_session_fails_internal() {
    let mut session = BridgeSession::connect(KeyedStore::new());
    let v = point_of(1.0, 1.0);
    let id = session.create(v).unwrap();
    session.cancel();
    assert_eq!(session.create(v), Err(PointError::Internal));
    assert_eq!(session.read(id), Err(PointError::Internal));
    assert_eq!(session.update(id, v), Err(PointError::Internal));
    assert_eq!(session.delete(id), Err(PointError::Internal));
}

#[test]
fn storage_failure_closes_session() {
    let mut session = BridgeSession::connect(KeyedStore::new());
    assert_eq!(session.read(3), Err(PointError::Internal));
    // The worker died; even a create now fails.
    assert_eq!(session.create(point_of(0.0, 0.0)), Err(PointError::Internal));
}

#[test]
fn mismatched_or_missing_response_is_internal() {
    let p = point_of(0.0, 0.0);
    assert_eq!(accept_create(Some(PointResponse::Create(9))), Ok(9));
    assert_eq!(accept_create(Some(PointResponse::Read(p))), Err(PointError::Internal));
    assert_eq!(accept_create(None), Err(PointError::Internal));
    assert_eq!(accept_read(Some(PointResponse::Read(p))), Ok(p));
    assert_eq!(accept_read(Some(PointResponse::Update)), Err(PointError::Internal));
    assert_eq!(accept_read(None), Err(PointError::Internal));
    assert_eq!(accept_update(Some(PointResponse::Update)), Ok(()));
    assert_eq!(accept_update(Some(PointResponse::Delete)), Err(PointError::Internal));
    assert_eq!(accept_delete(Some(PointResponse::Delete)), Ok(()));
    assert_eq!(accept_delete(Some(PointResponse::Create(1))), Err(PointError::Internal));
}
