use vstd::prelude::*;
use crate::point::Point;
use crate::store::{KeyedStore, StoreError};

verus! {

/// One tagged request travelling from the bridge's caller to its worker.
#[derive(Clone, Copy, PartialEq, Eq, Structural, Debug)]
pub enum PointRequest {
    Create(Point),
    Read(u64),
    Update(u64, Point),
    Delete(u64),
}

/// One tagged response travelling back; exactly one response answers exactly
/// one request, matched by channel ordering.
#[derive(Clone, Copy, PartialEq, Eq, Structural, Debug)]
pub enum PointResponse {
    Create(u64),
    Read(Point),
    Update,
    Delete,
}

/// Failure surfaced by the bridge to its caller: the background context died
/// (cancelled, connection or storage failure) or a response arrived whose tag
/// does not answer the request that was sent. All causes collapse into one
/// kind on purpose: the caller must treat them all as "reconnect and retry".
#[derive(Clone, Copy, PartialEq, Eq, Structural, Debug)]
pub enum PointError {
    Internal,
}

/// Whether a response's tag answers a request's tag.
pub open spec fn response_matches(req: PointRequest, resp: PointResponse) -> bool {
    match req {
        PointRequest::Create(_) => resp is Create,
        PointRequest::Read(_) => resp is Read,
        PointRequest::Update(_, _) => resp is Update,
        PointRequest::Delete(_) => resp is Delete,
    }
}

/// Serve one request against the store: the service half of the protocol.
/// On success the response's tag answers the request's tag; a read or update
/// of an absent identifier is the one structured failure. A create's fresh
/// identifier is whatever the store generated; everything else about the
/// outcome is pinned down per request variant.
pub fn dispatch(store: &mut KeyedStore, req: PointRequest) -> (r: Result<PointResponse, StoreError>)
    ensures
        req matches PointRequest::Create(v) ==> (r matches Ok(resp) && resp matches
            PointResponse::Create(id) && final(store)@ == old(store)@.insert(id, v)),
        req matches PointRequest::Read(id) ==> {
            &&& final(store)@ == old(store)@
            &&& old(store)@.contains_key(id) ==> r == Ok::<PointResponse, StoreError>(
                PointResponse::Read(old(store)@[id]),
            )
            &&& !old(store)@.contains_key(id) ==> r == Err::<PointResponse, StoreError>(
                StoreError::NotFound(id),
            )
        },
        req matches PointRequest::Update(id, v) ==> {
            &&& old(store)@.contains_key(id) ==> r == Ok::<PointResponse, StoreError>(
                PointResponse::Update,
            ) && final(store)@ == old(store)@.insert(id, v)
            &&& !old(store)@.contains_key(id) ==> r == Err::<PointResponse, StoreError>(
                StoreError::NotFound(id),
            ) && final(store)@ == old(store)@
        },
        req matches PointRequest::Delete(id) ==> r == Ok::<PointResponse, StoreError>(
            PointResponse::Delete,
        ) && final(store)@ == old(store)@.remove(id),
        r matches Ok(resp) ==> response_matches(req, resp),
{
    match req {
        PointRequest::Create(v) => {
            let id = store.create(v);
            Ok(PointResponse::Create(id))
        },
        PointRequest::Read(id) => match store.read(id) {
            Ok(v) => Ok(PointResponse::Read(v)),
            Err(e) => Err(e),
        },
        PointRequest::Update(id, v) => match store.update(id, v) {
            Ok(_) => Ok(PointResponse::Update),
            Err(e) => Err(e),
        },
        PointRequest::Delete(id) => {
            store.delete(id);
            Ok(PointResponse::Delete)
        },
    }
}

/// Unwrap the response to a create, as the bridge's caller does: the matching
/// tag yields the new identifier; any other shape, or a closed channel
/// (`None`), collapses to `Internal`.
pub fn accept_create(r: Option<PointResponse>) -> (out: Result<u64, PointError>)
    ensures
        out == (match r {
            Some(PointResponse::Create(id)) => Ok::<u64, PointError>(id),
            _ => Err::<u64, PointError>(PointError::Internal),
        }),
{
    match r {
        Some(PointResponse::Create(id)) => Ok(id),
        _ => Err(PointError::Internal),
    }
}

/// Unwrap the response to a read: the matching tag yields the value; any
/// other shape or a closed channel collapses to `Internal`.
pub fn accept_read(r: Option<PointResponse>) -> (out: Result<Point, PointError>)
    ensures
        out == (match r {
            Some(PointResponse::Read(v)) => Ok::<Point, PointError>(v),
            _ => Err::<Point, PointError>(PointError::Internal),
        }),
{
    match r {
        Some(PointResponse::Read(v)) => Ok(v),
        _ => Err(PointError::Internal),
    }
}

/// Unwrap the response to an update.
pub fn accept_update(r: Option<PointResponse>) -> (out: Result<(), PointError>)
    ensures
        out == (match r {
            Some(PointResponse::Update) => Ok::<(), PointError>(()),
            _ => Err::<(), PointError>(PointError::Internal),
        }),
{
    match r {
        Some(PointResponse::Update) => Ok(()),
        _ => Err(PointError::Internal),
    }
}

/// Unwrap the response to a delete.
pub fn accept_delete(r: Option<PointResponse>) -> (out: Result<(), PointError>)
    ensures
        out == (match r {
            Some(PointResponse::Delete) => Ok::<(), PointError>(()),
            _ => Err::<(), PointError>(PointError::Internal),
        }),
{
    match r {
        Some(PointResponse::Delete) => Ok(()),
        _ => Err(PointError::Internal),
    }
}

} // verus!
