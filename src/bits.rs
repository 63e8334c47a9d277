//! Router bits: the catalog entries that coordinates belong to.
use vstd::prelude::*;
use crate::error::CoreError;
use crate::ident::{is_random_id, new_bit_id};
use crate::store::MAX_LENGTH;

verus! {

/// A router bit. The diameter is in ten-thousandths of an inch.
pub struct RouterBit {
    pub id: u128,
    pub name: String,
    pub bit_type: String,
    pub diameter: i64,
    pub description: String,
}

pub struct RouterBitView {
    pub id: u128,
    pub name: Seq<char>,
    pub bit_type: Seq<char>,
    pub diameter: int,
    pub description: Seq<char>,
}

impl View for RouterBit {
    type V = RouterBitView;

    open spec fn view(&self) -> RouterBitView {
        RouterBitView {
            id: self.id,
            name: self.name@,
            bit_type: self.bit_type@,
            diameter: self.diameter as int,
            description: self.description@,
        }
    }
}

} // verus!

verus! {

/// A request to add a bit to the catalog; the identifier is generated.
pub struct CreateRouterBitRequest {
    pub name: String,
    pub bit_type: String,
    pub diameter: i64,
    pub description: String,
}

/// A diameter is accepted when it is positive and within `MAX_LENGTH`.
pub open spec fn diameter_valid(d: int) -> bool {
    0 < d <= MAX_LENGTH
}

/// The bit described by `request` under identifier `id`, when its diameter is valid.
pub fn build_router_bit(id: u128, request: CreateRouterBitRequest) -> (r: Result<RouterBit, CoreError>)
    ensures
        r is Ok <==> diameter_valid(request.diameter as int),
        r is Err ==> r->Err_0 == CoreError::RequestMalformed,
        r matches Ok(b) ==> b.id == id && b.name == request.name && b.bit_type == request.bit_type
            && b.diameter == request.diameter && b.description == request.description,
{
    if !(0 < request.diameter && request.diameter <= MAX_LENGTH) {
        return Err(CoreError::RequestMalformed);
    }
    Ok(RouterBit {
        id,
        name: request.name,
        bit_type: request.bit_type,
        diameter: request.diameter,
        description: request.description,
    })
}

/// A new bit built from `request` under a freshly generated random identifier.
pub fn create_router_bit(request: CreateRouterBitRequest) -> (r: Result<RouterBit, CoreError>)
    ensures
        r is Ok <==> diameter_valid(request.diameter as int),
        r is Err ==> r->Err_0 == CoreError::RequestMalformed,
        r matches Ok(b) ==> is_random_id(b.id) && b.name == request.name && b.bit_type
            == request.bit_type && b.diameter == request.diameter && b.description == request.description,
{
    let id = new_bit_id();
    build_router_bit(id, request)
}

} // verus!
