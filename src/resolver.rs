//! Coordinate resolution: stored bit offsets adjusted by the request's flags.
use vstd::prelude::*;
use crate::bits::RouterBit;
use crate::error::CoreError;
use crate::ident::{bit_id_text, uuid_text};
use crate::store::{lookup, BitCoordinateStore, BitCoordinates, CoordinateView, MAX_LENGTH};

verus! {

/// Clearance added above the workpiece before a height-based Z move: two inches.
pub const CLEARANCE: i64 = 20000;

/// A request to generate a program for one bit. Lengths are ten-thousandths
/// of an inch.
pub struct GenerateRequest {
    pub router_bit: RouterBit,
    pub plywood_thickness: i64,
    pub calculate_workpiece_zero: bool,
    pub calculate_workpiece_height: bool,
}

/// Coordinates after the request's adjustment, ready to be rendered.
#[derive(Debug, Clone, Copy, PartialEq, Eq, Structural)]
pub struct ResolvedCoordinates {
    pub x: i64,
    pub y: i64,
    pub z: i64,
}

/// A plywood thickness is accepted when it is non-negative and within `MAX_LENGTH`.
pub open spec fn thickness_valid(t: int) -> bool {
    0 <= t <= MAX_LENGTH
}

/// Z for the workpiece-zero path: the thickness is subtracted when asked.
pub open spec fn workpiece_zero_z(z: int, t: int, compute_workpiece_zero: bool) -> int {
    if compute_workpiece_zero { z - t } else { z }
}

/// Z for the set-Z path, from the stored Z alone: thickness and clearance are
/// added when asked.
pub open spec fn workpiece_height_z(z: int, t: int, compute_workpiece_height: bool) -> int {
    if compute_workpiece_height { z + t + CLEARANCE } else { z }
}

/// Outcome of resolving bit `id` in store contents `s`, as `(x, y, z)`, with
/// `adjust` applied to the stored Z.
pub open spec fn resolution(
    s: Seq<CoordinateView>,
    id: u128,
    t: int,
    adjust: spec_fn(int) -> int,
) -> Result<(int, int, int), CoreError> {
    if !thickness_valid(t) {
        Err(CoreError::RequestMalformed)
    } else {
        match lookup(s, uuid_text(id)) {
            None => Err(CoreError::BitNotFound),
            Some(c) => Ok((c.x, c.y, adjust(c.z))),
        }
    }
}

/// Outcome of `resolve`.
pub open spec fn resolved(s: Seq<CoordinateView>, id: u128, t: int, compute_workpiece_zero: bool) -> Result<(int, int, int), CoreError> {
    resolution(s, id, t, |z: int| workpiece_zero_z(z, t, compute_workpiece_zero))
}

/// Outcome of `resolve_height`.
pub open spec fn resolved_height(s: Seq<CoordinateView>, id: u128, t: int, compute_workpiece_height: bool) -> Result<(int, int, int), CoreError> {
    resolution(s, id, t, |z: int| workpiece_height_z(z, t, compute_workpiece_height))
}

pub open spec fn as_triple(c: ResolvedCoordinates) -> (int, int, int) {
    (c.x as int, c.y as int, c.z as int)
}

pub open spec fn matches_outcome(r: Result<ResolvedCoordinates, CoreError>, o: Result<(int, int, int), CoreError>) -> bool {
    match r {
        Ok(c) => o == Ok::<(int, int, int), CoreError>(as_triple(c)),
        Err(e) => o == Err::<(int, int, int), CoreError>(e),
    }
}

fn check_thickness(t: i64) -> (r: Result<(), CoreError>)
    ensures
        r is Ok <==> thickness_valid(t as int),
        r is Err ==> r == Err::<(), CoreError>(CoreError::RequestMalformed),
{
    if 0 <= t && t <= MAX_LENGTH {
        Ok(())
    } else {
        Err(CoreError::RequestMalformed)
    }
}

/// The stored record of bit `bit_id`: its key is the identifier's hyphenated text.
pub fn find_coordinates(store: &BitCoordinateStore, bit_id: u128) -> (r: Result<&BitCoordinates, CoreError>)
    requires
        store.wf(),
    ensures
        match r {
            Ok(c) => lookup(store@, uuid_text(bit_id)) == Some(c@),
            Err(e) => e == CoreError::BitNotFound && lookup(store@, uuid_text(bit_id)) is None,
        },
{
    let key = bit_id_text(bit_id);
    match store.get(&key) {
        Some(c) => Ok(c),
        None => Err(CoreError::BitNotFound),
    }
}

/// Resolves the coordinates of bit `bit_id`: x and y as stored, z lowered by
/// `thickness` when `compute_workpiece_zero` is set.
pub fn resolve(store: &BitCoordinateStore, bit_id: u128, thickness: i64, compute_workpiece_zero: bool) -> (r: Result<ResolvedCoordinates, CoreError>)
    requires
        store.wf(),
    ensures
        matches_outcome(r, resolved(store@, bit_id, thickness as int, compute_workpiece_zero)),
        !thickness_valid(thickness as int) ==> r == Err::<ResolvedCoordinates, CoreError>(CoreError::RequestMalformed),
        thickness_valid(thickness as int) && lookup(store@, uuid_text(bit_id)) is None ==> r == Err::<ResolvedCoordinates, CoreError>(CoreError::BitNotFound),
        thickness_valid(thickness as int) && !compute_workpiece_zero ==> match lookup(store@, uuid_text(bit_id)) {
            Some(c) => r is Ok && as_triple(r->Ok_0) == (c.x, c.y, c.z),
            None => true,
        },
        thickness_valid(thickness as int) && compute_workpiece_zero ==> match lookup(store@, uuid_text(bit_id)) {
            Some(c) => r is Ok && as_triple(r->Ok_0) == (c.x, c.y, c.z - thickness),
            None => true,
        },
{
    check_thickness(thickness)?;
    let c = find_coordinates(store, bit_id)?;
    proof {
        crate::store::lemma_lookup_in_range(store@, uuid_text(bit_id));
    }
    let z = if compute_workpiece_zero { c.z - thickness } else { c.z };
    Ok(ResolvedCoordinates { x: c.x, y: c.y, z })
}

/// Resolves bit `bit_id` for the set-Z operation: x and y as stored, z raised
/// by `thickness` plus `CLEARANCE` when `compute_workpiece_height` is set. The
/// stored Z is the base, never a workpiece-zero adjusted one.
pub fn resolve_height(store: &BitCoordinateStore, bit_id: u128, thickness: i64, compute_workpiece_height: bool) -> (r: Result<ResolvedCoordinates, CoreError>)
    requires
        store.wf(),
    ensures
        matches_outcome(r, resolved_height(store@, bit_id, thickness as int, compute_workpiece_height)),
        !thickness_valid(thickness as int) ==> r == Err::<ResolvedCoordinates, CoreError>(CoreError::RequestMalformed),
        thickness_valid(thickness as int) && lookup(store@, uuid_text(bit_id)) is None ==> r == Err::<ResolvedCoordinates, CoreError>(CoreError::BitNotFound),
        thickness_valid(thickness as int) && !compute_workpiece_height ==> match lookup(store@, uuid_text(bit_id)) {
            Some(c) => r is Ok && as_triple(r->Ok_0) == (c.x, c.y, c.z),
            None => true,
        },
        thickness_valid(thickness as int) && compute_workpiece_height ==> match lookup(store@, uuid_text(bit_id)) {
            Some(c) => r is Ok && as_triple(r->Ok_0) == (c.x, c.y, c.z + thickness + CLEARANCE),
            None => true,
        },
{
    check_thickness(thickness)?;
    let c = find_coordinates(store, bit_id)?;
    proof {
        crate::store::lemma_lookup_in_range(store@, uuid_text(bit_id));
    }
    let z = if compute_workpiece_height { c.z + thickness + CLEARANCE } else { c.z };
    Ok(ResolvedCoordinates { x: c.x, y: c.y, z })
}

} // verus!

verus! {

/// Updating a stored bit's coordinates and then resolving that bit with no
/// adjustment gives back exactly the updated coordinates.
pub proof fn lemma_update_then_resolve(s: Seq<CoordinateView>, bit_id: u128, x: int, y: int, z: int, t: int)
    requires
        crate::store::keys_unique(s),
        crate::store::has_key(s, uuid_text(bit_id)),
        thickness_valid(t),
    ensures
        resolved(crate::store::with_offset(s, uuid_text(bit_id), x, y, z), bit_id, t, false)
            == Ok::<(int, int, int), CoreError>((x, y, z)),
{
    let key = uuid_text(bit_id);
    let u = crate::store::with_offset(s, key, x, y, z);
    let i = choose|i: int| 0 <= i < s.len() && s[i].bit_id == key;
    assert(u[i].bit_id == key);
    assert(crate::store::keys_unique(u)) by {
        assert forall|a: int, b: int| 0 <= a < b < u.len() implies u[a].bit_id != u[b].bit_id by {
            assert(u[a].bit_id == s[a].bit_id && u[b].bit_id == s[b].bit_id);
        }
    }
    crate::store::lemma_lookup_at(u, key, i);
}

} // verus!
