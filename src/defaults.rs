//! The bits and offsets that a new catalog starts with.
use vstd::prelude::*;
use vstd::string::StringExecFns;
use crate::bits::{RouterBit, RouterBitView};
use crate::ident::{bit_id_text, uuid_text};
use crate::store::{has_key, lookup, keys_unique, BitCoordinateStore, BitCoordinates, CoordinateView};

verus! {

/// Number of bits a new catalog starts with.
pub const DEFAULT_BIT_COUNT: usize = 5;

/// Identifier of the `k`-th default bit.
pub open spec fn default_bit_id(k: int) -> u128 {
    if k == 0 { 0x550e8400e29b41d4a716446655440000u128 }
    else if k == 1 { 0x6ba7b8109dad11d180b400c04fd430c8u128 }
    else if k == 2 { 0x550e8400e29b41d4a716446655440001u128 }
    else if k == 3 { 0x7f2c4a1b8d5e4c3f9f6a1d2b3e4f5a6bu128 }
    else { 0x9e8d7c6b5a4f3e2d1c0b9a8b7c6d5e4fu128 }
}

pub open spec fn default_name(k: int) -> Seq<char> {
    if k == 0 { "Straight Bit 1/4\""@ }
    else if k == 1 { "V-Groove 60°"@ }
    else if k == 2 { "Ball Nose 1/8\""@ }
    else if k == 3 { "Downcut Spiral 3/8\""@ }
    else { "Compression 3/8\""@ }
}

/// Diameter of the `k`-th default bit, in ten-thousandths of an inch.
pub open spec fn default_diameter(k: int) -> int {
    if k == 0 { 2500 } else if k == 1 { 5000 } else if k == 2 { 1250 } else { 3750 }
}

pub open spec fn default_bit_type(k: int) -> Seq<char> {
    if k == 0 { "Straight"@ }
    else if k == 1 { "V-Groove"@ }
    else if k == 2 { "Ball Nose"@ }
    else if k == 3 { "Downcut Spiral"@ }
    else { "Compression"@ }
}

pub open spec fn default_description(k: int) -> Seq<char> {
    if k == 0 { "General purpose straight cutting bit"@ }
    else if k == 1 { "For V-carving and chamfering"@ }
    else if k == 2 { "For 3D carving and surfacing"@ }
    else if k == 3 { "Downcut spiral for clean top surface and reduced tearout"@ }
    else { "Compression spiral for clean cuts on both top and bottom surfaces"@ }
}

/// The `k`-th default bit.
pub open spec fn default_bit(k: int) -> RouterBitView {
    RouterBitView {
        id: default_bit_id(k),
        name: default_name(k),
        bit_type: default_bit_type(k),
        diameter: default_diameter(k),
        description: default_description(k),
    }
}

/// Stored machine offset `(x, y, z)` of the `k`-th default bit.
pub open spec fn default_offset(k: int) -> (int, int, int) {
    if k == 0 { (38186, 35563, 55550) }
    else if k == 1 { (26744, 29678, -73963) }
    else if k == 2 { (40186, 37563, -42291) }
    else if k == 3 { (38186, 35563, -40291) }
    else { (26744, 29678, -65069) }
}

/// The coordinate record of the `k`-th default bit.
pub open spec fn default_record(k: int) -> CoordinateView {
    CoordinateView {
        bit_id: uuid_text(default_bit_id(k)),
        name: default_name(k),
        x: default_offset(k).0,
        y: default_offset(k).1,
        z: default_offset(k).2,
    }
}

pub open spec fn is_default_record(r: CoordinateView) -> bool {
    exists|k: int| 0 <= k < DEFAULT_BIT_COUNT && r == default_record(k)
}

fn default_id(k: usize) -> (r: u128)
    requires
        k < DEFAULT_BIT_COUNT,
    ensures
        r == default_bit_id(k as int),
{
    match k {
        0 => 0x550e8400e29b41d4a716446655440000u128,
        1 => 0x6ba7b8109dad11d180b400c04fd430c8u128,
        2 => 0x550e8400e29b41d4a716446655440001u128,
        3 => 0x7f2c4a1b8d5e4c3f9f6a1d2b3e4f5a6bu128,
        _ => 0x9e8d7c6b5a4f3e2d1c0b9a8b7c6d5e4fu128,
    }
}

fn default_bit_name(k: usize) -> (r: String)
    requires
        k < DEFAULT_BIT_COUNT,
    ensures
        r@ == default_name(k as int),
{
    match k {
        0 => String::from_str("Straight Bit 1/4\""),
        1 => String::from_str("V-Groove 60°"),
        2 => String::from_str("Ball Nose 1/8\""),
        3 => String::from_str("Downcut Spiral 3/8\""),
        _ => String::from_str("Compression 3/8\""),
    }
}

/// The `k`-th default bit.
pub fn default_router_bit(k: usize) -> (r: RouterBit)
    requires
        k < DEFAULT_BIT_COUNT,
    ensures
        r@ == default_bit(k as int),
{
    let (bit_type, diameter, description) = match k {
        0 => (String::from_str("Straight"), 2500i64, String::from_str("General purpose straight cutting bit")),
        1 => (String::from_str("V-Groove"), 5000i64, String::from_str("For V-carving and chamfering")),
        2 => (String::from_str("Ball Nose"), 1250i64, String::from_str("For 3D carving and surfacing")),
        3 => (
            String::from_str("Downcut Spiral"),
            3750i64,
            String::from_str("Downcut spiral for clean top surface and reduced tearout"),
        ),
        _ => (
            String::from_str("Compression"),
            3750i64,
            String::from_str("Compression spiral for clean cuts on both top and bottom surfaces"),
        ),
    };
    RouterBit { id: default_id(k), name: default_bit_name(k), bit_type, diameter, description }
}

/// The coordinate record of the `k`-th default bit, keyed by its identifier's text.
pub fn default_coordinates(k: usize) -> (r: BitCoordinates)
    requires
        k < DEFAULT_BIT_COUNT,
    ensures
        r@ == default_record(k as int),
{
    let (x, y, z) = match k {
        0 => (38186i64, 35563i64, 55550i64),
        1 => (26744i64, 29678i64, -73963i64),
        2 => (40186i64, 37563i64, -42291i64),
        3 => (38186i64, 35563i64, -40291i64),
        _ => (26744i64, 29678i64, -65069i64),
    };
    BitCoordinates { bit_id: bit_id_text(default_id(k)), name: default_bit_name(k), x, y, z }
}

pub open spec fn has_bit(bits: Seq<RouterBit>, id: u128) -> bool {
    exists|i: int| 0 <= i < bits.len() && bits[i].id == id
}

/// True when `b` is one of the default bits and no bit of `bits` has its identifier.
pub open spec fn is_missing_default(bits: Seq<RouterBit>, b: RouterBitView) -> bool {
    exists|k: int| 0 <= k < DEFAULT_BIT_COUNT && b == default_bit(k) && !has_bit(bits, default_bit_id(k))
}

/// Adds, after the bits already there, each default bit whose identifier is
/// not in `bits` yet, once and with all its fields.
pub fn insert_default_router_bits(bits: &mut Vec<RouterBit>)
    ensures
        old(bits)@.len() <= final(bits)@.len() <= old(bits)@.len() + DEFAULT_BIT_COUNT,
        final(bits)@.subrange(0, old(bits)@.len() as int) == old(bits)@,
        forall|k: int| 0 <= k < DEFAULT_BIT_COUNT ==> has_bit(final(bits)@, #[trigger] default_bit_id(k)),
        forall|i: int| old(bits)@.len() <= i < final(bits)@.len() ==>
            is_missing_default(old(bits)@, #[trigger] final(bits)@[i]@),
        forall|i: int, j: int| old(bits)@.len() <= i < j < final(bits)@.len() ==>
            #[trigger] final(bits)@[i].id != #[trigger] final(bits)@[j].id,
{
    let ghost start = bits@;
    let mut k: usize = 0;
    while k < DEFAULT_BIT_COUNT
        invariant
            k <= DEFAULT_BIT_COUNT,
            start.len() <= bits@.len() <= start.len() + k,
            bits@.subrange(0, start.len() as int) == start,
            forall|j: int| 0 <= j < k ==> has_bit(bits@, #[trigger] default_bit_id(j)),
            forall|i: int| start.len() <= i < bits@.len() ==> is_missing_default(start, #[trigger] bits@[i]@),
            forall|i: int, j: int| start.len() <= i < j < bits@.len() ==>
                #[trigger] bits@[i].id != #[trigger] bits@[j].id,
        decreases DEFAULT_BIT_COUNT - k,
    {
        let id = default_id(k);
        let mut present = false;
        let mut i: usize = 0;
        while i < bits.len()
            invariant
                i <= bits@.len(),
                present <==> exists|j: int| 0 <= j < i && bits@[j].id == id,
            decreases bits@.len() - i,
        {
            if bits[i].id == id {
                present = true;
            }
            i = i + 1;
        }
        if !present {
            let ghost before = bits@;
            bits.push(default_router_bit(k));
            proof {
                assert(bits@.subrange(0, start.len() as int) =~= before.subrange(0, start.len() as int));
                assert forall|j: int| 0 <= j <= k implies has_bit(bits@, #[trigger] default_bit_id(j)) by {
                    if j < k {
                        let w = choose|w: int| 0 <= w < before.len() && before[w].id == default_bit_id(j);
                        assert(bits@[w] == before[w]);
                    } else {
                        assert(bits@[before.len() as int].id == default_bit_id(j));
                    }
                }
                assert(!has_bit(start, id)) by {
                    if has_bit(start, id) {
                        let w = choose|w: int| 0 <= w < start.len() && start[w].id == id;
                        assert(before[w] == before.subrange(0, start.len() as int)[w]);
                    }
                }
                assert forall|i2: int| start.len() <= i2 < bits@.len() implies
                    is_missing_default(start, #[trigger] bits@[i2]@) by {
                    if i2 < before.len() {
                        assert(bits@[i2] == before[i2]);
                    } else {
                        assert(bits@[i2]@ == default_bit(k as int));
                    }
                }
                assert forall|a: int, b: int| start.len() <= a < b < bits@.len() implies
                    #[trigger] bits@[a].id != #[trigger] bits@[b].id by {
                    assert(bits@[a] == before[a]);
                    if b < before.len() {
                        assert(bits@[b] == before[b]);
                    } else {
                        assert(before[a].id != id);
                    }
                }
            }
        }
        k = k + 1;
    }
}

/// In a store with unique keys, appending a record under a new key changes
/// no other lookup.
pub proof fn lemma_lookup_push(s: Seq<CoordinateView>, r: CoordinateView, key: Seq<char>)
    requires
        keys_unique(s.push(r)),
        has_key(s, key),
    ensures
        lookup(s.push(r), key) == lookup(s, key),
{
    let i = choose|i: int| 0 <= i < s.len() && s[i].bit_id == key;
    assert(keys_unique(s)) by {
        assert forall|a: int, b: int| 0 <= a < b < s.len() implies s[a].bit_id != s[b].bit_id by {
            assert(s.push(r)[a] == s[a] && s.push(r)[b] == s[b]);
        }
    }
    crate::store::lemma_lookup_at(s, key, i);
    assert(s.push(r)[i] == s[i]);
    crate::store::lemma_lookup_at(s.push(r), key, i);
}

/// Adds the default coordinate records whose identifiers are not stored yet,
/// after the records already there; records already stored are kept as they are.
pub fn insert_default_coordinates(store: &mut BitCoordinateStore)
    requires
        old(store).wf(),
    ensures
        final(store).wf(),
        old(store)@.len() <= final(store)@.len() <= old(store)@.len() + DEFAULT_BIT_COUNT,
        final(store)@.subrange(0, old(store)@.len() as int) == old(store)@,
        forall|key: Seq<char>| has_key(old(store)@, key) ==> lookup(final(store)@, key) == lookup(old(store)@, key),
        forall|k: int| 0 <= k < DEFAULT_BIT_COUNT ==> has_key(final(store)@, #[trigger] uuid_text(default_bit_id(k))),
        forall|i: int| old(store)@.len() <= i < final(store)@.len() ==>
            is_default_record(#[trigger] final(store)@[i]),
{
    let ghost start = store@;
    let mut k: usize = 0;
    while k < DEFAULT_BIT_COUNT
        invariant
            k <= DEFAULT_BIT_COUNT,
            store.wf(),
            start.len() <= store@.len() <= start.len() + k,
            store@.subrange(0, start.len() as int) == start,
            forall|key: Seq<char>| has_key(start, key) ==> lookup(store@, key) == lookup(start, key),
            forall|j: int| 0 <= j < k ==> has_key(store@, #[trigger] uuid_text(default_bit_id(j))),
            forall|i: int| start.len() <= i < store@.len() ==>
                is_default_record(#[trigger] store@[i]),
        decreases DEFAULT_BIT_COUNT - k,
    {
        let record = default_coordinates(k);
        let ghost before = store@;
        let ghost rv = record@;
        let _ = store.insert(record);
        proof {
            if store@ != before {
                assert(store@ == before.push(rv));
                assert(store@.subrange(0, start.len() as int) =~= before.subrange(0, start.len() as int));
                assert forall|key: Seq<char>| has_key(start, key) implies lookup(store@, key) == lookup(start, key) by {
                    let w = choose|w: int| 0 <= w < start.len() && start[w].bit_id == key;
                    assert(before[w] == before.subrange(0, start.len() as int)[w]);
                    lemma_lookup_push(before, rv, key);
                }
                assert forall|j: int| 0 <= j <= k implies has_key(store@, #[trigger] uuid_text(default_bit_id(j))) by {
                    if j < k {
                        let w = choose|w: int| 0 <= w < before.len() && before[w].bit_id == uuid_text(default_bit_id(j));
                        assert(store@[w] == before[w]);
                    } else {
                        assert(store@[before.len() as int] == rv);
                    }
                }
                assert forall|i: int| start.len() <= i < store@.len() implies
                    is_default_record(#[trigger] store@[i]) by {
                    if i < before.len() {
                        assert(store@[i] == before[i]);
                    } else {
                        assert(store@[i] == default_record(k as int));
                    }
                }
            }
        }
        k = k + 1;
    }
}

} // verus!
