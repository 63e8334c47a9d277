//! The bit coordinate store: one machine-space offset per router bit.
use vstd::prelude::*;
use crate::error::CoreError;

verus! {

/// Largest magnitude of a stored coordinate or of a plywood thickness, in
/// ten-thousandths of an inch (one hundred million inches).
pub const MAX_LENGTH: i64 = 1_000_000_000_000;

pub open spec fn in_range(v: int) -> bool {
    -MAX_LENGTH <= v <= MAX_LENGTH
}

/// Machine-space offset of one bit, with a copy of the bit's display name.
/// Coordinates are ten-thousandths of an inch.
pub struct BitCoordinates {
    pub bit_id: String,
    pub name: String,
    pub x: i64,
    pub y: i64,
    pub z: i64,
}

pub struct CoordinateView {
    pub bit_id: Seq<char>,
    pub name: Seq<char>,
    pub x: int,
    pub y: int,
    pub z: int,
}

impl View for BitCoordinates {
    type V = CoordinateView;

    open spec fn view(&self) -> CoordinateView {
        CoordinateView {
            bit_id: self.bit_id@,
            name: self.name@,
            x: self.x as int,
            y: self.y as int,
            z: self.z as int,
        }
    }
}

impl BitCoordinates {
    pub fn new(bit_id: String, name: String, x: i64, y: i64, z: i64) -> (r: Self)
        ensures
            r@ == (CoordinateView { bit_id: bit_id@, name: name@, x: x as int, y: y as int, z: z as int }),
    {
        BitCoordinates { bit_id, name, x, y, z }
    }

    pub fn get_bit_id(&self) -> (r: &str)
        ensures
            r@ == self.bit_id@,
    {
        self.bit_id.as_str()
    }

    pub fn set_bit_id(&mut self, bit_id: String)
        ensures
            final(self)@ == (CoordinateView { bit_id: bit_id@, ..old(self)@ }),
    {
        self.bit_id = bit_id;
    }

    pub fn get_name(&self) -> (r: &str)
        ensures
            r@ == self.name@,
    {
        self.name.as_str()
    }

    pub fn set_name(&mut self, name: String)
        ensures
            final(self)@ == (CoordinateView { name: name@, ..old(self)@ }),
    {
        self.name = name;
    }

    pub fn get_x(&self) -> (r: i64)
        ensures
            r == self.x,
    {
        self.x
    }

    pub fn set_x(&mut self, x: i64)
        ensures
            final(self)@ == (CoordinateView { x: x as int, ..old(self)@ }),
    {
        self.x = x;
    }

    pub fn get_y(&self) -> (r: i64)
        ensures
            r == self.y,
    {
        self.y
    }

    pub fn set_y(&mut self, y: i64)
        ensures
            final(self)@ == (CoordinateView { y: y as int, ..old(self)@ }),
    {
        self.y = y;
    }

    pub fn get_z(&self) -> (r: i64)
        ensures
            r == self.z,
    {
        self.z
    }

    pub fn set_z(&mut self, z: i64)
        ensures
            final(self)@ == (CoordinateView { z: z as int, ..old(self)@ }),
    {
        self.z = z;
    }
}

} // verus!

verus! {

impl BitCoordinates {
    /// A copy of this record.
    pub fn clone_record(&self) -> (r: Self)
        ensures
            r@ == self@,
    {
        BitCoordinates {
            bit_id: self.bit_id.clone(),
            name: self.name.clone(),
            x: self.x,
            y: self.y,
            z: self.z,
        }
    }
}

pub open spec fn has_key(s: Seq<CoordinateView>, key: Seq<char>) -> bool {
    exists|i: int| 0 <= i < s.len() && s[i].bit_id == key
}

/// The record stored under `key`, if any.
pub open spec fn lookup(s: Seq<CoordinateView>, key: Seq<char>) -> Option<CoordinateView> {
    if has_key(s, key) {
        Some(s[choose|i: int| 0 <= i < s.len() && s[i].bit_id == key])
    } else {
        None
    }
}

pub open spec fn keys_unique(s: Seq<CoordinateView>) -> bool {
    forall|i: int, j: int| 0 <= i < j < s.len() ==> s[i].bit_id != s[j].bit_id
}

pub open spec fn record_in_range(r: CoordinateView) -> bool {
    in_range(r.x) && in_range(r.y) && in_range(r.z)
}

pub open spec fn all_in_range(s: Seq<CoordinateView>) -> bool {
    forall|i: int| 0 <= i < s.len() ==> record_in_range(#[trigger] s[i])
}

/// `s` with the coordinates of the record under `key` replaced; names and
/// order are kept.
pub open spec fn with_offset(s: Seq<CoordinateView>, key: Seq<char>, x: int, y: int, z: int) -> Seq<CoordinateView> {
    s.map_values(|r: CoordinateView| if r.bit_id == key { CoordinateView { x: x, y: y, z: z, ..r } } else { r })
}

/// If `s[i]` is stored under `key` and keys are unique, it is what `lookup` finds.
pub proof fn lemma_lookup_at(s: Seq<CoordinateView>, key: Seq<char>, i: int)
    requires
        keys_unique(s),
        0 <= i < s.len(),
        s[i].bit_id == key,
    ensures
        lookup(s, key) == Some(s[i]),
{
    let j = choose|j: int| 0 <= j < s.len() && s[j].bit_id == key;
    assert(0 <= j < s.len() && s[j].bit_id == key);
    if j < i {
        assert(s[j].bit_id != s[i].bit_id);
    } else if i < j {
        assert(s[i].bit_id != s[j].bit_id);
    }
}

/// Bit coordinate records, one per bit identifier, kept in insertion order.
pub struct BitCoordinateStore {
    records: Vec<BitCoordinates>,
}

impl View for BitCoordinateStore {
    type V = Seq<CoordinateView>;

    closed spec fn view(&self) -> Seq<CoordinateView> {
        self.records@.map_values(|r: BitCoordinates| r@)
    }
}

impl BitCoordinateStore {
    /// Every identifier appears once and every coordinate is within `MAX_LENGTH`.
    pub open spec fn wf(&self) -> bool {
        keys_unique(self@) && all_in_range(self@)
    }

    pub fn new() -> (r: Self)
        ensures
            r.wf(),
            r@ == Seq::<CoordinateView>::empty(),
    {
        let r = BitCoordinateStore { records: Vec::new() };
        assert(r@ =~= Seq::<CoordinateView>::empty());
        r
    }

    pub fn len(&self) -> (r: usize)
        ensures
            r == self@.len(),
    {
        self.records.len()
    }

    fn find_index(&self, key: &String) -> (r: Option<usize>)
        ensures
            match r {
                Some(i) => i < self@.len() && self@[i as int].bit_id == key@,
                None => !has_key(self@, key@),
            },
    {
        let mut i: usize = 0;
        while i < self.records.len()
            invariant
                i <= self.records.len(),
                self@.len() == self.records@.len(),
                forall|j: int| 0 <= j < i ==> self@[j].bit_id != key@,
            decreases self.records.len() - i,
        {
            if self.records[i].bit_id == *key {
                return Some(i);
            }
            i = i + 1;
        }
        None
    }

    /// The record stored under `key`, if any.
    pub fn get(&self, key: &String) -> (r: Option<&BitCoordinates>)
        requires
            self.wf(),
        ensures
            match r {
                Some(c) => lookup(self@, key@) == Some(c@),
                None => lookup(self@, key@) is None,
            },
    {
        match self.find_index(key) {
            Some(i) => {
                proof {
                    lemma_lookup_at(self@, key@, i as int);
                }
                Some(&self.records[i])
            },
            None => None,
        }
    }

    /// The record at position `i` in insertion order.
    pub fn record_at(&self, i: usize) -> (r: &BitCoordinates)
        requires
            i < self@.len(),
        ensures
            r@ == self@[i as int],
    {
        &self.records[i]
    }

    /// Adds `record` unless a record with its identifier is already stored, in
    /// which case the store is left as it is. Returns whether it was added.
    pub fn insert(&mut self, record: BitCoordinates) -> (r: Result<bool, CoreError>)
        requires
            old(self).wf(),
        ensures
            final(self).wf(),
            !record_in_range(record@) ==> r == Err::<bool, CoreError>(CoreError::RequestMalformed) && final(self)@ == old(self)@,
            record_in_range(record@) && has_key(old(self)@, record@.bit_id) ==> r == Ok::<bool, CoreError>(false) && final(self)@ == old(self)@,
            record_in_range(record@) && !has_key(old(self)@, record@.bit_id) ==> r == Ok::<bool, CoreError>(true) && final(self)@ == old(self)@.push(record@),
    {
        if !(-MAX_LENGTH <= record.x && record.x <= MAX_LENGTH && -MAX_LENGTH <= record.y
            && record.y <= MAX_LENGTH && -MAX_LENGTH <= record.z && record.z <= MAX_LENGTH) {
            return Err(CoreError::RequestMalformed);
        }
        match self.find_index(&record.bit_id) {
            Some(_) => Ok(false),
            None => {
                let ghost before = self@;
                self.records.push(record);
                assert(self@ =~= before.push(record@));
                Ok(true)
            },
        }
    }

    /// Replaces the coordinates of the record stored under `coordinate.bit_id`
    /// with those of `coordinate`; the stored name is kept.
    pub fn modify_bit_coordinates(&mut self, coordinate: &BitCoordinates) -> (r: Result<(), CoreError>)
        requires
            old(self).wf(),
        ensures
            final(self).wf(),
            r is Ok <==> record_in_range(coordinate@) && has_key(old(self)@, coordinate@.bit_id),
            !record_in_range(coordinate@) ==> r == Err::<(), CoreError>(CoreError::RequestMalformed),
            record_in_range(coordinate@) && !has_key(old(self)@, coordinate@.bit_id) ==> r == Err::<(), CoreError>(CoreError::BitNotFound),
            r is Ok ==> final(self)@ == with_offset(old(self)@, coordinate@.bit_id, coordinate@.x, coordinate@.y, coordinate@.z),
            r is Err ==> final(self)@ == old(self)@,
    {
        if !(-MAX_LENGTH <= coordinate.x && coordinate.x <= MAX_LENGTH && -MAX_LENGTH <= coordinate.y
            && coordinate.y <= MAX_LENGTH && -MAX_LENGTH <= coordinate.z && coordinate.z <= MAX_LENGTH) {
            return Err(CoreError::RequestMalformed);
        }
        match self.find_index(&coordinate.bit_id) {
            Some(i) => {
                let ghost before = self@;
                let ghost key = coordinate@.bit_id;
                self.records[i].x = coordinate.x;
                self.records[i].y = coordinate.y;
                self.records[i].z = coordinate.z;
                proof {
                    let target = with_offset(before, key, coordinate@.x, coordinate@.y, coordinate@.z);
                    assert forall|j: int| 0 <= j < before.len() implies self@[j] == target[j] by {
                        if j != i {
                            if j < i {
                                assert(before[j].bit_id != before[i as int].bit_id);
                            } else {
                                assert(before[i as int].bit_id != before[j].bit_id);
                            }
                        }
                    }
                    assert(self@ =~= target);
                }
                Ok(())
            },
            None => Err(CoreError::BitNotFound),
        }
    }
}

} // verus!

verus! {

/// A record that `lookup` finds in a store whose records are all in range is in range.
pub proof fn lemma_lookup_in_range(s: Seq<CoordinateView>, key: Seq<char>)
    requires
        all_in_range(s),
    ensures
        lookup(s, key) matches Some(c) ==> record_in_range(c),
{
    if has_key(s, key) {
        let i = choose|i: int| 0 <= i < s.len() && s[i].bit_id == key;
        assert(record_in_range(s[i]));
    }
}

} // verus!
