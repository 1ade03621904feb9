//! flatbuffers' builder, and what has been written through it.
//!
//! The builder's contents are modelled as the objects finished so far (each
//! under the offset the builder handed out for it: a table with its fields,
//! a byte vector, a vector of references, or a string) and the phase it is
//! in (building, with the table under construction if there is one, or
//! finished, with its root table).
use vstd::prelude::*;
use vstd::utf8::encode_utf8;

use flatbuffers::{FlatBufferBuilder, TableFinishedWIPOffset, WIPOffset};

use crate::wire::{
    le_i64, le_u16, le_u32, le_u64, spec_bytes, spec_field_i64, spec_field_offset, spec_field_ref,
    spec_field_u16, spec_field_u32, spec_field_u64, spec_field_u8, spec_root, spec_vec_elem,
    spec_vec_len,
};

verus! {

#[verifier::external_type_specification]
#[verifier::external_body]
pub struct ExFlatBufferBuilder<'fbb>(FlatBufferBuilder<'fbb>);

/// A field written into a table.
pub enum FbField {
    U8(u8),
    U16(u16),
    U32(u32),
    U64(u64),
    I64(i64),
    Ref(u32),
}

/// An object the builder has finished.
pub enum FbObject {
    /// A table: its fields by vtable slot.
    Table(Map<int, FbField>),
    /// A vector of bytes.
    Bytes(Seq<u8>),
    /// A vector of references to other objects.
    Refs(Seq<u32>),
    /// A string.
    Str(Seq<char>),
}

/// The phase a builder is in.
pub enum FbPhase {
    /// Building, with the start offset and the fields of the table under
    /// construction, if there is one.
    Building(Option<(u32, Map<int, FbField>)>),
    /// Finished, with its root table.
    Finished(u32),
}

/// The objects that a builder has finished, by the offsets it handed out.
pub uninterp spec fn fb_objects(b: FlatBufferBuilder<'static>) -> Map<u32, FbObject>;

/// No objects.
pub open spec fn no_objects() -> Map<u32, FbObject> {
    Map::empty()
}

/// No fields.
pub open spec fn no_fields() -> Map<int, FbField> {
    Map::empty()
}

/// The phase a builder is in.
pub uninterp spec fn fb_phase(b: FlatBufferBuilder<'static>) -> FbPhase;

/// How many bytes have been written through the builder: the space its
/// data takes, which only grows.
pub uninterp spec fn fb_size(b: FlatBufferBuilder<'static>) -> nat;

/// Whether everything written through the builder takes less than 4 GiB.
/// The offsets the builder hands out are the sizes written so far, as
/// `u32`s: while they fit, each new object gets an offset of its own.
pub open spec fn fb_fits(b: FlatBufferBuilder<'static>) -> bool {
    fb_size(b) < 0x1_0000_0000
}

/// The builder wrote at most `n` more bytes.
pub open spec fn grew_by(old_b: FlatBufferBuilder<'static>, new_b: FlatBufferBuilder<'static>, n: nat) -> bool {
    fb_size(old_b) <= fb_size(new_b) <= fb_size(old_b) + n
}

/// The slots that tables use: even vtable byte offsets past the vtable's
/// two header entries, few enough to keep a table's fields within the
/// 16-bit offsets of its vtable.
pub open spec fn valid_slot(slot: int) -> bool {
    4 <= slot < 64 && slot % 2 == 0
}

/// Where the table under construction may take another field in `slot`.
pub open spec fn can_push(b: FlatBufferBuilder<'static>, slot: i16) -> bool {
    &&& fb_phase(b) matches FbPhase::Building(Some((_, fields)))
    &&& valid_slot(slot as int)
    &&& !fields.contains_key(slot as int)
}

/// How many bytes pushing a field writes at most: its value, after fewer
/// bytes of padding than its size, which align it to its size (an offset
/// takes 4 bytes).
pub open spec fn push_bound(field: FbField) -> nat {
    match field {
        FbField::U8(_) => 1,
        FbField::U16(_) => 3,
        FbField::U32(_) => 7,
        FbField::U64(_) => 15,
        FbField::I64(_) => 15,
        FbField::Ref(_) => 7,
    }
}

/// Every slot of `fields` lies within a vtable of `n` bytes (the two
/// header entries take 4).
pub open spec fn slots_below(fields: Map<int, FbField>, n: nat) -> bool {
    &&& n >= 4
    &&& forall|k: int| #[trigger] fields.contains_key(k) ==> k + 2 <= n
}

/// The builder after a field was pushed into the table under construction
/// (when the value equals the default, nothing is written).
pub open spec fn pushed(old_b: FlatBufferBuilder<'static>, new_b: FlatBufferBuilder<'static>, slot: i16, field: FbField, is_default: bool) -> bool {
    &&& fb_objects(new_b) == fb_objects(old_b)
    &&& grew_by(old_b, new_b, push_bound(field))
    &&& fb_phase(old_b) matches FbPhase::Building(Some((start, fields)))
    &&& fb_phase(new_b) == FbPhase::Building(Some((start, if is_default { fields } else { fields.insert(slot as int, field) })))
}

/// The builder after a new object was finished under offset `o`, an
/// offset of its own while everything written fits, having written at most
/// `n` bytes for it.
pub open spec fn added(old_b: FlatBufferBuilder<'static>, new_b: FlatBufferBuilder<'static>, o: u32, obj: FbObject, n: nat) -> bool {
    &&& fb_objects(new_b) == fb_objects(old_b).insert(o, obj)
    &&& grew_by(old_b, new_b, n)
    &&& fb_fits(new_b) ==> !fb_objects(old_b).contains_key(o)
    &&& fb_phase(new_b) == FbPhase::Building(None)
}

/// Whether the builder is outside any table.
pub open spec fn idle(b: FlatBufferBuilder<'static>) -> bool {
    fb_phase(b) == FbPhase::Building(None)
}

// ---------------------------------------------------------------------------
// Reading back what was written
// ---------------------------------------------------------------------------

/// Field `slot` of the table at `loc` reads as `fields` says: the written
/// value, or absent when nothing was written there.
pub open spec fn placed_slot(
    d: Seq<u8>,
    loc: int,
    fields: Map<int, FbField>,
    locs: spec_fn(u32) -> int,
    slot: int,
) -> bool {
    if fields.contains_key(slot) {
        match fields[slot] {
            FbField::U8(x) => spec_field_u8(d, loc, slot) == Some(x),
            FbField::U16(x) => spec_field_u16(d, loc, slot) == Some(x),
            FbField::U32(x) => spec_field_u32(d, loc, slot) == Some(x),
            FbField::U64(x) => spec_field_u64(d, loc, slot) == Some(x),
            FbField::I64(x) => spec_field_i64(d, loc, slot) == Some(x),
            FbField::Ref(t) => spec_field_ref(d, loc, slot) == Some(Some(locs(t))),
        }
    } else {
        spec_field_offset(d, loc, slot) == Some(None::<int>)
    }
}

/// The object `obj` reads back from location `loc` of `d`, where `locs`
/// gives the location of each object.
pub open spec fn placed(d: Seq<u8>, obj: FbObject, locs: spec_fn(u32) -> int, loc: int) -> bool {
    match obj {
        FbObject::Table(fields) => forall|slot: int|
            valid_slot(slot) ==> #[trigger] placed_slot(d, loc, fields, locs, slot),
        FbObject::Bytes(s) => spec_bytes(d, loc) == Some(s),
        FbObject::Refs(s) => {
            &&& spec_vec_len(d, loc) == Some(s.len() as int)
            &&& forall|i: int| 0 <= i < s.len() ==> #[trigger] spec_vec_elem(d, loc, i) == Some(locs(s[i]))
        },
        FbObject::Str(c) => spec_bytes(d, loc) == Some(encode_utf8(c)),
    }
}

/// Every object reads back from its location.
pub open spec fn all_placed(d: Seq<u8>, objects: Map<u32, FbObject>, locs: spec_fn(u32) -> int) -> bool {
    forall|h: u32| objects.contains_key(h) ==> #[trigger] placed(d, objects[h], locs, locs(h))
}

/// A finished buffer reads back as written: the root refers to the root
/// table, and every object reads back from its location.
pub open spec fn fb_readable(d: Seq<u8>, objects: Map<u32, FbObject>, root: u32) -> bool {
    exists|locs: spec_fn(u32) -> int| spec_root(d) == Some(locs(root)) && all_placed(d, objects, locs)
}

// ---------------------------------------------------------------------------
// The builder's operations. Offsets that the builder hands out are carried
// as their `u32` values.
// ---------------------------------------------------------------------------

/// Calls flatbuffers `FlatBufferBuilder::new_with_capacity`, which asserts
/// that the capacity is at most 2 GiB: a builder with nothing written.
#[verifier::external_body]
pub(crate) fn fb_new(capacity: usize) -> (builder: FlatBufferBuilder<'static>)
    requires
        capacity <= 0x8000_0000,
    ensures
        fb_objects(builder) == no_objects(),
        idle(builder),
        fb_size(builder) == 0,
{
    FlatBufferBuilder::new_with_capacity(capacity)
}

/// Calls flatbuffers `FlatBufferBuilder::start_table`, which starts a table
/// with no fields, at an offset that depends on what was written before.
#[verifier::external_body]
pub(crate) fn fb_start_table(b: &mut FlatBufferBuilder<'static>) -> (start: u32)
    requires
        idle(*old(b)),
    ensures
        fb_objects(*final(b)) == fb_objects(*old(b)),
        fb_size(*final(b)) == fb_size(*old(b)),
        fb_phase(*final(b)) == FbPhase::Building(Some((start, no_fields()))),
{
    b.start_table().value()
}

/// Calls flatbuffers `FlatBufferBuilder::end_table` on the table started at
/// `start`: the table is finished, with the fields pushed into it, under a
/// new offset. It writes the table's offset to its vtable (4 bytes after at
/// most 3 of padding) and a vtable (two header entries and one entry per
/// slot up to the last one used: at most 64 bytes, and at most `n` when
/// every slot lies within `n` bytes), which it takes back when an equal
/// vtable was written before. The offset to the vtable is a
/// signed 32-bit difference of two sizes, which overflows (and panics in
/// builds with overflow checks) once the builder holds more than 2 GiB;
/// the builder is kept below that.
#[verifier::external_body]
pub(crate) fn fb_end_table(b: &mut FlatBufferBuilder<'static>, start: u32) -> (table: u32)
    requires
        fb_phase(*old(b)) matches FbPhase::Building(Some((s, _))) && s == start,
        fb_size(*old(b)) + 71 <= i32::MAX,
    ensures
        added(*old(b), *final(b), table, FbObject::Table(fb_phase(*old(b))->Building_0->Some_0.1), 71),
        forall|n: nat| #[trigger] slots_below(fb_phase(*old(b))->Building_0->Some_0.1, n)
            ==> fb_size(*final(b)) <= fb_size(*old(b)) + 7 + n,
{
    b.end_table(WIPOffset::new(start)).value()
}

/// Calls flatbuffers `FlatBufferBuilder::push_slot::<u8>`: writes `x` into
/// field `slot` of the table under construction, unless it equals `default`.
#[verifier::external_body]
pub(crate) fn fb_push_u8(b: &mut FlatBufferBuilder<'static>, slot: i16, x: u8, default: u8)
    requires
        can_push(*old(b), slot),
    ensures
        pushed(*old(b), *final(b), slot, FbField::U8(x), x == default),
{
    b.push_slot::<u8>(slot, x, default)
}

/// Calls flatbuffers `FlatBufferBuilder::push_slot::<u16>` (see [`fb_push_u8`]).
#[verifier::external_body]
pub(crate) fn fb_push_u16(b: &mut FlatBufferBuilder<'static>, slot: i16, x: u16, default: u16)
    requires
        can_push(*old(b), slot),
    ensures
        pushed(*old(b), *final(b), slot, FbField::U16(x), x == default),
{
    b.push_slot::<u16>(slot, x, default)
}

/// Calls flatbuffers `FlatBufferBuilder::push_slot::<u32>` (see [`fb_push_u8`]).
#[verifier::external_body]
pub(crate) fn fb_push_u32(b: &mut FlatBufferBuilder<'static>, slot: i16, x: u32, default: u32)
    requires
        can_push(*old(b), slot),
    ensures
        pushed(*old(b), *final(b), slot, FbField::U32(x), x == default),
{
    b.push_slot::<u32>(slot, x, default)
}

/// Calls flatbuffers `FlatBufferBuilder::push_slot::<u64>` (see [`fb_push_u8`]).
#[verifier::external_body]
pub(crate) fn fb_push_u64(b: &mut FlatBufferBuilder<'static>, slot: i16, x: u64, default: u64)
    requires
        can_push(*old(b), slot),
    ensures
        pushed(*old(b), *final(b), slot, FbField::U64(x), x == default),
{
    b.push_slot::<u64>(slot, x, default)
}

/// Calls flatbuffers `FlatBufferBuilder::push_slot::<i64>` (see [`fb_push_u8`]).
#[verifier::external_body]
pub(crate) fn fb_push_i64(b: &mut FlatBufferBuilder<'static>, slot: i16, x: i64, default: i64)
    requires
        can_push(*old(b), slot),
    ensures
        pushed(*old(b), *final(b), slot, FbField::I64(x), x == default),
{
    b.push_slot::<i64>(slot, x, default)
}

/// Calls flatbuffers `FlatBufferBuilder::push_slot_always` with the offset
/// of a finished object: field `slot` of the table under construction
/// refers to that object.
#[verifier::external_body]
pub(crate) fn fb_push_offset(b: &mut FlatBufferBuilder<'static>, slot: i16, target: u32)
    requires
        can_push(*old(b), slot),
        fb_objects(*old(b)).contains_key(target),
    ensures
        pushed(*old(b), *final(b), slot, FbField::Ref(target), false),
{
    b.push_slot_always::<WIPOffset<TableFinishedWIPOffset>>(slot, WIPOffset::new(target))
}

/// Calls flatbuffers `FlatBufferBuilder::create_vector::<u8>`: a byte
/// vector holding `bytes`, under a new offset. It writes at most 3 bytes of
/// padding, which align the end of the bytes to 4, the bytes, and the
/// 4-byte length, which then needs no padding.
#[verifier::external_body]
pub(crate) fn fb_create_bytes(b: &mut FlatBufferBuilder<'static>, bytes: &[u8]) -> (v: u32)
    requires
        idle(*old(b)),
    ensures
        added(*old(b), *final(b), v, FbObject::Bytes(bytes@), bytes@.len() + 7),
{
    b.create_vector::<u8>(bytes).value()
}

/// Calls flatbuffers `FlatBufferBuilder::create_vector` on the offsets of
/// finished objects: a vector referring to them in order, under a new
/// offset. It writes at most 3 bytes of padding, which align the elements
/// to 4, then 4 bytes per element and 4 for the length, which need no more
/// padding.
#[verifier::external_body]
pub(crate) fn fb_create_offsets(b: &mut FlatBufferBuilder<'static>, offsets: &[u32]) -> (v: u32)
    requires
        idle(*old(b)),
        forall|i: int| 0 <= i < offsets@.len() ==> fb_objects(*old(b)).contains_key(#[trigger] offsets@[i]),
    ensures
        added(*old(b), *final(b), v, FbObject::Refs(offsets@), 4 * offsets@.len() + 7),
{
    let items: Vec<WIPOffset<TableFinishedWIPOffset>> = offsets.iter().map(|o| WIPOffset::new(*o)).collect();
    b.create_vector(&items).value()
}

/// Calls flatbuffers `FlatBufferBuilder::create_string`: a string holding
/// the characters of `s`, under a new offset. The builder asserts that the
/// string's UTF-8 bytes take at most 2 GiB. It writes at most 3 bytes of
/// padding, which align the end of the string to 4, a terminating zero,
/// the bytes, and the 4-byte length, which then needs no padding.
#[verifier::external_body]
pub(crate) fn fb_create_string(b: &mut FlatBufferBuilder<'static>, s: &str) -> (v: u32)
    requires
        idle(*old(b)),
        encode_utf8(s@).len() <= 0x8000_0000,
    ensures
        added(*old(b), *final(b), v, FbObject::Str(s@), encode_utf8(s@).len() + 8),
{
    b.create_string(s).value()
}

/// Calls flatbuffers `FlatBufferBuilder::finish` with the root object
/// `root` and no file identifier: the builder is finished. It writes at
/// most 7 bytes of padding, which align the end of the root offset to the
/// largest alignment used (at least 4 once an object was written, and at
/// most 8), and the 4-byte root offset.
#[verifier::external_body]
pub(crate) fn fb_finish(b: &mut FlatBufferBuilder<'static>, root: u32)
    requires
        idle(*old(b)),
        fb_objects(*old(b)).contains_key(root),
    ensures
        fb_objects(*final(b)) == fb_objects(*old(b)),
        grew_by(*old(b), *final(b), 11),
        fb_phase(*final(b)) == FbPhase::Finished(root),
{
    b.finish(WIPOffset::<TableFinishedWIPOffset>::new(root), None)
}

/// Calls flatbuffers `FlatBufferBuilder::finished_data` and copies what it
/// returns: everything written, [`fb_size`] bytes. Which bytes they are is
/// left to the builder's layout; what is stated is that, within the 2 GiB
/// that the format addresses, the buffer reads back as written (see
/// [`fb_readable`]).
#[verifier::external_body]
pub(crate) fn fb_finished_data(b: &FlatBufferBuilder<'static>) -> (data: Vec<u8>)
    requires
        fb_phase(*b) is Finished,
    ensures
        data@.len() == fb_size(*b),
        data@.len() <= i32::MAX ==> fb_readable(data@, fb_objects(*b), fb_phase(*b)->Finished_0),
{
    b.finished_data().to_vec()
}

} // verus!
