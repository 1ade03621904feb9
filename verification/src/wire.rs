use vstd::prelude::*;
use vstd::utf8::{decode_utf8, valid_utf8};

verus! {

// ---------------------------------------------------------------------------
// Little-endian scalars
// ---------------------------------------------------------------------------

/// The little-endian `u16` at `i`.
pub open spec fn le_u16(b: Seq<u8>, i: int) -> u16 {
    (b[i] as int + 0x100 * b[i + 1]) as u16
}

/// The little-endian `i16` at `i`.
pub open spec fn le_i16(b: Seq<u8>, i: int) -> i16 {
    let u = le_u16(b, i) as int;
    (if u >= 0x8000 { u - 0x1_0000 } else { u }) as i16
}

/// The little-endian `u32` at `i`.
pub open spec fn le_u32(b: Seq<u8>, i: int) -> u32 {
    (b[i] as int + 0x100 * b[i + 1] + 0x1_0000 * b[i + 2] + 0x100_0000 * b[i + 3]) as u32
}

/// The little-endian `i32` at `i`.
pub open spec fn le_i32(b: Seq<u8>, i: int) -> i32 {
    let u = le_u32(b, i) as int;
    (if u >= 0x8000_0000 { u - 0x1_0000_0000 } else { u }) as i32
}

/// The little-endian `u64` at `i`.
pub open spec fn le_u64(b: Seq<u8>, i: int) -> u64 {
    (le_u32(b, i) as int + 0x1_0000_0000 * le_u32(b, i + 4)) as u64
}

/// The little-endian `i64` at `i`.
pub open spec fn le_i64(b: Seq<u8>, i: int) -> i64 {
    let u = le_u64(b, i) as int;
    (if u >= 0x8000_0000_0000_0000 { u - 0x1_0000_0000_0000_0000 } else { u }) as i64
}

/// The little-endian `u16` at `loc`.
fn read_u16(buf: &[u8], loc: usize) -> (r: u16)
    requires
        loc + 2 <= buf@.len(),
    ensures
        r == le_u16(buf@, loc as int),
{
    buf[loc] as u16 + 0x100 * (buf[loc + 1] as u16)
}

/// The little-endian `i16` at `loc`.
fn read_i16(buf: &[u8], loc: usize) -> (r: i16)
    requires
        loc + 2 <= buf@.len(),
    ensures
        r == le_i16(buf@, loc as int),
{
    let u = read_u16(buf, loc);
    if u >= 0x8000 {
        (u as i32 - 0x1_0000) as i16
    } else {
        u as i16
    }
}

/// The little-endian `u32` at `loc`.
fn read_u32(buf: &[u8], loc: usize) -> (r: u32)
    requires
        loc + 4 <= buf@.len(),
    ensures
        r == le_u32(buf@, loc as int),
{
    buf[loc] as u32 + 0x100 * (buf[loc + 1] as u32) + 0x1_0000 * (buf[loc + 2] as u32)
        + 0x100_0000 * (buf[loc + 3] as u32)
}

/// The little-endian `i32` at `loc`.
fn read_i32(buf: &[u8], loc: usize) -> (r: i32)
    requires
        loc + 4 <= buf@.len(),
    ensures
        r == le_i32(buf@, loc as int),
{
    let u = read_u32(buf, loc);
    if u >= 0x8000_0000 {
        (u as i64 - 0x1_0000_0000) as i32
    } else {
        u as i32
    }
}

/// The little-endian `u64` at `loc`.
fn read_u64(buf: &[u8], loc: usize) -> (r: u64)
    requires
        loc + 8 <= buf@.len(),
    ensures
        r == le_u64(buf@, loc as int),
{
    let n = buf.len();
    assert(loc + 4 < n);
    let lo = read_u32(buf, loc);
    let hi = read_u32(buf, loc + 4);
    lo as u64 + 0x1_0000_0000 * (hi as u64)
}

/// The little-endian `i64` at `loc`.
fn read_i64(buf: &[u8], loc: usize) -> (r: i64)
    requires
        loc + 8 <= buf@.len(),
    ensures
        r == le_i64(buf@, loc as int),
{
    let u = read_u64(buf, loc);
    if u >= 0x8000_0000_0000_0000 {
        (u as i128 - 0x1_0000_0000_0000_0000) as i64
    } else {
        u as i64
    }
}

/// Calls std `String::from_utf8` on a copy of `bytes`: a string exactly when
/// the bytes are valid UTF-8, and then the characters they encode.
#[verifier::external_body]
fn utf8_string(bytes: &[u8]) -> (r: Option<String>)
    ensures
        r is Some <==> valid_utf8(bytes@),
        r matches Some(s) ==> s@ == decode_utf8(bytes@),
{
    String::from_utf8(bytes.to_vec()).ok()
}

// ---------------------------------------------------------------------------
// Tables, vtables, vectors and strings
//
// Everywhere below, `None` stands for a buffer that cannot be read the way
// the layout asks: a read past its end, or an offset that points nowhere.
// ---------------------------------------------------------------------------

/// Whether an exec location matches a located-or-not spec value.
pub open spec fn same_loc(r: Option<usize>, s: Option<int>) -> bool {
    match (r, s) {
        (Some(a), Some(b)) => a as int == b,
        (None, None) => true,
        _ => false,
    }
}

/// Whether an exec optional location matches its spec value.
pub open spec fn same_opt_loc(r: Option<Option<usize>>, s: Option<Option<int>>) -> bool {
    match (r, s) {
        (Some(Some(a)), Some(Some(b))) => a as int == b,
        (Some(None), Some(None)) => true,
        (None, None) => true,
        _ => false,
    }
}

/// Where the vtable of the table at `loc` starts: the table's first four
/// bytes hold a signed distance back to it (flatbuffers `Table::vtable`).
/// Tables are addressed within the first 2 GiB, as the format prescribes.
pub open spec fn spec_vtable_loc(b: Seq<u8>, loc: int) -> Option<int> {
    if 0 <= loc && loc <= i32::MAX && loc + 4 <= b.len() {
        let v = loc - le_i32(b, loc);
        if 0 <= v <= i32::MAX {
            Some(v)
        } else {
            None
        }
    } else {
        None
    }
}

/// The offset, from the start of the table at `loc`, of the field whose
/// vtable entry is at byte `slot` of the vtable (flatbuffers `VTable::get`):
/// `Some(None)` when the field is absent (the vtable is shorter, or the
/// entry is zero).
pub open spec fn spec_field_offset(b: Seq<u8>, loc: int, slot: int) -> Option<Option<int>> {
    match spec_vtable_loc(b, loc) {
        None => None,
        Some(vt) => {
            if vt + 2 > b.len() {
                None
            } else {
                let nb = le_i16(b, vt);
                if 0 <= nb && slot >= nb {
                    Some(None)
                } else if vt + slot + 2 > b.len() {
                    None
                } else {
                    let o = le_i16(b, vt + slot);
                    if o == 0 {
                        Some(None)
                    } else if o < 0 {
                        None
                    } else {
                        Some(Some(o as int))
                    }
                }
            }
        },
    }
}

/// Where a field of `size` bytes of the table at `loc` lies, if present.
pub open spec fn spec_field_loc(b: Seq<u8>, loc: int, slot: int, size: int) -> Option<Option<int>> {
    match spec_field_offset(b, loc, slot) {
        None => None,
        Some(None) => Some(None),
        Some(Some(o)) => {
            if loc + o + size <= b.len() {
                Some(Some(loc + o))
            } else {
                None
            }
        },
    }
}

/// A `u8` field, zero when absent.
pub open spec fn spec_field_u8(b: Seq<u8>, loc: int, slot: int) -> Option<u8> {
    match spec_field_loc(b, loc, slot, 1) {
        None => None,
        Some(None) => Some(0u8),
        Some(Some(p)) => Some(b[p]),
    }
}

/// A `u16` field, zero when absent.
pub open spec fn spec_field_u16(b: Seq<u8>, loc: int, slot: int) -> Option<u16> {
    match spec_field_loc(b, loc, slot, 2) {
        None => None,
        Some(None) => Some(0u16),
        Some(Some(p)) => Some(le_u16(b, p)),
    }
}

/// A `u32` field, zero when absent.
pub open spec fn spec_field_u32(b: Seq<u8>, loc: int, slot: int) -> Option<u32> {
    match spec_field_loc(b, loc, slot, 4) {
        None => None,
        Some(None) => Some(0u32),
        Some(Some(p)) => Some(le_u32(b, p)),
    }
}

/// A `u64` field, zero when absent.
pub open spec fn spec_field_u64(b: Seq<u8>, loc: int, slot: int) -> Option<u64> {
    match spec_field_loc(b, loc, slot, 8) {
        None => None,
        Some(None) => Some(0u64),
        Some(Some(p)) => Some(le_u64(b, p)),
    }
}

/// An `i64` field, zero when absent.
pub open spec fn spec_field_i64(b: Seq<u8>, loc: int, slot: int) -> Option<i64> {
    match spec_field_loc(b, loc, slot, 8) {
        None => None,
        Some(None) => Some(0i64),
        Some(Some(p)) => Some(le_i64(b, p)),
    }
}

/// The location that a forward offset stored at `p` points to.
pub open spec fn spec_follow(b: Seq<u8>, p: int) -> Option<int> {
    if 0 <= p && p + 4 <= b.len() && p + le_u32(b, p) <= usize::MAX {
        Some(p + le_u32(b, p))
    } else {
        None
    }
}

/// A field that refers forward to a table, vector or string: where that
/// object starts, `Some(None)` when the field is absent.
pub open spec fn spec_field_ref(b: Seq<u8>, loc: int, slot: int) -> Option<Option<int>> {
    match spec_field_loc(b, loc, slot, 4) {
        None => None,
        Some(None) => Some(None),
        Some(Some(p)) => match spec_follow(b, p) {
            None => None,
            Some(t) => Some(Some(t)),
        },
    }
}

/// The number of elements of the vector at `v`.
pub open spec fn spec_vec_len(b: Seq<u8>, v: int) -> Option<int> {
    if 0 <= v && v + 4 <= b.len() {
        Some(le_u32(b, v) as int)
    } else {
        None
    }
}

/// Where element `i` of the vector of tables at `v` starts.
pub open spec fn spec_vec_elem(b: Seq<u8>, v: int, i: int) -> Option<int> {
    spec_follow(b, v + 4 + 4 * i)
}

/// The bytes of the byte vector at `v`.
pub open spec fn spec_bytes(b: Seq<u8>, v: int) -> Option<Seq<u8>> {
    match spec_vec_len(b, v) {
        None => None,
        Some(n) => {
            if v + 4 + n <= b.len() {
                Some(b.subrange(v + 4, v + 4 + n))
            } else {
                None
            }
        },
    }
}

/// The characters of the string at `v`, which must be valid UTF-8.
pub open spec fn spec_string(b: Seq<u8>, v: int) -> Option<Seq<char>> {
    match spec_bytes(b, v) {
        None => None,
        Some(bytes) => {
            if valid_utf8(bytes) {
                Some(decode_utf8(bytes))
            } else {
                None
            }
        },
    }
}

/// Where the root table of a buffer starts (flatbuffers `get_root`).
pub open spec fn spec_root(b: Seq<u8>) -> Option<int> {
    spec_follow(b, 0)
}

/// Exec form of [`spec_vtable_loc`].
pub fn vtable_loc(buf: &[u8], loc: usize) -> (r: Option<usize>)
    ensures
        same_loc(r, spec_vtable_loc(buf@, loc as int)),
{
    if loc > 0x7fff_ffff || buf.len() < 4 || loc > buf.len() - 4 {
        return None;
    }
    let off = read_i32(buf, loc);
    let v: i64 = loc as i64 - off as i64;
    if v < 0 || v > 0x7fff_ffff {
        None
    } else {
        Some(v as usize)
    }
}

/// Exec form of [`spec_field_offset`].
pub fn field_offset(buf: &[u8], loc: usize, slot: usize) -> (r: Option<Option<usize>>)
    requires
        slot < 0x8000,
    ensures
        same_opt_loc(r, spec_field_offset(buf@, loc as int, slot as int)),
        r matches Some(Some(o)) ==> o < 0x8000,
{
    let vt = match vtable_loc(buf, loc) {
        Some(v) => v,
        None => return None,
    };
    if buf.len() < 2 || vt > buf.len() - 2 {
        return None;
    }
    let nb = read_i16(buf, vt);
    if nb >= 0 && slot >= nb as usize {
        return Some(None);
    }
    if vt + slot > buf.len() - 2 {
        return None;
    }
    let o = read_i16(buf, vt + slot);
    if o == 0 {
        Some(None)
    } else if o < 0 {
        None
    } else {
        Some(Some(o as usize))
    }
}

/// Exec form of [`spec_field_loc`].
pub fn field_loc(buf: &[u8], loc: usize, slot: usize, size: usize) -> (r: Option<Option<usize>>)
    requires
        slot < 0x8000,
        size <= 8,
    ensures
        same_opt_loc(r, spec_field_loc(buf@, loc as int, slot as int, size as int)),
{
    match field_offset(buf, loc, slot) {
        None => None,
        Some(None) => Some(None),
        Some(Some(o)) => {
            // `loc` addresses a table, so it lies within the first 2 GiB.
            if buf.len() < size || loc + o > buf.len() - size {
                None
            } else {
                Some(Some(loc + o))
            }
        },
    }
}

/// Exec form of [`spec_field_u8`].
pub fn field_u8(buf: &[u8], loc: usize, slot: usize) -> (r: Option<u8>)
    requires
        slot < 0x8000,
    ensures
        r == spec_field_u8(buf@, loc as int, slot as int),
{
    match field_loc(buf, loc, slot, 1) {
        None => None,
        Some(None) => Some(0),
        Some(Some(p)) => Some(buf[p]),
    }
}

/// Exec form of [`spec_field_u16`].
pub fn field_u16(buf: &[u8], loc: usize, slot: usize) -> (r: Option<u16>)
    requires
        slot < 0x8000,
    ensures
        r == spec_field_u16(buf@, loc as int, slot as int),
{
    match field_loc(buf, loc, slot, 2) {
        None => None,
        Some(None) => Some(0),
        Some(Some(p)) => Some(read_u16(buf, p)),
    }
}

/// Exec form of [`spec_field_u32`].
pub fn field_u32(buf: &[u8], loc: usize, slot: usize) -> (r: Option<u32>)
    requires
        slot < 0x8000,
    ensures
        r == spec_field_u32(buf@, loc as int, slot as int),
{
    match field_loc(buf, loc, slot, 4) {
        None => None,
        Some(None) => Some(0),
        Some(Some(p)) => Some(read_u32(buf, p)),
    }
}

/// Exec form of [`spec_field_u64`].
pub fn field_u64(buf: &[u8], loc: usize, slot: usize) -> (r: Option<u64>)
    requires
        slot < 0x8000,
    ensures
        r == spec_field_u64(buf@, loc as int, slot as int),
{
    match field_loc(buf, loc, slot, 8) {
        None => None,
        Some(None) => Some(0),
        Some(Some(p)) => Some(read_u64(buf, p)),
    }
}

/// Exec form of [`spec_field_i64`].
pub fn field_i64(buf: &[u8], loc: usize, slot: usize) -> (r: Option<i64>)
    requires
        slot < 0x8000,
    ensures
        r == spec_field_i64(buf@, loc as int, slot as int),
{
    match field_loc(buf, loc, slot, 8) {
        None => None,
        Some(None) => Some(0),
        Some(Some(p)) => Some(read_i64(buf, p)),
    }
}

/// Exec form of [`spec_follow`].
pub fn follow(buf: &[u8], p: usize) -> (r: Option<usize>)
    ensures
        same_loc(r, spec_follow(buf@, p as int)),
{
    if buf.len() < 4 || p > buf.len() - 4 {
        return None;
    }
    let off = read_u32(buf, p);
    p.checked_add(off as usize)
}

/// Exec form of [`spec_field_ref`].
pub fn field_ref(buf: &[u8], loc: usize, slot: usize) -> (r: Option<Option<usize>>)
    requires
        slot < 0x8000,
    ensures
        same_opt_loc(r, spec_field_ref(buf@, loc as int, slot as int)),
{
    match field_loc(buf, loc, slot, 4) {
        None => None,
        Some(None) => Some(None),
        Some(Some(p)) => match follow(buf, p) {
            None => None,
            Some(t) => Some(Some(t)),
        },
    }
}

/// Exec form of [`spec_vec_len`].
pub fn vec_len(buf: &[u8], v: usize) -> (r: Option<usize>)
    ensures
        same_loc(r, spec_vec_len(buf@, v as int)),
{
    if buf.len() < 4 || v > buf.len() - 4 {
        return None;
    }
    Some(read_u32(buf, v) as usize)
}

/// Exec form of [`spec_vec_elem`].
pub fn vec_elem(buf: &[u8], v: usize, i: usize) -> (r: Option<usize>)
    ensures
        same_loc(r, spec_vec_elem(buf@, v as int, i as int)),
{
    if buf.len() < 8 || v > buf.len() - 8 || i > (buf.len() - 8 - v) / 4 {
        return None;
    }
    follow(buf, v + 4 + 4 * i)
}

/// Exec form of [`spec_bytes`].
pub fn bytes_at(buf: &[u8], v: usize) -> (r: Option<&[u8]>)
    ensures
        r matches Some(s) ==> spec_bytes(buf@, v as int) == Some(s@),
        r is None ==> spec_bytes(buf@, v as int) is None,
{
    let n = match vec_len(buf, v) {
        Some(n) => n,
        None => return None,
    };
    if n > buf.len() - 4 - v {
        return None;
    }
    Some(&buf[v + 4..v + 4 + n])
}

/// Exec form of [`spec_string`].
pub fn string_at(buf: &[u8], v: usize) -> (r: Option<String>)
    ensures
        r matches Some(s) ==> spec_string(buf@, v as int) == Some(s@),
        r is None ==> spec_string(buf@, v as int) is None,
{
    match bytes_at(buf, v) {
        None => None,
        Some(bytes) => utf8_string(bytes),
    }
}

/// Exec form of [`spec_root`].
pub fn root(buf: &[u8]) -> (r: Option<usize>)
    ensures
        same_loc(r, spec_root(buf@)),
{
    follow(buf, 0)
}

} // verus!
