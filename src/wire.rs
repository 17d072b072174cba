use vstd::prelude::*;
use vstd::bytes::*;
use vstd::slice::*;
use vstd::utf8::*;
use crate::address::{Address, opt_view};

verus! {

broadcast use vstd::utf8::encode_utf8_decode_utf8;

/// Little-endian bytes of an unsigned 64-bit integer.
pub open spec fn le_u64(v: u64) -> Seq<u8> {
    spec_u64_to_le_bytes(v)
}

/// Little-endian two's-complement bytes of a signed 64-bit integer.
pub open spec fn le_i64(v: i64) -> Seq<u8> {
    spec_u64_to_le_bytes(v as u64)
}

/// Little-endian bytes of an unsigned 32-bit integer.
pub open spec fn le_u32(v: u32) -> Seq<u8> {
    spec_u32_to_le_bytes(v)
}

pub open spec fn zeros(n: nat) -> Seq<u8> {
    Seq::new(n, |i: int| 0u8)
}

/// An optional identity: a presence flag, then 32 bytes, zero-filled when absent.
pub open spec fn opt_key_bytes(o: Option<Seq<u8>>) -> Seq<u8> {
    match o {
        Some(k) => seq![1u8] + k,
        None => seq![0u8] + zeros(32),
    }
}

/// A text field: a 4-byte length prefix, then the UTF-8 bytes of the text.
pub open spec fn text_field(s: Seq<char>) -> Seq<u8> {
    le_u32(encode_utf8(s).len() as u32) + encode_utf8(s)
}

pub open spec fn u64_at(b: Seq<u8>, pos: int) -> u64 {
    spec_u64_from_le_bytes(b.subrange(pos, pos + 8))
}

pub open spec fn i64_at(b: Seq<u8>, pos: int) -> i64 {
    u64_at(b, pos) as i64
}

pub open spec fn u32_at(b: Seq<u8>, pos: int) -> u32 {
    spec_u32_from_le_bytes(b.subrange(pos, pos + 4))
}

pub open spec fn key_at(b: Seq<u8>, pos: int) -> Seq<u8> {
    b.subrange(pos, pos + 32)
}

/// The optional identity at `pos`; `None` when the presence flag is neither 0 nor 1.
pub open spec fn opt_key_at(b: Seq<u8>, pos: int) -> Option<Option<Seq<u8>>> {
    if b[pos] == 0 {
        Some(None)
    } else if b[pos] == 1 {
        Some(Some(key_at(b, pos + 1)))
    } else {
        None
    }
}

/// The number of bytes that the text field at `pos` takes, prefix included.
pub open spec fn text_len_at(b: Seq<u8>, pos: int) -> int {
    4 + u32_at(b, pos) as int
}

/// The text at `pos`; `None` when its bytes run past the end or are not UTF-8.
pub open spec fn text_at(b: Seq<u8>, pos: int) -> Option<Seq<char>> {
    let end = pos + text_len_at(b, pos);
    if end <= b.len() && valid_utf8(b.subrange(pos + 4, end)) {
        Some(decode_utf8(b.subrange(pos + 4, end)))
    } else {
        None
    }
}

pub proof fn lemma_le_lengths(v: u64, w: i64, x: u32)
    ensures
        le_u64(v).len() == 8,
        le_i64(w).len() == 8,
        le_u32(x).len() == 4,
        spec_u64_from_le_bytes(le_u64(v)) == v,
        spec_u64_from_le_bytes(le_i64(w)) as i64 == w,
        spec_u32_from_le_bytes(le_u32(x)) == x,
{
    lemma_auto_spec_u64_to_from_le_bytes();
    lemma_auto_spec_u32_to_from_le_bytes();
    assert(spec_u32_to_le_bytes(x).len() == 4);
    assert(((w as u64) as i64) == w) by (bit_vector);
}

/// Relies on `String::from_utf8`: it succeeds exactly on valid UTF-8, and the
/// string then holds those very bytes.
#[verifier::external_body]
fn utf8_string(b: &[u8]) -> (r: Option<String>)
    ensures
        r is Some <==> valid_utf8(b@),
        r is Some ==> encode_utf8(r->Some_0@) == b@,
{
    String::from_utf8(b.to_vec()).ok()
}

pub fn append_bytes(out: &mut Vec<u8>, b: &[u8])
    ensures
        final(out)@ == old(out)@ + b@,
{
    let mut i: usize = 0;
    while i < b.len()
        invariant
            0 <= i <= b@.len(),
            out@ == old(out)@ + b@.subrange(0, i as int),
        decreases b@.len() - i,
    {
        out.push(b[i]);
        i = i + 1;
        assert(out@ =~= old(out)@ + b@.subrange(0, i as int));
    }
    assert(b@.subrange(0, b@.len() as int) =~= b@);
}

pub fn write_u64(out: &mut Vec<u8>, v: u64)
    ensures
        final(out)@ == old(out)@ + le_u64(v),
{
    let b = u64_to_le_bytes(v);
    append_bytes(out, b.as_slice());
}

pub fn write_i64(out: &mut Vec<u8>, v: i64)
    ensures
        final(out)@ == old(out)@ + le_i64(v),
{
    write_u64(out, v as u64);
}

pub fn write_u32(out: &mut Vec<u8>, v: u32)
    ensures
        final(out)@ == old(out)@ + le_u32(v),
{
    let b = u32_to_le_bytes(v);
    append_bytes(out, b.as_slice());
}

pub fn write_key(out: &mut Vec<u8>, k: &Address)
    ensures
        final(out)@ == old(out)@ + k@,
{
    append_bytes(out, k.bytes.as_slice());
}

pub fn write_opt_key(out: &mut Vec<u8>, o: &Option<Address>)
    ensures
        final(out)@ == old(out)@ + opt_key_bytes(opt_view(*o)),
{
    match o {
        Some(k) => {
            out.push(1u8);
            write_key(out, k);
            assert(final(out)@ =~= old(out)@ + opt_key_bytes(opt_view(*o)));
        },
        None => {
            out.push(0u8);
            let z = Address::system_program();
            write_key(out, &z);
            assert(final(out)@ =~= old(out)@ + opt_key_bytes(opt_view(*o)));
        },
    }
}

pub fn write_text(out: &mut Vec<u8>, s: &String)
    requires
        encode_utf8(s@).len() <= u32::MAX,
    ensures
        final(out)@ == old(out)@ + text_field(s@),
{
    let b = s.as_str().as_bytes();
    write_u32(out, b.len() as u32);
    append_bytes(out, b);
    assert(final(out)@ =~= old(out)@ + text_field(s@));
}

pub fn read_u64(b: &[u8], pos: usize) -> (r: u64)
    requires
        pos + 8 <= b@.len(),
    ensures
        r == u64_at(b@, pos as int),
{
    let _len = b.len();
    u64_from_le_bytes(slice_subrange(b, pos, pos + 8))
}

pub fn read_i64(b: &[u8], pos: usize) -> (r: i64)
    requires
        pos + 8 <= b@.len(),
    ensures
        r == i64_at(b@, pos as int),
{
    read_u64(b, pos) as i64
}

pub fn read_u32(b: &[u8], pos: usize) -> (r: u32)
    requires
        pos + 4 <= b@.len(),
    ensures
        r == u32_at(b@, pos as int),
{
    let _len = b.len();
    u32_from_le_bytes(slice_subrange(b, pos, pos + 4))
}

pub fn read_key(b: &[u8], pos: usize) -> (r: Address)
    requires
        pos + 32 <= b@.len(),
    ensures
        r@ == key_at(b@, pos as int),
{
    let len = b.len();
    let mut k = [0u8; 32];
    let mut i: usize = 0;
    while i < 32
        invariant
            0 <= i <= 32,
            pos + 32 <= b@.len(),
            len == b@.len(),
            forall|j: int| 0 <= j < i ==> k@[j] == b@[pos + j],
        decreases 32 - i,
    {
        k[i] = b[pos + i];
        i = i + 1;
    }
    let r = Address { bytes: k };
    assert(r@ =~= key_at(b@, pos as int));
    r
}

pub fn read_opt_key(b: &[u8], pos: usize) -> (r: Option<Option<Address>>)
    requires
        pos + 33 <= b@.len(),
    ensures
        r is Some <==> opt_key_at(b@, pos as int) is Some,
        r is Some ==> opt_key_at(b@, pos as int) == Some(opt_view(r->Some_0)),
{
    let flag = b[pos];
    if flag == 0 {
        Some(None)
    } else if flag == 1 {
        Some(Some(read_key(b, pos + 1)))
    } else {
        None
    }
}

/// Reads the text field at `pos`; also returns the position just past it.
pub fn read_text(b: &[u8], pos: usize) -> (r: Option<(String, usize)>)
    requires
        pos + 4 <= b@.len(),
    ensures
        r is Some <==> text_at(b@, pos as int) is Some,
        r is Some ==> text_at(b@, pos as int) == Some(r->Some_0.0@)
            && r->Some_0.1 == pos + text_len_at(b@, pos as int),
{
    let n = read_u32(b, pos);
    if n as usize > b.len() - pos - 4 {
        return None;
    }
    let end = pos + 4 + n as usize;
    let bytes = slice_subrange(b, pos + 4, end);
    match utf8_string(bytes) {
        Some(s) => {
            assert(decode_utf8(encode_utf8(s@)) == s@);
            Some((s, end))
        },
        None => None,
    }
}

} // verus!
