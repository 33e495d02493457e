//! Value encoding: the byte serialization of datums used for checkpointed
//! scalars and constant expression payloads. A datum is a null flag followed
//! by a kind-specific payload; strings carry a character count and each
//! character as its 32-bit code, and structs concatenate their field datums.

use vstd::prelude::*;
use vstd::string::StrSliceExecFns;

use crate::scalar::{
    datum_view, datum_view_seq, scalar_view, Datum, DatumVal, ScalarImpl, ScalarVal, StructValue,
};
use crate::types::{dt_view, DataType, DataTypeKind, DataTypeVal};

verus! {

broadcast use vstd::std_specs::vec::group_vec_axioms, vstd::seq::group_seq_axioms, vstd::utf8::char_u32_cast;

/// The error reported when a byte payload is not a valid encoding.
#[derive(Clone, Copy, Debug, PartialEq, Eq, Structural)]
pub enum ValueEncodingError {
    InvalidEncoding,
}

/// The two little-endian bytes of a 16-bit value.
pub open spec fn le2(v: u16) -> Seq<u8> {
    seq![(v % 0x100) as u8, (v / 0x100) as u8]
}

/// The four little-endian bytes of a 32-bit value.
pub open spec fn le4(v: u32) -> Seq<u8> {
    seq![
        (v % 0x100) as u8,
        ((v / 0x100) % 0x100) as u8,
        ((v / 0x10000) % 0x100) as u8,
        (v / 0x1000000) as u8,
    ]
}

/// The eight little-endian bytes of a 64-bit value.
pub open spec fn le8(v: u64) -> Seq<u8> {
    seq![
        (v % 0x100) as u8,
        ((v / 0x100) % 0x100) as u8,
        ((v / 0x10000) % 0x100) as u8,
        ((v / 0x1000000) % 0x100) as u8,
        ((v / 0x100000000) % 0x100) as u8,
        ((v / 0x10000000000) % 0x100) as u8,
        ((v / 0x1000000000000) % 0x100) as u8,
        (v / 0x100000000000000) as u8,
    ]
}

/// The 16-bit value read little-endian at an offset.
pub open spec fn u16_of(b: Seq<u8>, off: int) -> u16 {
    (b[off] + b[off + 1] * 0x100) as u16
}

/// The 32-bit value read little-endian at an offset.
pub open spec fn u32_of(b: Seq<u8>, off: int) -> u32 {
    (b[off] + b[off + 1] * 0x100 + b[off + 2] * 0x10000 + b[off + 3] * 0x1000000) as u32
}

/// The 64-bit value read little-endian at an offset.
pub open spec fn u64_of(b: Seq<u8>, off: int) -> u64 {
    (b[off] + b[off + 1] * 0x100 + b[off + 2] * 0x10000 + b[off + 3] * 0x1000000 + b[off + 4]
        * 0x100000000 + b[off + 5] * 0x10000000000 + b[off + 6] * 0x1000000000000 + b[off + 7]
        * 0x100000000000000) as u64
}

/// A Unicode scalar value: a code point that is not a surrogate.
pub open spec fn is_unicode_scalar(u: u32) -> bool {
    u < 0xD800 || (0xE000 <= u && u <= 0x10FFFF)
}

/// The encoded bytes of each character of a string, in order.
pub open spec fn chars_bytes(cs: Seq<char>) -> Seq<u8>
    decreases cs,
{
    if cs.len() == 0 {
        Seq::empty()
    } else {
        chars_bytes(cs.subrange(0, cs.len() - 1)) + le4(cs[cs.len() - 1] as u32)
    }
}

/// The encoded bytes of a scalar value, without the null flag.
pub open spec fn spec_enc_scalar(v: ScalarVal) -> Seq<u8>
    decreases v,
{
    match v {
        ScalarVal::Bool(b) => seq![if b { 1u8 } else { 0u8 }],
        ScalarVal::Int16(x) => le2(x as u16),
        ScalarVal::Int32(x) => le4(x as u32),
        ScalarVal::Int64(x) => le8(x as u64),
        ScalarVal::Float32(fb) => le4(fb.0),
        ScalarVal::Float64(fb) => le8(fb.0),
        ScalarVal::Decimal(d) => le8(d.mantissa as u64) + le4(d.scale),
        ScalarVal::Date(x) => le4(x as u32),
        ScalarVal::Utf8(cs) => le4(cs.len() as u32) + chars_bytes(cs),
        ScalarVal::Interval(iv) => le4(iv.months as u32) + le4(iv.days as u32) + le8(
            iv.msecs as u64,
        ),
        ScalarVal::Struct(fields) => enc_fields(fields),
    }
}

/// The concatenated encodings of a struct's field datums, in order.
pub open spec fn enc_fields(fields: Seq<DatumVal>) -> Seq<u8>
    decreases fields,
{
    if fields.len() == 0 {
        Seq::empty()
    } else {
        enc_fields(fields.subrange(0, fields.len() - 1)) + spec_enc_datum(
            fields[fields.len() - 1],
        )
    }
}

/// The encoded bytes of a datum: a null flag, then the scalar payload.
pub open spec fn spec_enc_datum(d: DatumVal) -> Seq<u8>
    decreases d,
{
    match d {
        None => seq![0u8],
        Some(v) => seq![1u8] + spec_enc_scalar(v),
    }
}

/// Whether a scalar is small enough for the encoding: every string fits a
/// 32-bit character count.
pub open spec fn scalar_enc_ok(v: ScalarVal) -> bool
    decreases v,
{
    match v {
        ScalarVal::Utf8(cs) => cs.len() < 0x100000000,
        ScalarVal::Struct(fields) => fields_enc_ok(fields),
        _ => true,
    }
}

/// Whether each field datum of a struct is small enough for the encoding.
pub open spec fn fields_enc_ok(fields: Seq<DatumVal>) -> bool
    decreases fields,
{
    if fields.len() == 0 {
        true
    } else {
        fields_enc_ok(fields.subrange(0, fields.len() - 1)) && datum_enc_ok(
            fields[fields.len() - 1],
        )
    }
}

/// Whether a datum is small enough for the encoding.
pub open spec fn datum_enc_ok(d: DatumVal) -> bool
    decreases d,
{
    match d {
        None => true,
        Some(v) => scalar_enc_ok(v),
    }
}

/// Each field of an encodable struct scalar is itself encodable.
proof fn lemma_struct_enc_ok(fields: Seq<DatumVal>, i: int)
    requires
        scalar_enc_ok(ScalarVal::Struct(fields)),
        0 <= i < fields.len(),
    ensures
        datum_enc_ok(fields[i]),
{
    lemma_struct_enc_ok_seq(fields, i);
}

/// Each prefix field of an encodable field sequence is itself encodable.
proof fn lemma_struct_enc_ok_seq(fields: Seq<DatumVal>, i: int)
    requires
        fields_enc_ok(fields),
        0 <= i < fields.len(),
    ensures
        datum_enc_ok(fields[i]),
    decreases fields,
{
    if i < fields.len() - 1 {
        assert(fields.subrange(0, fields.len() - 1)[i] == fields[i]);
        lemma_struct_enc_ok_seq(fields.subrange(0, fields.len() - 1), i);
    }
}

/// Relies on `char::from_u32` of std: it returns `Some` exactly for Unicode
/// scalar values (code points outside the surrogate range and at most
/// 0x10FFFF), and the returned character has the given code.
#[verifier::external_body]
fn char_from_u32(u: u32) -> (r: Option<char>)
    ensures
        r is Some <==> is_unicode_scalar(u),
        r matches Some(c) ==> c as u32 == u,
{
    char::from_u32(u)
}

/// Relies on `String::push` of std: it appends the given character to the
/// end of the string.
#[verifier::external_body]
fn push_char(s: &mut String, c: char) -> (r: ())
    ensures
        final(s)@ == old(s)@.push(c),
{
    s.push(c)
}

/// Appends the two little-endian bytes of a 16-bit value.
fn push_u16_le(out: &mut Vec<u8>, v: u16)
    ensures
        final(out)@ == old(out)@ + le2(v),
{
    out.push((v % 0x100) as u8);
    out.push((v / 0x100) as u8);
    proof {
        assert(out@ =~= old(out)@ + le2(v));
    }
}

/// Appends the four little-endian bytes of a 32-bit value.
fn push_u32_le(out: &mut Vec<u8>, v: u32)
    ensures
        final(out)@ == old(out)@ + le4(v),
{
    out.push((v % 0x100) as u8);
    out.push(((v / 0x100) % 0x100) as u8);
    out.push(((v / 0x10000) % 0x100) as u8);
    out.push((v / 0x1000000) as u8);
    proof {
        assert(out@ =~= old(out)@ + le4(v));
    }
}

/// Appends the eight little-endian bytes of a 64-bit value.
fn push_u64_le(out: &mut Vec<u8>, v: u64)
    ensures
        final(out)@ == old(out)@ + le8(v),
{
    out.push((v % 0x100) as u8);
    out.push(((v / 0x100) % 0x100) as u8);
    out.push(((v / 0x10000) % 0x100) as u8);
    out.push(((v / 0x1000000) % 0x100) as u8);
    out.push(((v / 0x100000000) % 0x100) as u8);
    out.push(((v / 0x10000000000) % 0x100) as u8);
    out.push(((v / 0x1000000000000) % 0x100) as u8);
    out.push((v / 0x100000000000000) as u8);
    proof {
        assert(out@ =~= old(out)@ + le8(v));
    }
}

/// Appends the encoding of one scalar payload, without the null flag.
#[verifier::loop_isolation(false)]
fn write_scalar(out: &mut Vec<u8>, s: &ScalarImpl)
    requires
        scalar_enc_ok(scalar_view(*s)),
    ensures
        final(out)@ == old(out)@ + spec_enc_scalar(scalar_view(*s)),
    decreases *s,
{
    match s {
        ScalarImpl::Bool(b) => {
            out.push(if *b { 1u8 } else { 0u8 });
            proof {
                assert(out@ =~= old(out)@ + spec_enc_scalar(scalar_view(*s)));
            }
        },
        ScalarImpl::Int16(x) => {
            push_u16_le(out, *x as u16);
        },
        ScalarImpl::Int32(x) => {
            push_u32_le(out, *x as u32);
        },
        ScalarImpl::Int64(x) => {
            push_u64_le(out, *x as u64);
        },
        ScalarImpl::Float32(fb) => {
            push_u32_le(out, fb.0);
        },
        ScalarImpl::Float64(fb) => {
            push_u64_le(out, fb.0);
        },
        ScalarImpl::Decimal(d) => {
            push_u64_le(out, d.mantissa as u64);
            push_u32_le(out, d.scale);
            proof {
                assert(out@ =~= old(out)@ + spec_enc_scalar(scalar_view(*s)));
            }
        },
        ScalarImpl::Date(x) => {
            push_u32_le(out, *x as u32);
        },
        ScalarImpl::Interval(iv) => {
            push_u32_le(out, iv.months as u32);
            push_u32_le(out, iv.days as u32);
            push_u64_le(out, iv.msecs as u64);
            proof {
                assert(out@ =~= old(out)@ + spec_enc_scalar(scalar_view(*s)));
            }
        },
        ScalarImpl::Utf8(st) => {
            let n = st.as_str().unicode_len();
            push_u32_le(out, n as u32);
            let ghost cs = st@;
            let mut i: usize = 0;
            while i < n
                invariant
                    0 <= i <= n,
                    n == cs.len(),
                    out@ == old(out)@ + le4(n as u32) + chars_bytes(cs.subrange(0, i as int)),
                decreases n - i,
            {
                let c = st.as_str().get_char(i);
                push_u32_le(out, c as u32);
                proof {
                    let pre = cs.subrange(0, i as int);
                    let cur = cs.subrange(0, i + 1);
                    assert(cur.subrange(0, cur.len() - 1) =~= pre);
                    assert(cur[cur.len() - 1] == cs[i as int]);
                    assert(chars_bytes(cur) == chars_bytes(pre) + le4(cs[i as int] as u32));
                    assert(out@ =~= old(out)@ + le4(n as u32) + chars_bytes(cur));
                }
                i = i + 1;
            }
            proof {
                assert(cs.subrange(0, n as int) =~= cs);
                assert(out@ =~= old(out)@ + spec_enc_scalar(scalar_view(*s)));
            }
        },
        ScalarImpl::Struct(sv) => {
            let ghost fv = datum_view_seq(sv.fields@);
            proof {
                crate::scalar::lemma_datum_view_seq(sv.fields@);
            }
            let mut i: usize = 0;
            while i < sv.fields.len()
                invariant
                    0 <= i <= sv.fields@.len(),
                    out@ == old(out)@ + enc_fields(fv.subrange(0, i as int)),
                decreases sv.fields@.len() - i,
            {
                proof {
                    assert(decreases_to!(*sv => sv.fields@[i as int]));
                    assert(scalar_view(*s) == ScalarVal::Struct(fv));
                    assert(scalar_enc_ok(ScalarVal::Struct(fv)));
                    assert((i as int) < fv.len());
                    lemma_struct_enc_ok(fv, i as int);
                    assert(datum_view_seq(sv.fields@)[i as int] == datum_view(
                        sv.fields@[i as int],
                    ));
                }
                write_datum_inner(out, &sv.fields[i]);
                proof {
                    let pre = fv.subrange(0, i as int);
                    let cur = fv.subrange(0, i + 1);
                    assert(cur.subrange(0, cur.len() - 1) =~= pre);
                    assert(cur[cur.len() - 1] == fv[i as int]);
                    assert(enc_fields(cur) == enc_fields(pre) + spec_enc_datum(fv[i as int]));
                    assert(out@ =~= old(out)@ + enc_fields(cur));
                }
                i = i + 1;
            }
            proof {
                assert(fv.subrange(0, sv.fields@.len() as int) =~= fv);
                assert(out@ =~= old(out)@ + spec_enc_scalar(scalar_view(*s)));
            }
        },
    }
}

/// Appends the encoding of one datum: the null flag, then the payload.
fn write_datum_inner(out: &mut Vec<u8>, d: &Datum)
    requires
        datum_enc_ok(datum_view(*d)),
    ensures
        final(out)@ == old(out)@ + spec_enc_datum(datum_view(*d)),
    decreases *d,
{
    match d {
        None => {
            out.push(0u8);
            proof {
                assert(out@ =~= old(out)@ + spec_enc_datum(datum_view(*d)));
            }
        },
        Some(s) => {
            out.push(1u8);
            write_scalar(out, s);
            proof {
                assert(out@ =~= old(out)@ + spec_enc_datum(datum_view(*d)));
            }
        },
    }
}

/// The decoding of one datum of the given type at an offset: the decoded
/// value and the number of bytes consumed, or nothing if the bytes are not a
/// valid encoding at that offset.
pub open spec fn spec_dec_datum(b: Seq<u8>, off: int, t: DataTypeVal) -> Option<(DatumVal, int)>
    decreases t,
{
    if b.len() - off < 1 {
        None
    } else if b[off] == 0 {
        Some((None, 1))
    } else if b[off] != 1 {
        None
    } else {
        match t.kind {
            DataTypeKind::Boolean => if b.len() - off < 2 {
                None
            } else if b[off + 1] == 0 {
                Some((Some(ScalarVal::Bool(false)), 2))
            } else if b[off + 1] == 1 {
                Some((Some(ScalarVal::Bool(true)), 2))
            } else {
                None
            },
            DataTypeKind::Int16 => if b.len() - off < 3 {
                None
            } else {
                Some((Some(ScalarVal::Int16(u16_of(b, off + 1) as i16)), 3))
            },
            DataTypeKind::Int32 => if b.len() - off < 5 {
                None
            } else {
                Some((Some(ScalarVal::Int32(u32_of(b, off + 1) as i32)), 5))
            },
            DataTypeKind::Int64 => if b.len() - off < 9 {
                None
            } else {
                Some((Some(ScalarVal::Int64(u64_of(b, off + 1) as i64)), 9))
            },
            DataTypeKind::Float32 => if b.len() - off < 5 {
                None
            } else {
                Some((Some(ScalarVal::Float32(crate::scalar::F32Bits(u32_of(b, off + 1)))), 5))
            },
            DataTypeKind::Float64 => if b.len() - off < 9 {
                None
            } else {
                Some((Some(ScalarVal::Float64(crate::scalar::F64Bits(u64_of(b, off + 1)))), 9))
            },
            DataTypeKind::Decimal => if b.len() - off < 13 {
                None
            } else {
                Some(
                    (
                        Some(
                            ScalarVal::Decimal(
                                crate::scalar::Decimal {
                                    mantissa: u64_of(b, off + 1) as i64,
                                    scale: u32_of(b, off + 9),
                                },
                            ),
                        ),
                        13,
                    ),
                )
            },
            DataTypeKind::Date => if b.len() - off < 5 {
                None
            } else {
                Some((Some(ScalarVal::Date(u32_of(b, off + 1) as i32)), 5))
            },
            DataTypeKind::Varchar => if b.len() - off < 5 {
                None
            } else {
                let n = u32_of(b, off + 1) as int;
                if b.len() - off < 5 + 4 * n {
                    None
                } else if !(forall|j: int|
                    0 <= j < n ==> is_unicode_scalar(#[trigger] u32_of(b, off + 5 + 4 * j))) {
                    None
                } else {
                    Some(
                        (
                            Some(
                                ScalarVal::Utf8(
                                    Seq::new(n as nat, |j: int| u32_of(b, off + 5 + 4 * j) as char),
                                ),
                            ),
                            5 + 4 * n,
                        ),
                    )
                }
            },
            DataTypeKind::Interval => if b.len() - off < 17 {
                None
            } else {
                Some(
                    (
                        Some(
                            ScalarVal::Interval(
                                crate::scalar::Interval {
                                    months: u32_of(b, off + 1) as i32,
                                    days: u32_of(b, off + 5) as i32,
                                    msecs: u64_of(b, off + 9) as i64,
                                },
                            ),
                        ),
                        17,
                    ),
                )
            },
            DataTypeKind::Struct => match spec_dec_fields(b, off + 1, t.fields) {
                None => None,
                Some((ds, n)) => Some((Some(ScalarVal::Struct(ds)), 1 + n)),
            },
        }
    }
}

/// The decoding of a struct's field datums in order: the decoded fields and
/// the number of bytes consumed.
pub open spec fn spec_dec_fields(b: Seq<u8>, off: int, tys: Seq<DataTypeVal>) -> Option<
    (Seq<DatumVal>, int),
>
    decreases tys,
{
    if tys.len() == 0 {
        Some((Seq::empty(), 0))
    } else {
        match spec_dec_datum(b, off, tys[0]) {
            None => None,
            Some((d, n)) => match spec_dec_fields(b, off + n, tys.subrange(1, tys.len() as int)) {
                None => None,
                Some((ds, m)) => Some((seq![d] + ds, n + m)),
            },
        }
    }
}

/// The decoding of a whole payload: a datum of the given type that consumes
/// every byte, or nothing.
pub open spec fn decodes_full(b: Seq<u8>, t: DataTypeVal) -> Option<DatumVal> {
    match spec_dec_datum(b, 0, t) {
        Some((dv, n)) => if n == b.len() {
            Some(dv)
        } else {
            None
        },
        None => None,
    }
}

/// Reads a 16-bit value little-endian at a position.
fn read_u16_le(bytes: &[u8], pos: usize) -> (r: u16)
    requires
        pos + 2 <= bytes@.len(),
    ensures
        r == u16_of(bytes@, pos as int),
{
    (bytes[pos] as u16) + (bytes[pos + 1] as u16) * 0x100
}

/// Reads a 32-bit value little-endian at a position.
fn read_u32_le(bytes: &[u8], pos: usize) -> (r: u32)
    requires
        pos + 4 <= bytes@.len(),
    ensures
        r == u32_of(bytes@, pos as int),
{
    (bytes[pos] as u32) + (bytes[pos + 1] as u32) * 0x100 + (bytes[pos + 2] as u32) * 0x10000 + (
    bytes[pos + 3] as u32) * 0x1000000
}

/// Reads a 64-bit value little-endian at a position.
fn read_u64_le(bytes: &[u8], pos: usize) -> (r: u64)
    requires
        pos + 8 <= bytes@.len(),
    ensures
        r == u64_of(bytes@, pos as int),
{
    (bytes[pos] as u64) + (bytes[pos + 1] as u64) * 0x100 + (bytes[pos + 2] as u64) * 0x10000 + (
    bytes[pos + 3] as u64) * 0x1000000 + (bytes[pos + 4] as u64) * 0x100000000 + (bytes[pos + 5]
        as u64) * 0x10000000000 + (bytes[pos + 6] as u64) * 0x1000000000000 + (bytes[pos + 7]
        as u64) * 0x100000000000000
}

/// Reads one datum of the given type at a position, returning the datum and
/// the number of bytes consumed.
#[verifier::loop_isolation(false)]
#[verifier::rlimit(100)]
fn read_datum(bytes: &[u8], pos: usize, ty: &DataType) -> (r: Result<
    (Datum, usize),
    ValueEncodingError,
>)
    requires
        pos <= bytes@.len(),
    ensures
        r matches Ok((d, n)) ==> pos + n <= bytes@.len() && spec_dec_datum(
            bytes@,
            pos as int,
            dt_view(*ty),
        ) == Some((datum_view(d), n as int)),
        r is Err ==> spec_dec_datum(bytes@, pos as int, dt_view(*ty)) is None,
    decreases *ty,
{
    let len = bytes.len();
    let remaining = len - pos;
    if remaining < 1 {
        return Err(ValueEncodingError::InvalidEncoding);
    }
    let flag = bytes[pos];
    if flag == 0 {
        return Ok((None, 1));
    }
    if flag != 1 {
        return Err(ValueEncodingError::InvalidEncoding);
    }
    match ty.kind {
        DataTypeKind::Boolean => {
            if remaining < 2 {
                return Err(ValueEncodingError::InvalidEncoding);
            }
            let v = bytes[pos + 1];
            if v == 0 {
                Ok((Some(ScalarImpl::Bool(false)), 2))
            } else if v == 1 {
                Ok((Some(ScalarImpl::Bool(true)), 2))
            } else {
                Err(ValueEncodingError::InvalidEncoding)
            }
        },
        DataTypeKind::Int16 => {
            if remaining < 3 {
                return Err(ValueEncodingError::InvalidEncoding);
            }
            let u = read_u16_le(bytes, pos + 1);
            Ok((Some(ScalarImpl::Int16(u as i16)), 3))
        },
        DataTypeKind::Int32 => {
            if remaining < 5 {
                return Err(ValueEncodingError::InvalidEncoding);
            }
            let u = read_u32_le(bytes, pos + 1);
            Ok((Some(ScalarImpl::Int32(u as i32)), 5))
        },
        DataTypeKind::Int64 => {
            if remaining < 9 {
                return Err(ValueEncodingError::InvalidEncoding);
            }
            let u = read_u64_le(bytes, pos + 1);
            Ok((Some(ScalarImpl::Int64(u as i64)), 9))
        },
        DataTypeKind::Float32 => {
            if remaining < 5 {
                return Err(ValueEncodingError::InvalidEncoding);
            }
            let u = read_u32_le(bytes, pos + 1);
            Ok((Some(ScalarImpl::Float32(crate::scalar::F32Bits(u))), 5))
        },
        DataTypeKind::Float64 => {
            if remaining < 9 {
                return Err(ValueEncodingError::InvalidEncoding);
            }
            let u = read_u64_le(bytes, pos + 1);
            Ok((Some(ScalarImpl::Float64(crate::scalar::F64Bits(u))), 9))
        },
        DataTypeKind::Decimal => {
            if remaining < 13 {
                return Err(ValueEncodingError::InvalidEncoding);
            }
            let m = read_u64_le(bytes, pos + 1);
            let sc = read_u32_le(bytes, pos + 9);
            Ok(
                (
                    Some(
                        ScalarImpl::Decimal(
                            crate::scalar::Decimal { mantissa: m as i64, scale: sc },
                        ),
                    ),
                    13,
                ),
            )
        },
        DataTypeKind::Date => {
            if remaining < 5 {
                return Err(ValueEncodingError::InvalidEncoding);
            }
            let u = read_u32_le(bytes, pos + 1);
            Ok((Some(ScalarImpl::Date(u as i32)), 5))
        },
        DataTypeKind::Interval => {
            if remaining < 17 {
                return Err(ValueEncodingError::InvalidEncoding);
            }
            let months = read_u32_le(bytes, pos + 1);
            let days = read_u32_le(bytes, pos + 5);
            let ms = read_u64_le(bytes, pos + 9);
            Ok(
                (
                    Some(
                        ScalarImpl::Interval(
                            crate::scalar::Interval {
                                months: months as i32,
                                days: days as i32,
                                msecs: ms as i64,
                            },
                        ),
                    ),
                    17,
                ),
            )
        },
        DataTypeKind::Varchar => {
            if remaining < 5 {
                return Err(ValueEncodingError::InvalidEncoding);
            }
            let n32 = read_u32_le(bytes, pos + 1);
            let n64: u64 = n32 as u64;
            if ((remaining - 5) as u64) < 4 * n64 {
                return Err(ValueEncodingError::InvalidEncoding);
            }
            let n: usize = n32 as usize;
            proof {
                assert(pos + 5 + 4 * (n as int) <= bytes@.len());
            }
            let mut s = String::new();
            let mut j: usize = 0;
            while j < n
                invariant
                    0 <= j <= n,
                    s@.len() == j,
                    forall|k: int|
                        0 <= k < j ==> is_unicode_scalar(
                            #[trigger] u32_of(bytes@, pos + 5 + 4 * k),
                        ),
                    forall|k: int|
                        0 <= k < j ==> s@[k] == (u32_of(bytes@, pos + 5 + 4 * k) as char),
                decreases n - j,
            {
                let u = read_u32_le(bytes, pos + 5 + 4 * j);
                match char_from_u32(u) {
                    None => {
                        proof {
                            assert(!is_unicode_scalar(u32_of(bytes@, pos + 5 + 4 * (j as int))));
                        }
                        return Err(ValueEncodingError::InvalidEncoding);
                    },
                    Some(c) => {
                        push_char(&mut s, c);
                        proof {
                            vstd::utf8::char_u32_cast(c, u);
                            assert(s@[j as int] == (u32_of(bytes@, pos + 5 + 4 * (j as int))
                                as char));
                        }
                    },
                }
                j = j + 1;
            }
            proof {
                let n_i = n as int;
                let cs = Seq::new(n as nat, |k: int| u32_of(bytes@, pos + 5 + 4 * k) as char);
                assert(s@ =~= cs);
            }
            Ok((Some(ScalarImpl::Utf8(s)), 5 + 4 * n))
        },
        DataTypeKind::Struct => {
            let ghost tys = dt_view(*ty).fields;
            proof {
                crate::types::lemma_dt_view_seq(ty.field_types@);
            }
            let mut acc: Vec<Datum> = Vec::new();
            let mut consumed: usize = 1;
            proof {
                assert(tys.subrange(0, tys.len() as int) =~= tys);
                let x = spec_dec_fields(bytes@, pos + 1, tys);
                match x {
                    Some((ds, m)) => {
                        assert(datum_view_seq(acc@) + ds =~= ds);
                    },
                    None => {},
                }
            }
            let mut i: usize = 0;
            while i < ty.field_types.len()
                invariant
                    0 <= i <= ty.field_types@.len(),
                    acc@.len() == i,
                    1 <= consumed,
                    pos + consumed <= bytes@.len(),
                    spec_dec_fields(bytes@, pos + 1, tys) == (match spec_dec_fields(
                        bytes@,
                        pos + consumed,
                        tys.subrange(i as int, tys.len() as int),
                    ) {
                        None => None::<(Seq<DatumVal>, int)>,
                        Some((ds, m)) => Some((datum_view_seq(acc@) + ds, (consumed - 1) + m)),
                    }),
                decreases ty.field_types@.len() - i,
            {
                proof {
                    assert(decreases_to!(*ty => ty.field_types@[i as int]));
                    assert(tys.subrange(i as int, tys.len() as int)[0] == tys[i as int]);
                    assert(tys[i as int] == dt_view(ty.field_types@[i as int]));
                }
                match read_datum(bytes, pos + consumed, &ty.field_types[i]) {
                    Err(e) => {
                        proof {
                            assert(spec_dec_fields(
                                bytes@,
                                pos + consumed,
                                tys.subrange(i as int, tys.len() as int),
                            ) is None);
                        }
                        return Err(e);
                    },
                    Ok((d, n)) => {
                        proof {
                            let sub = tys.subrange(i as int, tys.len() as int);
                            assert(sub.subrange(1, sub.len() as int) =~= tys.subrange(
                                i + 1,
                                tys.len() as int,
                            ));
                            let x = spec_dec_fields(bytes@, pos + consumed + n, tys.subrange(
                                i + 1,
                                tys.len() as int,
                            ));
                            let av = datum_view_seq(acc@);
                            let dv = datum_view(d);
                            assert(acc@.push(d).subrange(0, acc@.len() as int) =~= acc@);
                            assert(datum_view_seq(acc@.push(d)) =~= av.push(dv));
                            match x {
                                Some((ds, m)) => {
                                    assert(av + (seq![dv] + ds) =~= av.push(dv) + ds);
                                },
                                None => {},
                            }
                        }
                        acc.push(d);
                        consumed = consumed + n;
                    },
                }
                i = i + 1;
            }
            proof {
                assert(tys.subrange(tys.len() as int, tys.len() as int) =~= Seq::<
                    DataTypeVal,
                >::empty());
                assert(spec_dec_fields(
                    bytes@,
                    pos + consumed,
                    tys.subrange(tys.len() as int, tys.len() as int),
                ) == Some((Seq::<DatumVal>::empty(), 0int)));
                assert(datum_view_seq(acc@) + Seq::<DatumVal>::empty() =~= datum_view_seq(acc@));
            }
            Ok((Some(ScalarImpl::Struct(StructValue { fields: acc })), consumed))
        },
    }
}

/// Casting a signed value through its unsigned bit pattern yields it back.
proof fn lemma_i16_cast_round(x: i16)
    ensures
        ((x as u16) as i16) == x,
{
    assert(((x as u16) as i16) == x) by (bit_vector);
}

/// Casting a signed value through its unsigned bit pattern yields it back.
proof fn lemma_i32_cast_round(x: i32)
    ensures
        ((x as u32) as i32) == x,
{
    assert(((x as u32) as i32) == x) by (bit_vector);
}

/// Casting a signed value through its unsigned bit pattern yields it back.
proof fn lemma_i64_cast_round(x: i64)
    ensures
        ((x as u64) as i64) == x,
{
    assert(((x as u64) as i64) == x) by (bit_vector);
}

/// Reading back the two little-endian bytes of a 16-bit value yields it.
proof fn lemma_le2_round(v: u16)
    ensures
        le2(v).len() == 2,
        u16_of(le2(v), 0) == v,
{
    vstd::arithmetic::div_mod::lemma_fundamental_div_mod(v as int, 0x100);
}

/// Reading back the four little-endian bytes of a 32-bit value yields it.
proof fn lemma_le4_round(v: u32)
    ensures
        le4(v).len() == 4,
        u32_of(le4(v), 0) == v,
{
    vstd::arithmetic::div_mod::lemma_fundamental_div_mod(v as int, 0x100);
    vstd::arithmetic::div_mod::lemma_fundamental_div_mod(v as int / 0x100, 0x100);
    vstd::arithmetic::div_mod::lemma_fundamental_div_mod(v as int / 0x10000, 0x100);
    vstd::arithmetic::div_mod::lemma_div_denominator(v as int, 0x100, 0x100);
    vstd::arithmetic::div_mod::lemma_div_denominator(v as int, 0x10000, 0x100);
    assert(v as int / 0x1000000 < 0x100) by (nonlinear_arith)
        requires
            v <= 0xFFFFFFFFu32,
    ;
}

/// Reading back the eight little-endian bytes of a 64-bit value yields it.
proof fn lemma_le8_round(v: u64)
    ensures
        le8(v).len() == 8,
        u64_of(le8(v), 0) == v,
{
    vstd::arithmetic::div_mod::lemma_fundamental_div_mod(v as int, 0x100);
    vstd::arithmetic::div_mod::lemma_fundamental_div_mod(v as int / 0x100, 0x100);
    vstd::arithmetic::div_mod::lemma_fundamental_div_mod(v as int / 0x10000, 0x100);
    vstd::arithmetic::div_mod::lemma_fundamental_div_mod(v as int / 0x1000000, 0x100);
    vstd::arithmetic::div_mod::lemma_fundamental_div_mod(v as int / 0x100000000, 0x100);
    vstd::arithmetic::div_mod::lemma_fundamental_div_mod(v as int / 0x10000000000, 0x100);
    vstd::arithmetic::div_mod::lemma_fundamental_div_mod(v as int / 0x1000000000000, 0x100);
    vstd::arithmetic::div_mod::lemma_div_denominator(v as int, 0x100, 0x100);
    vstd::arithmetic::div_mod::lemma_div_denominator(v as int, 0x10000, 0x100);
    vstd::arithmetic::div_mod::lemma_div_denominator(v as int, 0x1000000, 0x100);
    vstd::arithmetic::div_mod::lemma_div_denominator(v as int, 0x100000000, 0x100);
    vstd::arithmetic::div_mod::lemma_div_denominator(v as int, 0x10000000000, 0x100);
    vstd::arithmetic::div_mod::lemma_div_denominator(v as int, 0x1000000000000, 0x100);
    assert(v as int / 0x100000000000000 < 0x100) by (nonlinear_arith)
        requires
            v <= 0xFFFFFFFFFFFFFFFFu64,
    ;
}

/// A character's code point is always a Unicode scalar value.
proof fn lemma_char_scalar_range(c: char)
    ensures
        is_unicode_scalar(c as u32),
{
    vstd::utf8::char_is_scalar(c);
}

/// The concatenated field encodings split at the first field.
proof fn lemma_enc_fields_front(ds: Seq<DatumVal>)
    requires
        ds.len() > 0,
    ensures
        enc_fields(ds) == spec_enc_datum(ds[0]) + enc_fields(ds.subrange(1, ds.len() as int)),
    decreases ds.len(),
{
    let tail = ds.subrange(1, ds.len() as int);
    if ds.len() == 1 {
        assert(ds.subrange(0, 0) =~= Seq::<DatumVal>::empty());
        assert(tail =~= Seq::<DatumVal>::empty());
        assert(enc_fields(ds) =~= spec_enc_datum(ds[0]) + enc_fields(tail));
    } else {
        let pre = ds.subrange(0, ds.len() - 1);
        lemma_enc_fields_front(pre);
        assert(pre.subrange(1, pre.len() as int) =~= tail.subrange(0, tail.len() - 1));
        assert(tail[tail.len() - 1] == ds[ds.len() - 1]);
        assert(enc_fields(ds) =~= spec_enc_datum(ds[0]) + enc_fields(tail));
    }
}

/// The encoded characters of a string occupy four bytes each, in order.
proof fn lemma_chars_bytes_split(cs: Seq<char>)
    ensures
        chars_bytes(cs).len() == 4 * cs.len(),
        forall|j: int|
            0 <= j < cs.len() ==> chars_bytes(cs).subrange(4 * j, 4 * j + 4) == le4(
                #[trigger] cs[j] as u32,
            ),
    decreases cs.len(),
{
    if cs.len() > 0 {
        let pre = cs.subrange(0, cs.len() - 1);
        lemma_chars_bytes_split(pre);
        assert forall|j: int| 0 <= j < cs.len() implies chars_bytes(cs).subrange(
            4 * j,
            4 * j + 4,
        ) == le4(#[trigger] cs[j] as u32) by {
            if j < cs.len() - 1 {
                assert(pre[j] == cs[j]);
                assert(chars_bytes(cs).subrange(4 * j, 4 * j + 4) =~= chars_bytes(pre).subrange(
                    4 * j,
                    4 * j + 4,
                ));
            } else {
                assert(chars_bytes(cs).subrange(4 * j, 4 * j + 4) =~= le4(cs[j] as u32));
            }
        }
    }
}

/// Decoding an encoded datum at its offset yields the datum back and
/// consumes exactly its encoding.
pub proof fn lemma_codec_round_trip(b: Seq<u8>, off: int, d: DatumVal, t: DataTypeVal)
    requires
        crate::scalar::datum_matches(d, t),
        datum_enc_ok(d),
        0 <= off,
        off + spec_enc_datum(d).len() <= b.len(),
        b.subrange(off, off + spec_enc_datum(d).len()) == spec_enc_datum(d),
    ensures
        spec_dec_datum(b, off, t) == Some((d, spec_enc_datum(d).len() as int)),
    decreases t,
{
    let e = spec_enc_datum(d);
    assert forall|k: int| 0 <= k < e.len() implies b[off + k] == #[trigger] e[k] by {
        assert(b.subrange(off, off + e.len())[k] == b[off + k]);
    }
    match d {
        None => {
            assert(e[0] == 0u8);
            assert(b[off] == e[0]);
        },
        Some(v) => {
            let p = spec_enc_scalar(v);
            assert(e == seq![1u8] + p);
            assert(e[0] == 1u8);
            assert(b[off] == e[0]);
            assert forall|k: int| 0 <= k < p.len() implies b[off + 1 + k] == #[trigger] p[k] by {
                assert(e[1 + k] == p[k]);
            }
            match v {
                ScalarVal::Bool(x) => {
                    assert(b[off + 1] == p[0]);
                },
                ScalarVal::Int16(x) => {
                    lemma_le2_round(x as u16);
                    assert(b[off + 1] == p[0] && b[off + 2] == p[1]);
                    assert(u16_of(b, off + 1) == u16_of(le2(x as u16), 0));
                    lemma_i16_cast_round(x);
                },
                ScalarVal::Int32(x) => {
                    lemma_le4_round(x as u32);
                    assert(b[off + 1] == p[0] && b[off + 2] == p[1] && b[off + 3] == p[2] && b[off
                        + 4] == p[3]);
                    assert(u32_of(b, off + 1) == u32_of(le4(x as u32), 0));
                    lemma_i32_cast_round(x);
                },
                ScalarVal::Int64(x) => {
                    lemma_le8_round(x as u64);
                    assert(b[off + 1] == p[0] && b[off + 2] == p[1] && b[off + 3] == p[2] && b[off
                        + 4] == p[3] && b[off + 5] == p[4] && b[off + 6] == p[5] && b[off + 7]
                        == p[6] && b[off + 8] == p[7]);
                    assert(u64_of(b, off + 1) == u64_of(le8(x as u64), 0));
                    lemma_i64_cast_round(x);
                },
                ScalarVal::Float32(fb) => {
                    lemma_le4_round(fb.0);
                    assert(b[off + 1] == p[0] && b[off + 2] == p[1] && b[off + 3] == p[2] && b[off
                        + 4] == p[3]);
                    assert(u32_of(b, off + 1) == u32_of(le4(fb.0), 0));
                },
                ScalarVal::Float64(fb) => {
                    lemma_le8_round(fb.0);
                    assert(b[off + 1] == p[0] && b[off + 2] == p[1] && b[off + 3] == p[2] && b[off
                        + 4] == p[3] && b[off + 5] == p[4] && b[off + 6] == p[5] && b[off + 7]
                        == p[6] && b[off + 8] == p[7]);
                    assert(u64_of(b, off + 1) == u64_of(le8(fb.0), 0));
                },
                ScalarVal::Date(x) => {
                    lemma_le4_round(x as u32);
                    assert(b[off + 1] == p[0] && b[off + 2] == p[1] && b[off + 3] == p[2] && b[off
                        + 4] == p[3]);
                    assert(u32_of(b, off + 1) == u32_of(le4(x as u32), 0));
                    lemma_i32_cast_round(x);
                },
                ScalarVal::Decimal(dec) => {
                    lemma_le8_round(dec.mantissa as u64);
                    lemma_le4_round(dec.scale);
                    assert forall|k: int| 0 <= k < 8 implies b[off + 1 + k] == #[trigger] (le8(
                        dec.mantissa as u64,
                    )[k]) by {
                        assert(p[k] == le8(dec.mantissa as u64)[k]);
                    }
                    assert forall|k: int| 0 <= k < 4 implies b[off + 9 + k] == #[trigger] (le4(
                        dec.scale,
                    )[k]) by {
                        assert(p[8 + k] == le4(dec.scale)[k]);
                    }
                    assert(u64_of(b, off + 1) == u64_of(le8(dec.mantissa as u64), 0));
                    lemma_i64_cast_round(dec.mantissa);
                    assert(u32_of(b, off + 9) == u32_of(le4(dec.scale), 0));
                },
                ScalarVal::Interval(iv) => {
                    lemma_le4_round(iv.months as u32);
                    lemma_le4_round(iv.days as u32);
                    lemma_le8_round(iv.msecs as u64);
                    assert forall|k: int| 0 <= k < 4 implies b[off + 1 + k] == #[trigger] (le4(
                        iv.months as u32,
                    )[k]) by {
                        assert(p[k] == le4(iv.months as u32)[k]);
                    }
                    assert forall|k: int| 0 <= k < 4 implies b[off + 5 + k] == #[trigger] (le4(
                        iv.days as u32,
                    )[k]) by {
                        assert(p[4 + k] == le4(iv.days as u32)[k]);
                    }
                    assert forall|k: int| 0 <= k < 8 implies b[off + 9 + k] == #[trigger] (le8(
                        iv.msecs as u64,
                    )[k]) by {
                        assert(p[8 + k] == le8(iv.msecs as u64)[k]);
                    }
                    assert(u32_of(b, off + 1) == u32_of(le4(iv.months as u32), 0));
                    assert(u32_of(b, off + 5) == u32_of(le4(iv.days as u32), 0));
                    assert(u64_of(b, off + 9) == u64_of(le8(iv.msecs as u64), 0));
                    lemma_i32_cast_round(iv.months);
                    lemma_i32_cast_round(iv.days);
                    lemma_i64_cast_round(iv.msecs);
                },
                ScalarVal::Utf8(cs) => {
                    let n = cs.len() as int;
                    lemma_le4_round(cs.len() as u32);
                    lemma_chars_bytes_split(cs);
                    assert forall|k: int| 0 <= k < 4 implies b[off + 1 + k] == #[trigger] (le4(
                        cs.len() as u32,
                    )[k]) by {
                        assert(p[k] == le4(cs.len() as u32)[k]);
                    }
                    assert(u32_of(b, off + 1) == u32_of(le4(cs.len() as u32), 0));
                    assert(u32_of(b, off + 1) as int == n);
                    assert forall|j: int, k: int| 0 <= j < n && 0 <= k < 4 implies b[off + 5 + 4 * j
                        + k] == #[trigger] (le4(cs[j] as u32)[k]) by {
                        assert(p[4 + 4 * j + k] == chars_bytes(cs)[4 * j + k]);
                        assert(chars_bytes(cs).subrange(4 * j, 4 * j + 4)[k] == chars_bytes(
                            cs,
                        )[4 * j + k]);
                    }
                    assert forall|j: int| 0 <= j < n implies u32_of(b, off + 5 + 4 * j) == (
                    #[trigger] cs[j] as u32) by {
                        lemma_le4_round(cs[j] as u32);
                        assert(u32_of(b, off + 5 + 4 * j) == u32_of(le4(cs[j] as u32), 0));
                    }
                    assert forall|j: int| 0 <= j < n implies is_unicode_scalar(
                        #[trigger] u32_of(b, off + 5 + 4 * j),
                    ) by {
                        lemma_char_scalar_range(cs[j]);
                    }
                    let decoded = Seq::new(n as nat, |j: int| u32_of(b, off + 5 + 4 * j) as char);
                    assert forall|j: int| 0 <= j < n implies decoded[j] == cs[j] by {
                        vstd::utf8::char_u32_cast(cs[j], u32_of(b, off + 5 + 4 * j));
                    }
                    assert(decoded =~= cs);
                },
                ScalarVal::Struct(fields) => {
                    assert(fields_enc_ok(fields));
                    assert forall|i: int| 0 <= i < fields.len() implies datum_enc_ok(
                        #[trigger] fields[i],
                    ) by {
                        lemma_struct_enc_ok_seq(fields, i);
                    }
                    assert forall|k: int| 0 <= k < p.len() implies b.subrange(
                        off + 1,
                        off + 1 + enc_fields(fields).len(),
                    )[k] == enc_fields(fields)[k] by {
                        assert(b[off + 1 + k] == p[k]);
                    }
                    assert(b.subrange(off + 1, off + 1 + enc_fields(fields).len()) =~= enc_fields(
                        fields,
                    ));
                    lemma_codec_fields_round_trip(b, off + 1, fields, t.fields);
                },
            }
        },
    }
}

/// Decoding the concatenated encodings of matching struct fields yields the
/// fields back.
proof fn lemma_codec_fields_round_trip(
    b: Seq<u8>,
    off: int,
    ds: Seq<DatumVal>,
    tys: Seq<DataTypeVal>,
)
    requires
        ds.len() == tys.len(),
        forall|i: int| 0 <= i < ds.len() ==> crate::scalar::datum_matches(#[trigger] ds[i], tys[i]),
        forall|i: int| 0 <= i < ds.len() ==> datum_enc_ok(#[trigger] ds[i]),
        0 <= off,
        off + enc_fields(ds).len() <= b.len(),
        b.subrange(off, off + enc_fields(ds).len()) == enc_fields(ds),
    ensures
        spec_dec_fields(b, off, tys) == Some((ds, enc_fields(ds).len() as int)),
    decreases tys,
{
    if tys.len() == 0 {
        assert(ds =~= Seq::<DatumVal>::empty());
    } else {
        lemma_enc_fields_front(ds);
        let e0 = spec_enc_datum(ds[0]);
        let tail = ds.subrange(1, ds.len() as int);
        let erest = enc_fields(tail);
        assert forall|k: int| 0 <= k < enc_fields(ds).len() implies b[off + k] == #[trigger] (
        enc_fields(ds)[k]) by {
            assert(b.subrange(off, off + enc_fields(ds).len())[k] == b[off + k]);
        }
        assert forall|k: int| 0 <= k < e0.len() implies b.subrange(off, off + e0.len())[k]
            == e0[k] by {
            assert(b[off + k] == enc_fields(ds)[k]);
            assert((e0 + erest)[k] == e0[k]);
        }
        assert(b.subrange(off, off + e0.len()) =~= e0);
        lemma_codec_round_trip(b, off, ds[0], tys[0]);
        let tys_tail = tys.subrange(1, tys.len() as int);
        assert forall|i: int| 0 <= i < tail.len() implies crate::scalar::datum_matches(
            #[trigger] tail[i],
            tys_tail[i],
        ) && datum_enc_ok(tail[i]) by {
            assert(tail[i] == ds[i + 1]);
            assert(tys_tail[i] == tys[i + 1]);
        }
        assert forall|k: int| 0 <= k < erest.len() implies b.subrange(
            off + e0.len(),
            off + e0.len() + erest.len(),
        )[k] == erest[k] by {
            assert(b[off + e0.len() + k] == enc_fields(ds)[e0.len() + k]);
            assert((e0 + erest)[e0.len() + k] == erest[k]);
        }
        assert(b.subrange(off + e0.len(), off + e0.len() + erest.len()) =~= erest);
        lemma_codec_fields_round_trip(b, off + e0.len(), tail, tys_tail);
        assert(seq![ds[0]] + tail =~= ds);
    }
}

/// Encode–decode agreement: serializing any type-matching datum and
/// deserializing the bytes under the same type yields the datum back.
pub proof fn lemma_datum_codec_round_trip(d: DatumVal, t: DataTypeVal)
    requires
        crate::scalar::datum_matches(d, t),
        datum_enc_ok(d),
    ensures
        decodes_full(spec_enc_datum(d), t) == Some(d),
{
    let e = spec_enc_datum(d);
    assert(e.subrange(0, e.len() as int) =~= e);
    lemma_codec_round_trip(e, 0, d, t);
}

/// A successfully decoded datum always satisfies the type-match invariant
/// for the type it was decoded under.
pub proof fn lemma_dec_datum_matches(b: Seq<u8>, off: int, t: DataTypeVal, dv: DatumVal, n: int)
    requires
        spec_dec_datum(b, off, t) == Some((dv, n)),
    ensures
        crate::scalar::datum_matches(dv, t),
    decreases t,
{
    if b[off] == 1 {
        if t.kind == DataTypeKind::Struct {
            let x = spec_dec_fields(b, off + 1, t.fields);
            match x {
                Some((ds, m)) => {
                    lemma_dec_fields_match(b, off + 1, t.fields, ds, m);
                },
                None => {
                    assert(false);
                },
            }
        }
    }
}

/// Successfully decoded struct fields match their declared field types
/// pointwise.
pub proof fn lemma_dec_fields_match(
    b: Seq<u8>,
    off: int,
    tys: Seq<DataTypeVal>,
    ds: Seq<DatumVal>,
    n: int,
)
    requires
        spec_dec_fields(b, off, tys) == Some((ds, n)),
    ensures
        ds.len() == tys.len(),
        forall|i: int| 0 <= i < ds.len() ==> crate::scalar::datum_matches(#[trigger] ds[i], tys[i]),
    decreases tys,
{
    if tys.len() > 0 {
        let x = spec_dec_datum(b, off, tys[0]);
        match x {
            Some((d, n0)) => {
                lemma_dec_datum_matches(b, off, tys[0], d, n0);
                let y = spec_dec_fields(b, off + n0, tys.subrange(1, tys.len() as int));
                match y {
                    Some((ds2, m)) => {
                        lemma_dec_fields_match(
                            b,
                            off + n0,
                            tys.subrange(1, tys.len() as int),
                            ds2,
                            m,
                        );
                        assert(ds =~= seq![d] + ds2);
                        assert forall|i: int| 0 <= i < ds.len() implies crate::scalar::datum_matches(
                            #[trigger] ds[i],
                            tys[i],
                        ) by {
                            if i > 0 {
                                assert(ds[i] == ds2[i - 1]);
                                assert(tys.subrange(1, tys.len() as int)[i - 1] == tys[i]);
                            }
                        }
                    },
                    None => {
                        assert(false);
                    },
                }
            },
            None => {
                assert(false);
            },
        }
    }
}

/// Deserializes a whole byte payload as one datum of the given type; fails
/// exactly when the bytes are not the full encoding of such a datum.
pub fn deserialize_datum(bytes: &[u8], ty: &DataType) -> (r: Result<Datum, ValueEncodingError>)
    ensures
        r is Ok <==> decodes_full(bytes@, dt_view(*ty)) is Some,
        r matches Ok(d) ==> decodes_full(bytes@, dt_view(*ty)) == Some(datum_view(d)),
{
    match read_datum(bytes, 0, ty) {
        Err(e) => Err(e),
        Ok((d, n)) => {
            if n == bytes.len() {
                Ok(d)
            } else {
                Err(ValueEncodingError::InvalidEncoding)
            }
        },
    }
}

/// Serializes a datum to its byte encoding.
pub fn serialize_datum(d: &Datum) -> (r: Vec<u8>)
    requires
        datum_enc_ok(datum_view(*d)),
    ensures
        r@ == spec_enc_datum(datum_view(*d)),
{
    let mut out: Vec<u8> = Vec::new();
    write_datum_inner(&mut out, d);
    proof {
        assert(out@ =~= spec_enc_datum(datum_view(*d)));
    }
    out
}

} // verus!
