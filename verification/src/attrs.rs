//! The attribute decoding protocol, for both native attribute sources.
//!
//! *Named* (kernel-level) attributes of variable length are read in two
//! phases: a probe call with a null buffer yields the required size, then a
//! fill call writes into a buffer of exactly that size. A size of zero is an
//! empty value, not an error. [`fill_elems`] builds the second phase's
//! buffer; [`finish_string`] turns a filled, nul-terminated text buffer into
//! a string or a decode error.
//!
//! *Positional* (op-level) attributes declare a native type tag and an
//! expected byte length computed from the host type's size; after the native
//! read, the returned length must match the request exactly — a mismatch is a
//! native/host type confusion, reported rather than silently truncated.

use vstd::prelude::*;
use vstd::utf8::{decode_utf8, valid_utf8};
use crate::error::DecodeError;

verus! {

/// Builds the buffer for the fill phase of a two-phase read: `n` elements,
/// zero-initialized, exactly the size the probe reported — which may be zero.
pub fn fill_elems<T: Copy>(n: usize, zero: T) -> (buf: Vec<T>)
    ensures
        buf@ == Seq::new(n as nat, |i: int| zero),
{
    let mut buf: Vec<T> = Vec::new();
    let mut i: usize = 0;
    while i < n
        invariant
            i <= n,
            buf@ == Seq::new(i as nat, |j: int| zero),
        decreases n - i,
    {
        buf.push(zero);
        proof {
            assert(buf@ =~= Seq::new((i + 1) as nat, |j: int| zero));
        }
        i += 1;
    }
    buf
}

/// A nul-terminated native text buffer: it holds at least the terminator,
/// the terminator is its last byte, and no earlier byte is nul.
pub open spec fn cstr_wf(bytes: Seq<u8>) -> bool {
    &&& bytes.len() >= 1
    &&& bytes.last() == 0u8
    &&& forall|i: int| 0 <= i < bytes.len() - 1 ==> bytes[i] != 0u8
}

/// The text of a filled buffer: everything before the terminator; an empty
/// buffer — a probed size of zero — holds the empty text.
pub open spec fn cstr_content(bytes: Seq<u8>) -> Seq<u8> {
    if bytes.len() == 0 {
        bytes
    } else {
        bytes.take(bytes.len() - 1)
    }
}

/// A filled text buffer that the string decoder accepts: empty (a probed
/// size of zero), or nul-terminated with valid UTF-8 before the terminator.
pub open spec fn string_buffer_ok(bytes: Seq<u8>) -> bool {
    (bytes.len() == 0 || cstr_wf(bytes)) && valid_utf8(cstr_content(bytes))
}

/// Relies on `alloc::string::String::from_utf8`: it returns the string made
/// of exactly `v`'s bytes when they are valid UTF-8, and reports the encoding
/// error otherwise.
#[verifier::external_body]
fn string_from_utf8(v: Vec<u8>) -> (r: Option<String>)
    ensures
        r is Some <==> valid_utf8(v@),
        r is Some ==> r.unwrap()@ == decode_utf8(v@),
{
    String::from_utf8(v).ok()
}

/// Decodes a filled native text buffer as nul-terminated byte data. An empty
/// buffer — a probed size of zero — is the empty string, not an error; a
/// non-empty buffer must end in its only nul byte and the text before it must
/// be valid UTF-8. A malformed buffer is a decode error, never a panic.
pub fn finish_string(buf: Vec<u8>) -> (r: Result<String, DecodeError>)
    ensures
        r is Ok <==> string_buffer_ok(buf@),
        r is Ok ==> r->Ok_0@ == decode_utf8(cstr_content(buf@)),
        (buf@.len() > 0 && !cstr_wf(buf@)) <==> r == Err::<String, DecodeError>(
            DecodeError::MissingTerminator,
        ),
        (cstr_wf(buf@) && !valid_utf8(cstr_content(buf@))) <==> r == Err::<String, DecodeError>(
            DecodeError::InvalidEncoding,
        ),
{
    let n = buf.len();
    if n == 0 {
        proof {
            assert(decode_utf8(cstr_content(buf@)) =~= Seq::<char>::empty());
        }
        return Ok(String::new());
    }
    if buf[n - 1] != 0 {
        return Err(DecodeError::MissingTerminator);
    }
    let mut i: usize = 0;
    while i < n - 1
        invariant
            i <= n - 1,
            n == buf@.len(),
            n >= 1,
            forall|j: int| 0 <= j < i ==> buf@[j] != 0u8,
        decreases n - 1 - i,
    {
        if buf[i] == 0 {
            return Err(DecodeError::MissingTerminator);
        }
        i += 1;
    }
    let ghost whole = buf@;
    let mut content = buf;
    content.truncate(n - 1);
    proof {
        assert(cstr_wf(whole));
        assert(content@ =~= cstr_content(whole));
    }
    match string_from_utf8(content) {
        Some(s) => Ok(s),
        None => Err(DecodeError::InvalidEncoding),
    }
}

/// The error the string decoder reports for a buffer it rejects; only a
/// non-empty buffer is ever rejected.
pub open spec fn spec_string_error(bytes: Seq<u8>) -> DecodeError {
    if !cstr_wf(bytes) {
        DecodeError::MissingTerminator
    } else {
        DecodeError::InvalidEncoding
    }
}

/// Assembles the name list of a kernel's declared input (or output) slots
/// from their filled text buffers, one buffer per slot in index order:
/// exactly one name per buffer, in the same order, or the first buffer's
/// decode error. The caller reads each buffer with the two-phase protocol;
/// this carries "one name per declared slot, as many names as slots".
pub fn finish_names(buffers: Vec<Vec<u8>>) -> (r: Result<Vec<String>, DecodeError>)
    ensures
        r is Ok <==> (forall|i: int|
            0 <= i < buffers@.len() ==> string_buffer_ok(#[trigger] buffers@[i]@)),
        r is Ok ==> r->Ok_0@.len() == buffers@.len() && (forall|i: int|
            0 <= i < buffers@.len() ==> (#[trigger] r->Ok_0@[i])@ == decode_utf8(
                cstr_content(buffers@[i]@),
            )),
        r is Err ==> (exists|i: int|
            0 <= i < buffers@.len() && !string_buffer_ok(#[trigger] buffers@[i]@)
                && r->Err_0 == spec_string_error(buffers@[i]@) && (forall|j: int|
                0 <= j < i ==> string_buffer_ok(#[trigger] buffers@[j]@))),
{
    let ghost orig = buffers@;
    let mut rest = buffers;
    let mut names: Vec<String> = Vec::new();
    while rest.len() > 0
        invariant
            orig == buffers@,
            rest@ =~= orig.skip(names@.len() as int),
            names@.len() <= orig.len(),
            forall|j: int| 0 <= j < names@.len() ==> string_buffer_ok(#[trigger] orig[j]@),
            forall|j: int|
                0 <= j < names@.len() ==> (#[trigger] names@[j])@ == decode_utf8(
                    cstr_content(orig[j]@),
                ),
        decreases rest@.len(),
    {
        let ghost done = names@.len() as int;
        let buf = rest.remove(0);
        let ghost bufv = buf@;
        proof {
            assert(orig.skip(done)[0] == orig[done]);
            assert(bufv == orig[done]@);
            assert(rest@ =~= orig.skip(done + 1));
        }
        match finish_string(buf) {
            Ok(name) => {
                proof {
                    assert(string_buffer_ok(orig[done]@));
                    assert(name@ == decode_utf8(cstr_content(orig[done]@)));
                }
                names.push(name);
            },
            Err(e) => {
                proof {
                    assert(!string_buffer_ok(buffers@[done]@));
                    assert(e == spec_string_error(buffers@[done]@));
                    assert forall|j: int| 0 <= j < done implies string_buffer_ok(
                        #[trigger] buffers@[j]@,
                    ) by {
                        assert(string_buffer_ok(orig[j]@));
                    }
                }
                return Err(e);
            },
        }
    }
    proof {
        assert(names@.len() == orig.len());
        assert forall|i: int| 0 <= i < buffers@.len() implies string_buffer_ok(
            #[trigger] buffers@[i]@,
        ) by {
            assert(string_buffer_ok(orig[i]@));
        }
        assert forall|i: int| 0 <= i < buffers@.len() implies (#[trigger] names@[i])@
            == decode_utf8(cstr_content(buffers@[i]@)) by {
            assert(names@[i]@ == decode_utf8(cstr_content(orig[i]@)));
        }
    }
    Ok(names)
}

/// The native type tags a positional op-attribute can declare.
#[derive(Debug, Clone, Copy, PartialEq, Eq, Structural)]
pub enum OpAttrType {
    /// One 32-bit float.
    Float,
    /// One 64-bit integer.
    Int,
    /// Nul-terminated text.
    Str,
    /// An array of 32-bit floats.
    Floats,
    /// An array of 64-bit integers.
    Ints,
}

/// The byte size of one element of a positional attribute of this type.
pub open spec fn spec_elem_size(ty: OpAttrType) -> nat {
    match ty {
        OpAttrType::Float => 4,
        OpAttrType::Int => 8,
        OpAttrType::Str => 1,
        OpAttrType::Floats => 4,
        OpAttrType::Ints => 8,
    }
}

/// The byte size of one element of a positional attribute of this type.
pub fn elem_size(ty: OpAttrType) -> (r: usize)
    ensures
        r == spec_elem_size(ty),
{
    match ty {
        OpAttrType::Float => 4,
        OpAttrType::Int => 8,
        OpAttrType::Str => 1,
        OpAttrType::Floats => 4,
        OpAttrType::Ints => 8,
    }
}

/// The byte length a positional read of `count` elements must request:
/// element size times count.
pub fn expected_byte_len(ty: OpAttrType, count: usize) -> (r: usize)
    requires
        count * spec_elem_size(ty) <= usize::MAX,
    ensures
        r == count * spec_elem_size(ty),
{
    match ty {
        OpAttrType::Float => count * 4,
        OpAttrType::Int => count * 8,
        OpAttrType::Str => count,
        OpAttrType::Floats => count * 4,
        OpAttrType::Ints => count * 8,
    }
}

/// Checks the length a positional native read reported against the length
/// requested. Anything but an exact match means the host asked for one type
/// and the attribute holds another, a programming error surfaced as
/// [`DecodeError::LengthMismatch`] rather than a silent truncation.
pub fn check_read_len(expected: usize, returned: usize) -> (r: Result<(), DecodeError>)
    ensures
        r is Ok <==> returned == expected,
        r is Err ==> r->Err_0 == (DecodeError::LengthMismatch { expected, returned }),
{
    if returned == expected {
        Ok(())
    } else {
        Err(DecodeError::LengthMismatch { expected, returned })
    }
}

/// The decision of the constant-input accessor: the native runtime reports
/// whether the requested input slot is a constant and whether a value is
/// present there; only a present constant may be handed out, anything else is
/// [`DecodeError::NotConstant`].
pub fn constant_input_check(is_constant: bool, has_value: bool) -> (r: Result<(), DecodeError>)
    ensures
        r is Ok <==> is_constant && has_value,
        r is Err ==> r->Err_0 == DecodeError::NotConstant,
{
    if is_constant && has_value {
        Ok(())
    } else {
        Err(DecodeError::NotConstant)
    }
}

} // verus!
