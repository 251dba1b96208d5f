use vstd::prelude::*;
use vstd::string::StringSliceAdditionalSpecFns;
use vstd::utf8::{partial_valid_utf8_extend_ascii_block, valid_utf8};

verus! {

/// The error type of `core::fmt::Write`, carried through unchanged.
#[verifier::external_type_specification]
#[verifier::external_body]
pub struct ExFmtError(core::fmt::Error);

/// `core::fmt::Error::default`: the (field-less) formatting error.
pub assume_specification[ <core::fmt::Error as core::default::Default>::default ]() -> core::fmt::Error;

/// `core::str::from_utf8`: reads bytes as a string slice. As its documentation
/// says, it succeeds exactly on bytes that are well-formed UTF-8, and the
/// slice it returns is made of those very bytes.
#[verifier::external_body]
pub fn str_from_utf8<'a>(bytes: &'a [u8]) -> (text: Option<&'a str>)
    ensures
        text is Some <==> valid_utf8(bytes@),
        text is Some ==> text->0.spec_bytes() == bytes@,
{
    core::str::from_utf8(bytes).ok()
}

/// Bytes below 0x80 are well-formed UTF-8 (each one a character of its own).
pub proof fn lemma_ascii_valid_utf8(bytes: Seq<u8>)
    requires
        forall|i: int| 0 <= i < bytes.len() ==> bytes[i] < 0x80,
    ensures
        valid_utf8(bytes),
{
    assert(bytes.subrange(0, 0) =~= Seq::<u8>::empty());
    assert(bytes.subrange(0, bytes.len() as int) =~= bytes);
    partial_valid_utf8_extend_ascii_block(bytes, 0, bytes.len() as int);
}

} // verus!
