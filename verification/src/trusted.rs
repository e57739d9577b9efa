//! What the library takes on trust from outside code: three opaque types,
//! a name for what a formatter has been given, and one call into the
//! standard formatter. Nothing here is proved.

use vstd::prelude::*;

verus! {

/// The error type of `rand_core`. The generator never makes one; it only
/// hands on an error that a caller's random source reported.
#[verifier::external_type_specification]
#[verifier::external_body]
pub struct ExRandError(rand_core::Error);

/// The standard library's formatter, the sink that `Debug` writes to.
#[verifier::external_type_specification]
#[verifier::external_body]
pub struct ExFormatter<'a>(core::fmt::Formatter<'a>);

/// The standard library's formatting error.
#[verifier::external_type_specification]
#[verifier::external_body]
pub struct ExFmtError(core::fmt::Error);

/// The text that has been handed to the sink of a formatter so far.
pub uninterp spec fn handed(f: core::fmt::Formatter<'_>) -> Seq<char>;

/// Calls `core::fmt::Formatter::write_str`, which writes `text` to the sink
/// of the formatter. The contract claims that after a call that reports
/// success the sink has been handed `text`, whole and once, behind what it
/// had been handed before. Of a call that reports an error it claims
/// nothing: the sink may have taken a part of the text or none.
#[verifier::external_body]
pub(crate) fn write_str(
    f: &mut core::fmt::Formatter<'_>,
    text: &str,
) -> (outcome: core::fmt::Result)
    ensures
        outcome is Ok ==> handed(*final(f)) == handed(*old(f)) + text@,
{
    f.write_str(text)
}

} // verus!
