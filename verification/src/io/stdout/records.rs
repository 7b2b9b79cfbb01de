//! The fixed-capacity vector that holds the records of a converted text.
//!
//! The vector is `heapless::Vec`, which keeps its items inline and never
//! allocates. Nothing in this file is proved: each contract below restates
//! what the vector's own code does.

use crate::io::stdout::structs::SysPrintableChar;
use vstd::prelude::*;

verus! {

/// How many records a converted text can hold: one for each cell of the
/// display.
pub const MAX_CHARS: usize = 2000;

/// `heapless::Vec`, made known to the verifier as an opaque type.
#[verifier::external_type_specification]
#[verifier::external_body]
#[verifier::reject_recursive_types(T)]
pub struct ExHeaplessVec<T, const N: usize>(heapless::Vec<T, N>);

/// The records that a vector holds, in the order in which they were pushed.
pub uninterp spec fn records_of(chars: heapless::Vec<SysPrintableChar, MAX_CHARS>) -> Seq<
    SysPrintableChar,
>;

/// `heapless::Vec::new`: a vector that holds nothing.
#[verifier::external_body]
pub(crate) fn empty_records() -> (chars: heapless::Vec<SysPrintableChar, MAX_CHARS>)
    ensures
        records_of(chars) == Seq::<SysPrintableChar>::empty(),
{
    heapless::Vec::new()
}

/// `heapless::Vec::is_full`: whether the vector holds as many records as its
/// capacity allows.
#[verifier::external_body]
pub(crate) fn records_full(chars: &heapless::Vec<SysPrintableChar, MAX_CHARS>) -> (full: bool)
    ensures
        full == (records_of(*chars).len() == MAX_CHARS),
{
    chars.is_full()
}

/// `heapless::Vec::push`: below capacity the record is appended and nothing
/// comes back; at capacity the vector stays as it is and the record is handed
/// back.
#[verifier::external_body]
pub(crate) fn push_record(
    chars: &mut heapless::Vec<SysPrintableChar, MAX_CHARS>,
    record: SysPrintableChar,
) -> (rejected: Option<SysPrintableChar>)
    ensures
        rejected == if records_of(*old(chars)).len() < MAX_CHARS {
            None
        } else {
            Some(record)
        },
        records_of(*final(chars)) == if records_of(*old(chars)).len() < MAX_CHARS {
            records_of(*old(chars)).push(record)
        } else {
            records_of(*old(chars))
        },
{
    chars.push(record).err()
}

/// `heapless::Vec::as_slice`: the records that the vector holds, as a slice.
#[verifier::external_body]
pub(crate) fn records_slice(chars: &heapless::Vec<SysPrintableChar, MAX_CHARS>) -> (records: &[
    SysPrintableChar
])
    ensures
        records@ == records_of(*chars),
{
    chars.as_slice()
}

} // verus!
