//! The rules of the content writer.
//!
//! Content is written to a temporary file beside its target and renamed into
//! place once the count of bytes written has been checked. The rules here
//! name the temporary file and judge the count; the pipeline sequences the
//! operations.

use vstd::prelude::*;
use vstd::string::StringSliceAdditionalSpecFns;
use crate::data_retrieve::bytes::join;
use crate::data_retrieve::error::PipelineError;
use crate::data_retrieve::names::{is_single_component, SLASH};

verus! {

/// The name of the temporary file for the target `filename`: the target's
/// name followed by `.part`.
pub open spec fn temp_name(filename: Seq<u8>) -> Seq<u8> {
    filename + ".part".spec_bytes()
}

/// The name of the temporary file for the target `filename`, in the same
/// directory.
pub fn temp_file_name(filename: &[u8]) -> (name: Vec<u8>)
    ensures
        name@ == temp_name(filename@),
{
    join(filename, ".part".as_bytes())
}

/// The temporary file of a target in the working directory lies in the
/// working directory too, and is another file than the target.
pub proof fn lemma_temp_name_is_beside(filename: Seq<u8>)
    requires
        is_single_component(filename),
    ensures
        is_single_component(temp_name(filename)),
        temp_name(filename) != filename,
{
    reveal_strlit(".part");
    vstd::string::is_ascii_spec_bytes(".part");
    let suffix = ".part".spec_bytes();
    let temp = temp_name(filename);
    assert(temp.len() == filename.len() + 5);
    assert forall|i: int| 0 <= i < temp.len() implies temp[i] != SLASH by {
        if i >= filename.len() {
            assert(temp[i] == suffix[i - filename.len()]);
        }
    }
}

/// What the count of bytes written says: nothing if it is the length of the
/// content, an `IntegrityError` with both numbers if it is not.
pub open spec fn written_check(expected: u64, written: u64) -> Result<(), PipelineError> {
    if written == expected {
        Ok(())
    } else {
        Err(PipelineError::IntegrityError { expected, written })
    }
}

/// Checks the count of bytes written against the length of the content.
pub fn check_written(expected: u64, written: u64) -> (checked: Result<(), PipelineError>)
    ensures
        checked == written_check(expected, written),
{
    if written == expected {
        Ok(())
    } else {
        Err(PipelineError::IntegrityError { expected, written })
    }
}

} // verus!
