//! Unpacking of the persisted archive.
//!
//! Nothing is written here. `decompress` turns the archive's name and bytes
//! into the list of entries to create below the working directory, or into
//! the error that forbids it. The list is complete before the first entry is
//! handed out, so an archive with one unsafe entry is refused as a whole.

use vstd::prelude::*;
use crate::data_retrieve::bytes::copy_range;
use crate::data_retrieve::error::{ExtractionFault, PipelineError};
use crate::data_retrieve::format::{
    detect_format,
    detected_format,
    extension_claim,
    signature,
    signature_for,
    signature_of,
    ArchiveFormat,
    Signature,
};
use crate::data_retrieve::gzip::{gzip_payload, inflate};
use crate::data_retrieve::names::{
    contains_dot_dot,
    entry_name_is_safe,
    escapes_root,
    has_parent_segment,
    is_safe_entry_name,
    lemma_safe_entry_name_stays_inside,
    lemma_traversal_is_refused,
};
use crate::data_retrieve::tar::{
    entries_view,
    parse_tar,
    tar_entries,
    ArchiveEntry,
    EntryKind,
    EntryModel,
};

verus! {

/// Every entry has a name, and the name passes the rule for archive entries.
pub open spec fn all_entries_safe(entries: Seq<EntryModel>) -> bool {
    forall|i: int|
        0 <= i < entries.len() ==> (#[trigger] entries[i]).name.len() > 0 && is_safe_entry_name(
            entries[i].name,
        )
}

/// The name under which the content of the compressed file `name` is
/// unpacked: `name` without its last three bytes, the extension `.gz`.
pub open spec fn inflated_name(name: Seq<u8>) -> Seq<u8> {
    name.subrange(0, name.len() - 3)
}

/// The entries to create for a file of the given format, from its payload:
/// the content itself for a tar archive, the inflated content for the two
/// compressed formats.
///
/// An archive must carry the tar signature, parse, and hold safe entries
/// only. A compressed file yields one entry, named after the file.
pub open spec fn planned_entries(format: ArchiveFormat, name: Seq<u8>, payload: Seq<u8>) -> Result<
    Seq<EntryModel>,
    PipelineError,
> {
    match format {
        ArchiveFormat::Gzip => {
            let entry = EntryModel {
                name: inflated_name(name),
                kind: EntryKind::File,
                data: payload,
            };
            if name.len() >= 3 && all_entries_safe(seq![entry]) {
                Ok(seq![entry])
            } else {
                Err(PipelineError::ExtractionError(ExtractionFault::UnsafePath))
            }
        },
        _ => {
            if signature_of(payload) != Signature::Tar {
                Err(
                    PipelineError::UnsupportedFormatError {
                        claimed: Some(format),
                        found: signature_of(payload),
                    },
                )
            } else {
                match tar_entries(payload) {
                    Err(fault) => Err(
                        PipelineError::ExtractionError(ExtractionFault::CorruptTar(fault)),
                    ),
                    Ok(entries) => if all_entries_safe(entries) {
                        Ok(entries)
                    } else {
                        Err(PipelineError::ExtractionError(ExtractionFault::UnsafePath))
                    },
                }
            }
        },
    }
}

/// The entries to create for the file `name` with the given content.
pub open spec fn extraction_plan(name: Seq<u8>, content: Seq<u8>) -> Result<
    Seq<EntryModel>,
    PipelineError,
> {
    match detected_format(name, content) {
        Err(error) => Err(error),
        Ok(ArchiveFormat::Tar) => planned_entries(ArchiveFormat::Tar, name, content),
        Ok(format) => match gzip_payload(content) {
            None => Err(PipelineError::ExtractionError(ExtractionFault::CorruptGzip)),
            Some(payload) => planned_entries(format, name, payload),
        },
    }
}

/// Tells whether every entry has a name that passes the rule.
fn check_entries(entries: &Vec<ArchiveEntry>) -> (safe: bool)
    ensures
        safe == all_entries_safe(entries_view(entries@)),
{
    let mut i: usize = 0;
    while i < entries.len()
        invariant
            i <= entries.len(),
            forall|k: int|
                0 <= k < i ==> (#[trigger] entries_view(entries@)[k]).name.len() > 0
                    && is_safe_entry_name(entries_view(entries@)[k].name),
        decreases entries.len() - i,
    {
        let name = entries[i].name.as_slice();
        assert(entries_view(entries@)[i as int].name == name@);
        if name.len() == 0 || !entry_name_is_safe(name) {
            return false;
        }
        i += 1;
    }
    true
}

/// Plans the unpacking of a file of the given format from its payload: the
/// file's content for `Tar`, the inflated content for `TarGz` and `Gzip`.
pub fn plan_entries(format: ArchiveFormat, name: &[u8], payload: Vec<u8>) -> (plan: Result<
    Vec<ArchiveEntry>,
    PipelineError,
>)
    ensures
        match plan {
            Ok(entries) => planned_entries(format, name@, payload@) == Ok::<
                Seq<EntryModel>,
                PipelineError,
            >(entries_view(entries@)),
            Err(error) => planned_entries(format, name@, payload@) == Err::<
                Seq<EntryModel>,
                PipelineError,
            >(error),
        },
{
    match format {
        ArchiveFormat::Gzip => {
            if name.len() < 3 {
                return Err(PipelineError::ExtractionError(ExtractionFault::UnsafePath));
            }
            let entry = ArchiveEntry {
                name: copy_range(name, 0, name.len() - 3),
                kind: EntryKind::File,
                data: payload,
            };
            let mut entries: Vec<ArchiveEntry> = Vec::new();
            entries.push(entry);
            assert(entries_view(entries@) =~= seq![entry@]);
            if check_entries(&entries) {
                Ok(entries)
            } else {
                Err(PipelineError::ExtractionError(ExtractionFault::UnsafePath))
            }
        },
        _ => {
            let found = signature(payload.as_slice());
            match found {
                Signature::Tar => {},
                _ => {
                    return Err(
                        PipelineError::UnsupportedFormatError { claimed: Some(format), found },
                    );
                },
            }
            match parse_tar(payload.as_slice()) {
                Err(fault) => Err(
                    PipelineError::ExtractionError(ExtractionFault::CorruptTar(fault)),
                ),
                Ok(entries) => {
                    if check_entries(&entries) {
                        Ok(entries)
                    } else {
                        Err(PipelineError::ExtractionError(ExtractionFault::UnsafePath))
                    }
                },
            }
        },
    }
}

/// Plans the unpacking of the file `name` with the given content: detects
/// the format, inflates the content where the format is a compressed one, and
/// lists the entries to create.
pub fn decompress(name: &[u8], content: &[u8]) -> (plan: Result<Vec<ArchiveEntry>, PipelineError>)
    ensures
        match plan {
            Ok(entries) => extraction_plan(name@, content@) == Ok::<Seq<EntryModel>, PipelineError>(
                entries_view(entries@),
            ),
            Err(error) => extraction_plan(name@, content@) == Err::<Seq<EntryModel>, PipelineError>(
                error,
            ),
        },
{
    let format = match detect_format(name, content) {
        Ok(format) => format,
        Err(error) => {
            return Err(error);
        },
    };
    match format {
        ArchiveFormat::Tar => {
            let payload = copy_range(content, 0, content.len());
            assert(payload@ =~= content@);
            plan_entries(ArchiveFormat::Tar, name, payload)
        },
        _ => match inflate(content) {
            None => Err(PipelineError::ExtractionError(ExtractionFault::CorruptGzip)),
            Some(payload) => plan_entries(format, name, payload),
        },
    }
}

/// Path-traversal guard, soundness: whatever the archive, no entry of a plan
/// leads out of the working directory, has a `..` segment, or holds two dots
/// in a row.
pub proof fn lemma_plan_stays_inside(name: Seq<u8>, content: Seq<u8>)
    ensures
        extraction_plan(name, content) matches Ok(entries) ==> forall|i: int|
            0 <= i < entries.len() ==> {
                &&& !escapes_root(#[trigger] entries[i].name)
                &&& !has_parent_segment(entries[i].name)
                &&& !contains_dot_dot(entries[i].name)
            },
{
    if let Ok(entries) = extraction_plan(name, content) {
        assert(all_entries_safe(entries));
        assert forall|i: int| 0 <= i < entries.len() implies {
            &&& !escapes_root(#[trigger] entries[i].name)
            &&& !has_parent_segment(entries[i].name)
            &&& !contains_dot_dot(entries[i].name)
        } by {
            assert(is_safe_entry_name(entries[i].name));
            lemma_safe_entry_name_stays_inside(entries[i].name);
        }
    }
}

/// Path-traversal guard, completeness: an archive that holds an entry whose
/// name has two dots in a row, has a `..` segment or leads out of the working
/// directory is refused with an `ExtractionError`, and no entry of it is
/// planned.
pub proof fn lemma_unsafe_entry_refuses_archive(
    format: ArchiveFormat,
    name: Seq<u8>,
    payload: Seq<u8>,
    i: int,
)
    requires
        format != ArchiveFormat::Gzip,
        signature_of(payload) == Signature::Tar,
        tar_entries(payload) matches Ok(entries) && 0 <= i < entries.len() && (contains_dot_dot(
            entries[i].name,
        ) || has_parent_segment(entries[i].name) || escapes_root(entries[i].name)),
    ensures
        planned_entries(format, name, payload) == Err::<Seq<EntryModel>, PipelineError>(
            PipelineError::ExtractionError(ExtractionFault::UnsafePath),
        ),
{
    let entries = tar_entries(payload)->Ok_0;
    lemma_traversal_is_refused(entries[i].name);
    assert(!is_safe_entry_name(entries[i].name));
}

/// Format detection: where the extension of `name` claims a format whose
/// signature the content does not carry, nothing is unpacked.
pub proof fn lemma_wrong_signature_is_unsupported(name: Seq<u8>, content: Seq<u8>)
    requires
        extension_claim(name) matches Some(format) ==> signature_for(format) != signature_of(
            content,
        ),
    ensures
        extraction_plan(name, content) == Err::<Seq<EntryModel>, PipelineError>(
            PipelineError::UnsupportedFormatError {
                claimed: extension_claim(name),
                found: signature_of(content),
            },
        ),
{
}

/// Format detection, inner layer: a file named as a compressed archive whose
/// inflated content is no tar archive is refused as well.
pub proof fn lemma_compressed_non_archive_is_unsupported(name: Seq<u8>, content: Seq<u8>)
    requires
        detected_format(name, content) == Ok::<ArchiveFormat, PipelineError>(ArchiveFormat::TarGz),
        gzip_payload(content) matches Some(payload) && signature_of(payload) != Signature::Tar,
    ensures
        extraction_plan(name, content) matches Err(
            PipelineError::UnsupportedFormatError { claimed, found },
        ) && claimed == Some(ArchiveFormat::TarGz) && found != Signature::Tar,
{
}

} // verus!
