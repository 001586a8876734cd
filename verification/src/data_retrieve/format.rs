//! Which archive format a file is in.
//!
//! The extension of the file's name makes a claim; the first bytes of its
//! content carry a signature. A format is detected only where the two agree.

use vstd::prelude::*;
use vstd::string::StringSliceAdditionalSpecFns;
use crate::data_retrieve::bytes::{ends_with, has_suffix, matches_at, occurs_at};
use crate::data_retrieve::error::PipelineError;

verus! {

/// The formats that are unpacked.
#[derive(Clone, Copy, Debug, PartialEq, Eq, Structural)]
pub enum ArchiveFormat {
    /// A tar archive in a gzip stream.
    TarGz,
    /// One file in a gzip stream.
    Gzip,
    /// A tar archive.
    Tar,
}

/// What the content of a file shows itself to be.
#[derive(Clone, Copy, Debug, PartialEq, Eq, Structural)]
pub enum Signature {
    /// The content starts with the gzip magic `1f 8b`.
    Gzip,
    /// The content holds `ustar` at offset 257, where a tar header has its
    /// magic.
    Tar,
    /// Neither.
    Unknown,
}

/// The first two bytes of a gzip stream.
pub open spec fn gzip_magic() -> Seq<u8> {
    seq![0x1fu8, 0x8bu8]
}

/// The format that the extension of `name` claims: `.tar.gz` and `.tgz` a
/// compressed archive, any other `.gz` a compressed file, `.tar` an archive.
pub open spec fn extension_claim(name: Seq<u8>) -> Option<ArchiveFormat> {
    if ends_with(name, ".tar.gz".spec_bytes()) || ends_with(name, ".tgz".spec_bytes()) {
        Some(ArchiveFormat::TarGz)
    } else if ends_with(name, ".gz".spec_bytes()) {
        Some(ArchiveFormat::Gzip)
    } else if ends_with(name, ".tar".spec_bytes()) {
        Some(ArchiveFormat::Tar)
    } else {
        None
    }
}

/// The signature that `content` carries.
pub open spec fn signature_of(content: Seq<u8>) -> Signature {
    if occurs_at(content, 0, gzip_magic()) {
        Signature::Gzip
    } else if occurs_at(content, 257, "ustar".spec_bytes()) {
        Signature::Tar
    } else {
        Signature::Unknown
    }
}

/// The signature that a file of the given format carries.
pub open spec fn signature_for(format: ArchiveFormat) -> Signature {
    match format {
        ArchiveFormat::TarGz | ArchiveFormat::Gzip => Signature::Gzip,
        ArchiveFormat::Tar => Signature::Tar,
    }
}

/// The format of the file `name` with the given content: the one that the
/// extension claims, if the content carries its signature. Anything else is
/// an `UnsupportedFormatError` that reports both.
pub open spec fn detected_format(name: Seq<u8>, content: Seq<u8>) -> Result<
    ArchiveFormat,
    PipelineError,
> {
    match extension_claim(name) {
        Some(format) if signature_for(format) == signature_of(content) => Ok(format),
        claimed => Err(
            PipelineError::UnsupportedFormatError { claimed, found: signature_of(content) },
        ),
    }
}

/// Reads the claim that the extension of `name` makes.
pub fn claimed_format(name: &[u8]) -> (claim: Option<ArchiveFormat>)
    ensures
        claim == extension_claim(name@),
{
    if has_suffix(name, ".tar.gz".as_bytes()) || has_suffix(name, ".tgz".as_bytes()) {
        Some(ArchiveFormat::TarGz)
    } else if has_suffix(name, ".gz".as_bytes()) {
        Some(ArchiveFormat::Gzip)
    } else if has_suffix(name, ".tar".as_bytes()) {
        Some(ArchiveFormat::Tar)
    } else {
        None
    }
}

/// Reads the signature of `content`.
pub fn signature(content: &[u8]) -> (found: Signature)
    ensures
        found == signature_of(content@),
{
    let magic: [u8; 2] = [0x1f, 0x8b];
    assert(magic@ =~= gzip_magic());
    if matches_at(content, 0, magic.as_slice()) {
        Signature::Gzip
    } else if matches_at(content, 257, "ustar".as_bytes()) {
        Signature::Tar
    } else {
        Signature::Unknown
    }
}

/// Detects the format of the file `name` with the given content.
pub fn detect_format(name: &[u8], content: &[u8]) -> (detected: Result<
    ArchiveFormat,
    PipelineError,
>)
    ensures
        detected == detected_format(name@, content@),
{
    let claimed = claimed_format(name);
    let found = signature(content);
    match claimed {
        Some(ArchiveFormat::TarGz) | Some(ArchiveFormat::Gzip) => {
            if let Signature::Gzip = found {
                return Ok(claimed.unwrap());
            }
        },
        Some(ArchiveFormat::Tar) => {
            if let Signature::Tar = found {
                return Ok(ArchiveFormat::Tar);
            }
        },
        None => {},
    }
    Err(PipelineError::UnsupportedFormatError { claimed, found })
}

/// A file whose extension claims one format and whose content carries the
/// signature of another, or of none, is refused, whatever else it holds.
pub proof fn lemma_mismatch_is_unsupported(name: Seq<u8>, content: Seq<u8>)
    requires
        extension_claim(name) matches Some(format) ==> signature_for(format) != signature_of(
            content,
        ),
    ensures
        detected_format(name, content) == Err::<ArchiveFormat, PipelineError>(
            PipelineError::UnsupportedFormatError {
                claimed: extension_claim(name),
                found: signature_of(content),
            },
        ),
{
}

/// Content without a known signature is refused under every name.
pub proof fn lemma_unknown_signature_is_unsupported(name: Seq<u8>, content: Seq<u8>)
    requires
        signature_of(content) == Signature::Unknown,
    ensures
        detected_format(name, content) is Err,
{
}

} // verus!
