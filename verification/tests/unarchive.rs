use std::io::Write;

use deepmath::data_retrieve::error::{ExtractionFault, PipelineError};
use deepmath::data_retrieve::format::{ArchiveFormat, Signature};
use deepmath::data_retrieve::tar::{ArchiveEntry, EntryKind, TarFault};
use deepmath::data_retrieve::unarchive::{decompress, plan_entries};

fn gzip(bytes: &[u8]) -> Vec<u8> {
    let mut encoder = flate2::write::GzEncoder::new(Vec::new(), flate2::Compression::default());
    encoder.write_all(bytes).unwrap();
    encoder.finish().unwrap()
}

fn tar_of(files: &[(&str, &[u8])]) -> Vec<u8> {
    let mut builder = tar::Builder::new(Vec::new());
    for (name, data) in files {
        let mut header = tar::Header::new_gnu();
        header.set_size(data.len() as u64);
        header.set_mode(0o644);
        header.set_entry_type(tar::EntryType::Regular);
        // The name is written into the field directly: the builder's own
        // path check would refuse the names that the guard is tested with.
        let field = &mut header.as_old_mut().name;
        field[..name.len()].copy_from_slice(name.as_bytes());
        header.set_cksum();
        builder.append(&header, *data).unwrap();
    }
    builder.into_inner().unwrap()
}

fn file(name: &str, data: &[u8]) -> ArchiveEntry {
    ArchiveEntry { name: name.as_bytes().to_vec(), kind: EntryKind::File, data: data.to_vec() }
}

#[test]
fn compressed_archive_with_one_entry_is_planned() {
    let content = b"x,dx\nsin(x),cos(x)\n";
    let archive = gzip(&tar_of(&[("equations.csv", content)]));
    let plan = decompress(b"ode1.tar.gz", &archive);
    assert_eq!(plan, Ok(vec![file("equations.csv", content)]));
}

#[test]
fn entry_with_parent_segments_refuses_the_archive() {
    let archive = gzip(&tar_of(&[("good.csv", b"1"), ("../../etc/passwd", b"root")]));
    let plan = decompress(b"ode1.tar.gz", &archive);
    assert_eq!(plan, Err(PipelineError::ExtractionError(ExtractionFault::UnsafePath)));
}

#[test]
fn absolute_entry_refuses_the_archive() {
    let archive = tar_of(&[("/etc/passwd", b"root")]);
    let plan = decompress(b"data.tar", &archive);
    assert_eq!(plan, Err(PipelineError::ExtractionError(ExtractionFault::UnsafePath)));
}

#[test]
fn plain_archive_keeps_the_order_of_its_entries() {
    let archive = tar_of(&[("a/one.txt", b"1"), ("a/two.txt", b"22"), ("three", b"")]);
    let plan = decompress(b"data.tar", &archive);
    assert_eq!(plan, Ok(vec![file("a/one.txt", b"1"), file("a/two.txt", b"22"), file("three", b"")]));
}

#[test]
fn compressed_file_is_named_after_the_archive() {
    let archive = gzip(b"plain text");
    let plan = decompress(b"notes.txt.gz", &archive);
    assert_eq!(plan, Ok(vec![file("notes.txt", b"plain text")]));
}

#[test]
fn archive_extension_on_compressed_text_is_unsupported() {
    let archive = gzip(b"plain text, no archive");
    let plan = decompress(b"ode1.tar.gz", &archive);
    assert_eq!(
        plan,
        Err(PipelineError::UnsupportedFormatError {
            claimed: Some(ArchiveFormat::TarGz),
            found: Signature::Unknown,
        })
    );
}

#[test]
fn gzip_extension_on_an_archive_is_unsupported() {
    let archive = tar_of(&[("equations.csv", b"1")]);
    let plan = decompress(b"ode1.tar.gz", &archive);
    assert_eq!(
        plan,
        Err(PipelineError::UnsupportedFormatError {
            claimed: Some(ArchiveFormat::TarGz),
            found: Signature::Tar,
        })
    );
}

#[test]
fn truncated_gzip_stream_is_corrupt() {
    let mut archive = gzip(&tar_of(&[("equations.csv", b"some content to compress")]));
    archive.truncate(archive.len() - 6);
    let plan = decompress(b"ode1.tar.gz", &archive);
    assert_eq!(plan, Err(PipelineError::ExtractionError(ExtractionFault::CorruptGzip)));
}

#[test]
fn inflating_changes_the_bytes() {
    // The payload, not the stream, is what is planned.
    let stream = gzip(b"abc");
    let plan = decompress(b"abc.gz", &stream).unwrap();
    assert_eq!(plan[0].data, b"abc".to_vec());
    assert_ne!(plan[0].data, stream);
}

#[test]
fn damaged_header_is_corrupt() {
    let mut archive = tar_of(&[("equations.csv", b"1")]);
    archive[0] = b'f';
    let plan = plan_entries(ArchiveFormat::Tar, b"data.tar", archive);
    assert_eq!(
        plan,
        Err(PipelineError::ExtractionError(ExtractionFault::CorruptTar(TarFault::BadChecksum)))
    );
}
