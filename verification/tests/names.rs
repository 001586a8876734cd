use deepmath::data_retrieve::bytes::{copy_range, has_suffix, join, matches_at, same_bytes};
use deepmath::data_retrieve::error::PipelineError;
use deepmath::data_retrieve::format::{
    claimed_format, detect_format, signature, ArchiveFormat, Signature,
};
use deepmath::data_retrieve::names::{entry_name_is_safe, holds_dot_dot, name_is_single_component};

#[test]
fn relative_names_without_dot_dot_are_safe() {
    for name in ["equations.csv", "a/b/c.txt", "dir/", "./a", "a//b", ".hidden", "a.b.c", ""] {
        assert!(entry_name_is_safe(name.as_bytes()), "{}", name);
    }
}

#[test]
fn names_with_parent_segments_are_unsafe() {
    for name in ["..", "../x", "../../etc/passwd", "a/../b", "a/..", "a/../../b", "./../x"] {
        assert!(!entry_name_is_safe(name.as_bytes()), "{}", name);
    }
}

#[test]
fn names_with_two_dots_in_a_row_are_unsafe() {
    for name in ["a..b", "...", "x/..y", "trailing.."] {
        assert!(holds_dot_dot(name.as_bytes()), "{}", name);
        assert!(!entry_name_is_safe(name.as_bytes()), "{}", name);
    }
    for name in ["", ".", "a.b", "./.a/.b", ". ."] {
        assert!(!holds_dot_dot(name.as_bytes()), "{}", name);
    }
}

#[test]
fn absolute_names_are_unsafe() {
    for name in ["/", "/etc/passwd", "//x"] {
        assert!(!entry_name_is_safe(name.as_bytes()), "{}", name);
    }
}

#[test]
fn single_components_name_an_entry_of_the_directory() {
    for name in ["ode1.tar.gz", "a", "...", "a..b", ".part", " "] {
        assert!(name_is_single_component(name.as_bytes()), "{}", name);
    }
    for name in ["", ".", "..", "a/b", "/a", "a/", "../a"] {
        assert!(!name_is_single_component(name.as_bytes()), "{}", name);
    }
}

#[test]
fn patterns_are_found_where_they_stand() {
    assert!(matches_at(b"hello", 0, b"he"));
    assert!(matches_at(b"hello", 3, b"lo"));
    assert!(matches_at(b"hello", 5, b""));
    assert!(!matches_at(b"hello", 4, b"lo"));
    assert!(!matches_at(b"hello", 6, b""));
    assert!(!matches_at(b"hello", usize::MAX, b"h"));
    assert!(has_suffix(b"x.tar.gz", b".gz"));
    assert!(has_suffix(b".gz", b".gz"));
    assert!(!has_suffix(b"gz", b".gz"));
    assert!(!has_suffix(b"x.gzz", b".gz"));
}

#[test]
fn ranges_and_concatenations_copy_the_bytes() {
    assert_eq!(copy_range(b"abcdef", 2, 4), b"cd".to_vec());
    assert_eq!(copy_range(b"abcdef", 3, 3), Vec::<u8>::new());
    assert_eq!(copy_range(b"abcdef", 0, 6), b"abcdef".to_vec());
    assert_eq!(join(b"ab", b"cd"), b"abcd".to_vec());
    assert_eq!(join(b"", b""), Vec::<u8>::new());
    assert!(same_bytes(b"abc", b"abc"));
    assert!(same_bytes(b"", b""));
    assert!(!same_bytes(b"abc", b"abd"));
    assert!(!same_bytes(b"abc", b"ab"));
}

#[test]
fn extension_makes_the_claim() {
    assert_eq!(claimed_format(b"ode1.tar.gz"), Some(ArchiveFormat::TarGz));
    assert_eq!(claimed_format(b"ode1.tgz"), Some(ArchiveFormat::TarGz));
    assert_eq!(claimed_format(b"notes.txt.gz"), Some(ArchiveFormat::Gzip));
    assert_eq!(claimed_format(b".gz"), Some(ArchiveFormat::Gzip));
    assert_eq!(claimed_format(b"data.tar"), Some(ArchiveFormat::Tar));
    assert_eq!(claimed_format(b"data.zip"), None);
    assert_eq!(claimed_format(b"data.TAR.GZ"), None);
    assert_eq!(claimed_format(b"targz"), None);
    assert_eq!(claimed_format(b""), None);
}

fn tar_like() -> Vec<u8> {
    let mut content = vec![0u8; 512];
    content[257..262].copy_from_slice(b"ustar");
    content
}

#[test]
fn content_carries_the_signature() {
    assert_eq!(signature(&[0x1f, 0x8b, 8, 0]), Signature::Gzip);
    assert_eq!(signature(&[0x1f, 0x8b]), Signature::Gzip);
    assert_eq!(signature(&[0x1f]), Signature::Unknown);
    assert_eq!(signature(&[0x8b, 0x1f]), Signature::Unknown);
    assert_eq!(signature(b""), Signature::Unknown);
    assert_eq!(signature(b"PK\x03\x04"), Signature::Unknown);
    assert_eq!(signature(&tar_like()), Signature::Tar);
    assert_eq!(signature(&tar_like()[..262]), Signature::Tar);
    assert_eq!(signature(&tar_like()[..261]), Signature::Unknown);
}

#[test]
fn format_is_detected_where_claim_and_signature_agree() {
    assert_eq!(detect_format(b"a.tar.gz", &[0x1f, 0x8b, 8]), Ok(ArchiveFormat::TarGz));
    assert_eq!(detect_format(b"a.tgz", &[0x1f, 0x8b, 8]), Ok(ArchiveFormat::TarGz));
    assert_eq!(detect_format(b"a.gz", &[0x1f, 0x8b, 8]), Ok(ArchiveFormat::Gzip));
    assert_eq!(detect_format(b"a.tar", &tar_like()), Ok(ArchiveFormat::Tar));
}

#[test]
fn format_is_unsupported_where_they_disagree() {
    assert_eq!(
        detect_format(b"a.tar.gz", &tar_like()),
        Err(PipelineError::UnsupportedFormatError {
            claimed: Some(ArchiveFormat::TarGz),
            found: Signature::Tar,
        })
    );
    assert_eq!(
        detect_format(b"a.tar", &[0x1f, 0x8b, 8]),
        Err(PipelineError::UnsupportedFormatError {
            claimed: Some(ArchiveFormat::Tar),
            found: Signature::Gzip,
        })
    );
    assert_eq!(
        detect_format(b"a.gz", b"PK\x03\x04 zip content"),
        Err(PipelineError::UnsupportedFormatError {
            claimed: Some(ArchiveFormat::Gzip),
            found: Signature::Unknown,
        })
    );
    assert_eq!(
        detect_format(b"a.bin", &[0x1f, 0x8b, 8]),
        Err(PipelineError::UnsupportedFormatError { claimed: None, found: Signature::Gzip })
    );
}
