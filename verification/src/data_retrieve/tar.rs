//! The tar format, read from a byte string.
//!
//! An archive is a run of 512-byte blocks: a header block for each entry,
//! followed by the entry's data, padded to whole blocks. A header block of
//! zeros, or the end of the input at a block boundary, ends the archive.
//! `tar_entries` says what an archive holds; `parse_tar` computes it.
//!
//! Regular files and directories are read. Any other kind of entry (links,
//! devices, extension records) is refused, since the pipeline must know
//! beforehand every path it will write.

use vstd::prelude::*;
use crate::data_retrieve::bytes::{copy_range, matches_at, occurs_at};
use crate::data_retrieve::names::SLASH;

verus! {

/// The size of a block.
pub const BLOCK: usize = 512;

/// The kinds of entry that are unpacked.
#[derive(Clone, Copy, Debug, PartialEq, Eq, Structural)]
pub enum EntryKind {
    /// A regular file.
    File,
    /// A directory.
    Directory,
}

/// Why a byte string is no archive that can be unpacked.
#[derive(Clone, Copy, Debug, PartialEq, Eq, Structural)]
pub enum TarFault {
    /// The input ends inside a header block.
    TruncatedHeader,
    /// The checksum field of a header is malformed or differs from the sum of
    /// the header's bytes.
    BadChecksum,
    /// The entry is neither a regular file nor a directory.
    UnsupportedEntry,
    /// The size field of a header is malformed.
    BadSize,
    /// The header names no path.
    EmptyName,
    /// The input ends before the entry's data and padding do.
    TruncatedData,
}

/// An entry of an archive: where it goes below the extraction root, and what
/// it holds.
#[derive(Clone, Debug, PartialEq, Eq)]
pub struct ArchiveEntry {
    /// The path of the entry, relative to the extraction root.
    pub name: Vec<u8>,
    /// Whether the entry is a file or a directory.
    pub kind: EntryKind,
    /// The content of a file; empty for a directory.
    pub data: Vec<u8>,
}

/// The mathematical value of an `ArchiveEntry`.
pub struct EntryModel {
    pub name: Seq<u8>,
    pub kind: EntryKind,
    pub data: Seq<u8>,
}

impl View for ArchiveEntry {
    type V = EntryModel;

    open spec fn view(&self) -> EntryModel {
        EntryModel { name: self.name@, kind: self.kind, data: self.data@ }
    }
}

/// The values of a sequence of entries.
pub open spec fn entries_view(entries: Seq<ArchiveEntry>) -> Seq<EntryModel> {
    entries.map_values(|e: ArchiveEntry| e@)
}

// ---------------------------------------------------------------------------
// Numeric fields
// ---------------------------------------------------------------------------

pub open spec fn is_octal_digit(byte: u8) -> bool {
    0x30 <= byte <= 0x37
}

/// A byte that may end a number in a field: NUL or a space.
pub open spec fn is_terminator(byte: u8) -> bool {
    byte == 0 || byte == 0x20
}

/// The first offset at or after `from` that holds no space.
pub open spec fn skip_spaces(field: Seq<u8>, from: int) -> int
    decreases field.len() - from,
{
    if 0 <= from < field.len() && field[from] == 0x20 {
        skip_spaces(field, from + 1)
    } else {
        from
    }
}

/// The first offset at or after `from` that holds no octal digit.
pub open spec fn skip_digits(field: Seq<u8>, from: int) -> int
    decreases field.len() - from,
{
    if 0 <= from < field.len() && is_octal_digit(field[from]) {
        skip_digits(field, from + 1)
    } else {
        from
    }
}

/// The number that a run of octal digits denotes.
pub open spec fn octal_value(digits: Seq<u8>) -> nat
    decreases digits.len(),
{
    if digits.len() == 0 {
        0
    } else {
        octal_value(digits.drop_last()) * 8 + if digits.last() >= 0x30 {
            (digits.last() - 0x30) as nat
        } else {
            0
        }
    }
}

/// The number held by a numeric field: optional spaces, then at least one
/// octal digit, then the end of the field or a terminator. `None` if the field
/// has another form or the number does not fit 64 bits.
pub open spec fn octal_field(field: Seq<u8>) -> Option<u64> {
    let start = skip_spaces(field, 0);
    let end = skip_digits(field, start);
    let value = octal_value(field.subrange(start, end));
    if start < end && (end == field.len() || is_terminator(field[end])) && value <= u64::MAX {
        Some(value as u64)
    } else {
        None
    }
}

proof fn lemma_skip_spaces_bounds(field: Seq<u8>, from: int)
    requires
        0 <= from <= field.len(),
    ensures
        from <= skip_spaces(field, from) <= field.len(),
    decreases field.len() - from,
{
    if from < field.len() && field[from] == 0x20 {
        lemma_skip_spaces_bounds(field, from + 1);
    }
}

proof fn lemma_skip_digits_bounds(field: Seq<u8>, from: int)
    requires
        0 <= from <= field.len(),
    ensures
        from <= skip_digits(field, from) <= field.len(),
    decreases field.len() - from,
{
    if from < field.len() && is_octal_digit(field[from]) {
        lemma_skip_digits_bounds(field, from + 1);
    }
}

/// A longer run of digits denotes at least eight times as much.
proof fn lemma_octal_value_grows(field: Seq<u8>, start: int, i: int, j: int)
    requires
        0 <= start <= i < j <= field.len(),
    ensures
        octal_value(field.subrange(start, j)) >= 8 * octal_value(field.subrange(start, i)),
    decreases j - i,
{
    assert(field.subrange(start, j).drop_last() =~= field.subrange(start, j - 1));
    if j - 1 > i {
        lemma_octal_value_grows(field, start, i, j - 1);
    }
}

/// Reads a numeric field.
pub fn parse_octal(field: &[u8]) -> (value: Option<u64>)
    ensures
        value == octal_field(field@),
{
    let n = field.len();
    let mut start: usize = 0;
    while start < n && field[start] == 0x20
        invariant
            start <= n == field@.len(),
            skip_spaces(field@, 0) == skip_spaces(field@, start as int),
        decreases n - start,
    {
        start += 1;
    }
    let mut end: usize = start;
    while end < n && 0x30 <= field[end] && field[end] <= 0x37
        invariant
            start <= end <= n == field@.len(),
            skip_digits(field@, start as int) == skip_digits(field@, end as int),
            forall|k: int| start <= k < end ==> is_octal_digit(#[trigger] field@[k]),
        decreases n - end,
    {
        end += 1;
    }
    if start == end || (end < n && field[end] != 0 && field[end] != 0x20) {
        return None;
    }
    let mut value: u64 = 0;
    let mut i: usize = start;
    while i < end
        invariant
            start <= i <= end <= n == field@.len(),
            value == octal_value(field@.subrange(start as int, i as int)),
            forall|k: int| start <= k < end ==> is_octal_digit(#[trigger] field@[k]),
            start as int == skip_spaces(field@, 0),
            end as int == skip_digits(field@, start as int),
        decreases end - i,
    {
        if value >= 0x2000_0000_0000_0000 {
            proof {
                lemma_octal_value_grows(field@, start as int, i as int, end as int);
            }
            return None;
        }
        assert(field@.subrange(start as int, i + 1).drop_last() =~= field@.subrange(
            start as int,
            i as int,
        ));
        value = value * 8 + (field[i] - 0x30) as u64;
        i += 1;
    }
    Some(value)
}

// ---------------------------------------------------------------------------
// Header blocks
// ---------------------------------------------------------------------------

/// The first offset at or after `from` that holds a NUL.
pub open spec fn nul_offset(field: Seq<u8>, from: int) -> int
    decreases field.len() - from,
{
    if 0 <= from < field.len() && field[from] != 0 {
        nul_offset(field, from + 1)
    } else {
        from
    }
}

/// The text of a field: its bytes up to the first NUL.
pub open spec fn field_text(field: Seq<u8>) -> Seq<u8> {
    field.subrange(0, nul_offset(field, 0))
}

/// The sum of the first `n` bytes of a header block, the checksum field
/// itself counted as spaces.
pub open spec fn header_sum(block: Seq<u8>, n: int) -> nat
    decreases n,
{
    if n <= 0 {
        0
    } else {
        header_sum(block, n - 1) + if 148 <= n - 1 < 156 {
            0x20nat
        } else {
            block[n - 1] as nat
        }
    }
}

pub open spec fn is_zero_block(block: Seq<u8>) -> bool {
    forall|i: int| 0 <= i < block.len() ==> block[i] == 0
}

/// The magic and version of a header whose prefix field extends the name:
/// `ustar`, NUL, `00`.
pub open spec fn ustar_magic() -> Seq<u8> {
    seq![0x75u8, 0x73u8, 0x74u8, 0x61u8, 0x72u8, 0x00u8, 0x30u8, 0x30u8]
}

/// The path that a header names: the name field, after the prefix field and
/// a separator where the header has a prefix.
pub open spec fn header_name(block: Seq<u8>) -> Seq<u8> {
    let name = field_text(block.subrange(0, 100));
    let prefix = field_text(block.subrange(345, 500));
    if occurs_at(block, 257, ustar_magic()) && prefix.len() > 0 {
        prefix + seq![SLASH] + name
    } else {
        name
    }
}

/// The kind of entry that a type flag stands for: `0` or NUL for a file, `5`
/// for a directory.
pub open spec fn kind_of_flag(flag: u8) -> Option<EntryKind> {
    if flag == 0x30 || flag == 0 {
        Some(EntryKind::File)
    } else if flag == 0x35 {
        Some(EntryKind::Directory)
    } else {
        None
    }
}

/// What a header block says of its entry.
pub struct HeaderModel {
    pub name: Seq<u8>,
    pub kind: EntryKind,
    pub size: u64,
}

/// Reads a header block of 512 bytes that is not all zeros.
pub open spec fn header_of(block: Seq<u8>) -> Result<HeaderModel, TarFault> {
    if octal_field(block.subrange(148, 156)) != Some(header_sum(block, 512) as u64) {
        Err(TarFault::BadChecksum)
    } else if kind_of_flag(block[156]) is None {
        Err(TarFault::UnsupportedEntry)
    } else if octal_field(block.subrange(124, 136)) is None {
        Err(TarFault::BadSize)
    } else if header_name(block).len() == 0 {
        Err(TarFault::EmptyName)
    } else {
        Ok(
            HeaderModel {
                name: header_name(block),
                kind: kind_of_flag(block[156])->Some_0,
                size: octal_field(block.subrange(124, 136))->Some_0,
            },
        )
    }
}

proof fn lemma_nul_offset_bounds(field: Seq<u8>, from: int)
    requires
        0 <= from <= field.len(),
    ensures
        from <= nul_offset(field, from) <= field.len(),
    decreases field.len() - from,
{
    if from < field.len() && field[from] != 0 {
        lemma_nul_offset_bounds(field, from + 1);
    }
}

proof fn lemma_header_sum_bound(block: Seq<u8>, n: int)
    requires
        0 <= n,
    ensures
        header_sum(block, n) <= 255 * n,
    decreases n,
{
    if n > 0 {
        lemma_header_sum_bound(block, n - 1);
    }
}

/// The text of the field that `block` holds from `from` up to `to`.
fn read_text(block: &[u8], from: usize, to: usize) -> (text: Vec<u8>)
    requires
        from <= to <= block.len(),
    ensures
        text@ == field_text(block@.subrange(from as int, to as int)),
{
    let ghost field = block@.subrange(from as int, to as int);
    let mut end: usize = from;
    while end < to && block[end] != 0
        invariant
            from <= end <= to <= block.len(),
            field == block@.subrange(from as int, to as int),
            nul_offset(field, 0) == nul_offset(field, end - from),
        decreases to - end,
    {
        end += 1;
    }
    let text = copy_range(block, from, end);
    assert(text@ =~= field.subrange(0, end - from));
    text
}

/// Tells whether every byte of `block` is zero.
fn block_is_zero(block: &[u8]) -> (zero: bool)
    ensures
        zero == is_zero_block(block@),
{
    let mut i: usize = 0;
    while i < block.len()
        invariant
            i <= block.len(),
            forall|k: int| 0 <= k < i ==> block@[k] == 0,
        decreases block.len() - i,
    {
        if block[i] != 0 {
            return false;
        }
        i += 1;
    }
    true
}

/// The sum that the checksum field of `block` must hold.
fn compute_header_sum(block: &[u8]) -> (sum: u64)
    requires
        block.len() == 512,
    ensures
        sum == header_sum(block@, 512),
{
    let mut sum: u64 = 0;
    let mut i: usize = 0;
    while i < 512
        invariant
            i <= 512 == block.len(),
            sum == header_sum(block@, i as int),
            sum <= 255 * i,
        decreases 512 - i,
    {
        if 148 <= i && i < 156 {
            sum += 0x20;
        } else {
            sum += block[i] as u64;
        }
        i += 1;
    }
    sum
}

/// A header as `read_header` returns it.
struct Header {
    name: Vec<u8>,
    kind: EntryKind,
    size: u64,
}

/// Reads a header block.
fn read_header(block: &[u8]) -> (header: Result<Header, TarFault>)
    requires
        block.len() == 512,
    ensures
        match header {
            Ok(h) => header_of(block@) == Ok::<HeaderModel, TarFault>(
                HeaderModel { name: h.name@, kind: h.kind, size: h.size },
            ),
            Err(fault) => header_of(block@) == Err::<HeaderModel, TarFault>(fault),
        },
{
    let sum = compute_header_sum(block);
    match parse_octal(vstd::slice::slice_subrange(block, 148, 156)) {
        Some(stored) if stored == sum => {},
        _ => {
            return Err(TarFault::BadChecksum);
        },
    }
    let flag = block[156];
    let kind = if flag == 0x30 || flag == 0 {
        EntryKind::File
    } else if flag == 0x35 {
        EntryKind::Directory
    } else {
        return Err(TarFault::UnsupportedEntry);
    };
    let size = match parse_octal(vstd::slice::slice_subrange(block, 124, 136)) {
        Some(size) => size,
        None => {
            return Err(TarFault::BadSize);
        },
    };
    let magic: [u8; 8] = [0x75, 0x73, 0x74, 0x61, 0x72, 0x00, 0x30, 0x30];
    assert(magic@ =~= ustar_magic());
    let mut name = read_text(block, 0, 100);
    if matches_at(block, 257, magic.as_slice()) {
        let mut prefix = read_text(block, 345, 500);
        if prefix.len() > 0 {
            let ghost joined = prefix@ + seq![SLASH] + name@;
            prefix.push(SLASH);
            prefix.append(&mut name);
            assert(prefix@ =~= joined);
            name = prefix;
        }
    }
    assert(name@ == header_name(block@));
    if name.len() == 0 {
        return Err(TarFault::EmptyName);
    }
    Ok(Header { name, kind, size })
}

// ---------------------------------------------------------------------------
// Archives
// ---------------------------------------------------------------------------

/// The number of bytes that `size` bytes of data take in an archive: `size`
/// rounded up to whole blocks.
pub open spec fn padded(size: nat) -> nat {
    ((size + 511) / 512) * 512
}

/// The entry that a header and the bytes behind it describe.
pub open spec fn entry_of(header: HeaderModel, bytes: Seq<u8>, data_at: int) -> EntryModel {
    EntryModel {
        name: header.name,
        kind: header.kind,
        data: if header.kind == EntryKind::File {
            bytes.subrange(data_at, data_at + header.size)
        } else {
            Seq::empty()
        },
    }
}

/// The entries that `bytes` holds from offset `at` on.
pub open spec fn entries_from(bytes: Seq<u8>, at: int) -> Result<Seq<EntryModel>, TarFault>
    decreases bytes.len() - at,
{
    if at < 0 || at >= bytes.len() {
        Ok(Seq::empty())
    } else if bytes.len() - at < 512 {
        Err(TarFault::TruncatedHeader)
    } else if is_zero_block(bytes.subrange(at, at + 512)) {
        Ok(Seq::empty())
    } else {
        match header_of(bytes.subrange(at, at + 512)) {
            Err(fault) => Err(fault),
            Ok(header) => {
                let next = at + 512 + padded(header.size as nat);
                if next > bytes.len() {
                    Err(TarFault::TruncatedData)
                } else {
                    match entries_from(bytes, next) {
                        Err(fault) => Err(fault),
                        Ok(rest) => Ok(seq![entry_of(header, bytes, at + 512)] + rest),
                    }
                }
            },
        }
    }
}

/// The entries of the archive `bytes`, in the order in which it holds them,
/// or the first fault met on the way.
pub open spec fn tar_entries(bytes: Seq<u8>) -> Result<Seq<EntryModel>, TarFault> {
    entries_from(bytes, 0)
}

/// Reads an archive.
pub fn parse_tar(bytes: &[u8]) -> (parsed: Result<Vec<ArchiveEntry>, TarFault>)
    ensures
        match parsed {
            Ok(entries) => tar_entries(bytes@) == Ok::<Seq<EntryModel>, TarFault>(
                entries_view(entries@),
            ),
            Err(fault) => tar_entries(bytes@) == Err::<Seq<EntryModel>, TarFault>(fault),
        },
{
    let n = bytes.len();
    let mut entries: Vec<ArchiveEntry> = Vec::new();
    let mut at: usize = 0;
    assert(entries_view(entries@) =~= Seq::empty());
    while at < n
        invariant
            at <= n == bytes@.len(),
            match entries_from(bytes@, at as int) {
                Ok(rest) => tar_entries(bytes@) == Ok::<Seq<EntryModel>, TarFault>(
                    entries_view(entries@) + rest,
                ),
                Err(fault) => tar_entries(bytes@) == Err::<Seq<EntryModel>, TarFault>(fault),
            },
        decreases n - at,
    {
        if n - at < 512 {
            return Err(TarFault::TruncatedHeader);
        }
        let block = vstd::slice::slice_subrange(bytes, at, at + 512);
        if block_is_zero(block) {
            assert(entries_view(entries@) + Seq::<EntryModel>::empty() =~= entries_view(entries@));
            return Ok(entries);
        }
        let header = match read_header(block) {
            Ok(header) => header,
            Err(fault) => {
                return Err(fault);
            },
        };
        let room = n - at - 512;
        if header.size > room as u64 {
            return Err(TarFault::TruncatedData);
        }
        let size = header.size as usize;
        let padded_size = (size + 511) / 512 * 512;
        if padded_size > room {
            return Err(TarFault::TruncatedData);
        }
        let data = match header.kind {
            EntryKind::File => copy_range(bytes, at + 512, at + 512 + size),
            EntryKind::Directory => Vec::new(),
        };
        let ghost before = entries_view(entries@);
        let entry = ArchiveEntry { name: header.name, kind: header.kind, data };
        entries.push(entry);
        proof {
            let model = HeaderModel { name: entry.name@, kind: entry.kind, size: header.size };
            assert(entry@ == entry_of(model, bytes@, at + 512));
            assert(entries_view(entries@) =~= before + seq![entry@]);
            match entries_from(bytes@, at + 512 + padded_size) {
                Ok(rest) => {
                    assert(before + (seq![entry@] + rest) =~= entries_view(entries@) + rest);
                },
                Err(_) => {},
            }
        }
        at = at + 512 + padded_size;
    }
    assert(entries_view(entries@) + Seq::<EntryModel>::empty() =~= entries_view(entries@));
    Ok(entries)
}

} // verus!
