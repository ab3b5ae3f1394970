//! What a look into a task's working directory tells: which files count, how
//! many they are and how much they weigh.

use crate::mediatype::MediaType;
use crate::text::{decimal, digit, digit_char, ends_with, has_suffix, push_decimal};
use vstd::prelude::*;
use vstd::string::StringExecFns;

verus! {

/// A file may be delivered only if it is smaller than this many bytes.
pub const SIZE_CEILING: u64 = 2_000_000_000;

/// One regular file found in a working directory.
#[derive(Debug, Clone)]
pub struct FileEntry {
    /// The file's path.
    pub path: String,
    /// The file's size in bytes.
    pub size: u64,
}

impl FileEntry {
    /// Whether the file's name passes the extension filter of `media_type`.
    pub open spec fn matches(&self, media_type: MediaType) -> bool {
        has_suffix(self.path@, media_type.extension())
    }

    /// A matching file that is too large to be delivered.
    pub open spec fn is_oversized(&self, media_type: MediaType) -> bool {
        self.matches(media_type) && self.size >= SIZE_CEILING
    }

    /// A qualifying file: it matches the filter and is under the ceiling.
    pub open spec fn qualifies(&self, media_type: MediaType) -> bool {
        self.matches(media_type) && self.size < SIZE_CEILING
    }

    /// Whether the file's name passes the extension filter of `media_type`.
    pub fn has_extension_of(&self, media_type: MediaType) -> (matches: bool)
        ensures
            matches == self.matches(media_type),
    {
        ends_with(self.path.as_str(), media_type.as_str())
    }

    /// Whether the file counts as output for `media_type`.
    pub fn is_qualifying(&self, media_type: MediaType) -> (qualifies: bool)
        ensures
            qualifies == self.qualifies(media_type),
    {
        self.size < SIZE_CEILING && self.has_extension_of(media_type)
    }
}

/// The number of qualifying files among `entries`.
pub open spec fn qualifying_count(entries: Seq<FileEntry>, media_type: MediaType) -> nat
    decreases entries.len(),
{
    if entries.len() == 0 {
        0
    } else {
        qualifying_count(entries.drop_last(), media_type) + if entries.last().qualifies(
            media_type,
        ) {
            1nat
        } else {
            0nat
        }
    }
}

/// The bytes that the qualifying files among `entries` hold together.
pub open spec fn qualifying_bytes(entries: Seq<FileEntry>, media_type: MediaType) -> nat
    decreases entries.len(),
{
    if entries.len() == 0 {
        0
    } else {
        qualifying_bytes(entries.drop_last(), media_type) + if entries.last().qualifies(
            media_type,
        ) {
            entries.last().size as nat
        } else {
            0nat
        }
    }
}

/// Count and weight of the qualifying files of a working directory.
#[derive(Debug, Clone, Copy, PartialEq, Eq, Structural)]
pub struct FolderData {
    pub size_in_bytes: usize,
    pub file_count: usize,
}

/// The largest size that is counted byte by byte. Larger sizes are kept to
/// their 53 leading binary digits, as double-precision numbers are.
pub const EXACT_LIMIT: u128 = 0x20_0000_0000_0000;

/// The steps in which sizes of the magnitude of `n` are kept: 1 below
/// `EXACT_LIMIT`, and twice as much for every doubling from there.
pub open spec fn spacing(n: nat) -> nat
    decreases n,
{
    if n < EXACT_LIMIT {
        1
    } else {
        2 * spacing(n / 2)
    }
}

/// `n` rounded to the nearest multiple of its spacing; a value exactly
/// halfway between two goes to the even multiple.
pub open spec fn rounded_to_spacing(n: nat) -> nat {
    let unit = spacing(n);
    let whole = n / unit;
    let rest = n % unit;
    if 2 * rest > unit || (2 * rest == unit && whole % 2 == 1) {
        (whole + 1) * unit
    } else {
        whole * unit
    }
}

/// `bytes` in hundredths of a mebibyte, rounded to the nearest; a value
/// exactly halfway between two goes to the even one. Sizes from
/// `EXACT_LIMIT` on are rounded to their spacing first.
pub open spec fn hundredths_of_mebibyte(bytes: nat) -> nat {
    let scaled = rounded_to_spacing(bytes) * 100;
    let whole = scaled / 1048576;
    let rest = scaled % 1048576;
    if rest > 524288 || (rest == 524288 && whole % 2 == 1) {
        whole + 1
    } else {
        whole
    }
}

/// The spacing of `n`. It never exceeds `n`, but for the spacing 1.
fn spacing_of(n: u128) -> (unit: u128)
    ensures
        unit == spacing(n as nat),
        1 <= unit,
        unit <= n || unit == 1,
    decreases n,
{
    if n < EXACT_LIMIT {
        1
    } else {
        2 * spacing_of(n / 2)
    }
}

/// `n` rounded to its spacing.
fn round_to_spacing(n: u64) -> (rounded: u128)
    ensures
        rounded == rounded_to_spacing(n as nat),
        rounded <= 2 * n,
{
    let unit = spacing_of(n as u128);
    let whole = n as u128 / unit;
    let rest = n as u128 % unit;
    proof {
        vstd::arithmetic::div_mod::lemma_fundamental_div_mod(n as int, unit as int);
        assert(unit * whole + unit == (whole + 1) * unit) by (nonlinear_arith);
        assert(unit * whole == whole * unit) by (nonlinear_arith);
        if unit == 1 {
            assert(rest == 0);
        }
    }
    if 2 * rest > unit || (2 * rest == unit && whole % 2 == 1) {
        (whole + 1) * unit
    } else {
        whole * unit
    }
}

/// `bytes` as mebibytes with two decimals and the unit, such as `1.50 MB`.
pub open spec fn megabytes_text(bytes: nat) -> Seq<char> {
    let hundredths = hundredths_of_mebibyte(bytes);
    decimal(hundredths / 100) + seq![
        '.',
        digit_char(((hundredths % 100) / 10) as int),
        digit_char((hundredths % 10) as int),
    ] + " MB"@
}

impl FolderData {
    /// Sums up the files of a working directory for a task of `media_type`:
    /// how many of them qualify, and the bytes they hold together. A sum
    /// beyond what the machine's word holds is given as the largest value.
    pub fn from(entries: &Vec<FileEntry>, media_type: MediaType) -> (data: FolderData)
        ensures
            data.file_count == qualifying_count(entries@, media_type),
            data.size_in_bytes == if qualifying_bytes(entries@, media_type) <= usize::MAX {
                qualifying_bytes(entries@, media_type)
            } else {
                usize::MAX as nat
            },
    {
        let mut file_count: usize = 0;
        let mut total: u128 = 0;
        let mut i: usize = 0;
        assert(entries@.take(0) =~= Seq::<FileEntry>::empty());
        while i < entries.len()
            invariant
                i <= entries.len(),
                file_count == qualifying_count(entries@.take(i as int), media_type),
                file_count <= i,
                total == qualifying_bytes(entries@.take(i as int), media_type),
                total <= i * u64::MAX,
            decreases entries.len() - i,
        {
            assert(entries@.take(i as int + 1).drop_last() =~= entries@.take(i as int));
            assert(entries@.take(i as int + 1).last() == entries@[i as int]);
            assert(i * u64::MAX + u64::MAX == (i + 1) * u64::MAX) by (nonlinear_arith);
            assert((i + 1) * u64::MAX <= usize::MAX * u64::MAX) by (nonlinear_arith)
                requires
                    i + 1 <= usize::MAX,
            ;
            if entries[i].is_qualifying(media_type) {
                file_count += 1;
                total += entries[i].size as u128;
            }
            i += 1;
        }
        assert(entries@.take(entries.len() as int) =~= entries@);
        let size_in_bytes: usize = if total <= usize::MAX as u128 {
            total as usize
        } else {
            usize::MAX
        };
        FolderData { size_in_bytes, file_count }
    }

    /// The weight in mebibytes, rounded to two decimals.
    pub fn format_bytes_to_megabytes(&self) -> (text: String)
        ensures
            text@ == megabytes_text(self.size_in_bytes as nat),
    {
        let scaled: u128 = round_to_spacing(self.size_in_bytes as u64) * 100;
        let whole: u128 = scaled / 1048576;
        let rest: u128 = scaled % 1048576;
        let hundredths: u128 = if rest > 524288 || (rest == 524288 && whole % 2 == 1) {
            whole + 1
        } else {
            whole
        };
        let mut text = String::new();
        push_decimal(&mut text, hundredths / 100);
        text.push('.');
        text.push(digit(((hundredths % 100) / 10) as u8));
        text.push(digit((hundredths % 10) as u8));
        let text = text.concat(" MB");
        assert(text@ =~= megabytes_text(self.size_in_bytes as nat));
        text
    }
}

/// What a probe of a video file found. A value that could not be read is 0.
#[derive(Debug, Clone, Copy, PartialEq, Eq, Structural)]
pub struct Metadata {
    pub width: u32,
    pub height: u32,
    pub duration: u32,
}

impl Metadata {
    /// Puts together what a probe reported. A dimension that the report
    /// lacks is 0, and one wider than 32 bits keeps its low 32 bits; a
    /// duration that the report lacks is 0.
    pub fn from_probe(width: Option<u64>, height: Option<u64>, duration: Option<u32>) -> (found:
        Metadata)
        ensures
            found.width == match width {
                Some(w) => (w % 0x1_0000_0000) as u32,
                None => 0u32,
            },
            found.height == match height {
                Some(h) => (h % 0x1_0000_0000) as u32,
                None => 0u32,
            },
            found.duration == match duration {
                Some(d) => d,
                None => 0u32,
            },
    {
        Metadata {
            width: match width {
                Some(w) => (w % 0x1_0000_0000) as u32,
                None => 0,
            },
            height: match height {
                Some(h) => (h % 0x1_0000_0000) as u32,
                None => 0,
            },
            duration: match duration {
                Some(d) => d,
                None => 0,
            },
        }
    }
}

impl Default for Metadata {
    /// What is assumed of a video that could not be probed: all zero.
    fn default() -> (found: Metadata)
        ensures
            found == (Metadata { width: 0, height: 0, duration: 0 }),
    {
        Metadata { width: 0, height: 0, duration: 0 }
    }
}

} // verus!
