//! The record kept with every package: how many cases it holds and how long a
//! candidate may take on each. It is stored as two lines of text, the case
//! count first and the time limit in milliseconds second.

use crate::decimal::lemma_numeral_of;
use crate::decimal::lemma_signed_round_trip;
use crate::decimal::lemma_unsigned_round_trip;
use crate::decimal::numeral_of;
use crate::decimal::parse_i32;
use crate::decimal::parse_u64;
use crate::decimal::render_signed;
use crate::decimal::render_unsigned;
use crate::decimal::signed_numeral_of;
use crate::decimal::signed_reading;
use crate::decimal::unsigned_reading;
use vstd::prelude::*;
use vstd::string::StrSliceExecFns;
use vstd::string::StringExecFns;

verus! {

/// What a package records about itself.
#[derive(Clone, Copy, Debug, PartialEq, Eq, Structural)]
pub struct PackageMetadata {
    /// Number of cases in the package. Cases are numbered from one, so a count
    /// below one means a package without cases.
    pub case_count: i32,
    /// Time a candidate may take on one case, in milliseconds.
    pub time_limit_ms: u64,
}

/// Why a package's record could not be had.
#[derive(Clone, Copy, Debug, PartialEq, Eq, Structural)]
pub enum MetadataError {
    /// The package has no record.
    NotFound,
    /// The first line is not a 32-bit integer.
    BadCaseCount,
    /// The record ends with its first line.
    MissingTimeLimit,
    /// The second line is not an unsigned 64-bit integer.
    BadTimeLimit,
}

/// Where the line that starts at `from` ends: the position of the next line
/// feed, or the end of the text.
pub open spec fn line_end(s: Seq<char>, from: int) -> int
    decreases s.len() - from,
{
    if from >= s.len() || s[from] == '\n' {
        from
    } else {
        line_end(s, from + 1)
    }
}

/// The text of a record: the case count, a line feed, the time limit.
pub open spec fn metadata_text(m: PackageMetadata) -> Seq<char> {
    signed_numeral_of(m.case_count as int) + seq!['\n'] + numeral_of(m.time_limit_ms as nat)
}

/// What a stored text reads as. The first line must be a 32-bit integer and the
/// second an unsigned 64-bit integer; further lines are not looked at. The
/// first line is judged first.
pub open spec fn metadata_reading(s: Seq<char>) -> Result<PackageMetadata, MetadataError> {
    let first_end = line_end(s, 0);
    match signed_reading(s.subrange(0, first_end), i32::MIN as int, i32::MAX as int) {
        None => Err(MetadataError::BadCaseCount),
        Some(count) => if first_end >= s.len() {
            Err(MetadataError::MissingTimeLimit)
        } else {
            let second_end = line_end(s, first_end + 1);
            match unsigned_reading(s.subrange(first_end + 1, second_end), u64::MAX as nat) {
                None => Err(MetadataError::BadTimeLimit),
                Some(limit) => Ok(
                    PackageMetadata { case_count: count as i32, time_limit_ms: limit as u64 },
                ),
            }
        },
    }
}

/// What a package's record reads as, given the stored text if there is one.
pub open spec fn stored_metadata_reading(stored: Option<Seq<char>>) -> Result<
    PackageMetadata,
    MetadataError,
> {
    match stored {
        None => Err(MetadataError::NotFound),
        Some(s) => metadata_reading(s),
    }
}

/// A line that starts at `from` ends at `end` if no line feed stands between
/// the two and `end` is a line feed or the end of the text.
pub proof fn lemma_line_end(s: Seq<char>, from: int, end: int)
    requires
        0 <= from <= end <= s.len(),
        forall|i: int| from <= i < end ==> #[trigger] s[i] != '\n',
        end == s.len() || s[end] == '\n',
    ensures
        line_end(s, from) == end,
    decreases end - from,
{
    if from < end {
        lemma_line_end(s, from + 1, end);
    }
}

/// A numeral holds no line feed, with or without a sign.
proof fn lemma_numerals_hold_no_line_feed(i: int, n: nat)
    ensures
        forall|k: int| 0 <= k < signed_numeral_of(i).len() ==> #[trigger] signed_numeral_of(i)[k] != '\n',
        forall|k: int| 0 <= k < numeral_of(n).len() ==> #[trigger] numeral_of(n)[k] != '\n',
{
    lemma_numeral_of(n);
    if i < 0 {
        lemma_numeral_of((-i) as nat);
        let digits = numeral_of((-i) as nat);
        let s = signed_numeral_of(i);
        assert forall|k: int| 0 <= k < s.len() implies #[trigger] s[k] != '\n' by {
            if k > 0 {
                assert(s[k] == digits[k - 1]);
            }
        }
    } else {
        lemma_numeral_of(i as nat);
    }
}

/// A record that was written reads back as itself: the same case count and the
/// same time limit.
pub proof fn lemma_metadata_round_trip(m: PackageMetadata)
    ensures
        metadata_reading(metadata_text(m)) == Ok::<PackageMetadata, MetadataError>(m),
        stored_metadata_reading(Some(metadata_text(m))) == Ok::<PackageMetadata, MetadataError>(m),
{
    let first = signed_numeral_of(m.case_count as int);
    let second = numeral_of(m.time_limit_ms as nat);
    let s = metadata_text(m);
    lemma_numerals_hold_no_line_feed(m.case_count as int, m.time_limit_ms as nat);
    assert forall|i: int| 0 <= i < first.len() implies #[trigger] s[i] != '\n' by {
        assert(s[i] == first[i]);
    }
    assert(s[first.len() as int] == '\n');
    lemma_line_end(s, 0, first.len() as int);
    assert forall|i: int| first.len() + 1 <= i < s.len() implies #[trigger] s[i] != '\n' by {
        assert(s[i] == second[i - first.len() - 1]);
    }
    lemma_line_end(s, first.len() as int + 1, s.len() as int);
    assert(s.subrange(0, first.len() as int) =~= first);
    assert(s.subrange(first.len() as int + 1, s.len() as int) =~= second);
    lemma_signed_round_trip(m.case_count as int, i32::MIN as int, i32::MAX as int);
    lemma_unsigned_round_trip(m.time_limit_ms as nat, u64::MAX as nat);
}

/// Writes a record as text.
pub fn render_metadata(m: PackageMetadata) -> (r: String)
    ensures
        r@ == metadata_text(m),
        metadata_reading(r@) == Ok::<PackageMetadata, MetadataError>(m),
{
    let mut text = render_signed(m.case_count);
    text.append("\n");
    let limit = render_unsigned(m.time_limit_ms as u128);
    text.append(limit.as_str());
    proof {
        reveal_strlit("\n");
        assert(text@ =~= metadata_text(m));
        lemma_metadata_round_trip(m);
    }
    text
}

/// Finds the end of the line of `text` that starts at `from`.
fn find_line_end(text: &str, from: usize, len: usize) -> (r: usize)
    requires
        len == text@.len(),
        from <= len,
    ensures
        r == line_end(text@, from as int),
        from <= r <= len,
{
    let mut seen: usize = 0;
    let mut end: usize = len;
    let mut found = false;
    for c in it: text.chars()
        invariant
            it.seq() == text@,
            len == text@.len(),
            from <= len,
            seen == it.index(),
            found ==> from <= end < seen && end == line_end(text@, from as int),
            !found ==> end == len && forall|i: int|
                from <= i < seen ==> #[trigger] text@[i] != '\n',
    {
        if !found && seen >= from && c == '\n' {
            proof {
                lemma_line_end(text@, from as int, seen as int);
            }
            end = seen;
            found = true;
        }
        seen = seen + 1;
    }
    proof {
        if !found {
            lemma_line_end(text@, from as int, len as int);
        }
    }
    end
}

/// Reads a record from its text.
pub fn parse_metadata(text: &str) -> (r: Result<PackageMetadata, MetadataError>)
    ensures
        r == metadata_reading(text@),
{
    let len: usize = text.unicode_len();
    let first_end: usize = find_line_end(text, 0, len);
    let count: i32 = match parse_i32(text.substring_char(0, first_end)) {
        Some(count) => count,
        None => {
            return Err(MetadataError::BadCaseCount);
        },
    };
    if first_end >= len {
        return Err(MetadataError::MissingTimeLimit);
    }
    let second_end: usize = find_line_end(text, first_end + 1, len);
    match parse_u64(text.substring_char(first_end + 1, second_end)) {
        Some(limit) => Ok(PackageMetadata { case_count: count, time_limit_ms: limit }),
        None => Err(MetadataError::BadTimeLimit),
    }
}

/// Reads a package's record from what the store holds for it: the record's
/// text, or nothing where the package has none.
pub fn read_metadata(stored: Option<&str>) -> (r: Result<PackageMetadata, MetadataError>)
    ensures
        r == stored_metadata_reading(
            match stored {
                Some(text) => Some(text@),
                None => None,
            },
        ),
{
    match stored {
        Some(text) => parse_metadata(text),
        None => Err(MetadataError::NotFound),
    }
}

} // verus!
