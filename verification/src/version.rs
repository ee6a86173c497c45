//! Dotted version numbers: cutting a version text into components and
//! comparing it with a threshold.

use vstd::prelude::*;
use crate::number::{bounded_number, chars_of, is_digit, parse_decimal_range};
use crate::text::concat;

verus! {

/// Which characters a scan runs over.
#[derive(Clone, Copy, Debug, PartialEq, Eq, Structural)]
pub enum Scan {
    /// Everything up to the given character.
    Until(char),
    /// Digits and dots.
    Version,
}

/// Why a version text could not be compared.
#[derive(Clone, Copy, Debug, PartialEq, Eq, Structural)]
pub enum VersionError {
    /// The text holds no `v` in front of the numbers.
    MissingMarker,
    /// The text holds fewer than two or more than three components.
    ComponentCount,
    /// A component that had to be compared is not a 32-bit number.
    BadComponent,
}

/// Whether a scan runs over `c`.
pub open spec fn keeps(scan: Scan, c: char) -> bool {
    match scan {
        Scan::Until(stop) => c != stop,
        Scan::Version => is_digit(c) || c == '.',
    }
}

/// Where the run of characters that starts at `from` ends: the first
/// position from there, below `to`, that the scan does not run over, or `to`.
pub open spec fn run_end(s: Seq<char>, from: int, to: int, scan: Scan) -> int
    decreases to - from,
{
    if 0 <= from < to <= s.len() && keeps(scan, s[from]) {
        run_end(s, from + 1, to, scan)
    } else {
        from
    }
}

/// The pieces of `s[from..to]` between occurrences of `sep`; there is always
/// at least one.
pub open spec fn pieces_between(s: Seq<char>, from: int, to: int, sep: char) -> Seq<Seq<char>>
    decreases to - from,
{
    let end = run_end(s, from, to, Scan::Until(sep));
    if from <= end < to {
        seq![s.subrange(from, end)] + pieces_between(s, end + 1, to, sep)
    } else {
        seq![s.subrange(from, to)]
    }
}

/// The pieces of `s` between occurrences of `sep`.
pub open spec fn pieces(s: Seq<char>, sep: char) -> Seq<Seq<char>> {
    pieces_between(s, 0, s.len() as int, sep)
}

/// The 32-bit number that a component denotes.
pub open spec fn component(s: Seq<char>) -> Option<nat> {
    bounded_number(s, u32::MAX as nat)
}

/// Compares components pairwise from position `i` on: the first pair that
/// differs decides; where all shared pairs agree, the version must have at
/// least as many components as the threshold.
pub open spec fn compare_components(mine: Seq<Seq<char>>, min: Seq<Seq<char>>, i: int) -> Result<
    bool,
    VersionError,
>
    decreases mine.len() - i,
{
    if i < 0 || i >= mine.len() || i >= min.len() {
        Ok(mine.len() >= min.len())
    } else {
        match (component(mine[i]), component(min[i])) {
            (Some(a), Some(b)) => if a != b {
                Ok(a > b)
            } else {
                compare_components(mine, min, i + 1)
            },
            _ => Err(VersionError::BadComponent),
        }
    }
}

/// Whether a version text begins with the marker `v`.
pub open spec fn has_marker(my_version: Seq<char>) -> bool {
    my_version.len() > 0 && my_version[0] == 'v'
}

/// The components of a version text: what follows the marker at its
/// front, as far as digits and dots reach, cut at the dots.
pub open spec fn version_components(my_version: Seq<char>) -> Seq<Seq<char>> {
    let n = my_version.len() as int;
    pieces_between(my_version, 1, run_end(my_version, 1, n, Scan::Version), '.')
}

/// Whether `my_version` is at or above `min_version`. A text that does
/// not begin with the marker is refused.
pub open spec fn version_verdict(my_version: Seq<char>, min_version: Seq<char>) -> Result<
    bool,
    VersionError,
> {
    if !has_marker(my_version) {
        Err(VersionError::MissingMarker)
    } else {
        let mine = version_components(my_version);
        if mine.len() <= 1 || mine.len() > 3 {
            Err(VersionError::ComponentCount)
        } else {
            compare_components(mine, pieces(min_version, '.'), 0)
        }
    }
}

/// The texts that a list of ranges cuts out of `text`.
pub open spec fn cut(text: Seq<char>, ranges: Seq<(usize, usize)>) -> Seq<Seq<char>> {
    Seq::new(ranges.len(), |i: int| text.subrange(ranges[i].0 as int, ranges[i].1 as int))
}

/// Every range lies inside `text`.
pub open spec fn ranges_inside(text: Seq<char>, ranges: Seq<(usize, usize)>) -> bool {
    forall|i: int| 0 <= i < ranges.len() ==> (#[trigger] ranges[i]).0 <= ranges[i].1 <= text.len()
}

/// Where the run that starts at `from` ends.
pub fn scan_run(text: &Vec<char>, from: usize, to: usize, scan: Scan) -> (end: usize)
    requires
        from <= to <= text@.len(),
    ensures
        from <= end <= to,
        end == run_end(text@, from as int, to as int, scan),
{
    let mut i: usize = from;
    while i < to
        invariant
            from <= i <= to <= text@.len(),
            run_end(text@, from as int, to as int, scan) == run_end(
                text@,
                i as int,
                to as int,
                scan,
            ),
        decreases to - i,
    {
        let c: char = text[i];
        let code: u32 = c as u32;
        let keep: bool = match scan {
            Scan::Until(stop) => c != stop,
            Scan::Version => (48 <= code && code <= 57) || c == '.',
        };
        if !keep {
            return i;
        }
        i = i + 1;
    }
    i
}

/// Cuts `text[from..to]` at every `sep`.
pub fn split_ranges(text: &Vec<char>, from: usize, to: usize, sep: char) -> (r: Vec<(usize, usize)>)
    requires
        from <= to <= text@.len(),
    ensures
        ranges_inside(text@, r@),
        cut(text@, r@) == pieces_between(text@, from as int, to as int, sep),
{
    let mut out: Vec<(usize, usize)> = Vec::new();
    let mut p: usize = from;
    loop
        invariant
            from <= p <= to <= text@.len(),
            ranges_inside(text@, out@),
            pieces_between(text@, from as int, to as int, sep) =~= cut(text@, out@)
                + pieces_between(text@, p as int, to as int, sep),
        decreases to - p,
    {
        let end: usize = scan_run(text, p, to, Scan::Until(sep));
        let ghost before = out@;
        if end >= to {
            out.push((p, to));
            proof {
                assert(cut(text@, out@) =~= cut(text@, before) + seq![
                    text@.subrange(p as int, to as int),
                ]);
            }
            return out;
        }
        out.push((p, end));
        proof {
            assert(cut(text@, out@) =~= cut(text@, before) + seq![
                text@.subrange(p as int, end as int),
            ]);
        }
        p = end + 1;
    }
}

/// Compares the components that two lists of ranges cut out, from position `i` on.
fn compare_from(
    my_text: &Vec<char>,
    mine: &Vec<(usize, usize)>,
    min_text: &Vec<char>,
    min: &Vec<(usize, usize)>,
    i: usize,
) -> (r: Result<bool, VersionError>)
    requires
        ranges_inside(my_text@, mine@),
        ranges_inside(min_text@, min@),
    ensures
        r == compare_components(cut(my_text@, mine@), cut(min_text@, min@), i as int),
    decreases mine@.len() - i,
{
    if i >= mine.len() || i >= min.len() {
        return Ok(mine.len() >= min.len());
    }
    let a = parse_decimal_range(my_text, mine[i].0, mine[i].1, 0xffff_ffff);
    let b = parse_decimal_range(min_text, min[i].0, min[i].1, 0xffff_ffff);
    match (a, b) {
        (Some(x), Some(y)) => {
            if x != y {
                Ok(x > y)
            } else {
                compare_from(my_text, mine, min_text, min, i + 1)
            }
        },
        _ => Err(VersionError::BadComponent),
    }
}

/// Tells whether the version `my_version` is at or above `min_version`.
///
/// `my_version` begins with a `v`, then holds two or three numbers with
/// dots between them, then anything; `min_version` holds numbers with dots
/// between them.
pub fn at_or_above_version(my_version: &str, min_version: &str) -> (r: Result<bool, VersionError>)
    ensures
        r == version_verdict(my_version@, min_version@),
{
    let my_text: Vec<char> = chars_of(my_version);
    let min_text: Vec<char> = chars_of(min_version);
    let n: usize = my_text.len();
    if n == 0 || my_text[0] != 'v' {
        return Err(VersionError::MissingMarker);
    }
    let end: usize = scan_run(&my_text, 1, n, Scan::Version);
    let mine: Vec<(usize, usize)> = split_ranges(&my_text, 1, end, '.');
    let min: Vec<(usize, usize)> = split_ranges(&min_text, 0, min_text.len(), '.');
    if mine.len() <= 1 || mine.len() > 3 {
        return Err(VersionError::ComponentCount);
    }
    compare_from(&my_text, &mine, &min_text, &min, 0)
}

/// A version text that does not begin with the marker `v` is refused,
/// whatever follows and whatever the threshold.
pub proof fn lemma_marker_is_required(my_version: Seq<char>, min_version: Seq<char>)
    requires
        my_version.len() == 0 || my_version[0] != 'v',
    ensures
        version_verdict(my_version, min_version) == Err::<bool, VersionError>(
            VersionError::MissingMarker,
        ),
{
}

/// The first pair of components that differs decides: where the
/// components before position `k` agree and those at `k` are numbers that
/// differ, the version is at or above the threshold exactly where its
/// number is the larger.
pub proof fn lemma_first_difference_decides(
    mine: Seq<Seq<char>>,
    min: Seq<Seq<char>>,
    i: int,
    k: int,
)
    requires
        0 <= i <= k < mine.len(),
        k < min.len(),
        forall|j: int|
            i <= j < k ==> component(#[trigger] mine[j]) is Some && component(mine[j])
                == component(#[trigger] min[j]),
        component(mine[k]) is Some,
        component(min[k]) is Some,
        component(mine[k]) != component(min[k]),
    ensures
        compare_components(mine, min, i) == Ok::<bool, VersionError>(
            component(mine[k])->0 > component(min[k])->0,
        ),
    decreases k - i,
{
    if i < k {
        assert(component(mine[i]) is Some && component(mine[i]) == component(min[i]));
        lemma_first_difference_decides(mine, min, i + 1, k);
    }
}

/// Where all shared components agree, a version is at or above the
/// threshold exactly where it has at least as many components.
pub proof fn lemma_equal_components_compare_by_count(
    mine: Seq<Seq<char>>,
    min: Seq<Seq<char>>,
    i: int,
)
    requires
        0 <= i,
        forall|k: int|
            i <= k < mine.len() && k < min.len() ==> component(#[trigger] mine[k]) is Some
                && component(mine[k]) == component(#[trigger] min[k]),
    ensures
        compare_components(mine, min, i) == Ok::<bool, VersionError>(mine.len() >= min.len()),
    decreases mine.len() - i,
{
    if i < mine.len() && i < min.len() {
        assert(component(mine[i]) is Some && component(mine[i]) == component(min[i]));
        lemma_equal_components_compare_by_count(mine, min, i + 1);
    }
}

/// The message that goes with a version error.
pub fn version_error_message(error: VersionError, my_version: &str) -> (r: String)
    ensures
        r@ == match error {
            VersionError::MissingMarker => "Could not find v in version string"@,
            VersionError::ComponentCount => "Version string parse error: "@ + my_version@,
            VersionError::BadComponent => "Version component is not a number: "@ + my_version@,
        },
{
    match error {
        VersionError::MissingMarker => "Could not find v in version string".to_owned(),
        VersionError::ComponentCount => concat("Version string parse error: ", my_version),
        VersionError::BadComponent => concat("Version component is not a number: ", my_version),
    }
}

} // verus!
