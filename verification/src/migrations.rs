//! The pure half of the schema migration runner: reading a migration
//! file's version out of its path, and choosing which versions still have
//! to be applied. Listing the directory, reading the files and running
//! their statements happen outside the library.

use vstd::prelude::*;
use vstd::string::StringSliceAdditionalSpecFns;

verus! {

/// The position of the last `b` in `s`, if any.
pub open spec fn spec_last_pos(s: Seq<u8>, b: u8) -> Option<int>
    decreases s.len(),
{
    if s.len() == 0 {
        None
    } else if s[s.len() - 1] == b {
        Some(s.len() - 1)
    } else {
        spec_last_pos(s.drop_last(), b)
    }
}

/// The bytes after the last path separator.
pub open spec fn spec_file_name(s: Seq<u8>) -> Seq<u8> {
    match spec_last_pos(s, 47) {
        Some(i) => s.subrange(i + 1, s.len() as int),
        None => s,
    }
}

/// The file name with its extension stripped: everything before the last
/// dot, unless the dot leads the name.
pub open spec fn spec_file_stem(name: Seq<u8>) -> Seq<u8> {
    match spec_last_pos(name, 46) {
        Some(i) => if i > 0 {
            name.subrange(0, i)
        } else {
            name
        },
        None => name,
    }
}

/// The position of the first `__` separator, if any.
pub open spec fn spec_first_sep(s: Seq<u8>) -> Option<int>
    decreases s.len(),
{
    if s.len() < 2 {
        None
    } else if s[0] == 95 && s[1] == 95 {
        Some(0)
    } else {
        match spec_first_sep(s.drop_first()) {
            Some(i) => Some(i + 1),
            None => None,
        }
    }
}

/// The bytes before the first `__` separator; the whole stem when there
/// is none.
pub open spec fn spec_version_part(stem: Seq<u8>) -> Seq<u8> {
    match spec_first_sep(stem) {
        Some(i) => stem.subrange(0, i),
        None => stem,
    }
}

/// A non-empty run of decimal digits.
pub open spec fn spec_is_digits(s: Seq<u8>) -> bool {
    s.len() > 0 && forall|i: int| 0 <= i < s.len() ==> 48 <= #[trigger] s[i] <= 57
}

/// The decimal value of a digit run.
pub open spec fn spec_digits_value(s: Seq<u8>) -> int
    decreases s.len(),
{
    if s.len() == 0 {
        0
    } else {
        spec_digits_value(s.drop_last()) * 10 + (s.last() - 48)
    }
}

/// The number an unsigned decimal literal parses to: an optional leading
/// plus sign, then digits, within the 32-bit range.
pub open spec fn spec_parse_u32(s: Seq<u8>) -> Option<u32> {
    let digits = if s.len() > 0 && s[0] == 43 {
        s.drop_first()
    } else {
        s
    };
    if spec_is_digits(digits) && spec_digits_value(digits) <= u32::MAX {
        Some(spec_digits_value(digits) as u32)
    } else {
        None
    }
}

/// The migration version a path carries: the decimal prefix of its file
/// stem, before the `__` separator.
pub open spec fn spec_calculate_version(path: Seq<u8>) -> Option<u32> {
    spec_parse_u32(spec_version_part(spec_file_stem(spec_file_name(path))))
}

/// A digit run's value is never negative.
proof fn lemma_digits_value_nonneg(s: Seq<u8>)
    requires
        forall|i: int| 0 <= i < s.len() ==> 48 <= #[trigger] s[i] <= 57,
    ensures
        spec_digits_value(s) >= 0,
    decreases s.len(),
{
    if s.len() > 0 {
        lemma_digits_value_nonneg(s.drop_last());
    }
}

/// Extending a digit run never shrinks its value.
proof fn lemma_digits_value_monotonic(s: Seq<u8>, i: int)
    requires
        forall|j: int| 0 <= j < s.len() ==> 48 <= #[trigger] s[j] <= 57,
        0 <= i <= s.len(),
    ensures
        spec_digits_value(s) >= spec_digits_value(s.subrange(0, i)),
    decreases s.len() - i,
{
    if i == s.len() {
        assert(s.subrange(0, i) =~= s);
    } else {
        lemma_digits_value_monotonic(s, i + 1);
        assert(s.subrange(0, i + 1).drop_last() =~= s.subrange(0, i));
        assert(forall|j: int| 0 <= j < i ==> 48 <= #[trigger] s.subrange(0, i)[j] <= 57);
        lemma_digits_value_nonneg(s.subrange(0, i));
    }
}

/// Finds the last `b` in `s`.
fn last_pos(s: &[u8], b: u8) -> (pos: Option<usize>)
    ensures
        spec_last_pos(s@, b) == match pos {
            Some(i) => Some(i as int),
            None => None::<int>,
        },
        pos matches Some(i) ==> i < s@.len(),
{
    let mut i: usize = s.len();
    proof {
        assert(s@.subrange(0, s@.len() as int) =~= s@);
    }
    while i > 0
        invariant
            i <= s@.len(),
            spec_last_pos(s@, b) == spec_last_pos(s@.subrange(0, i as int), b),
        decreases i,
    {
        proof {
            assert(s@.subrange(0, i as int).drop_last() =~= s@.subrange(0, i - 1));
        }
        if s[i - 1] == b {
            return Some(i - 1);
        }
        i -= 1;
    }
    proof {
        assert(s@.subrange(0, 0).len() == 0);
    }
    None
}

/// Shifts a found position rightwards by `d`.
spec fn spec_shifted(pos: Option<int>, d: int) -> Option<int> {
    match pos {
        Some(i) => Some(i + d),
        None => None,
    }
}

/// Finds the first `__` separator in `s`.
fn first_sep(s: &[u8]) -> (pos: Option<usize>)
    ensures
        spec_first_sep(s@) == match pos {
            Some(i) => Some(i as int),
            None => None::<int>,
        },
        pos matches Some(i) ==> i < s@.len(),
{
    if s.len() < 2 {
        return None;
    }
    let mut i: usize = 0;
    proof {
        assert(s@.skip(0) =~= s@);
    }
    while i < s.len() - 1
        invariant
            s@.len() >= 2,
            i <= s@.len(),
            spec_first_sep(s@) == spec_shifted(spec_first_sep(s@.skip(i as int)), i as int),
        decreases s@.len() - i,
    {
        proof {
            assert(s@.skip(i as int)[0] == s@[i as int]);
            assert(s@.skip(i as int)[1] == s@[i as int + 1]);
            assert(s@.skip(i as int).drop_first() =~= s@.skip(i as int + 1));
        }
        if s[i] == 95 && s[i + 1] == 95 {
            return Some(i);
        }
        i += 1;
    }
    None
}

/// Parses a non-empty run of decimal digits as a 32-bit value.
fn parse_u32_digits(s: &[u8]) -> (value: Option<u32>)
    ensures
        value == if spec_is_digits(s@) && spec_digits_value(s@) <= u32::MAX {
            Some(spec_digits_value(s@) as u32)
        } else {
            None::<u32>
        },
{
    if s.len() == 0 {
        return None;
    }
    let mut acc: u64 = 0;
    let mut i: usize = 0;
    proof {
        assert(s@.subrange(0, 0).len() == 0);
    }
    while i < s.len()
        invariant
            i <= s@.len(),
            s@.len() > 0,
            forall|j: int| 0 <= j < i ==> 48 <= #[trigger] s@[j] <= 57,
            acc == spec_digits_value(s@.subrange(0, i as int)),
            acc <= u32::MAX,
        decreases s@.len() - i,
    {
        let b = s[i];
        if b < 48 || b > 57 {
            return None;
        }
        let d: u64 = (b - 48) as u64;
        acc = acc * 10 + d;
        proof {
            assert(s@.subrange(0, i + 1).drop_last() =~= s@.subrange(0, i as int));
            assert(s@.subrange(0, i + 1).last() == s@[i as int]);
        }
        i += 1;
        if acc > 0xFFFFFFFF {
            proof {
                if spec_is_digits(s@) {
                    lemma_digits_value_monotonic(s@, i as int);
                }
            }
            return None;
        }
    }
    proof {
        assert(s@.subrange(0, s@.len() as int) =~= s@);
    }
    Some(acc as u32)
}

/// Reads the migration version out of a path: the decimal prefix of the
/// file's stem, before the `__` separator. Nothing parses when the prefix
/// is not a plain number.
pub fn calculate_version(path: &str) -> (version: Option<u32>)
    ensures
        version == spec_calculate_version(path.spec_bytes()),
{
    let bytes: &[u8] = path.as_bytes();
    let blen: usize = bytes.len();
    let name: &[u8] = match last_pos(bytes, 47) {
        Some(i) => &bytes[i + 1..blen],
        None => bytes,
    };
    proof {
        assert(name@ =~= spec_file_name(path.spec_bytes()));
    }
    let stem: &[u8] = match last_pos(name, 46) {
        Some(i) => if i > 0 {
            &name[0..i]
        } else {
            name
        },
        None => name,
    };
    proof {
        assert(stem@ =~= spec_file_stem(name@));
    }
    let part: &[u8] = match first_sep(stem) {
        Some(i) => &stem[0..i],
        None => stem,
    };
    proof {
        assert(part@ =~= spec_version_part(stem@));
    }
    let digits: &[u8] = if part.len() > 0 && part[0] == 43 {
        &part[1..part.len()]
    } else {
        part
    };
    proof {
        assert(digits@ =~= (if part@.len() > 0 && part@[0] == 43 {
            part@.drop_first()
        } else {
            part@
        }));
    }
    parse_u32_digits(digits)
}

/// The versions that still have to be applied: those on disk that storage
/// does not hold yet, in their on-disk order.
pub fn missing_versions(all: &Vec<u32>, installed: &Vec<u32>) -> (missing: Vec<u32>)
    ensures
        missing@ == all@.filter(|v: u32| !installed@.contains(v)),
{
    let ghost pred = |v: u32| !installed@.contains(v);
    let mut missing: Vec<u32> = Vec::new();
    let mut i: usize = 0;
    proof {
        assert(all@.subrange(0, 0) =~= Seq::<u32>::empty());
        reveal(Seq::filter);
    }
    while i < all.len()
        invariant
            i <= all@.len(),
            missing@ == all@.subrange(0, i as int).filter(pred),
            pred == (|v: u32| !installed@.contains(v)),
        decreases all@.len() - i,
    {
        let v = all[i];
        let mut found = false;
        let mut j: usize = 0;
        while j < installed.len()
            invariant
                j <= installed@.len(),
                found == exists|k: int| 0 <= k < j && installed@[k] == v,
            decreases installed@.len() - j,
        {
            if installed[j] == v {
                found = true;
            }
            j += 1;
        }
        proof {
            assert(found == installed@.contains(v));
            assert(all@.subrange(0, i + 1).drop_last() =~= all@.subrange(0, i as int));
            assert(all@.subrange(0, i + 1).last() == v);
            reveal(Seq::filter);
        }
        if !found {
            missing.push(v);
        }
        i += 1;
    }
    proof {
        assert(all@.subrange(0, all@.len() as int) =~= all@);
    }
    missing
}

} // verus!
