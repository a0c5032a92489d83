//! Reading the published version out of the remote `Cargo.toml` and
//! deciding whether the running version is out of date.
use vstd::prelude::*;
use crate::text::{
    split_on, dot_segments, views, split_all, is_prefix, starts_with, strip_prefix_all,
    strip_suffix_char, trim_start_matches, trim_end_matches_char, parse_unsigned, parse_decimal,
};

verus! {

/// The index of the first line that starts with `p`.
pub open spec fn first_with_prefix(lines: Seq<Seq<char>>, p: Seq<char>) -> Option<int>
    decreases lines.len(),
{
    if lines.len() == 0 {
        None
    } else {
        match first_with_prefix(lines.drop_last(), p) {
            Some(i) => Some(i),
            None => if is_prefix(p, lines.last()) {
                Some(lines.len() - 1)
            } else {
                None
            },
        }
    }
}

proof fn lemma_first_with_prefix(lines: Seq<Seq<char>>, p: Seq<char>, k: int)
    requires
        0 <= k < lines.len(),
        is_prefix(p, lines[k]),
        forall|j: int| 0 <= j < k ==> !is_prefix(p, #[trigger] lines[j]),
    ensures
        first_with_prefix(lines, p) == Some(k),
    decreases lines.len(),
{
    if k < lines.len() - 1 {
        lemma_first_with_prefix(lines.drop_last(), p, k);
    } else {
        lemma_no_prefix(lines.drop_last(), p);
    }
}

proof fn lemma_no_prefix(lines: Seq<Seq<char>>, p: Seq<char>)
    requires
        forall|j: int| 0 <= j < lines.len() ==> !is_prefix(p, #[trigger] lines[j]),
    ensures
        first_with_prefix(lines, p) is None,
    decreases lines.len(),
{
    if lines.len() > 0 {
        lemma_no_prefix(lines.drop_last(), p);
    }
}

pub const VERSION_KEY: &'static str = "version = ";

pub const VERSION_OPEN: &'static str = "version = \"";

/// The version that a `Cargo.toml` publishes: the first line that starts
/// with `version = `, with `version = "` removed from its start and the
/// closing quotes from its end.
pub open spec fn published_version(toml: Seq<char>) -> Option<Seq<char>> {
    let lines = split_on(toml, '\n');
    match first_with_prefix(lines, VERSION_KEY@) {
        Some(i) => Some(strip_suffix_char(strip_prefix_all(lines[i], VERSION_OPEN@), '"')),
        None => None,
    }
}

/// Finds the published version in a `Cargo.toml`.
pub fn version_line(toml: &str) -> (r: Option<String>)
    ensures
        match r {
            Some(v) => published_version(toml@) == Some(v@),
            None => published_version(toml@) is None,
        },
{
    proof {
        reveal_strlit("version = ");
        reveal_strlit("version = \"");
        assert(VERSION_OPEN@.len() > 0);
    }
    let lines = split_all(toml, '\n');
    let ghost ls = split_on(toml@, '\n');
    let n = lines.len();
    let mut i: usize = 0;
    while i < n
        invariant
            n == lines@.len(),
            views(lines@) == ls,
            ls == split_on(toml@, '\n'),
            VERSION_OPEN@.len() > 0,
            i <= n,
            forall|j: int| 0 <= j < i ==> !is_prefix(VERSION_KEY@, #[trigger] ls[j]),
        decreases n - i,
    {
        assert(ls[i as int] == lines@[i as int]@);
        if starts_with(lines[i].as_str(), VERSION_KEY) {
            proof {
                lemma_first_with_prefix(ls, VERSION_KEY@, i as int);
            }
            let line = lines[i].as_str();
            let a = trim_start_matches(line, VERSION_OPEN);
            let b = trim_end_matches_char(a, '"');
            return Some(String::from_str(b));
        }
        i = i + 1;
    }
    proof {
        lemma_no_prefix(ls, VERSION_KEY@);
    }
    None
}

/// The numbers of a dotted version such as `1.2.3`, each a decimal numeral
/// from 0 to 255; `None` when a piece is not such a numeral.
pub open spec fn version_numbers(s: Seq<char>) -> Option<Seq<u8>> {
    let parts = dot_segments(s);
    if forall|i: int| 0 <= i < parts.len() ==> (#[trigger] parse_unsigned(parts[i], 255)) is Some {
        Some(Seq::new(parts.len(), |i: int| parse_unsigned(parts[i], 255)->0 as u8))
    } else {
        None
    }
}

/// Reads a dotted version into its numbers.
pub fn parse_version(s: &str) -> (r: Option<Vec<u8>>)
    ensures
        match r {
            Some(v) => version_numbers(s@) == Some(v@),
            None => version_numbers(s@) is None,
        },
{
    let parts = split_all(s, '.');
    let ghost ps = dot_segments(s@);
    let n = parts.len();
    let mut out: Vec<u8> = Vec::new();
    let mut i: usize = 0;
    while i < n
        invariant
            n == parts@.len(),
            views(parts@) == ps,
            ps == dot_segments(s@),
            i <= n,
            out@.len() == i,
            forall|j: int| 0 <= j < i ==> (#[trigger] parse_unsigned(ps[j], 255)) is Some,
            forall|j: int| 0 <= j < i ==> out@[j] == parse_unsigned(ps[j], 255)->0 as u8,
        decreases n - i,
    {
        assert(ps[i as int] == parts@[i as int]@);
        match parse_decimal(parts[i].as_str(), 255) {
            Some(v) => {
                out.push(v as u8);
            },
            None => {
                return None;
            },
        }
        i = i + 1;
    }
    assert(out@ =~= Seq::new(ps.len(), |i: int| parse_unsigned(ps[i], 255)->0 as u8));
    Some(out)
}

/// Whether `remote` is a newer version than `local`: at the first place
/// where they differ, within the length of `local`, the remote number is
/// larger.
pub open spec fn newer(remote: Seq<u8>, local: Seq<u8>) -> bool {
    exists|i: int|
        0 <= i < local.len() && i < remote.len() && remote[i] > local[i] && (forall|j: int|
            0 <= j < i ==> remote[j] == local[j])
}

/// Whether comparing would run past the end of `remote`: it is shorter than
/// `local` and agrees with it as far as it goes.
pub open spec fn runs_out(remote: Seq<u8>, local: Seq<u8>) -> bool {
    remote.len() < local.len() && forall|j: int| 0 <= j < remote.len() ==> remote[j] == local[j]
}

/// Whether the remote version is newer than the local one.
pub fn is_out_of_date(remote: &Vec<u8>, local: &Vec<u8>) -> (r: bool)
    requires
        !runs_out(remote@, local@),
    ensures
        r == newer(remote@, local@),
{
    let n = local.len();
    let mut i: usize = 0;
    while i < n
        invariant
            n == local@.len(),
            i <= n,
            !runs_out(remote@, local@),
            forall|j: int| 0 <= j < i ==> j < remote@.len() && remote@[j] == local@[j],
        decreases n - i,
    {
        if i >= remote.len() {
            assert(runs_out(remote@, local@));
        }
        if remote[i] > local[i] {
            return true;
        } else if remote[i] < local[i] {
            proof {
                assert forall|k: int|
                    0 <= k < local@.len() && k < remote@.len() && remote@[k] > local@[k] implies !(
                    forall|j: int| 0 <= j < k ==> remote@[j] == local@[j]) by {
                    if k > i {
                        assert(remote@[i as int] != local@[i as int]);
                    }
                }
            }
            return false;
        }
        i = i + 1;
    }
    false
}

/// The result of an update check on a `Cargo.toml`: whether its version is
/// newer than `local`, and the version text; `None` when the file has no
/// version line, either version is not a dotted list of numbers, or the
/// remote version runs out before the comparison is decided.
pub open spec fn update_check(toml: Seq<char>, local: Seq<char>) -> Option<(bool, Seq<char>)> {
    match published_version(toml) {
        None => None,
        Some(v) => match (version_numbers(v), version_numbers(local)) {
            (Some(rn), Some(ln)) => if runs_out(rn, ln) {
                None
            } else {
                Some((newer(rn, ln), v))
            },
            _ => None,
        },
    }
}

/// Checks the remote `Cargo.toml` against the running version.
pub fn update_checker(toml: &str, local_version: &str) -> (r: Option<(bool, String)>)
    ensures
        match r {
            Some((out_of_date, v)) => update_check(toml@, local_version@) == Some(
                (out_of_date, v@),
            ),
            None => update_check(toml@, local_version@) is None,
        },
{
    let remote_text = match version_line(toml) {
        Some(v) => v,
        None => {
            return None;
        },
    };
    let remote = match parse_version(remote_text.as_str()) {
        Some(v) => v,
        None => {
            return None;
        },
    };
    let local = match parse_version(local_version) {
        Some(v) => v,
        None => {
            return None;
        },
    };
    if remote.len() < local.len() {
        let mut agree = true;
        let mut j: usize = 0;
        while j < remote.len()
            invariant
                j <= remote@.len(),
                remote@.len() < local@.len(),
                agree == forall|k: int| 0 <= k < j ==> remote@[k] == local@[k],
            decreases remote@.len() - j,
        {
            if remote[j] != local[j] {
                agree = false;
            }
            j = j + 1;
        }
        if agree {
            return None;
        }
    }
    let out_of_date = is_out_of_date(&remote, &local);
    Some((out_of_date, remote_text))
}

/// A version is never newer than itself.
pub proof fn lemma_not_newer_than_itself(v: Seq<u8>)
    ensures
        !newer(v, v),
{
}

/// Of two versions of the same length, at most one is newer than the other.
pub proof fn lemma_newer_asymmetric(a: Seq<u8>, b: Seq<u8>)
    requires
        a.len() == b.len(),
        newer(a, b),
    ensures
        !newer(b, a),
{
    let i = choose|i: int|
        0 <= i < b.len() && i < a.len() && a[i] > b[i] && (forall|j: int|
            0 <= j < i ==> a[j] == b[j]);
    assert forall|k: int|
        0 <= k < a.len() && k < b.len() && b[k] > a[k] implies !(forall|j: int|
        0 <= j < k ==> b[j] == a[j]) by {
        if k > i {
            assert(b[i] != a[i]);
        } else if k < i {
            assert(a[k] == b[k]);
        }
    }
}

} // verus!
