//! Parsing the tabular output of the external disk-usage command and
//! classifying the outcome of a capacity probe.
//!
//! The expected report has a header line and a data line of whitespace-
//! separated columns; the total capacity stands in the second column and the
//! available capacity in the fourth, both in kilobytes.

use vstd::prelude::*;

use crate::status::{StorageCapacity, StorageState};
use crate::textnum::i64_to_dec;

verus! {

/// ASCII whitespace as the column separator.
pub open spec fn is_ws(b: u8) -> bool {
    b == 32 || b == 9 || b == 13 || b == 10
}

/// ASCII decimal digit.
pub open spec fn is_digit(b: u8) -> bool {
    48 <= b <= 57
}

/// The index of the first line break at or after `i`, or the length when
/// there is none.
pub open spec fn nl_end(s: Seq<u8>, i: int) -> int
    decreases s.len() - i,
{
    if i < 0 || i >= s.len() {
        s.len() as int
    } else if s[i] == 10 {
        i
    } else {
        nl_end(s, i + 1)
    }
}

/// The index of the first non-whitespace byte in `[i, e)`, or `e`.
pub open spec fn ws_end(s: Seq<u8>, e: int, i: int) -> int
    decreases e - i,
{
    if 0 <= i && i < e && i < s.len() && is_ws(s[i]) {
        ws_end(s, e, i + 1)
    } else {
        i
    }
}

/// The index just past the token starting at `i`, within `[i, e)`.
pub open spec fn tok_end(s: Seq<u8>, e: int, i: int) -> int
    decreases e - i,
{
    if 0 <= i && i < e && i < s.len() && !is_ws(s[i]) {
        tok_end(s, e, i + 1)
    } else {
        i
    }
}

/// The start of the `n`-th whitespace-separated token after `i` (counting
/// from zero), or at least `e` when there are not that many.
pub open spec fn token_start(s: Seq<u8>, e: int, i: int, n: int) -> int
    decreases n,
{
    if n <= 0 {
        ws_end(s, e, i)
    } else {
        token_start(s, e, tok_end(s, e, ws_end(s, e, i)), n - 1)
    }
}

/// Every byte of `[a, b)` is a decimal digit.
pub open spec fn all_digits(s: Seq<u8>, a: int, b: int) -> bool {
    forall|k: int| a <= k < b ==> is_digit(#[trigger] s[k])
}

/// The decimal value of the digits at `[a, b)`.
pub open spec fn token_val(s: Seq<u8>, a: int, b: int) -> int
    decreases b - a,
{
    if b <= a {
        0
    } else {
        token_val(s, a, b - 1) * 10 + (s[b - 1] - 48)
    }
}

/// What a disk-usage report parses to: the second and fourth column of its
/// second line, as kilobyte counts, or nothing when the line or the numeric
/// tokens are missing or out of range.
pub open spec fn spec_parse_free_space(s: Seq<u8>) -> Option<StorageCapacity> {
    let nl = nl_end(s, 0);
    if nl + 1 >= s.len() {
        None
    } else {
        let ls = nl + 1;
        let le = nl_end(s, ls);
        let a1 = token_start(s, le, ls, 1);
        let b1 = tok_end(s, le, a1);
        let a3 = token_start(s, le, ls, 3);
        let b3 = tok_end(s, le, a3);
        if a1 >= le || !all_digits(s, a1, b1) || token_val(s, a1, b1) > u64::MAX {
            None
        } else if a3 >= le || !all_digits(s, a3, b3) || token_val(s, a3, b3) > u64::MAX {
            None
        } else {
            Some(
                StorageCapacity {
                    total_kilobytes: token_val(s, a1, b1) as u64,
                    free_kilobytes: token_val(s, a3, b3) as u64,
                },
            )
        }
    }
}

proof fn lemma_token_val_nonneg(s: Seq<u8>, a: int, j: int)
    requires
        a <= j,
        all_digits(s, a, j),
    ensures
        token_val(s, a, j) >= 0,
    decreases j - a,
{
    if j > a {
        lemma_token_val_nonneg(s, a, j - 1);
    }
}

proof fn lemma_token_val_grows(s: Seq<u8>, a: int, i: int, j: int)
    requires
        a <= i <= j,
        all_digits(s, a, j),
    ensures
        token_val(s, a, j) >= token_val(s, a, i),
    decreases j - i,
{
    if j > i {
        lemma_token_val_grows(s, a, i, j - 1);
        lemma_token_val_nonneg(s, a, j - 1);
    }
}

fn nl_end_exec(s: &Vec<u8>, i: usize) -> (r: usize)
    requires
        i <= s@.len(),
    ensures
        r == nl_end(s@, i as int),
        i <= r <= s@.len(),
{
    let n = s.len();
    let mut j = i;
    while j < n && s[j] != 10
        invariant
            i <= j <= n,
            n == s@.len(),
            nl_end(s@, i as int) == nl_end(s@, j as int),
        decreases n - j,
    {
        j = j + 1;
    }
    j
}

fn ws_end_exec(s: &Vec<u8>, e: usize, i: usize) -> (r: usize)
    requires
        i <= e <= s@.len(),
    ensures
        r == ws_end(s@, e as int, i as int),
        i <= r <= e,
        r < e ==> !is_ws(s@[r as int]),
{
    let mut j = i;
    while j < e && (s[j] == 32 || s[j] == 9 || s[j]
        == 13 || s[j] == 10)
        invariant
            i <= j <= e <= s@.len(),
            ws_end(s@, e as int, i as int) == ws_end(s@, e as int, j as int),
        decreases e - j,
    {
        j = j + 1;
    }
    j
}

fn tok_end_exec(s: &Vec<u8>, e: usize, i: usize) -> (r: usize)
    requires
        i <= e <= s@.len(),
    ensures
        r == tok_end(s@, e as int, i as int),
        i <= r <= e,
        r < e ==> is_ws(s@[r as int]),
{
    let mut j = i;
    while j < e && !(s[j] == 32 || s[j] == 9 || s[j]
        == 13 || s[j] == 10)
        invariant
            i <= j <= e <= s@.len(),
            tok_end(s@, e as int, i as int) == tok_end(s@, e as int, j as int),
        decreases e - j,
    {
        j = j + 1;
    }
    j
}

/// The bounds of the `n`-th whitespace-separated token in `[start, e)`, or
/// `None` when there are not that many tokens.
fn token_range(s: &Vec<u8>, start: usize, e: usize, n: usize) -> (r: Option<(usize, usize)>)
    requires
        start <= e <= s@.len(),
    ensures
        r is Some <==> token_start(s@, e as int, start as int, n as int) < e,
        r matches Some((a, b)) ==> {
            &&& a == token_start(s@, e as int, start as int, n as int)
            &&& b == tok_end(s@, e as int, a as int)
            &&& start <= a < b <= e
        },
{
    let mut base = start;
    let mut k: usize = 0;
    while k < n
        invariant
            start <= base <= e <= s@.len(),
            k <= n,
            token_start(s@, e as int, start as int, n as int) == token_start(
                s@,
                e as int,
                base as int,
                (n - k) as int,
            ),
        decreases n - k,
    {
        let a = ws_end_exec(s, e, base);
        base = tok_end_exec(s, e, a);
        k = k + 1;
    }
    let a = ws_end_exec(s, e, base);
    if a >= e {
        None
    } else {
        let b = tok_end_exec(s, e, a);
        proof {
            if a == b {
                assert(is_ws(s@[a as int]));
            }
        }
        Some((a, b))
    }
}

/// The value of the digit token at `[a, b)`, or `None` when the range is
/// empty, holds a non-digit, or does not fit a kilobyte counter.
fn parse_u64_token(s: &Vec<u8>, a: usize, b: usize) -> (r: Option<u64>)
    requires
        a <= b <= s@.len(),
    ensures
        r is Some <==> (a < b && all_digits(s@, a as int, b as int) && token_val(
            s@,
            a as int,
            b as int,
        ) <= u64::MAX),
        r matches Some(v) ==> v == token_val(s@, a as int, b as int),
{
    if a >= b {
        return None;
    }
    let mut val: u64 = 0;
    let mut i = a;
    while i < b
        invariant
            a <= i <= b <= s@.len(),
            all_digits(s@, a as int, i as int),
            val == token_val(s@, a as int, i as int),
        decreases b - i,
    {
        let c = s[i];
        if !(48 <= c && c <= 57) {
            proof {
                assert(!is_digit(s@[i as int]));
            }
            return None;
        }
        let d = (c - 48) as u64;
        if val > (u64::MAX - d) / 10 {
            proof {
                let m = (u64::MAX - d) as int;
                vstd::arithmetic::div_mod::lemma_fundamental_div_mod(m, 10);
                assert(val * 10 + d > u64::MAX);
                assert(token_val(s@, a as int, i as int + 1) == val * 10 + d);
                if all_digits(s@, a as int, b as int) {
                    lemma_token_val_grows(s@, a as int, i as int + 1, b as int);
                }
            }
            return None;
        }
        proof {
            let m = (u64::MAX - d) as int;
            vstd::arithmetic::div_mod::lemma_fundamental_div_mod(m, 10);
            assert(val * 10 + d <= u64::MAX);
        }
        val = val * 10 + d;
        i = i + 1;
    }
    Some(val)
}

/// Parses a disk-usage report: the second line must exist and its second and
/// fourth columns must be kilobyte counts.
pub fn parse_free_space(stdout: &Vec<u8>) -> (r: Result<StorageCapacity, String>)
    ensures
        r matches Ok(c) ==> spec_parse_free_space(stdout@) == Some(c),
        r is Err ==> spec_parse_free_space(stdout@) is None,
        r matches Err(m) ==> m@.len() > 0,
{
    proof {
        reveal_strlit("df output second line missing");
        reveal_strlit("total column missing from df output");
        reveal_strlit("total column of df output is not a number");
        reveal_strlit("available column missing from df output");
        reveal_strlit("available column of df output is not a number");
    }
    let len = stdout.len();
    let nl = nl_end_exec(stdout, 0);
    if nl >= len || nl + 1 >= len {
        return Err(String::from_str("df output second line missing"));
    }
    let ls = nl + 1;
    let le = nl_end_exec(stdout, ls);
    let total = match token_range(stdout, ls, le, 1) {
        None => {
            return Err(String::from_str("total column missing from df output"));
        },
        Some((a, b)) => match parse_u64_token(stdout, a, b) {
            None => {
                return Err(String::from_str("total column of df output is not a number"));
            },
            Some(v) => v,
        },
    };
    let free = match token_range(stdout, ls, le, 3) {
        None => {
            return Err(String::from_str("available column missing from df output"));
        },
        Some((a, b)) => match parse_u64_token(stdout, a, b) {
            None => {
                return Err(String::from_str("available column of df output is not a number"));
            },
            Some(v) => v,
        },
    };
    Ok(StorageCapacity { total_kilobytes: total, free_kilobytes: free })
}

/// What the external disk-usage command reported: its exit code and output
/// streams.
pub struct DfProbe {
    pub exit_code: Option<i32>,
    pub stdout: Vec<u8>,
    pub stderr: String,
}

/// The capacity a probe outcome carries, if it succeeded and parses.
pub open spec fn probe_capacity(probe: Result<DfProbe, String>) -> Option<StorageCapacity> {
    match probe {
        Ok(p) => if p.exit_code == Some(0i32) {
            spec_parse_free_space(p.stdout@)
        } else {
            None
        },
        Err(_) => None,
    }
}

/// Classifies the outcome of one capacity probe: a parsed report becomes an
/// `Available` state, everything else an explicit `Error` state, never a
/// crash and never `Unknown`.
pub fn check_storage(probe: Result<DfProbe, String>) -> (r: StorageState)
    ensures
        probe_capacity(probe) matches Some(c) ==> r == StorageState::Available(c),
        probe_capacity(probe) is None ==> r is Error,
        probe matches Err(e) ==> (r matches StorageState::Error(m) && m@
            == "storage check call failed: "@ + e@),
        r matches StorageState::Error(m) ==> m@.len() > 0,
{
    proof {
        reveal_strlit("storage check call failed: ");
        reveal_strlit("storage check returned error code: ");
        reveal_strlit("storage check did not return successfully");
    }
    match probe {
        Err(error) => {
            let mut m = String::from_str("storage check call failed: ");
            m.append(error.as_str());
            StorageState::Error(m)
        },
        Ok(p) => match p.exit_code {
            Some(code) => {
                if code == 0 {
                    match parse_free_space(&p.stdout) {
                        Ok(capacity) => StorageState::Available(capacity),
                        Err(error) => StorageState::Error(error),
                    }
                } else {
                    let mut m = String::from_str("storage check returned error code: ");
                    m.append(i64_to_dec(code as i64).as_str());
                    m.append(" ");
                    m.append(p.stderr.as_str());
                    StorageState::Error(m)
                }
            },
            None => StorageState::Error(
                String::from_str("storage check did not return successfully"),
            ),
        },
    }
}

} // verus!
