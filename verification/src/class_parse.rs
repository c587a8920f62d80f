//! When `tailwind_fuse` panics while it parses a class list.
//!
//! The merge splits the list at white space and parses each class as
//! `variant<sep>…variant<sep> [!] [-] [prefix]head-head… [-][arbitrary]`.
//! A variant or an arbitrary value that starts with `[` is read up to the
//! bracket that closes it by a scanner that skips each backslash together
//! with the character after it. A backslash that ends the class leaves
//! nothing to skip: the scanner then slices past the end of the class and
//! panics. This module states, for each class, exactly which brackets the
//! parser scans, and so exactly when a merge panics.

use vstd::prelude::*;
use vstd::string::*;
use crate::text::{is_white_space, white_space};

verus! {

/// Whether `char::is_alphanumeric` holds of `c` (Unicode `Alphabetic` or
/// `Numeric`).
pub uninterp spec fn alphanumeric(c: char) -> bool;

/// Trusted: `char::is_alphanumeric`, whose result depends on the char
/// alone; the contract names it `alphanumeric`.
#[verifier::external_body]
fn char_alphanumeric(c: char) -> (b: bool)
    ensures
        b == alphanumeric(c),
{
    c.is_alphanumeric()
}

/// Whether position `i` is past the class that it would belong to: outside
/// `s`, or at white space.
pub open spec fn at_end(s: Seq<char>, i: int) -> bool {
    i < 0 || i >= s.len() || is_white_space(s[i])
}

/// Whether `lit` stands in `s` at `i`, inside one class.
pub open spec fn tag_at(s: Seq<char>, i: int, lit: Seq<char>) -> bool {
    &&& 0 <= i
    &&& i + lit.len() <= s.len()
    &&& s.subrange(i, i + lit.len()) == lit
    &&& forall|k: int| 0 <= k < lit.len() ==> !is_white_space(#[trigger] lit[k])
}

/// Whether the bracket scan from `i`, with `depth` brackets open, meets a
/// backslash that ends the class before the bracket that closes the scan.
pub open spec fn escape_runs_off(s: Seq<char>, i: int, depth: nat) -> bool
    decreases s.len() - i,
{
    if at_end(s, i) {
        false
    } else if s[i] == '\\' {
        if at_end(s, i + 1) {
            true
        } else {
            escape_runs_off(s, i + 2, depth)
        }
    } else if s[i] == '[' {
        escape_runs_off(s, i + 1, depth + 1)
    } else if s[i] == ']' {
        if depth == 0 {
            false
        } else {
            escape_runs_off(s, i + 1, (depth - 1) as nat)
        }
    } else {
        escape_runs_off(s, i + 1, depth)
    }
}

/// Where the bracket scan from `i` finds the `]` that closes it, if it does
/// (and does not run off first).
pub open spec fn scan_close(s: Seq<char>, i: int, depth: nat) -> Option<int>
    decreases s.len() - i,
{
    if at_end(s, i) {
        None
    } else if s[i] == '\\' {
        if at_end(s, i + 1) {
            None
        } else {
            scan_close(s, i + 2, depth)
        }
    } else if s[i] == '[' {
        scan_close(s, i + 1, depth + 1)
    } else if s[i] == ']' {
        if depth == 0 {
            Some(i)
        } else {
            scan_close(s, i + 1, (depth - 1) as nat)
        }
    } else {
        scan_close(s, i + 1, depth)
    }
}

/// The first `]` or class end from `i`.
pub open spec fn close_or_end(s: Seq<char>, i: int) -> int
    decreases s.len() - i,
{
    if at_end(s, i) || s[i] == ']' {
        i
    } else {
        close_or_end(s, i + 1)
    }
}

/// The characters that end a part of a class's name.
pub open spec fn is_head_stop(c: char) -> bool {
    c == '-' || c == '[' || c == ']' || c == '(' || c == ')'
}

/// The end of the name part that starts at `i`.
pub open spec fn head_end(s: Seq<char>, i: int) -> int
    decreases s.len() - i,
{
    if at_end(s, i) || is_head_stop(s[i]) {
        i
    } else {
        head_end(s, i + 1)
    }
}

/// The end of the run of alphanumeric characters and `-` from `i`.
pub open spec fn word_end(s: Seq<char>, i: int) -> int
    decreases s.len() - i,
{
    if at_end(s, i) || !(alphanumeric(s[i]) || s[i] == '-') {
        i
    } else {
        word_end(s, i + 1)
    }
}

/// The prefixes of a data or supports variant.
pub open spec fn data_tag() -> Seq<char> {
    seq!['d', 'a', 't', 'a', '-']
}

pub open spec fn supports_tag() -> Seq<char> {
    seq!['s', 'u', 'p', 'p', 'o', 'r', 't', 's', '-']
}

pub open spec fn group_data_tag() -> Seq<char> {
    seq!['g', 'r', 'o', 'u', 'p', '-', 'd', 'a', 't', 'a', '-']
}

/// The length of the data-variant prefix at `q`, or 0 where there is none.
pub open spec fn data_tag_len(s: Seq<char>, q: int) -> int {
    if tag_at(s, q, data_tag()) {
        5
    } else if tag_at(s, q, supports_tag()) {
        9
    } else if tag_at(s, q, group_data_tag()) {
        11
    } else {
        0
    }
}

/// Where a data variant (`data-…]`) that starts at `q` ends, if one does.
pub open spec fn data_end(s: Seq<char>, q: int) -> Option<int> {
    let l = data_tag_len(s, q);
    if l == 0 {
        None
    } else {
        let k = close_or_end(s, q + l);
        if k > q + l && !at_end(s, k) {
            Some(k + 1)
        } else {
            None
        }
    }
}

/// Whether trying a variant at `q` scans a bracket that runs off.
pub open spec fn step_panics(s: Seq<char>, q: int) -> bool {
    data_end(s, q) is None && !at_end(s, q) && s[q] == '[' && escape_runs_off(s, q + 1, 0)
}

/// Where the variant body (without the separator) that starts at `q` ends.
pub open spec fn variant_body_end(s: Seq<char>, q: int) -> Option<int> {
    if data_end(s, q) is Some {
        data_end(s, q)
    } else if !at_end(s, q) && s[q] == '[' {
        match scan_close(s, q + 1, 0) {
            Some(j) => Some(j + 1),
            None => None,
        }
    } else if word_end(s, q) > q {
        Some(word_end(s, q))
    } else {
        None
    }
}

/// Where the next variant starts after the one at `q`, if one parses there.
pub open spec fn step_next(s: Seq<char>, q: int, sep: Seq<char>) -> Option<int> {
    match variant_body_end(s, q) {
        Some(e) => if tag_at(s, e, sep) {
            Some(e + sep.len())
        } else {
            None
        },
        None => None,
    }
}

/// After the end `h` of a name part, the end of the further `-part`s.
pub open spec fn more_heads(s: Seq<char>, h: int) -> int
    decreases s.len() - h,
{
    if !at_end(s, h) && s[h] == '-' {
        let h2 = head_end(s, h + 1);
        if h + 1 < h2 <= s.len() {
            more_heads(s, h2)
        } else {
            h
        }
    } else {
        h
    }
}

/// Where the name (`prefix` and its parts) that starts at `p` ends; `p`
/// itself where no name parses.
pub open spec fn elements_end(s: Seq<char>, p: int, prefix: Seq<char>) -> int {
    if tag_at(s, p, prefix) {
        let h0 = p + prefix.len();
        let h = head_end(s, h0);
        if h > h0 {
            more_heads(s, h)
        } else {
            p
        }
    } else {
        p
    }
}

/// One optional `c` at `i`.
pub open spec fn skip_char(s: Seq<char>, i: int, c: char) -> int {
    if !at_end(s, i) && s[i] == c {
        i + 1
    } else {
        i
    }
}

/// Whether, after the variants end at `r`, the arbitrary value's scan runs off.
pub open spec fn tail_panics(s: Seq<char>, r: int, prefix: Seq<char>) -> bool {
    let p2 = skip_char(s, skip_char(s, r, '!'), '-');
    let p4 = skip_char(s, elements_end(s, p2, prefix), '-');
    !at_end(s, p4) && s[p4] == '[' && escape_runs_off(s, p4 + 1, 0)
}

/// Whether parsing the class whose variants go on at `q` panics.
pub open spec fn variants_panic(s: Seq<char>, q: int, prefix: Seq<char>, sep: Seq<char>) -> bool
    decreases s.len() - q,
{
    if q < 0 || q > s.len() {
        false
    } else if step_panics(s, q) {
        true
    } else {
        match step_next(s, q, sep) {
            Some(n) => if q < n <= s.len() {
                variants_panic(s, n, prefix, sep)
            } else {
                false
            },
            None => tail_panics(s, q, prefix),
        }
    }
}

/// Whether a class starts at `i`.
pub open spec fn class_start(s: Seq<char>, i: int) -> bool {
    0 <= i < s.len() && !is_white_space(s[i]) && (i == 0 || is_white_space(s[i - 1]))
}

/// Whether `tailwind_fuse` panics when it merges the class list `s` with
/// the modifier prefix `prefix` and separator `sep`.
pub open spec fn merge_panics(s: Seq<char>, prefix: Seq<char>, sep: Seq<char>) -> bool {
    exists|i: int| class_start(s, i) && #[trigger] variants_panic(s, i, prefix, sep)
}

fn chars_of(s: &str) -> (v: Vec<char>)
    ensures
        v@ == s@,
{
    let n = s.unicode_len();
    let mut v: Vec<char> = Vec::new();
    let mut i: usize = 0;
    while i < n
        invariant
            n == s@.len(),
            i <= n,
            v@ == s@.subrange(0, i as int),
        decreases n - i,
    {
        v.push(s.get_char(i));
        assert(s@.subrange(0, i + 1) == s@.subrange(0, i as int).push(s@[i as int]));
        i = i + 1;
    }
    assert(s@.subrange(0, n as int) == s@);
    v
}

fn at_end_x(s: &Vec<char>, i: usize) -> (b: bool)
    ensures
        b == at_end(s@, i as int),
{
    i >= s.len() || white_space(s[i])
}

fn tag_at_x(s: &Vec<char>, i: usize, lit: &Vec<char>) -> (b: bool)
    ensures
        b == tag_at(s@, i as int, lit@),
{
    let len = s.len();
    if i > s.len() || lit.len() > s.len() - i {
        return false;
    }
    let mut k: usize = 0;
    while k < lit.len()
        invariant
            len == s@.len(),
            i + lit@.len() <= s@.len(),
            k <= lit@.len(),
            forall|m: int| 0 <= m < k ==> s@[i + m] == lit@[m] && !is_white_space(#[trigger] lit@[m]),
        decreases lit@.len() - k,
    {
        if s[i + k] != lit[k] || white_space(lit[k]) {
            assert(s@.subrange(i as int, i + lit@.len())[k as int] == s@[i + k]);
            return false;
        }
        k = k + 1;
    }
    assert(s@.subrange(i as int, i + lit@.len()) =~= lit@);
    true
}

/// The bracket scan from `start`: whether it runs off, and where it closes.
fn scan_x(s: &Vec<char>, start: usize) -> (r: (bool, Option<usize>))
    requires
        start <= s@.len(),
    ensures
        r.0 == escape_runs_off(s@, start as int, 0),
        r.1 matches Some(j) ==> scan_close(s@, start as int, 0) == Some(j as int) && start <= j < s@.len(),
        r.1 is None ==> scan_close(s@, start as int, 0) is None,
{
    let n = s.len();
    let mut i: usize = start;
    let mut depth: usize = 0;
    while i < n
        invariant
            n == s@.len(),
            start <= i <= n,
            depth <= i,
            escape_runs_off(s@, start as int, 0) == escape_runs_off(s@, i as int, depth as nat),
            scan_close(s@, start as int, 0) == scan_close(s@, i as int, depth as nat),
        decreases n - i,
    {
        let c = s[i];
        if white_space(c) {
            return (false, None);
        }
        if c == '\\' {
            if at_end_x(s, i + 1) {
                return (true, None);
            }
            i = i + 2;
        } else if c == '[' {
            depth = depth + 1;
            i = i + 1;
        } else if c == ']' {
            if depth == 0 {
                return (false, Some(i));
            }
            depth = depth - 1;
            i = i + 1;
        } else {
            i = i + 1;
        }
    }
    (false, None)
}

fn close_or_end_x(s: &Vec<char>, start: usize) -> (k: usize)
    requires
        start <= s@.len(),
    ensures
        k as int == close_or_end(s@, start as int),
        start <= k <= s@.len(),
{
    let len = s.len();
    let mut i = start;
    while !at_end_x(s, i) && s[i] != ']'
        invariant
            len == s@.len(),
            start <= i <= s@.len(),
            close_or_end(s@, start as int) == close_or_end(s@, i as int),
        decreases s@.len() - i,
    {
        i = i + 1;
    }
    i
}

fn head_stop_x(c: char) -> (b: bool)
    ensures
        b == is_head_stop(c),
{
    c == '-' || c == '[' || c == ']' || c == '(' || c == ')'
}

fn head_end_x(s: &Vec<char>, start: usize) -> (k: usize)
    requires
        start <= s@.len(),
    ensures
        k as int == head_end(s@, start as int),
        start <= k <= s@.len(),
{
    let len = s.len();
    let mut i = start;
    while !at_end_x(s, i) && !head_stop_x(s[i])
        invariant
            len == s@.len(),
            start <= i <= s@.len(),
            head_end(s@, start as int) == head_end(s@, i as int),
        decreases s@.len() - i,
    {
        i = i + 1;
    }
    i
}

fn word_end_x(s: &Vec<char>, start: usize) -> (k: usize)
    requires
        start <= s@.len(),
    ensures
        k as int == word_end(s@, start as int),
        start <= k <= s@.len(),
{
    let len = s.len();
    let mut i = start;
    while !at_end_x(s, i) && (char_alphanumeric(s[i]) || s[i] == '-')
        invariant
            len == s@.len(),
            start <= i <= s@.len(),
            word_end(s@, start as int) == word_end(s@, i as int),
        decreases s@.len() - i,
    {
        i = i + 1;
    }
    i
}

fn data_end_x(s: &Vec<char>, q: usize) -> (r: Option<usize>)
    requires
        q <= s@.len(),
    ensures
        r matches Some(e) ==> data_end(s@, q as int) == Some(e as int) && q < e <= s@.len(),
        r is None ==> data_end(s@, q as int) is None,
{
    let len = s.len();
    let data = vec!['d', 'a', 't', 'a', '-'];
    let supports = vec!['s', 'u', 'p', 'p', 'o', 'r', 't', 's', '-'];
    let group_data = vec!['g', 'r', 'o', 'u', 'p', '-', 'd', 'a', 't', 'a', '-'];
    assert(data@ == data_tag());
    assert(supports@ == supports_tag());
    assert(group_data@ == group_data_tag());
    let l: usize = if tag_at_x(s, q, &data) {
        5
    } else if tag_at_x(s, q, &supports) {
        9
    } else if tag_at_x(s, q, &group_data) {
        11
    } else {
        0
    };
    assert(l as int == data_tag_len(s@, q as int));
    if l == 0 {
        return None;
    }
    let k = close_or_end_x(s, q + l);
    if k > q + l && !at_end_x(s, k) {
        Some(k + 1)
    } else {
        None
    }
}

/// Whether trying a variant at `q` panics, and where the next one starts.
fn step_x(s: &Vec<char>, q: usize, sep: &Vec<char>) -> (r: (bool, Option<usize>))
    requires
        q <= s@.len(),
    ensures
        r.0 == step_panics(s@, q as int),
        !r.0 ==> (r.1 matches Some(n) ==> step_next(s@, q as int, sep@) == Some(n as int) && q < n <= s@.len()),
        !r.0 ==> (r.1 is None ==> step_next(s@, q as int, sep@) is None),
{
    let len = s.len();
    let body: Option<usize> = match data_end_x(s, q) {
        Some(e) => Some(e),
        None => {
            if !at_end_x(s, q) && s[q] == '[' {
                let (runs_off, close) = scan_x(s, q + 1);
                if runs_off {
                    return (true, None);
                }
                match close {
                    Some(j) => Some(j + 1),
                    None => None,
                }
            } else {
                let e = word_end_x(s, q);
                if e > q {
                    Some(e)
                } else {
                    None
                }
            }
        },
    };
    match body {
        Some(e) => {
            if tag_at_x(s, e, sep) {
                (false, Some(e + sep.len()))
            } else {
                (false, None)
            }
        },
        None => (false, None),
    }
}

fn more_heads_x(s: &Vec<char>, start: usize) -> (k: usize)
    requires
        start <= s@.len(),
    ensures
        k as int == more_heads(s@, start as int),
        start <= k <= s@.len(),
{
    let len = s.len();
    let mut h = start;
    while !at_end_x(s, h) && s[h] == '-'
        invariant
            len == s@.len(),
            start <= h <= s@.len(),
            more_heads(s@, start as int) == more_heads(s@, h as int),
        decreases s@.len() - h,
    {
        let h2 = head_end_x(s, h + 1);
        if h2 > h + 1 {
            h = h2;
        } else {
            return h;
        }
    }
    h
}

fn elements_end_x(s: &Vec<char>, p: usize, prefix: &Vec<char>) -> (k: usize)
    requires
        p <= s@.len(),
    ensures
        k as int == elements_end(s@, p as int, prefix@),
        p <= k <= s@.len(),
{
    let len = s.len();
    if tag_at_x(s, p, prefix) {
        let h0 = p + prefix.len();
        let h = head_end_x(s, h0);
        if h > h0 {
            more_heads_x(s, h)
        } else {
            p
        }
    } else {
        p
    }
}

fn skip_char_x(s: &Vec<char>, i: usize, c: char) -> (k: usize)
    requires
        i <= s@.len(),
    ensures
        k as int == skip_char(s@, i as int, c),
        i <= k <= s@.len(),
{
    let len = s.len();
    if !at_end_x(s, i) && s[i] == c {
        i + 1
    } else {
        i
    }
}

fn tail_panics_x(s: &Vec<char>, r: usize, prefix: &Vec<char>) -> (b: bool)
    requires
        r <= s@.len(),
    ensures
        b == tail_panics(s@, r as int, prefix@),
{
    let len = s.len();
    let p2 = skip_char_x(s, skip_char_x(s, r, '!'), '-');
    let p4 = skip_char_x(s, elements_end_x(s, p2, prefix), '-');
    if !at_end_x(s, p4) && s[p4] == '[' {
        let (runs_off, _) = scan_x(s, p4 + 1);
        runs_off
    } else {
        false
    }
}

fn variants_panic_x(s: &Vec<char>, start: usize, prefix: &Vec<char>, sep: &Vec<char>) -> (b: bool)
    requires
        start <= s@.len(),
    ensures
        b == variants_panic(s@, start as int, prefix@, sep@),
{
    let len = s.len();
    let mut q = start;
    loop
        invariant
            len == s@.len(),
            q <= s@.len(),
            variants_panic(s@, start as int, prefix@, sep@) == variants_panic(s@, q as int, prefix@, sep@),
        decreases s@.len() - q,
    {
        let (panics, next) = step_x(s, q, sep);
        if panics {
            return true;
        }
        match next {
            Some(n) => {
                q = n;
            },
            None => {
                return tail_panics_x(s, q, prefix);
            },
        }
    }
}

/// Whether `tailwind_fuse` panics when it merges `text` with the modifier
/// prefix `prefix` and separator `separator`.
pub fn merge_would_panic(text: &str, prefix: &str, separator: &str) -> (b: bool)
    ensures
        b == merge_panics(text@, prefix@, separator@),
{
    let s = chars_of(text);
    let p = chars_of(prefix);
    let sep = chars_of(separator);
    let n = s.len();
    let mut i: usize = 0;
    while i < n
        invariant
            n == s@.len(),
            s@ == text@,
            p@ == prefix@,
            sep@ == separator@,
            i <= n,
            forall|k: int| 0 <= k < i ==> !(class_start(s@, k) && #[trigger] variants_panic(s@, k, p@, sep@)),
        decreases n - i,
    {
        let starts = !white_space(s[i]) && (i == 0 || white_space(s[i - 1]));
        if starts && variants_panic_x(&s, i, &p, &sep) {
            assert(class_start(s@, i as int) && variants_panic(s@, i as int, p@, sep@));
            return true;
        }
        i = i + 1;
    }
    assert forall|k: int| class_start(s@, k) implies !variants_panic(s@, k, p@, sep@) by {
        assert(0 <= k < n);
    }
    false
}

} // verus!
