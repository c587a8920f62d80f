//! Character-level helpers on strings.

use vstd::prelude::*;
use vstd::string::*;

verus! {

/// Appends one character to a `String`.
///
/// Trusted: calls `String::push`, whose documentation says it appends the
/// given char to the end of the string; the contract states exactly that.
#[verifier::external_body]
pub(crate) fn push_char(s: &mut String, c: char)
    ensures
        final(s)@ == old(s)@.push(c),
{
    s.push(c);
}

/// The identifier form of a package name: every `-` becomes `_`.
pub open spec fn crate_ident_char(c: char) -> char {
    if c == '-' { '_' } else { c }
}

/// `name` with each `-` replaced by `_`, as Cargo does for the `use` path of a package.
pub open spec fn crate_ident_spec(name: Seq<char>) -> Seq<char> {
    name.map_values(|c: char| crate_ident_char(c))
}

/// Returns `name` with every `-` replaced by `_`.
pub fn crate_ident(name: &str) -> (ident: String)
    ensures
        ident@ == crate_ident_spec(name@),
{
    let n = name.unicode_len();
    let mut out = String::new();
    let mut i: usize = 0;
    while i < n
        invariant
            n == name@.len(),
            i <= n,
            out@ == crate_ident_spec(name@.subrange(0, i as int)),
        decreases n - i,
    {
        let c = name.get_char(i);
        let d = if c == '-' { '_' } else { c };
        push_char(&mut out, d);
        assert(name@.subrange(0, (i + 1) as int) == name@.subrange(0, i as int).push(c));
        i = i + 1;
    }
    assert(name@.subrange(0, n as int) == name@);
    out
}


/// The crate identifier of a package name keeps its length, holds no `-`,
/// and changes nothing but the hyphens.
pub proof fn lemma_crate_ident_shape(name: Seq<char>)
    ensures
        crate_ident_spec(name).len() == name.len(),
        !crate_ident_spec(name).contains('-'),
        forall|i: int|
            0 <= i < name.len() && name[i] != '-' ==> #[trigger] crate_ident_spec(name)[i] == name[i],
{
}

/// Turning a name into a crate identifier twice is the same as once, and a
/// name without `-` is already its own identifier.
pub proof fn lemma_crate_ident_stable(name: Seq<char>)
    ensures
        crate_ident_spec(crate_ident_spec(name)) == crate_ident_spec(name),
        !name.contains('-') ==> crate_ident_spec(name) == name,
{
    assert(crate_ident_spec(crate_ident_spec(name)) =~= crate_ident_spec(name));
    if !name.contains('-') {
        assert forall|i: int| 0 <= i < name.len() implies crate_ident_spec(name)[i] == name[i] by {
            if name[i] == '-' {
                assert(name.contains('-'));
            }
        }
        assert(crate_ident_spec(name) =~= name);
    }
}

/// The Unicode `White_Space` property, the set that `char::is_whitespace`
/// and `str::trim` go by.
pub open spec fn is_white_space(c: char) -> bool {
    let u = c as int;
    ||| 0x9 <= u <= 0xD
    ||| u == 0x20
    ||| u == 0x85
    ||| u == 0xA0
    ||| u == 0x1680
    ||| 0x2000 <= u <= 0x200A
    ||| u == 0x2028
    ||| u == 0x2029
    ||| u == 0x202F
    ||| u == 0x205F
    ||| u == 0x3000
}

/// Whether `c` has the Unicode `White_Space` property.
pub fn white_space(c: char) -> (b: bool)
    ensures
        b == is_white_space(c),
{
    let u = c as u32;
    (0x9 <= u && u <= 0xD) || u == 0x20 || u == 0x85 || u == 0xA0 || u == 0x1680 || (0x2000 <= u
        && u <= 0x200A) || u == 0x2028 || u == 0x2029 || u == 0x202F || u == 0x205F || u == 0x3000
}

/// `s` without its leading white space.
pub open spec fn trim_start_spec(s: Seq<char>) -> Seq<char>
    decreases s.len(),
{
    if s.len() > 0 && is_white_space(s[0]) {
        trim_start_spec(s.drop_first())
    } else {
        s
    }
}

/// `s` without its trailing white space.
pub open spec fn trim_end_spec(s: Seq<char>) -> Seq<char>
    decreases s.len(),
{
    if s.len() > 0 && is_white_space(s.last()) {
        trim_end_spec(s.drop_last())
    } else {
        s
    }
}

/// `s` without leading and trailing white space, as `str::trim` gives it.
pub open spec fn trim_spec(s: Seq<char>) -> Seq<char> {
    trim_end_spec(trim_start_spec(s))
}

proof fn lemma_trim_start_skips(s: Seq<char>, i: int)
    requires
        0 <= i <= s.len(),
        forall|k: int| 0 <= k < i ==> is_white_space(#[trigger] s[k]),
    ensures
        trim_start_spec(s) == trim_start_spec(s.subrange(i, s.len() as int)),
    decreases i,
{
    if i > 0 {
        lemma_trim_start_skips(s.drop_first(), i - 1);
        assert(s.drop_first().subrange(i - 1, s.drop_first().len() as int) == s.subrange(i, s.len() as int));
    } else {
        assert(s.subrange(0, s.len() as int) == s);
    }
}

proof fn lemma_trim_end_skips(s: Seq<char>, j: int)
    requires
        0 <= j <= s.len(),
        forall|k: int| j <= k < s.len() ==> is_white_space(#[trigger] s[k]),
    ensures
        trim_end_spec(s) == trim_end_spec(s.subrange(0, j)),
    decreases s.len() - j,
{
    if j < s.len() {
        lemma_trim_end_skips(s.drop_last(), j);
        assert(s.drop_last().subrange(0, j) == s.subrange(0, j));
    } else {
        assert(s.subrange(0, s.len() as int) == s);
    }
}

/// Returns `s` with leading and trailing white space removed.
pub fn trim(s: &str) -> (t: String)
    ensures
        t@ == trim_spec(s@),
{
    let n = s.unicode_len();
    let mut i: usize = 0;
    while i < n && white_space(s.get_char(i))
        invariant
            n == s@.len(),
            i <= n,
            forall|k: int| 0 <= k < i ==> is_white_space(#[trigger] s@[k]),
        decreases n - i,
    {
        i = i + 1;
    }
    let ghost rest = s@.subrange(i as int, n as int);
    proof {
        lemma_trim_start_skips(s@, i as int);
        assert(rest.len() > 0 ==> !is_white_space(rest[0]));
        assert(trim_start_spec(rest) == rest);
    }
    let mut j: usize = n;
    while j > i && white_space(s.get_char(j - 1))
        invariant
            n == s@.len(),
            i <= j <= n,
            rest == s@.subrange(i as int, n as int),
            forall|k: int| j <= k < n ==> is_white_space(#[trigger] s@[k]),
        decreases j,
    {
        j = j - 1;
    }
    proof {
        assert forall|k: int| j - i <= k < rest.len() implies is_white_space(#[trigger] rest[k]) by {
            assert(rest[k] == s@[k + i]);
        }
        lemma_trim_end_skips(rest, j - i);
        let kept = rest.subrange(0, j - i);
        if kept.len() > 0 {
            assert(kept.last() == s@[j - 1]);
        }
        assert(trim_end_spec(kept) == kept);
    }
    let mut t = String::new();
    let mut k: usize = i;
    while k < j
        invariant
            n == s@.len(),
            i <= k <= j <= n,
            t@ == s@.subrange(i as int, k as int),
        decreases j - k,
    {
        let c = s.get_char(k);
        push_char(&mut t, c);
        assert(s@.subrange(i as int, k + 1) == s@.subrange(i as int, k as int).push(c));
        k = k + 1;
    }
    assert(t@ == rest.subrange(0, j - i));
    t
}

/// The classes of `items` joined as `tailwind_fuse::tw_join!` joins them:
/// each item trimmed, empty ones left out, the rest separated by one space.
pub open spec fn join_classes_spec(items: Seq<Seq<char>>) -> Seq<char>
    decreases items.len(),
{
    if items.len() == 0 {
        Seq::empty()
    } else {
        let acc = join_classes_spec(items.drop_last());
        let t = trim_spec(items.last());
        if t.len() == 0 {
            acc
        } else if acc.len() == 0 {
            t
        } else {
            acc + seq![' '] + t
        }
    }
}

/// Joining a single class list gives that list trimmed, so `tw_join!`
/// with one item agrees with the general case.
pub proof fn lemma_join_single(class: Seq<char>)
    ensures
        join_classes_spec(seq![class]) == trim_spec(class),
{
    let items = seq![class];
    assert(items.drop_last() =~= Seq::<Seq<char>>::empty());
    assert(join_classes_spec(items.drop_last()).len() == 0);
    assert(items.last() == class);
}

/// A class list as it follows earlier classes in a join: a space and the
/// list trimmed, or nothing when the trimmed list is empty.
pub open spec fn spaced(class: Seq<char>) -> Seq<char> {
    if trim_spec(class).len() == 0 {
        Seq::empty()
    } else {
        seq![' '] + trim_spec(class)
    }
}

/// Joining one more class list after a non-empty join adds that list,
/// trimmed and after a space, at the end, and changes nothing before it.
pub proof fn lemma_join_push(items: Seq<Seq<char>>, class: Seq<char>)
    requires
        join_classes_spec(items).len() > 0,
    ensures
        join_classes_spec(items.push(class)) == join_classes_spec(items) + spaced(class),
{
    let all = items.push(class);
    assert(all.drop_last() =~= items);
    assert(all.last() == class);
    if trim_spec(class).len() == 0 {
        assert(join_classes_spec(items) + Seq::<char>::empty() =~= join_classes_spec(items));
    }
}

/// A list with no white space at either end is its own trim.
pub proof fn lemma_trim_untouched(s: Seq<char>)
    requires
        s.len() > 0,
        !is_white_space(s[0]),
        !is_white_space(s.last()),
    ensures
        trim_spec(s) == s,
{
    assert(trim_start_spec(s) == s);
}

/// Joining after a first list that needs no trimming: the first list, then
/// each further list trimmed and after a space (empty ones left out).
pub proof fn lemma_join_after(first: Seq<char>, a: Seq<char>, b: Seq<char>)
    requires
        first.len() > 0,
        trim_spec(first) == first,
    ensures
        join_classes_spec(seq![first, a]) == first + spaced(a),
        join_classes_spec(seq![first, a, b]) == first + spaced(a) + spaced(b),
{
    lemma_join_single(first);
    assert(seq![first].push(a) =~= seq![first, a]);
    lemma_join_push(seq![first], a);
    assert(seq![first, a].push(b) =~= seq![first, a, b]);
    lemma_join_push(seq![first, a], b);
}

/// The views of a list of string slices.
pub open spec fn str_views(items: Seq<&str>) -> Seq<Seq<char>> {
    items.map_values(|s: &str| s@)
}

/// Joins class lists: each trimmed, empty ones dropped, separated by one space.
pub fn join_classes(items: &[&str]) -> (joined: String)
    ensures
        joined@ == join_classes_spec(str_views(items@)),
{
    let mut acc = String::new();
    let mut i: usize = 0;
    while i < items.len()
        invariant
            i <= items@.len(),
            acc@ == join_classes_spec(str_views(items@).subrange(0, i as int)),
        decreases items@.len() - i,
    {
        let t = trim(items[i]);
        let ghost before = acc@;
        if !t.as_str().is_empty() {
            if !acc.as_str().is_empty() {
                push_char(&mut acc, ' ');
            }
            acc.append(t.as_str());
        }
        let ghost prefix = str_views(items@).subrange(0, i + 1);
        assert(prefix.drop_last() == str_views(items@).subrange(0, i as int));
        assert(prefix.last() == items@[i as int]@);
        i = i + 1;
    }
    assert(str_views(items@).subrange(0, items@.len() as int) == str_views(items@));
    acc
}

} // verus!
