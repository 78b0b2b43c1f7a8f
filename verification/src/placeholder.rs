//! Placeholders in directory values, and why resolving them leaves none.

use vstd::prelude::*;

use crate::dirs_config::{opt_slash_terminated, slash_terminated, DirsConfigView};
use crate::text::{occurs, occurs_at, replaced};

verus! {

/// Whether the character may stand in the name of a placeholder.
pub open spec fn is_name_char(c: char) -> bool {
    ('a' <= c && c <= 'z') || ('A' <= c && c <= 'Z') || c == '_'
}

/// Whether the text holds no `@` at all.
pub open spec fn plain(s: Seq<char>) -> bool {
    forall|i: int| 0 <= i < s.len() ==> s[i] != '@'
}

/// Whether the text is a placeholder: a name of letters and underscores
/// between two `@`.
pub open spec fn is_token(t: Seq<char>) -> bool {
    &&& t.len() >= 3
    &&& t[0] == '@'
    &&& t[t.len() - 1] == '@'
    &&& forall|i: int| 0 < i < t.len() - 1 ==> is_name_char(#[trigger] t[i])
}

/// Whether the text between the indices `i` and `j` is a placeholder.
pub open spec fn placeholder_at(s: Seq<char>, i: int, j: int) -> bool {
    &&& 0 <= i
    &&& i + 1 < j < s.len()
    &&& s[i] == '@'
    &&& s[j] == '@'
    &&& forall|k: int| i < k < j ==> is_name_char(#[trigger] s[k])
}

/// Whether some part of the text is a placeholder.
pub open spec fn has_placeholder(s: Seq<char>) -> bool {
    exists|i: int, j: int| placeholder_at(s, i, j)
}

/// Whether the text is the placeholder `t` at the index `i` with plain
/// text before and after it.
pub open spec fn single_at(s: Seq<char>, t: Seq<char>, i: int) -> bool {
    &&& occurs_at(s, t, i)
    &&& plain(s.subrange(0, i))
    &&& plain(s.subrange(i + t.len(), s.len() as int))
}

/// Whether the text holds the placeholder `t` once and no other `@`.
pub open spec fn single(s: Seq<char>, t: Seq<char>) -> bool {
    exists|i: int| single_at(s, t, i)
}

/// Whether the value holds no placeholder, or holds one, which is `a` or
/// `b`, between text without any `@`.
pub open spec fn holds_either(s: Seq<char>, a: Seq<char>, b: Seq<char>) -> bool {
    !has_placeholder(s) || single(s, a) || single(s, b)
}

/// Whether the directory, where it is set, holds no placeholder or one,
/// which is `a` or `b`.
pub open spec fn fits(value: Option<Seq<char>>, a: Seq<char>, b: Seq<char>) -> bool {
    value.is_some() ==> holds_either(value.unwrap(), a, b)
}

/// Whether the directory, where it is set, holds no placeholder.
pub open spec fn free(value: Option<Seq<char>>) -> bool {
    value.is_some() ==> !has_placeholder(value.unwrap())
}

/// Whether the text is made of the placeholder `t` and of text without any
/// `@`: going from the left, every `@` begins an occurrence of `t`.
pub open spec fn parsed(s: Seq<char>, t: Seq<char>) -> bool
    decreases s.len(),
{
    if s.len() == 0 {
        true
    } else if s[0] != '@' {
        parsed(s.skip(1), t)
    } else {
        t.len() > 0 && occurs_at(s, t, 0) && parsed(s.skip(t.len() as int), t)
    }
}

/// Whether the text is made of the placeholders `a` and `b` and of text
/// without any `@`: going from the left, every `@` begins an occurrence of
/// `a` or of `b`, and no `a` begins at the `@` that ends a `b`.
pub open spec fn parsed_both(s: Seq<char>, a: Seq<char>, b: Seq<char>) -> bool
    decreases s.len(),
{
    if s.len() == 0 {
        true
    } else if s[0] != '@' {
        parsed_both(s.skip(1), a, b)
    } else if a.len() > 0 && occurs_at(s, a, 0) {
        parsed_both(s.skip(a.len() as int), a, b)
    } else {
        b.len() > 0 && occurs_at(s, b, 0) && !occurs_at(s, a, b.len() - 1) && parsed_both(
            s.skip(b.len() as int),
            a,
            b,
        )
    }
}

/// Whether the directory is set and made of the placeholder `t` and of text
/// without any `@`.
pub open spec fn parses(value: Option<Seq<char>>, t: Seq<char>) -> bool {
    value.is_some() && parsed(value.unwrap(), t)
}

/// Whether the directory is set and made of the placeholders `a` and `b`
/// and of text without any `@`.
pub open spec fn parses_both(value: Option<Seq<char>>, a: Seq<char>, b: Seq<char>) -> bool {
    value.is_some() && parsed_both(value.unwrap(), a, b)
}

/// Plain text holds no placeholder.
pub proof fn lemma_plain_has_no_placeholder(s: Seq<char>)
    requires
        plain(s),
    ensures
        !has_placeholder(s),
{
    assert forall|i: int, j: int| !placeholder_at(s, i, j) by {
        if placeholder_at(s, i, j) {
            assert(s[i] == '@');
        }
    }
}

/// Replacing a placeholder in plain text changes nothing.
pub proof fn lemma_plain_unchanged(s: Seq<char>, needle: Seq<char>, with: Seq<char>)
    requires
        plain(s),
        needle.len() > 0,
        needle[0] == '@',
    ensures
        replaced(s, needle, with) == s,
    decreases s.len(),
{
    if s.len() >= needle.len() {
        assert(s.subrange(0, needle.len() as int)[0] == s[0]);
        let rest = s.subrange(1, s.len() as int);
        assert forall|i: int| 0 <= i < rest.len() implies rest[i] != '@' by {
            assert(rest[i] == s[i + 1]);
        }
        lemma_plain_unchanged(rest, needle, with);
        assert(seq![s[0]] + rest =~= s);
    }
}

/// Replacing a placeholder that the text holds once, between plain text,
/// puts the replacement in its place.
pub proof fn lemma_single_replaced(s: Seq<char>, t: Seq<char>, with: Seq<char>, i: int)
    requires
        is_token(t),
        single_at(s, t, i),
    ensures
        replaced(s, t, with) == s.subrange(0, i) + with + s.subrange(
            i + t.len(),
            s.len() as int,
        ),
    decreases i,
{
    let n = t.len() as int;
    let len = s.len() as int;
    let suffix = s.subrange(i + n, len);
    if i == 0 {
        lemma_plain_unchanged(suffix, t, with);
        assert(s.subrange(0, 0) + with + suffix =~= with + suffix);
    } else {
        assert(s.subrange(0, i)[0] == s[0]);
        assert(s.subrange(0, n)[0] == s[0]);
        let rest = s.subrange(1, len);
        assert(rest.subrange(i - 1, i - 1 + n) =~= s.subrange(i, i + n));
        assert(rest.subrange(i - 1 + n, rest.len() as int) =~= suffix);
        let before = rest.subrange(0, i - 1);
        assert forall|k: int| 0 <= k < before.len() implies before[k] != '@' by {
            assert(before[k] == s.subrange(0, i)[k + 1]);
        }
        assert(single_at(rest, t, i - 1));
        lemma_single_replaced(rest, t, with, i - 1);
        assert(seq![s[0]] + (before + with + suffix) =~= s.subrange(0, i) + with + suffix);
    }
}

/// Replacing what does not occur changes nothing.
pub proof fn lemma_absent_unchanged(s: Seq<char>, needle: Seq<char>, with: Seq<char>)
    requires
        needle.len() > 0,
        !occurs(s, needle),
    ensures
        replaced(s, needle, with) == s,
    decreases s.len(),
{
    if s.len() >= needle.len() {
        assert(!occurs_at(s, needle, 0));
        let rest = s.subrange(1, s.len() as int);
        assert forall|j: int| !occurs_at(rest, needle, j) by {
            if occurs_at(rest, needle, j) {
                assert(rest.subrange(j, j + needle.len()) =~= s.subrange(
                    j + 1,
                    j + 1 + needle.len(),
                ));
                assert(occurs_at(s, needle, j + 1));
            }
        }
        lemma_absent_unchanged(rest, needle, with);
        assert(seq![s[0]] + rest =~= s);
    }
}

/// In a text that holds one placeholder and no other `@`, an `@` is the
/// first or the last character of the placeholder.
pub proof fn lemma_at_sign_positions(s: Seq<char>, t: Seq<char>, i: int, k: int)
    requires
        is_token(t),
        single_at(s, t, i),
        0 <= k < s.len(),
        s[k] == '@',
    ensures
        k == i || k == i + t.len() - 1,
{
    let m = t.len() as int;
    if k < i {
        assert(s.subrange(0, i)[k] == s[k]);
    } else if k >= i + m {
        assert(s.subrange(i + m, s.len() as int)[k - i - m] == s[k]);
    } else {
        assert(s.subrange(i, i + m)[k - i] == s[k]);
        if 0 < k - i < m - 1 {
            assert(is_name_char(t[k - i]));
        }
    }
}

/// Replacing a placeholder in a text that holds only another one changes
/// nothing.
pub proof fn lemma_other_token_unchanged(
    s: Seq<char>,
    other: Seq<char>,
    i: int,
    t: Seq<char>,
    with: Seq<char>,
)
    requires
        is_token(t),
        is_token(other),
        t != other,
        single_at(s, other, i),
    ensures
        replaced(s, t, with) == s,
{
    let n = t.len() as int;
    let m = other.len() as int;
    assert forall|j: int| !occurs_at(s, t, j) by {
        if occurs_at(s, t, j) {
            assert(s.subrange(j, j + n)[0] == s[j]);
            assert(s.subrange(j, j + n)[n - 1] == s[j + n - 1]);
            lemma_at_sign_positions(s, other, i, j);
            lemma_at_sign_positions(s, other, i, j + n - 1);
            assert(n == m);
            assert(s.subrange(i, i + m) == other);
            assert(false);
        }
    }
    lemma_absent_unchanged(s, t, with);
}

/// Plain text around a plain replacement is plain.
pub proof fn lemma_plain_concat(a: Seq<char>, b: Seq<char>, c: Seq<char>)
    requires
        plain(a),
        plain(b),
        plain(c),
    ensures
        plain(a + b + c),
{
    assert forall|i: int| 0 <= i < (a + b + c).len() implies (a + b + c)[i] != '@' by {
        if i < a.len() {
            assert((a + b + c)[i] == a[i]);
        } else if i < a.len() + b.len() {
            assert((a + b + c)[i] == b[i - a.len()]);
        } else {
            assert((a + b + c)[i] == c[i - a.len() - b.len()]);
        }
    }
}

/// A placeholder does not occur in a text that holds none.
pub proof fn lemma_token_absent(s: Seq<char>, t: Seq<char>)
    requires
        is_token(t),
        !has_placeholder(s),
    ensures
        !occurs(s, t),
{
    let n = t.len() as int;
    assert forall|i: int| !occurs_at(s, t, i) by {
        if occurs_at(s, t, i) {
            assert(s.subrange(i, i + n)[0] == s[i]);
            assert(s.subrange(i, i + n)[n - 1] == s[i + n - 1]);
            assert forall|k: int| i < k < i + n - 1 implies is_name_char(#[trigger] s[k]) by {
                assert(s.subrange(i, i + n)[k - i] == s[k]);
                assert(is_name_char(t[k - i]));
            }
            assert(placeholder_at(s, i, i + n - 1));
        }
    }
}

/// Replacing a placeholder in a text that holds none changes nothing.
pub proof fn lemma_free_unchanged(s: Seq<char>, t: Seq<char>, with: Seq<char>)
    requires
        is_token(t),
        !has_placeholder(s),
    ensures
        replaced(s, t, with) == s,
{
    lemma_token_absent(s, t);
    lemma_absent_unchanged(s, t, with);
}

/// A text without placeholder between texts without any `@` holds no
/// placeholder.
pub proof fn lemma_free_between(before: Seq<char>, v: Seq<char>, after: Seq<char>)
    requires
        plain(before),
        plain(after),
        !has_placeholder(v),
    ensures
        !has_placeholder(before + v + after),
{
    let r = before + v + after;
    let off = before.len() as int;
    assert forall|i: int, j: int| !placeholder_at(r, i, j) by {
        if placeholder_at(r, i, j) {
            if i < off {
                assert(r[i] == before[i]);
            } else if i >= off + v.len() {
                assert(r[i] == after[i - off - v.len()]);
            }
            if j < off {
                assert(r[j] == before[j]);
            } else if j >= off + v.len() {
                assert(r[j] == after[j - off - v.len()]);
            }
            assert(r[i] == v[i - off]);
            assert(r[j] == v[j - off]);
            assert forall|k: int| i - off < k < j - off implies is_name_char(#[trigger] v[k]) by {
                assert(r[k + off] == v[k]);
                assert(is_name_char(r[k + off]));
            }
            assert(placeholder_at(v, i - off, j - off));
        }
    }
}

/// A value that holds at most the placeholder `t` holds no placeholder once
/// `t` is replaced by a text that holds none.
pub proof fn lemma_one_pass(s: Seq<char>, t: Seq<char>, with: Seq<char>)
    requires
        is_token(t),
        !has_placeholder(with),
        holds_either(s, t, t),
    ensures
        !has_placeholder(replaced(s, t, with)),
{
    if !has_placeholder(s) {
        lemma_free_unchanged(s, t, with);
    } else {
        let i = choose|i: int| single_at(s, t, i);
        lemma_single_replaced(s, t, with, i);
        lemma_free_between(s.subrange(0, i), with, s.subrange(i + t.len(), s.len() as int));
    }
}

/// A value that holds at most one of two placeholders holds no placeholder
/// once both are replaced, one after the other, by texts that hold none.
pub proof fn lemma_two_passes(
    s: Seq<char>,
    a: Seq<char>,
    with_a: Seq<char>,
    b: Seq<char>,
    with_b: Seq<char>,
)
    requires
        is_token(a),
        is_token(b),
        a != b,
        !has_placeholder(with_a),
        !has_placeholder(with_b),
        holds_either(s, a, b),
    ensures
        !has_placeholder(replaced(replaced(s, a, with_a), b, with_b)),
{
    if !has_placeholder(s) || single(s, a) {
        lemma_one_pass(s, a, with_a);
        lemma_free_unchanged(replaced(s, a, with_a), b, with_b);
    } else {
        let i = choose|i: int| single_at(s, b, i);
        lemma_other_token_unchanged(s, b, i, a, with_a);
        lemma_one_pass(s, b, with_b);
    }
}

/// Putting a separator at the end of a value that holds no placeholder
/// gives it none.
pub proof fn lemma_slash_adds_no_placeholder(s: Seq<char>)
    requires
        !has_placeholder(s),
    ensures
        !has_placeholder(slash_terminated(s)),
{
    reveal_strlit("/");
    let t = slash_terminated(s);
    if t != s {
        assert(t =~= s + "/"@);
        assert forall|i: int, j: int| !placeholder_at(t, i, j) by {
            if placeholder_at(t, i, j) {
                assert(t[j] == s[j]);
                assert(t[i] == s[i]);
                assert forall|k: int| i < k < j implies is_name_char(#[trigger] s[k]) by {
                    assert(t[k] == s[k]);
                }
                assert(placeholder_at(s, i, j));
            }
        }
    }
}

/// Putting a separator at the end of a value keeps it without placeholder,
/// and keeps the one placeholder it holds.
pub proof fn lemma_slash_keeps(s: Seq<char>, a: Seq<char>, b: Seq<char>)
    requires
        holds_either(s, a, b),
    ensures
        holds_either(slash_terminated(s), a, b),
{
    reveal_strlit("/");
    let t = slash_terminated(s);
    if t != s {
        assert(t =~= s + "/"@);
        if !has_placeholder(s) {
            lemma_slash_adds_no_placeholder(s);
        } else {
            let x = if single(s, a) {
                a
            } else {
                b
            };
            let i = choose|i: int| single_at(s, x, i);
            assert(t.subrange(i, i + x.len()) =~= s.subrange(i, i + x.len()));
            assert(t.subrange(0, i) =~= s.subrange(0, i));
            let after = t.subrange(i + x.len(), t.len() as int);
            let was = s.subrange(i + x.len(), s.len() as int);
            assert forall|k: int| 0 <= k < after.len() implies after[k] != '@' by {
                if k < was.len() {
                    assert(after[k] == was[k]);
                }
            }
            assert(single_at(t, x, i));
        }
    }
}

/// Putting a separator at the end of a directory that is set keeps it
/// fitting.
pub proof fn lemma_slash_fits(value: Option<Seq<char>>, a: Seq<char>, b: Seq<char>)
    requires
        fits(value, a, b),
    ensures
        fits(opt_slash_terminated(value), a, b),
{
    if value.is_some() {
        lemma_slash_keeps(value.unwrap(), a, b);
    }
}

/// Putting a separator at the end of a directory that is set and holds no
/// placeholder gives it none.
pub proof fn lemma_slash_free(value: Option<Seq<char>>)
    requires
        free(value),
    ensures
        free(opt_slash_terminated(value)),
{
    if value.is_some() {
        lemma_slash_adds_no_placeholder(value.unwrap());
    }
}

/// Where the needle occurs at none of the first `k` indices, replacing
/// leaves the first `k` characters as they are.
pub proof fn lemma_no_match_prefix(s: Seq<char>, needle: Seq<char>, with: Seq<char>, k: int)
    requires
        needle.len() > 0,
        0 <= k <= s.len(),
        forall|j: int| 0 <= j < k ==> !occurs_at(s, needle, j),
    ensures
        replaced(s, needle, with) == s.take(k) + replaced(s.skip(k), needle, with),
    decreases k,
{
    if k == 0 {
        assert(s.skip(0) =~= s);
        assert(s.take(0) + s =~= s);
    } else if s.len() < needle.len() {
        assert(s.take(k) + s.skip(k) =~= s);
    } else {
        assert(!occurs_at(s, needle, 0));
        let rest = s.subrange(1, s.len() as int);
        assert forall|j: int| 0 <= j < k - 1 implies !occurs_at(rest, needle, j) by {
            if occurs_at(rest, needle, j) {
                assert(rest.subrange(j, j + needle.len()) =~= s.subrange(
                    j + 1,
                    j + 1 + needle.len(),
                ));
                assert(occurs_at(s, needle, j + 1));
            }
        }
        lemma_no_match_prefix(rest, needle, with, k - 1);
        assert(rest.skip(k - 1) =~= s.skip(k));
        assert(seq![s[0]] + (rest.take(k - 1) + replaced(s.skip(k), needle, with)) =~= s.take(k)
            + replaced(s.skip(k), needle, with));
    }
}

/// Text without any `@` before a text made of the placeholder `t` gives a
/// text made of `t`.
pub proof fn lemma_plain_then_parsed(before: Seq<char>, s: Seq<char>, t: Seq<char>)
    requires
        plain(before),
        parsed(s, t),
    ensures
        parsed(before + s, t),
    decreases before.len(),
{
    if before.len() == 0 {
        assert(before + s =~= s);
    } else {
        let all = before + s;
        assert(all[0] == before[0]);
        let rest = before.skip(1);
        assert forall|i: int| 0 <= i < rest.len() implies rest[i] != '@' by {
            assert(rest[i] == before[i + 1]);
        }
        lemma_plain_then_parsed(rest, s, t);
        assert(all.skip(1) =~= rest + s);
    }
}

/// Replacing the placeholder `t` by text without any `@`, in a text made of
/// `t` and of text without any `@`, leaves no `@`.
pub proof fn lemma_parsed_pass(s: Seq<char>, t: Seq<char>, with: Seq<char>)
    requires
        is_token(t),
        plain(with),
        parsed(s, t),
    ensures
        plain(replaced(s, t, with)),
    decreases s.len(),
{
    let n = t.len() as int;
    if s.len() > 0 {
        if s[0] != '@' {
            assert(!occurs_at(s, t, 0)) by {
                if occurs_at(s, t, 0) {
                    assert(s.subrange(0, n)[0] == s[0]);
                }
            }
            lemma_no_match_prefix(s, t, with, 1);
            lemma_parsed_pass(s.skip(1), t, with);
            assert(plain(s.take(1))) by {
                assert(s.take(1)[0] == s[0]);
            }
            lemma_plain_concat(s.take(1), replaced(s.skip(1), t, with), Seq::empty());
            assert(s.take(1) + replaced(s.skip(1), t, with) + Seq::<char>::empty() =~= s.take(1)
                + replaced(s.skip(1), t, with));
        } else {
            assert(s.skip(n) =~= s.subrange(n, s.len() as int));
            lemma_parsed_pass(s.skip(n), t, with);
            lemma_plain_concat(with, replaced(s.skip(n), t, with), Seq::empty());
            assert(with + replaced(s.skip(n), t, with) + Seq::<char>::empty() =~= with + replaced(
                s.skip(n),
                t,
                with,
            ));
        }
    }
}

/// Replacing the placeholder `a` by text without any `@`, in a text made of
/// `a`, `b` and text without any `@`, gives a text made of `b` and of text
/// without any `@`.
pub proof fn lemma_first_pass(s: Seq<char>, a: Seq<char>, with: Seq<char>, b: Seq<char>)
    requires
        is_token(a),
        is_token(b),
        a != b,
        plain(with),
        parsed_both(s, a, b),
    ensures
        parsed(replaced(s, a, with), b),
    decreases s.len(),
{
    let n = a.len() as int;
    let m = b.len() as int;
    if s.len() > 0 {
        if s[0] != '@' {
            assert(!occurs_at(s, a, 0)) by {
                if occurs_at(s, a, 0) {
                    assert(s.subrange(0, n)[0] == s[0]);
                }
            }
            lemma_no_match_prefix(s, a, with, 1);
            lemma_first_pass(s.skip(1), a, with, b);
            assert(plain(s.take(1))) by {
                assert(s.take(1)[0] == s[0]);
            }
            lemma_plain_then_parsed(s.take(1), replaced(s.skip(1), a, with), b);
        } else if occurs_at(s, a, 0) {
            assert(s.skip(n) =~= s.subrange(n, s.len() as int));
            lemma_first_pass(s.skip(n), a, with, b);
            lemma_plain_then_parsed(with, replaced(s.skip(n), a, with), b);
        } else {
            assert forall|j: int| 0 <= j < m implies !occurs_at(s, a, j) by {
                if 0 < j < m - 1 && occurs_at(s, a, j) {
                    assert(s.subrange(j, j + n)[0] == s[j]);
                    assert(s.subrange(0, m)[j] == s[j]);
                    assert(is_name_char(b[j]));
                }
            }
            lemma_no_match_prefix(s, a, with, m);
            lemma_first_pass(s.skip(m), a, with, b);
            let rest = replaced(s.skip(m), a, with);
            let r = s.take(m) + rest;
            assert(s.take(m) =~= b);
            assert(r.subrange(0, m) =~= b);
            assert(r.skip(m) =~= rest);
            assert(r[0] == '@');
        }
    }
}

/// A value made of two placeholders and of text without any `@` holds no
/// `@` once both are replaced, one after the other, by text without any.
pub proof fn lemma_both_passes(
    s: Seq<char>,
    a: Seq<char>,
    with_a: Seq<char>,
    b: Seq<char>,
    with_b: Seq<char>,
)
    requires
        is_token(a),
        is_token(b),
        a != b,
        plain(with_a),
        plain(with_b),
        parsed_both(s, a, b),
    ensures
        plain(replaced(replaced(s, a, with_a), b, with_b)),
{
    lemma_first_pass(s, a, with_a, b);
    lemma_parsed_pass(replaced(s, a, with_a), b, with_b);
}

/// Whether the directory is unset or holds no `@`.
pub open spec fn may_be_plain(value: Option<Seq<char>>) -> bool {
    value.is_some() ==> plain(value.unwrap())
}

/// Whether the directory is unset or made of the placeholders `a` and `b`
/// and of text without any `@`.
pub open spec fn may_parse(value: Option<Seq<char>>, a: Seq<char>, b: Seq<char>) -> bool {
    value.is_some() ==> parsed_both(value.unwrap(), a, b)
}

/// A text made of one placeholder, given twice, is made of that
/// placeholder.
pub proof fn lemma_parsed_both_same(s: Seq<char>, t: Seq<char>)
    requires
        parsed_both(s, t, t),
    ensures
        parsed(s, t),
    decreases s.len(),
{
    if s.len() > 0 {
        if s[0] != '@' {
            lemma_parsed_both_same(s.skip(1), t);
        } else {
            lemma_parsed_both_same(s.skip(t.len() as int), t);
        }
    }
}

/// Text without any `@` is made of whatever placeholders.
pub proof fn lemma_plain_is_parsed(s: Seq<char>, a: Seq<char>, b: Seq<char>)
    requires
        plain(s),
    ensures
        parsed_both(s, a, b),
    decreases s.len(),
{
    if s.len() > 0 {
        let rest = s.skip(1);
        assert forall|i: int| 0 <= i < rest.len() implies rest[i] != '@' by {
            assert(rest[i] == s[i + 1]);
        }
        lemma_plain_is_parsed(rest, a, b);
    }
}

/// A placeholder followed by text without any `@` is made of placeholders.
pub proof fn lemma_token_first(s: Seq<char>, a: Seq<char>, b: Seq<char>, t: Seq<char>)
    requires
        is_token(a),
        is_token(b),
        t == a || t == b,
        single_at(s, t, 0),
    ensures
        parsed_both(s, a, b),
{
    let n = a.len() as int;
    let m = t.len() as int;
    assert(s.subrange(0, m)[0] == s[0]);
    assert(s.skip(m) =~= s.subrange(m, s.len() as int));
    lemma_plain_is_parsed(s.skip(m), a, b);
    if !occurs_at(s, a, 0) {
        assert(t == b);
        if occurs_at(s, a, m - 1) {
            assert(s.subrange(m - 1, m - 1 + n)[n - 1] == s[m - 1 + n - 1]);
            lemma_at_sign_positions(s, t, 0, m - 1 + n - 1);
        }
    } else if t != a {
        assert(s.subrange(0, n)[n - 1] == s[n - 1]);
        lemma_at_sign_positions(s, t, 0, n - 1);
        assert(n == m);
        assert(false);
    }
}

/// A character other than `@` at the end of a text made of placeholders
/// leaves it made of them.
pub proof fn lemma_push_keeps_parsed(s: Seq<char>, c: char, a: Seq<char>, b: Seq<char>)
    requires
        is_token(a),
        is_token(b),
        c != '@',
        parsed_both(s, a, b),
    ensures
        parsed_both(s.push(c), a, b),
    decreases s.len(),
{
    let p = s.push(c);
    let n = a.len() as int;
    let m = b.len() as int;
    if s.len() == 0 {
        assert(p[0] == c);
        assert(p.skip(1).len() == 0);
        assert(parsed_both(p.skip(1), a, b));
        assert(parsed_both(p, a, b));
    } else if s[0] != '@' {
        assert(p[0] == s[0]);
        lemma_push_keeps_parsed(s.skip(1), c, a, b);
        assert(p.skip(1) =~= s.skip(1).push(c));
        assert(parsed_both(p, a, b));
    } else {
        assert(p[0] == '@');
        if occurs_at(p, a, 0) && !occurs_at(s, a, 0) {
            if n <= s.len() {
                assert(p.subrange(0, n) =~= s.subrange(0, n));
            } else {
                assert(p.subrange(0, n)[n - 1] == p[n - 1]);
            }
            assert(false);
        }
        if occurs_at(s, a, 0) {
            assert(p.subrange(0, n) =~= s.subrange(0, n));
            lemma_push_keeps_parsed(s.skip(n), c, a, b);
            assert(p.skip(n) =~= s.skip(n).push(c));
            assert(occurs_at(p, a, 0));
            assert(parsed_both(p, a, b));
        } else {
            assert(p.subrange(0, m) =~= s.subrange(0, m));
            if occurs_at(p, a, m - 1) {
                if m - 1 + n <= s.len() {
                    assert(p.subrange(m - 1, m - 1 + n) =~= s.subrange(m - 1, m - 1 + n));
                } else {
                    assert(p.subrange(m - 1, m - 1 + n)[n - 1] == p[m - 1 + n - 1]);
                }
                assert(false);
            }
            lemma_push_keeps_parsed(s.skip(m), c, a, b);
            assert(p.skip(m) =~= s.skip(m).push(c));
            assert(occurs_at(p, b, 0));
            assert(!occurs_at(p, a, 0));
            assert(!occurs_at(p, a, m - 1));
            assert(parsed_both(p, a, b));
        }
    }
}

/// Putting a separator at the end of a directory that is set keeps it made
/// of its placeholders.
pub proof fn lemma_slash_parses(value: Option<Seq<char>>, a: Seq<char>, b: Seq<char>)
    requires
        is_token(a),
        is_token(b),
        may_parse(value, a, b),
    ensures
        may_parse(opt_slash_terminated(value), a, b),
{
    reveal_strlit("/");
    if value.is_some() {
        let s = value.unwrap();
        if slash_terminated(s) != s {
            assert(slash_terminated(s) =~= s.push('/'));
            lemma_push_keeps_parsed(s, '/', a, b);
        }
    }
}

/// Putting a separator at the end of a directory that is set and holds no
/// `@` gives it none.
pub proof fn lemma_slash_plain(value: Option<Seq<char>>)
    requires
        may_be_plain(value),
    ensures
        may_be_plain(opt_slash_terminated(value)),
{
    reveal_strlit("/");
    if value.is_some() {
        let s = value.unwrap();
        let t = slash_terminated(s);
        if t != s {
            assert(t =~= s + "/"@);
            assert forall|k: int| 0 <= k < t.len() implies t[k] != '@' by {
                if k < s.len() {
                    assert(t[k] == s[k]);
                }
            }
        }
    }
}

impl DirsConfigView {
    /// Whether no set directory holds a placeholder.
    pub open spec fn placeholder_free(self) -> bool {
        &&& free(self.prefix)
        &&& free(self.exec_prefix)
        &&& free(self.bindir)
        &&& free(self.sbindir)
        &&& free(self.libdir)
        &&& free(self.libexecdir)
        &&& free(self.datarootdir)
        &&& free(self.datadir)
        &&& free(self.sysconfdir)
        &&& free(self.localstatedir)
        &&& free(self.runstatedir)
        &&& free(self.includedir)
        &&& free(self.docdir)
        &&& free(self.mandir)
        &&& free(self.pam_modulesdir)
        &&& free(self.systemd_unitsdir)
    }

    /// Whether every set directory of a system installation holds no
    /// placeholder, or one, that of a directory it derives from, between
    /// text without any `@`. The prefix derives from nothing.
    pub open spec fn fits_root(self) -> bool {
        &&& free(self.prefix)
        &&& fits(self.exec_prefix, "@prefix@"@, "@prefix@"@)
        &&& fits(self.bindir, "@prefix@"@, "@exec_prefix@"@)
        &&& fits(self.sbindir, "@prefix@"@, "@exec_prefix@"@)
        &&& fits(self.libdir, "@prefix@"@, "@exec_prefix@"@)
        &&& fits(self.libexecdir, "@prefix@"@, "@exec_prefix@"@)
        &&& fits(self.datarootdir, "@prefix@"@, "@prefix@"@)
        &&& fits(self.datadir, "@prefix@"@, "@prefix@"@)
        &&& fits(self.sysconfdir, "@prefix@"@, "@prefix@"@)
        &&& fits(self.localstatedir, "@prefix@"@, "@prefix@"@)
        &&& fits(self.runstatedir, "@prefix@"@, "@localstatedir@"@)
        &&& fits(self.includedir, "@prefix@"@, "@prefix@"@)
        &&& fits(self.docdir, "@prefix@"@, "@datarootdir@"@)
        &&& fits(self.mandir, "@prefix@"@, "@datarootdir@"@)
        &&& fits(self.pam_modulesdir, "@prefix@"@, "@libdir@"@)
        &&& fits(self.systemd_unitsdir, "@prefix@"@, "@libdir@"@)
    }

    /// Whether every directory of a system installation is set and made of
    /// the placeholders of the directories it derives from, any number of
    /// them, and of text without any `@`. The prefix derives from nothing.
    pub open spec fn parses_root(self) -> bool {
        &&& self.prefix.is_some() && plain(self.prefix.unwrap())
        &&& parses(self.exec_prefix, "@prefix@"@)
        &&& parses_both(self.bindir, "@prefix@"@, "@exec_prefix@"@)
        &&& parses_both(self.sbindir, "@prefix@"@, "@exec_prefix@"@)
        &&& parses_both(self.libdir, "@prefix@"@, "@exec_prefix@"@)
        &&& parses_both(self.libexecdir, "@prefix@"@, "@exec_prefix@"@)
        &&& parses(self.datarootdir, "@prefix@"@)
        &&& parses(self.datadir, "@prefix@"@)
        &&& parses(self.sysconfdir, "@prefix@"@)
        &&& parses(self.localstatedir, "@prefix@"@)
        &&& parses_both(self.runstatedir, "@prefix@"@, "@localstatedir@"@)
        &&& parses(self.includedir, "@prefix@"@)
        &&& parses_both(self.docdir, "@prefix@"@, "@datarootdir@"@)
        &&& parses_both(self.mandir, "@prefix@"@, "@datarootdir@"@)
        &&& parses_both(self.pam_modulesdir, "@prefix@"@, "@libdir@"@)
        &&& parses_both(self.systemd_unitsdir, "@prefix@"@, "@libdir@"@)
    }

    /// Whether every set directory of a user installation holds no
    /// placeholder, or one, that of the XDG location it derives from,
    /// between text without any `@`. Only the directories below the data,
    /// configuration and runtime locations derive from one.
    pub open spec fn fits_user(self) -> bool {
        &&& free(self.prefix)
        &&& free(self.exec_prefix)
        &&& free(self.bindir)
        &&& free(self.sbindir)
        &&& free(self.libdir)
        &&& free(self.libexecdir)
        &&& fits(self.datarootdir, "@XDG_DATA_HOME@"@, "@XDG_DATA_HOME@"@)
        &&& fits(self.datadir, "@XDG_DATA_HOME@"@, "@XDG_DATA_HOME@"@)
        &&& fits(self.sysconfdir, "@XDG_CONFIG_HOME@"@, "@XDG_CONFIG_HOME@"@)
        &&& fits(self.localstatedir, "@XDG_DATA_HOME@"@, "@XDG_DATA_HOME@"@)
        &&& fits(self.runstatedir, "@XDG_RUNTIME_DIR@"@, "@XDG_RUNTIME_DIR@"@)
        &&& free(self.includedir)
        &&& free(self.docdir)
        &&& free(self.mandir)
        &&& free(self.pam_modulesdir)
        &&& fits(self.systemd_unitsdir, "@XDG_CONFIG_HOME@"@, "@sysconfdir@"@)
    }

    /// Whether the directories of a user installation that derive from an
    /// XDG location are set and made of the placeholder of their location,
    /// any number of times, and of text without any `@`, and the other set
    /// directories hold no `@`.
    pub open spec fn parses_user(self) -> bool {
        &&& self.prefix.is_some() ==> plain(self.prefix.unwrap())
        &&& self.exec_prefix.is_some() ==> plain(self.exec_prefix.unwrap())
        &&& self.bindir.is_some() ==> plain(self.bindir.unwrap())
        &&& self.sbindir.is_some() ==> plain(self.sbindir.unwrap())
        &&& self.libdir.is_some() ==> plain(self.libdir.unwrap())
        &&& self.libexecdir.is_some() ==> plain(self.libexecdir.unwrap())
        &&& parses(self.datarootdir, "@XDG_DATA_HOME@"@)
        &&& parses(self.datadir, "@XDG_DATA_HOME@"@)
        &&& parses(self.sysconfdir, "@XDG_CONFIG_HOME@"@)
        &&& parses(self.localstatedir, "@XDG_DATA_HOME@"@)
        &&& parses(self.runstatedir, "@XDG_RUNTIME_DIR@"@)
        &&& self.includedir.is_some() ==> plain(self.includedir.unwrap())
        &&& self.docdir.is_some() ==> plain(self.docdir.unwrap())
        &&& self.mandir.is_some() ==> plain(self.mandir.unwrap())
        &&& self.pam_modulesdir.is_some() ==> plain(self.pam_modulesdir.unwrap())
        &&& parses_both(self.systemd_unitsdir, "@XDG_CONFIG_HOME@"@, "@sysconfdir@"@)
    }

    /// Whether every set directory of a system installation is made of the
    /// placeholders of the directories it derives from and of text without
    /// any `@`. The prefix derives from nothing.
    pub open spec fn may_parse_root(self) -> bool {
        &&& may_be_plain(self.prefix)
        &&& may_parse(self.exec_prefix, "@prefix@"@, "@prefix@"@)
        &&& may_parse(self.bindir, "@prefix@"@, "@exec_prefix@"@)
        &&& may_parse(self.sbindir, "@prefix@"@, "@exec_prefix@"@)
        &&& may_parse(self.libdir, "@prefix@"@, "@exec_prefix@"@)
        &&& may_parse(self.libexecdir, "@prefix@"@, "@exec_prefix@"@)
        &&& may_parse(self.datarootdir, "@prefix@"@, "@prefix@"@)
        &&& may_parse(self.datadir, "@prefix@"@, "@prefix@"@)
        &&& may_parse(self.sysconfdir, "@prefix@"@, "@prefix@"@)
        &&& may_parse(self.localstatedir, "@prefix@"@, "@prefix@"@)
        &&& may_parse(self.runstatedir, "@prefix@"@, "@localstatedir@"@)
        &&& may_parse(self.includedir, "@prefix@"@, "@prefix@"@)
        &&& may_parse(self.docdir, "@prefix@"@, "@datarootdir@"@)
        &&& may_parse(self.mandir, "@prefix@"@, "@datarootdir@"@)
        &&& may_parse(self.pam_modulesdir, "@prefix@"@, "@libdir@"@)
        &&& may_parse(self.systemd_unitsdir, "@prefix@"@, "@libdir@"@)
    }

    /// Whether every set directory of a user installation that derives from
    /// an XDG location is made of the placeholder of its location and of
    /// text without any `@`, and the other set directories hold no `@`.
    pub open spec fn may_parse_user(self) -> bool {
        &&& may_be_plain(self.prefix)
        &&& may_be_plain(self.exec_prefix)
        &&& may_be_plain(self.bindir)
        &&& may_be_plain(self.sbindir)
        &&& may_be_plain(self.libdir)
        &&& may_be_plain(self.libexecdir)
        &&& may_parse(self.datarootdir, "@XDG_DATA_HOME@"@, "@XDG_DATA_HOME@"@)
        &&& may_parse(self.datadir, "@XDG_DATA_HOME@"@, "@XDG_DATA_HOME@"@)
        &&& may_parse(self.sysconfdir, "@XDG_CONFIG_HOME@"@, "@XDG_CONFIG_HOME@"@)
        &&& may_parse(self.localstatedir, "@XDG_DATA_HOME@"@, "@XDG_DATA_HOME@"@)
        &&& may_parse(self.runstatedir, "@XDG_RUNTIME_DIR@"@, "@XDG_RUNTIME_DIR@"@)
        &&& may_be_plain(self.includedir)
        &&& may_be_plain(self.docdir)
        &&& may_be_plain(self.mandir)
        &&& may_be_plain(self.pam_modulesdir)
        &&& may_parse(self.systemd_unitsdir, "@XDG_CONFIG_HOME@"@, "@sysconfdir@"@)
    }

    /// Whether every set directory is made of the placeholders that the
    /// given kind of installation resolves in it.
    pub open spec fn may_parse_kind(self, system: bool) -> bool {
        if system {
            self.may_parse_root()
        } else {
            self.may_parse_user()
        }
    }

    /// Whether the configuration of a system installation can be resolved:
    /// every directory is set, and either each holds at most one
    /// placeholder of a directory it derives from, or each is made of such
    /// placeholders and of text without any `@`.
    pub open spec fn resolvable_root(self) -> bool {
        self.all_present() && (self.fits_root() || self.parses_root())
    }

    /// Whether the configuration of a user installation can be resolved
    /// against XDG locations that hold no placeholder: the directories that
    /// derive from a location are set, and every set directory holds at
    /// most one placeholder, that of its location.
    pub open spec fn resolvable_user(self) -> bool {
        self.user_present() && self.fits_user()
    }

    /// Whether the configuration fits the given kind of installation.
    pub open spec fn fits_kind(self, system: bool) -> bool {
        if system {
            self.fits_root()
        } else {
            self.fits_user()
        }
    }
}

/// The placeholders of a system installation are placeholders, and differ
/// from `@prefix@`.
pub proof fn lemma_root_tokens()
    ensures
        is_token("@prefix@"@),
        is_token("@exec_prefix@"@),
        is_token("@localstatedir@"@),
        is_token("@datarootdir@"@),
        is_token("@libdir@"@),
        "@prefix@"@ != "@exec_prefix@"@,
        "@prefix@"@ != "@localstatedir@"@,
        "@prefix@"@ != "@datarootdir@"@,
        "@prefix@"@ != "@libdir@"@,
{
    reveal_strlit("@prefix@");
    reveal_strlit("@exec_prefix@");
    reveal_strlit("@localstatedir@");
    reveal_strlit("@datarootdir@");
    reveal_strlit("@libdir@");
    assert("@prefix@"@.len() != "@exec_prefix@"@.len());
    assert("@prefix@"@.len() != "@localstatedir@"@.len());
    assert("@prefix@"@.len() != "@datarootdir@"@.len());
    assert("@prefix@"@[1] != "@libdir@"@[1]);
}

/// The placeholders of a user installation are placeholders, and the two
/// of the unit directory differ.
pub proof fn lemma_user_tokens()
    ensures
        is_token("@XDG_DATA_HOME@"@),
        is_token("@XDG_CONFIG_HOME@"@),
        is_token("@XDG_RUNTIME_DIR@"@),
        is_token("@sysconfdir@"@),
        "@XDG_CONFIG_HOME@"@ != "@sysconfdir@"@,
{
    reveal_strlit("@XDG_DATA_HOME@");
    reveal_strlit("@XDG_CONFIG_HOME@");
    reveal_strlit("@XDG_RUNTIME_DIR@");
    reveal_strlit("@sysconfdir@");
    assert("@XDG_CONFIG_HOME@"@.len() != "@sysconfdir@"@.len());
}

/// Resolving the placeholders of a system installation leaves none where
/// no set directory holds more than one placeholder: if the prefix holds no
/// placeholder and every other directory holds none or one, that of a
/// directory it derives from, between text without any `@`, then no
/// directory of the resolved configuration holds a part of the form
/// `@name@`.
pub proof fn lemma_simple_root_converges(config: DirsConfigView)
    requires
        config.all_present(),
        config.fits_root(),
    ensures
        config.root_resolved().placeholder_free(),
{
    lemma_root_tokens();
    let p = "@prefix@"@;
    let prefix = config.prefix.unwrap();
    let r = config.root_resolved();
    lemma_one_pass(config.exec_prefix.unwrap(), p, prefix);
    let exec_prefix = r.exec_prefix.unwrap();
    lemma_two_passes(config.bindir.unwrap(), p, prefix, "@exec_prefix@"@, exec_prefix);
    lemma_two_passes(config.sbindir.unwrap(), p, prefix, "@exec_prefix@"@, exec_prefix);
    lemma_two_passes(config.libdir.unwrap(), p, prefix, "@exec_prefix@"@, exec_prefix);
    lemma_two_passes(config.libexecdir.unwrap(), p, prefix, "@exec_prefix@"@, exec_prefix);
    lemma_one_pass(config.datarootdir.unwrap(), p, prefix);
    lemma_one_pass(config.datadir.unwrap(), p, prefix);
    lemma_one_pass(config.sysconfdir.unwrap(), p, prefix);
    lemma_one_pass(config.localstatedir.unwrap(), p, prefix);
    lemma_one_pass(config.includedir.unwrap(), p, prefix);
    let localstatedir = r.localstatedir.unwrap();
    let datarootdir = r.datarootdir.unwrap();
    let libdir = r.libdir.unwrap();
    lemma_two_passes(config.runstatedir.unwrap(), p, prefix, "@localstatedir@"@, localstatedir);
    lemma_two_passes(config.docdir.unwrap(), p, prefix, "@datarootdir@"@, datarootdir);
    lemma_two_passes(config.mandir.unwrap(), p, prefix, "@datarootdir@"@, datarootdir);
    lemma_two_passes(config.pam_modulesdir.unwrap(), p, prefix, "@libdir@"@, libdir);
    lemma_two_passes(config.systemd_unitsdir.unwrap(), p, prefix, "@libdir@"@, libdir);
}

/// Resolving the placeholders of a system installation leaves none where
/// the directories hold any number of placeholders: if the prefix holds no
/// `@` and every other directory is made of the placeholders of the
/// directories it derives from and of text without any `@`, then no
/// directory of the resolved configuration holds an `@`, and so none holds
/// a part of the form `@name@`.
pub proof fn lemma_parsed_root_converges(config: DirsConfigView)
    requires
        config.parses_root(),
    ensures
        config.root_resolved().placeholder_free(),
{
    lemma_root_tokens();
    let p = "@prefix@"@;
    let prefix = config.prefix.unwrap();
    let r = config.root_resolved();
    lemma_parsed_pass(config.exec_prefix.unwrap(), p, prefix);
    let exec_prefix = r.exec_prefix.unwrap();
    lemma_both_passes(config.bindir.unwrap(), p, prefix, "@exec_prefix@"@, exec_prefix);
    lemma_both_passes(config.sbindir.unwrap(), p, prefix, "@exec_prefix@"@, exec_prefix);
    lemma_both_passes(config.libdir.unwrap(), p, prefix, "@exec_prefix@"@, exec_prefix);
    lemma_both_passes(config.libexecdir.unwrap(), p, prefix, "@exec_prefix@"@, exec_prefix);
    lemma_parsed_pass(config.datarootdir.unwrap(), p, prefix);
    lemma_parsed_pass(config.datadir.unwrap(), p, prefix);
    lemma_parsed_pass(config.sysconfdir.unwrap(), p, prefix);
    lemma_parsed_pass(config.localstatedir.unwrap(), p, prefix);
    lemma_parsed_pass(config.includedir.unwrap(), p, prefix);
    let localstatedir = r.localstatedir.unwrap();
    let datarootdir = r.datarootdir.unwrap();
    let libdir = r.libdir.unwrap();
    lemma_both_passes(config.runstatedir.unwrap(), p, prefix, "@localstatedir@"@, localstatedir);
    lemma_both_passes(config.docdir.unwrap(), p, prefix, "@datarootdir@"@, datarootdir);
    lemma_both_passes(config.mandir.unwrap(), p, prefix, "@datarootdir@"@, datarootdir);
    lemma_both_passes(config.pam_modulesdir.unwrap(), p, prefix, "@libdir@"@, libdir);
    lemma_both_passes(config.systemd_unitsdir.unwrap(), p, prefix, "@libdir@"@, libdir);
    lemma_plain_has_no_placeholder(r.prefix.unwrap());
    lemma_plain_has_no_placeholder(r.exec_prefix.unwrap());
    lemma_plain_has_no_placeholder(r.bindir.unwrap());
    lemma_plain_has_no_placeholder(r.sbindir.unwrap());
    lemma_plain_has_no_placeholder(r.libdir.unwrap());
    lemma_plain_has_no_placeholder(r.libexecdir.unwrap());
    lemma_plain_has_no_placeholder(r.datarootdir.unwrap());
    lemma_plain_has_no_placeholder(r.datadir.unwrap());
    lemma_plain_has_no_placeholder(r.sysconfdir.unwrap());
    lemma_plain_has_no_placeholder(r.localstatedir.unwrap());
    lemma_plain_has_no_placeholder(r.runstatedir.unwrap());
    lemma_plain_has_no_placeholder(r.includedir.unwrap());
    lemma_plain_has_no_placeholder(r.docdir.unwrap());
    lemma_plain_has_no_placeholder(r.mandir.unwrap());
    lemma_plain_has_no_placeholder(r.pam_modulesdir.unwrap());
    lemma_plain_has_no_placeholder(r.systemd_unitsdir.unwrap());
}

/// Resolving the placeholders of a system installation leaves none, for
/// every configuration that can be resolved.
pub proof fn lemma_root_resolution_converges(config: DirsConfigView)
    requires
        config.resolvable_root(),
    ensures
        config.root_resolved().placeholder_free(),
{
    if config.fits_root() {
        lemma_simple_root_converges(config);
    } else {
        lemma_parsed_root_converges(config);
    }
}

/// Resolving the placeholders of a user installation leaves none: if the
/// XDG locations hold no placeholder, the directories that derive from one
/// hold none or that of their location between text without any `@`, and
/// the other set directories hold none, then no directory of the resolved
/// configuration holds a part of the form `@name@`.
pub proof fn lemma_user_resolution_converges(
    config: DirsConfigView,
    data_home: Seq<char>,
    config_home: Seq<char>,
    runtime_dir: Seq<char>,
)
    requires
        config.resolvable_user(),
        !has_placeholder(data_home),
        !has_placeholder(config_home),
        !has_placeholder(runtime_dir),
    ensures
        config.user_resolved(data_home, config_home, runtime_dir).placeholder_free(),
{
    lemma_user_tokens();
    lemma_one_pass(config.datarootdir.unwrap(), "@XDG_DATA_HOME@"@, data_home);
    lemma_one_pass(config.datadir.unwrap(), "@XDG_DATA_HOME@"@, data_home);
    lemma_one_pass(config.sysconfdir.unwrap(), "@XDG_CONFIG_HOME@"@, config_home);
    lemma_one_pass(config.localstatedir.unwrap(), "@XDG_DATA_HOME@"@, data_home);
    lemma_one_pass(config.runstatedir.unwrap(), "@XDG_RUNTIME_DIR@"@, runtime_dir);
    lemma_two_passes(
        config.systemd_unitsdir.unwrap(),
        "@XDG_CONFIG_HOME@"@,
        config_home,
        "@sysconfdir@"@,
        config_home,
    );
}

/// Resolving the placeholders of a user installation leaves none where the
/// directories hold any number of placeholders: if the XDG locations hold
/// no `@`, the directories that derive from one are made of the placeholder
/// of their location and of text without any `@`, and the other set
/// directories hold no `@`, then no directory of the resolved configuration
/// holds an `@`, and so none holds a part of the form `@name@`.
pub proof fn lemma_parsed_user_converges(
    config: DirsConfigView,
    data_home: Seq<char>,
    config_home: Seq<char>,
    runtime_dir: Seq<char>,
)
    requires
        config.parses_user(),
        plain(data_home),
        plain(config_home),
        plain(runtime_dir),
    ensures
        config.user_resolved(data_home, config_home, runtime_dir).placeholder_free(),
{
    lemma_user_tokens();
    let r = config.user_resolved(data_home, config_home, runtime_dir);
    lemma_parsed_pass(config.datarootdir.unwrap(), "@XDG_DATA_HOME@"@, data_home);
    lemma_parsed_pass(config.datadir.unwrap(), "@XDG_DATA_HOME@"@, data_home);
    lemma_parsed_pass(config.sysconfdir.unwrap(), "@XDG_CONFIG_HOME@"@, config_home);
    lemma_parsed_pass(config.localstatedir.unwrap(), "@XDG_DATA_HOME@"@, data_home);
    lemma_parsed_pass(config.runstatedir.unwrap(), "@XDG_RUNTIME_DIR@"@, runtime_dir);
    lemma_both_passes(
        config.systemd_unitsdir.unwrap(),
        "@XDG_CONFIG_HOME@"@,
        config_home,
        "@sysconfdir@"@,
        config_home,
    );
    if r.prefix.is_some() {
        lemma_plain_has_no_placeholder(r.prefix.unwrap());
    }
    if r.exec_prefix.is_some() {
        lemma_plain_has_no_placeholder(r.exec_prefix.unwrap());
    }
    if r.bindir.is_some() {
        lemma_plain_has_no_placeholder(r.bindir.unwrap());
    }
    if r.sbindir.is_some() {
        lemma_plain_has_no_placeholder(r.sbindir.unwrap());
    }
    if r.libdir.is_some() {
        lemma_plain_has_no_placeholder(r.libdir.unwrap());
    }
    if r.libexecdir.is_some() {
        lemma_plain_has_no_placeholder(r.libexecdir.unwrap());
    }
    if r.includedir.is_some() {
        lemma_plain_has_no_placeholder(r.includedir.unwrap());
    }
    if r.docdir.is_some() {
        lemma_plain_has_no_placeholder(r.docdir.unwrap());
    }
    if r.mandir.is_some() {
        lemma_plain_has_no_placeholder(r.mandir.unwrap());
    }
    if r.pam_modulesdir.is_some() {
        lemma_plain_has_no_placeholder(r.pam_modulesdir.unwrap());
    }
    lemma_plain_has_no_placeholder(r.datarootdir.unwrap());
    lemma_plain_has_no_placeholder(r.datadir.unwrap());
    lemma_plain_has_no_placeholder(r.sysconfdir.unwrap());
    lemma_plain_has_no_placeholder(r.localstatedir.unwrap());
    lemma_plain_has_no_placeholder(r.runstatedir.unwrap());
    lemma_plain_has_no_placeholder(r.systemd_unitsdir.unwrap());
}

/// The defaults of a system installation hold at most one placeholder each.
pub proof fn lemma_system_defaults_resolvable()
    ensures
        DirsConfigView::system().all_present(),
        DirsConfigView::system().fits_root(),
{
    reveal_strlit("@prefix@");
    reveal_strlit("@exec_prefix@");
    reveal_strlit("@localstatedir@");
    reveal_strlit("@datarootdir@");
    reveal_strlit("@libdir@");
    reveal_strlit("/usr/local/");
    assert(plain("/usr/local/"@));
    lemma_plain_has_no_placeholder("/usr/local/"@);
    reveal_strlit("@prefix@");
    assert("@prefix@"@.subrange(0, 8) =~= "@prefix@"@);
    assert(single_at("@prefix@"@, "@prefix@"@, 0));
    reveal_strlit("@exec_prefix@bin/");
    assert("@exec_prefix@bin/"@.subrange(0, 13) =~= "@exec_prefix@"@);
    assert(single_at("@exec_prefix@bin/"@, "@exec_prefix@"@, 0));
    reveal_strlit("@exec_prefix@sbin/");
    assert("@exec_prefix@sbin/"@.subrange(0, 13) =~= "@exec_prefix@"@);
    assert(single_at("@exec_prefix@sbin/"@, "@exec_prefix@"@, 0));
    reveal_strlit("@exec_prefix@lib/");
    assert("@exec_prefix@lib/"@.subrange(0, 13) =~= "@exec_prefix@"@);
    assert(single_at("@exec_prefix@lib/"@, "@exec_prefix@"@, 0));
    reveal_strlit("@exec_prefix@libexec/");
    assert("@exec_prefix@libexec/"@.subrange(0, 13) =~= "@exec_prefix@"@);
    assert(single_at("@exec_prefix@libexec/"@, "@exec_prefix@"@, 0));
    reveal_strlit("@prefix@share/");
    assert("@prefix@share/"@.subrange(0, 8) =~= "@prefix@"@);
    assert(single_at("@prefix@share/"@, "@prefix@"@, 0));
    reveal_strlit("@prefix@etc/");
    assert("@prefix@etc/"@.subrange(0, 8) =~= "@prefix@"@);
    assert(single_at("@prefix@etc/"@, "@prefix@"@, 0));
    reveal_strlit("@prefix@var/");
    assert("@prefix@var/"@.subrange(0, 8) =~= "@prefix@"@);
    assert(single_at("@prefix@var/"@, "@prefix@"@, 0));
    reveal_strlit("@localstatedir@run/");
    assert("@localstatedir@run/"@.subrange(0, 15) =~= "@localstatedir@"@);
    assert(single_at("@localstatedir@run/"@, "@localstatedir@"@, 0));
    reveal_strlit("@prefix@include/");
    assert("@prefix@include/"@.subrange(0, 8) =~= "@prefix@"@);
    assert(single_at("@prefix@include/"@, "@prefix@"@, 0));
    reveal_strlit("@datarootdir@doc/");
    assert("@datarootdir@doc/"@.subrange(0, 13) =~= "@datarootdir@"@);
    assert(single_at("@datarootdir@doc/"@, "@datarootdir@"@, 0));
    reveal_strlit("@datarootdir@man/");
    assert("@datarootdir@man/"@.subrange(0, 13) =~= "@datarootdir@"@);
    assert(single_at("@datarootdir@man/"@, "@datarootdir@"@, 0));
    reveal_strlit("@libdir@security/");
    assert("@libdir@security/"@.subrange(0, 8) =~= "@libdir@"@);
    assert(single_at("@libdir@security/"@, "@libdir@"@, 0));
    reveal_strlit("@libdir@systemd/");
    assert("@libdir@systemd/"@.subrange(0, 8) =~= "@libdir@"@);
    assert(single_at("@libdir@systemd/"@, "@libdir@"@, 0));
}

/// The defaults of a user installation hold at most one placeholder each.
pub proof fn lemma_user_defaults_resolvable()
    ensures
        DirsConfigView::user().resolvable_user(),
{
    reveal_strlit("@XDG_DATA_HOME@");
    reveal_strlit("@XDG_CONFIG_HOME@");
    reveal_strlit("@XDG_RUNTIME_DIR@");
    reveal_strlit("@sysconfdir@");
    reveal_strlit(".local/bin/");
    assert(plain(".local/bin/"@));
    lemma_plain_has_no_placeholder(".local/bin/"@);
    reveal_strlit(".local/lib/");
    assert(plain(".local/lib/"@));
    lemma_plain_has_no_placeholder(".local/lib/"@);
    reveal_strlit(".local/libexec/");
    assert(plain(".local/libexec/"@));
    lemma_plain_has_no_placeholder(".local/libexec/"@);
    reveal_strlit("@XDG_DATA_HOME@/");
    assert("@XDG_DATA_HOME@/"@.subrange(0, 15) =~= "@XDG_DATA_HOME@"@);
    assert(single_at("@XDG_DATA_HOME@/"@, "@XDG_DATA_HOME@"@, 0));
    reveal_strlit("@XDG_CONFIG_HOME@/");
    assert("@XDG_CONFIG_HOME@/"@.subrange(0, 17) =~= "@XDG_CONFIG_HOME@"@);
    assert(single_at("@XDG_CONFIG_HOME@/"@, "@XDG_CONFIG_HOME@"@, 0));
    reveal_strlit("@XDG_RUNTIME_DIR@/");
    assert("@XDG_RUNTIME_DIR@/"@.subrange(0, 17) =~= "@XDG_RUNTIME_DIR@"@);
    assert(single_at("@XDG_RUNTIME_DIR@/"@, "@XDG_RUNTIME_DIR@"@, 0));
    reveal_strlit("@sysconfdir@/systemd/");
    assert("@sysconfdir@/systemd/"@.subrange(0, 12) =~= "@sysconfdir@"@);
    assert(single_at("@sysconfdir@/systemd/"@, "@sysconfdir@"@, 0));
}

/// Putting a separator at the end of every directory keeps a configuration
/// of a system installation fitting.
pub proof fn lemma_sanitized_fits_root(config: DirsConfigView)
    requires
        config.fits_root(),
    ensures
        config.sanitized().fits_root(),
{
    lemma_slash_free(config.prefix);
    lemma_slash_fits(config.exec_prefix, "@prefix@"@, "@prefix@"@);
    lemma_slash_fits(config.bindir, "@prefix@"@, "@exec_prefix@"@);
    lemma_slash_fits(config.sbindir, "@prefix@"@, "@exec_prefix@"@);
    lemma_slash_fits(config.libdir, "@prefix@"@, "@exec_prefix@"@);
    lemma_slash_fits(config.libexecdir, "@prefix@"@, "@exec_prefix@"@);
    lemma_slash_fits(config.datarootdir, "@prefix@"@, "@prefix@"@);
    lemma_slash_fits(config.datadir, "@prefix@"@, "@prefix@"@);
    lemma_slash_fits(config.sysconfdir, "@prefix@"@, "@prefix@"@);
    lemma_slash_fits(config.localstatedir, "@prefix@"@, "@prefix@"@);
    lemma_slash_fits(config.runstatedir, "@prefix@"@, "@localstatedir@"@);
    lemma_slash_fits(config.includedir, "@prefix@"@, "@prefix@"@);
    lemma_slash_fits(config.docdir, "@prefix@"@, "@datarootdir@"@);
    lemma_slash_fits(config.mandir, "@prefix@"@, "@datarootdir@"@);
    lemma_slash_fits(config.pam_modulesdir, "@prefix@"@, "@libdir@"@);
    lemma_slash_fits(config.systemd_unitsdir, "@prefix@"@, "@libdir@"@);
}

/// Putting a separator at the end of every directory keeps a configuration
/// of a user installation fitting.
pub proof fn lemma_sanitized_fits_user(config: DirsConfigView)
    requires
        config.fits_user(),
    ensures
        config.sanitized().fits_user(),
{
    lemma_slash_free(config.prefix);
    lemma_slash_free(config.exec_prefix);
    lemma_slash_free(config.bindir);
    lemma_slash_free(config.sbindir);
    lemma_slash_free(config.libdir);
    lemma_slash_free(config.libexecdir);
    lemma_slash_fits(config.datarootdir, "@XDG_DATA_HOME@"@, "@XDG_DATA_HOME@"@);
    lemma_slash_fits(config.datadir, "@XDG_DATA_HOME@"@, "@XDG_DATA_HOME@"@);
    lemma_slash_fits(config.sysconfdir, "@XDG_CONFIG_HOME@"@, "@XDG_CONFIG_HOME@"@);
    lemma_slash_fits(config.localstatedir, "@XDG_DATA_HOME@"@, "@XDG_DATA_HOME@"@);
    lemma_slash_fits(config.runstatedir, "@XDG_RUNTIME_DIR@"@, "@XDG_RUNTIME_DIR@"@);
    lemma_slash_free(config.includedir);
    lemma_slash_free(config.docdir);
    lemma_slash_free(config.mandir);
    lemma_slash_free(config.pam_modulesdir);
    lemma_slash_fits(config.systemd_unitsdir, "@XDG_CONFIG_HOME@"@, "@sysconfdir@"@);
}

/// Loading leaves no placeholder: the defaults of either kind of
/// installation, overlaid by a configuration file and by options whose set
/// directories hold no placeholder, or one of what they derive from between
/// text without any `@`, and resolved (for a user against XDG locations
/// that hold no placeholder), hold no part of the form `@name@` in any
/// directory.
pub proof fn lemma_loaded_holds_no_placeholder(
    system: bool,
    from_file: Option<DirsConfigView>,
    opts: DirsConfigView,
    data_home: Seq<char>,
    config_home: Seq<char>,
    runtime_dir: Seq<char>,
)
    requires
        from_file.is_some() ==> from_file.unwrap().fits_kind(system),
        opts.fits_kind(system),
        !system ==> !has_placeholder(data_home) && !has_placeholder(config_home)
            && !has_placeholder(runtime_dir),
    ensures
        system ==> DirsConfigView::layered(system, from_file, opts).root_resolved()
            .placeholder_free(),
        !system ==> DirsConfigView::layered(system, from_file, opts).user_resolved(
            data_home,
            config_home,
            runtime_dir,
        ).placeholder_free(),
{
    let layered = DirsConfigView::layered(system, from_file, opts);
    if system {
        lemma_system_defaults_resolvable();
        lemma_sanitized_fits_root(opts);
        assert(layered.all_present() && layered.fits_root());
        lemma_simple_root_converges(layered);
    } else {
        lemma_user_defaults_resolvable();
        lemma_sanitized_fits_user(opts);
        assert(layered.resolvable_user());
        lemma_user_resolution_converges(layered, data_home, config_home, runtime_dir);
    }
}

/// The defaults of a system installation are made of the placeholders of
/// the directories they derive from.
pub proof fn lemma_system_defaults_parse()
    ensures
        DirsConfigView::system().all_present(),
        DirsConfigView::system().may_parse_root(),
{
    lemma_root_tokens();
    reveal_strlit("@prefix@");
    reveal_strlit("@exec_prefix@");
    reveal_strlit("@localstatedir@");
    reveal_strlit("@datarootdir@");
    reveal_strlit("@libdir@");
    reveal_strlit("/usr/local/");
    assert(plain("/usr/local/"@));
    reveal_strlit("@prefix@");
    assert("@prefix@"@.subrange(0, 8) =~= "@prefix@"@);
    assert(single_at("@prefix@"@, "@prefix@"@, 0));
    lemma_token_first("@prefix@"@, "@prefix@"@, "@prefix@"@, "@prefix@"@);
    reveal_strlit("@exec_prefix@bin/");
    assert("@exec_prefix@bin/"@.subrange(0, 13) =~= "@exec_prefix@"@);
    assert(single_at("@exec_prefix@bin/"@, "@exec_prefix@"@, 0));
    lemma_token_first("@exec_prefix@bin/"@, "@prefix@"@, "@exec_prefix@"@, "@exec_prefix@"@);
    reveal_strlit("@exec_prefix@sbin/");
    assert("@exec_prefix@sbin/"@.subrange(0, 13) =~= "@exec_prefix@"@);
    assert(single_at("@exec_prefix@sbin/"@, "@exec_prefix@"@, 0));
    lemma_token_first("@exec_prefix@sbin/"@, "@prefix@"@, "@exec_prefix@"@, "@exec_prefix@"@);
    reveal_strlit("@exec_prefix@lib/");
    assert("@exec_prefix@lib/"@.subrange(0, 13) =~= "@exec_prefix@"@);
    assert(single_at("@exec_prefix@lib/"@, "@exec_prefix@"@, 0));
    lemma_token_first("@exec_prefix@lib/"@, "@prefix@"@, "@exec_prefix@"@, "@exec_prefix@"@);
    reveal_strlit("@exec_prefix@libexec/");
    assert("@exec_prefix@libexec/"@.subrange(0, 13) =~= "@exec_prefix@"@);
    assert(single_at("@exec_prefix@libexec/"@, "@exec_prefix@"@, 0));
    lemma_token_first("@exec_prefix@libexec/"@, "@prefix@"@, "@exec_prefix@"@, "@exec_prefix@"@);
    reveal_strlit("@prefix@share/");
    assert("@prefix@share/"@.subrange(0, 8) =~= "@prefix@"@);
    assert(single_at("@prefix@share/"@, "@prefix@"@, 0));
    lemma_token_first("@prefix@share/"@, "@prefix@"@, "@prefix@"@, "@prefix@"@);
    reveal_strlit("@prefix@etc/");
    assert("@prefix@etc/"@.subrange(0, 8) =~= "@prefix@"@);
    assert(single_at("@prefix@etc/"@, "@prefix@"@, 0));
    lemma_token_first("@prefix@etc/"@, "@prefix@"@, "@prefix@"@, "@prefix@"@);
    reveal_strlit("@prefix@var/");
    assert("@prefix@var/"@.subrange(0, 8) =~= "@prefix@"@);
    assert(single_at("@prefix@var/"@, "@prefix@"@, 0));
    lemma_token_first("@prefix@var/"@, "@prefix@"@, "@prefix@"@, "@prefix@"@);
    reveal_strlit("@localstatedir@run/");
    assert("@localstatedir@run/"@.subrange(0, 15) =~= "@localstatedir@"@);
    assert(single_at("@localstatedir@run/"@, "@localstatedir@"@, 0));
    lemma_token_first("@localstatedir@run/"@, "@prefix@"@, "@localstatedir@"@, "@localstatedir@"@);
    reveal_strlit("@prefix@include/");
    assert("@prefix@include/"@.subrange(0, 8) =~= "@prefix@"@);
    assert(single_at("@prefix@include/"@, "@prefix@"@, 0));
    lemma_token_first("@prefix@include/"@, "@prefix@"@, "@prefix@"@, "@prefix@"@);
    reveal_strlit("@datarootdir@doc/");
    assert("@datarootdir@doc/"@.subrange(0, 13) =~= "@datarootdir@"@);
    assert(single_at("@datarootdir@doc/"@, "@datarootdir@"@, 0));
    lemma_token_first("@datarootdir@doc/"@, "@prefix@"@, "@datarootdir@"@, "@datarootdir@"@);
    reveal_strlit("@datarootdir@man/");
    assert("@datarootdir@man/"@.subrange(0, 13) =~= "@datarootdir@"@);
    assert(single_at("@datarootdir@man/"@, "@datarootdir@"@, 0));
    lemma_token_first("@datarootdir@man/"@, "@prefix@"@, "@datarootdir@"@, "@datarootdir@"@);
    reveal_strlit("@libdir@security/");
    assert("@libdir@security/"@.subrange(0, 8) =~= "@libdir@"@);
    assert(single_at("@libdir@security/"@, "@libdir@"@, 0));
    lemma_token_first("@libdir@security/"@, "@prefix@"@, "@libdir@"@, "@libdir@"@);
    reveal_strlit("@libdir@systemd/");
    assert("@libdir@systemd/"@.subrange(0, 8) =~= "@libdir@"@);
    assert(single_at("@libdir@systemd/"@, "@libdir@"@, 0));
    lemma_token_first("@libdir@systemd/"@, "@prefix@"@, "@libdir@"@, "@libdir@"@);
}

/// The defaults of a user installation are made of the placeholders of the
/// XDG locations they derive from.
pub proof fn lemma_user_defaults_parse()
    ensures
        DirsConfigView::user().user_present(),
        DirsConfigView::user().may_parse_user(),
{
    lemma_user_tokens();
    reveal_strlit("@XDG_DATA_HOME@");
    reveal_strlit("@XDG_CONFIG_HOME@");
    reveal_strlit("@XDG_RUNTIME_DIR@");
    reveal_strlit("@sysconfdir@");
    reveal_strlit(".local/bin/");
    assert(plain(".local/bin/"@));
    reveal_strlit(".local/lib/");
    assert(plain(".local/lib/"@));
    reveal_strlit(".local/libexec/");
    assert(plain(".local/libexec/"@));
    reveal_strlit("@XDG_DATA_HOME@/");
    assert("@XDG_DATA_HOME@/"@.subrange(0, 15) =~= "@XDG_DATA_HOME@"@);
    assert(single_at("@XDG_DATA_HOME@/"@, "@XDG_DATA_HOME@"@, 0));
    lemma_token_first(
        "@XDG_DATA_HOME@/"@,
        "@XDG_DATA_HOME@"@,
        "@XDG_DATA_HOME@"@,
        "@XDG_DATA_HOME@"@,
    );
    reveal_strlit("@XDG_CONFIG_HOME@/");
    assert("@XDG_CONFIG_HOME@/"@.subrange(0, 17) =~= "@XDG_CONFIG_HOME@"@);
    assert(single_at("@XDG_CONFIG_HOME@/"@, "@XDG_CONFIG_HOME@"@, 0));
    lemma_token_first(
        "@XDG_CONFIG_HOME@/"@,
        "@XDG_CONFIG_HOME@"@,
        "@XDG_CONFIG_HOME@"@,
        "@XDG_CONFIG_HOME@"@,
    );
    reveal_strlit("@XDG_RUNTIME_DIR@/");
    assert("@XDG_RUNTIME_DIR@/"@.subrange(0, 17) =~= "@XDG_RUNTIME_DIR@"@);
    assert(single_at("@XDG_RUNTIME_DIR@/"@, "@XDG_RUNTIME_DIR@"@, 0));
    lemma_token_first(
        "@XDG_RUNTIME_DIR@/"@,
        "@XDG_RUNTIME_DIR@"@,
        "@XDG_RUNTIME_DIR@"@,
        "@XDG_RUNTIME_DIR@"@,
    );
    reveal_strlit("@sysconfdir@/systemd/");
    assert("@sysconfdir@/systemd/"@.subrange(0, 12) =~= "@sysconfdir@"@);
    assert(single_at("@sysconfdir@/systemd/"@, "@sysconfdir@"@, 0));
    lemma_token_first(
        "@sysconfdir@/systemd/"@,
        "@XDG_CONFIG_HOME@"@,
        "@sysconfdir@"@,
        "@sysconfdir@"@,
    );
}

/// Putting a separator at the end of every directory keeps a configuration
/// of a system installation made of its placeholders.
pub proof fn lemma_sanitized_parses_root(config: DirsConfigView)
    requires
        config.may_parse_root(),
    ensures
        config.sanitized().may_parse_root(),
{
    lemma_root_tokens();
    lemma_slash_plain(config.prefix);
    lemma_slash_parses(config.exec_prefix, "@prefix@"@, "@prefix@"@);
    lemma_slash_parses(config.bindir, "@prefix@"@, "@exec_prefix@"@);
    lemma_slash_parses(config.sbindir, "@prefix@"@, "@exec_prefix@"@);
    lemma_slash_parses(config.libdir, "@prefix@"@, "@exec_prefix@"@);
    lemma_slash_parses(config.libexecdir, "@prefix@"@, "@exec_prefix@"@);
    lemma_slash_parses(config.datarootdir, "@prefix@"@, "@prefix@"@);
    lemma_slash_parses(config.datadir, "@prefix@"@, "@prefix@"@);
    lemma_slash_parses(config.sysconfdir, "@prefix@"@, "@prefix@"@);
    lemma_slash_parses(config.localstatedir, "@prefix@"@, "@prefix@"@);
    lemma_slash_parses(config.runstatedir, "@prefix@"@, "@localstatedir@"@);
    lemma_slash_parses(config.includedir, "@prefix@"@, "@prefix@"@);
    lemma_slash_parses(config.docdir, "@prefix@"@, "@datarootdir@"@);
    lemma_slash_parses(config.mandir, "@prefix@"@, "@datarootdir@"@);
    lemma_slash_parses(config.pam_modulesdir, "@prefix@"@, "@libdir@"@);
    lemma_slash_parses(config.systemd_unitsdir, "@prefix@"@, "@libdir@"@);
}

/// Putting a separator at the end of every directory keeps a configuration
/// of a user installation made of its placeholders.
pub proof fn lemma_sanitized_parses_user(config: DirsConfigView)
    requires
        config.may_parse_user(),
    ensures
        config.sanitized().may_parse_user(),
{
    lemma_user_tokens();
    lemma_slash_plain(config.prefix);
    lemma_slash_plain(config.exec_prefix);
    lemma_slash_plain(config.bindir);
    lemma_slash_plain(config.sbindir);
    lemma_slash_plain(config.libdir);
    lemma_slash_plain(config.libexecdir);
    lemma_slash_parses(config.datarootdir, "@XDG_DATA_HOME@"@, "@XDG_DATA_HOME@"@);
    lemma_slash_parses(config.datadir, "@XDG_DATA_HOME@"@, "@XDG_DATA_HOME@"@);
    lemma_slash_parses(config.sysconfdir, "@XDG_CONFIG_HOME@"@, "@XDG_CONFIG_HOME@"@);
    lemma_slash_parses(config.localstatedir, "@XDG_DATA_HOME@"@, "@XDG_DATA_HOME@"@);
    lemma_slash_parses(config.runstatedir, "@XDG_RUNTIME_DIR@"@, "@XDG_RUNTIME_DIR@"@);
    lemma_slash_plain(config.includedir);
    lemma_slash_plain(config.docdir);
    lemma_slash_plain(config.mandir);
    lemma_slash_plain(config.pam_modulesdir);
    lemma_slash_parses(config.systemd_unitsdir, "@XDG_CONFIG_HOME@"@, "@sysconfdir@"@);
}

/// Loading leaves no placeholder where the directories hold any number of
/// placeholders: the defaults of either kind of installation, overlaid by
/// a configuration file and by options whose set directories are made of
/// the placeholders of what they derive from and of text without any `@`,
/// and resolved (for a user against XDG locations without any `@`), hold
/// no part of the form `@name@` in any directory.
pub proof fn lemma_loaded_parsed_holds_no_placeholder(
    system: bool,
    from_file: Option<DirsConfigView>,
    opts: DirsConfigView,
    data_home: Seq<char>,
    config_home: Seq<char>,
    runtime_dir: Seq<char>,
)
    requires
        from_file.is_some() ==> from_file.unwrap().may_parse_kind(system),
        opts.may_parse_kind(system),
        !system ==> plain(data_home) && plain(config_home) && plain(runtime_dir),
    ensures
        system ==> DirsConfigView::layered(system, from_file, opts).root_resolved()
            .placeholder_free(),
        !system ==> DirsConfigView::layered(system, from_file, opts).user_resolved(
            data_home,
            config_home,
            runtime_dir,
        ).placeholder_free(),
{
    let layered = DirsConfigView::layered(system, from_file, opts);
    if system {
        lemma_system_defaults_parse();
        lemma_sanitized_parses_root(opts);
        assert(layered.all_present() && layered.may_parse_root());
    lemma_parsed_both_same(layered.exec_prefix.unwrap(), "@prefix@"@);
    lemma_parsed_both_same(layered.datarootdir.unwrap(), "@prefix@"@);
    lemma_parsed_both_same(layered.datadir.unwrap(), "@prefix@"@);
    lemma_parsed_both_same(layered.sysconfdir.unwrap(), "@prefix@"@);
    lemma_parsed_both_same(layered.localstatedir.unwrap(), "@prefix@"@);
    lemma_parsed_both_same(layered.includedir.unwrap(), "@prefix@"@);
        lemma_parsed_root_converges(layered);
    } else {
        lemma_user_defaults_parse();
        lemma_sanitized_parses_user(opts);
        assert(layered.user_present() && layered.may_parse_user());
    lemma_parsed_both_same(layered.datarootdir.unwrap(), "@XDG_DATA_HOME@"@);
    lemma_parsed_both_same(layered.datadir.unwrap(), "@XDG_DATA_HOME@"@);
    lemma_parsed_both_same(layered.sysconfdir.unwrap(), "@XDG_CONFIG_HOME@"@);
    lemma_parsed_both_same(layered.localstatedir.unwrap(), "@XDG_DATA_HOME@"@);
    lemma_parsed_both_same(layered.runstatedir.unwrap(), "@XDG_RUNTIME_DIR@"@);
        lemma_parsed_user_converges(layered, data_home, config_home, runtime_dir);
    }
}

} // verus!
