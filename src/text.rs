//! Character-level text operations on pinyin strings and corpus lines.
use vstd::prelude::*;

verus! {

/// Whether a character has the Unicode Alphabetic property.
pub uninterp spec fn alphabetic(c: char) -> bool;

/// Whether a character has the Unicode Numeric property.
pub uninterp spec fn numeric(c: char) -> bool;

/// Relies on `char::is_alphabetic`: whether the character has the Unicode
/// Alphabetic property, which depends on the character alone.
#[verifier::external_body]
fn is_alphabetic(c: char) -> (r: bool)
    ensures
        r == alphabetic(c),
{
    c.is_alphabetic()
}

/// Relies on `char::is_numeric`: whether the character has the Unicode
/// Numeric property, which depends on the character alone.
#[verifier::external_body]
fn is_numeric(c: char) -> (r: bool)
    ensures
        r == numeric(c),
{
    c.is_numeric()
}

/// Relies on `String::push`: appends one character at the end.
#[verifier::external_body]
pub(crate) fn push_char(s: &mut String, c: char)
    ensures
        final(s)@ == old(s)@.push(c),
{
    s.push(c)
}

/// The characters of `s` that `keep` holds of, in their order.
pub open spec fn kept(s: Seq<char>, keep: spec_fn(char) -> bool) -> Seq<char>
    decreases s.len(),
{
    if s.len() == 0 {
        Seq::empty()
    } else if keep(s.last()) {
        kept(s.drop_last(), keep).push(s.last())
    } else {
        kept(s.drop_last(), keep)
    }
}

/// The characters of `s` that are not alphabetic, in their order.
pub open spec fn without_alphabetic(s: Seq<char>) -> Seq<char> {
    kept(s, |c: char| !alphabetic(c))
}

/// The characters of `s` that are not numeric, in their order.
pub open spec fn without_numeric(s: Seq<char>) -> Seq<char> {
    kept(s, |c: char| !numeric(c))
}

/// `s` with its first `from` replaced by `to`; `s` itself when it holds no `from`.
pub open spec fn replace_first(s: Seq<char>, from: char, to: char) -> Seq<char> {
    match s.index_of_first(from) {
        Some(i) => s.update(i, to),
        None => s,
    }
}

/// The characters of a string, in order.
pub fn chars_of(s: &str) -> (r: Vec<char>)
    ensures
        r@ == s@,
{
    let n = s.unicode_len();
    let mut r: Vec<char> = Vec::new();
    let mut i: usize = 0;
    while i < n
        invariant
            n == s@.len(),
            i <= n,
            r@ == s@.take(i as int),
        decreases n - i,
    {
        r.push(s.get_char(i));
        i = i + 1;
        assert(r@ =~= s@.take(i as int));
    }
    assert(r@ =~= s@);
    r
}

/// The number of characters of `text`.
pub fn get_length_of_chinese_string(text: &str) -> (r: usize)
    ensures
        r == text@.len(),
{
    text.unicode_len()
}

/// The string of the characters `v[from..to]`.
pub fn string_of(v: &Vec<char>, from: usize, to: usize) -> (r: String)
    requires
        from <= to <= v@.len(),
    ensures
        r@ == v@.subrange(from as int, to as int),
{
    let mut r = String::new();
    let mut i: usize = from;
    while i < to
        invariant
            from <= i <= to <= v@.len(),
            r@ == v@.subrange(from as int, i as int),
        decreases to - i,
    {
        push_char(&mut r, v[i]);
        i = i + 1;
        assert(r@ =~= v@.subrange(from as int, i as int));
    }
    r
}

/// The string `s` without its alphabetic characters.
pub fn strip_alphabetic(s: &str) -> (r: String)
    ensures
        r@ == without_alphabetic(s@),
{
    let v = chars_of(s);
    let mut r = String::new();
    let mut i: usize = 0;
    while i < v.len()
        invariant
            v@ == s@,
            i <= v@.len(),
            r@ == without_alphabetic(v@.take(i as int)),
        decreases v@.len() - i,
    {
        let c = v[i];
        assert(v@.take(i + 1).drop_last() =~= v@.take(i as int));
        if !is_alphabetic(c) {
            push_char(&mut r, c);
        }
        i = i + 1;
    }
    assert(v@.take(v@.len() as int) =~= v@);
    r
}

/// The string `s` without its numeric characters.
pub fn strip_numeric(s: &str) -> (r: String)
    ensures
        r@ == without_numeric(s@),
{
    let v = chars_of(s);
    let mut r = String::new();
    let mut i: usize = 0;
    while i < v.len()
        invariant
            v@ == s@,
            i <= v@.len(),
            r@ == without_numeric(v@.take(i as int)),
        decreases v@.len() - i,
    {
        let c = v[i];
        assert(v@.take(i + 1).drop_last() =~= v@.take(i as int));
        if !is_numeric(c) {
            push_char(&mut r, c);
        }
        i = i + 1;
    }
    assert(v@.take(v@.len() as int) =~= v@);
    r
}

/// Replaces the first `from` in `v` by `to`; leaves `v` as it is when it holds none.
pub fn replace_first_in(v: &mut Vec<char>, from: char, to: char)
    ensures
        final(v)@ == replace_first(old(v)@, from, to),
{
    let mut i: usize = 0;
    while i < v.len() && v[i] != from
        invariant
            i <= v@.len(),
            forall|j: int| 0 <= j < i ==> v@[j] != from,
        decreases v@.len() - i,
    {
        i = i + 1;
    }
    proof {
        v@.index_of_first_ensures(from);
    }
    if i < v.len() {
        v.set(i, to);
    }
}

/// The length of the first field of `s`: the number of characters before the
/// first `sep`, or all of them when `s` holds none.
pub open spec fn field_len(s: Seq<char>, sep: char) -> nat
    decreases s.len(),
{
    if s.len() == 0 {
        0
    } else if s[0] == sep {
        0
    } else {
        1 + field_len(s.drop_first(), sep)
    }
}

/// The fields of `s` between the occurrences of `sep`: one more field than there
/// are separators, empty ones included.
pub open spec fn split_on(s: Seq<char>, sep: char) -> Seq<Seq<char>>
    decreases s.len(),
{
    let n = field_len(s, sep);
    if n < s.len() {
        seq![s.take(n as int)] + split_on(s.skip(n + 1 as int), sep)
    } else {
        seq![s]
    }
}

/// A field that holds no separator and ends at one, or at the end, has that length.
pub proof fn lemma_field_len(s: Seq<char>, sep: char, k: int)
    requires
        0 <= k <= s.len(),
        forall|j: int| 0 <= j < k ==> s[j] != sep,
        k == s.len() || s[k] == sep,
    ensures
        field_len(s, sep) == k,
    decreases s.len(),
{
    if s.len() > 0 && s[0] != sep {
        lemma_field_len(s.drop_first(), sep, k - 1);
    }
}

/// The index of the first `sep` in `v` at or after `from`, or the length of `v`.
fn find_from(v: &Vec<char>, from: usize, sep: char) -> (r: usize)
    requires
        from <= v@.len(),
    ensures
        from <= r <= v@.len(),
        forall|j: int| from <= j < r ==> v@[j] != sep,
        r == v@.len() || v@[r as int] == sep,
{
    let mut i = from;
    while i < v.len() && v[i] != sep
        invariant
            from <= i <= v@.len(),
            forall|j: int| from <= j < i ==> v@[j] != sep,
        decreases v@.len() - i,
    {
        i = i + 1;
    }
    i
}

/// The fields of `s` between the occurrences of `sep`.
pub fn split_fields(s: &str, sep: char) -> (r: Vec<String>)
    ensures
        r@.map_values(|f: String| f@) == split_on(s@, sep),
{
    let v = chars_of(s);
    let mut r: Vec<String> = Vec::new();
    let mut start: usize = 0;
    assert(v@.skip(0) =~= v@);
    assert(r@.map_values(|f: String| f@) =~= Seq::<Seq<char>>::empty());
    assert(Seq::<Seq<char>>::empty() + split_on(v@, sep) =~= split_on(v@, sep));
    loop
        invariant
            v@ == s@,
            start <= v@.len(),
            r@.map_values(|f: String| f@) + split_on(v@.skip(start as int), sep) == split_on(
                v@,
                sep,
            ),
        decreases v@.len() - start,
    {
        let end = find_from(&v, start, sep);
        let field = string_of(&v, start, end);
        let ghost rest = v@.skip(start as int);
        proof {
            assert forall|j: int| 0 <= j < end - start implies rest[j] != sep by {
                assert(rest[j] == v@[start + j]);
            }
            lemma_field_len(rest, sep, end - start);
            assert(rest.take(end - start) =~= v@.subrange(start as int, end as int));
        }
        if end == v.len() {
            r.push(field);
            proof {
                assert(rest =~= v@.subrange(start as int, end as int));
                assert(r@.map_values(|f: String| f@) =~= split_on(v@, sep));
            }
            return r;
        }
        proof {
            assert(rest.skip(end - start + 1) =~= v@.skip(end + 1));
        }
        let ghost before = r@.map_values(|f: String| f@);
        r.push(field);
        proof {
            assert(r@.map_values(|f: String| f@) =~= before.push(field@));
            assert(before.push(field@) + split_on(v@.skip(end + 1), sep) =~= before + split_on(
                rest,
                sep,
            ));
        }
        start = end + 1;
    }
}

/// Whether two strings hold the same characters.
pub fn str_eq(a: &str, b: &str) -> (r: bool)
    ensures
        r == (a@ == b@),
{
    let n = a.unicode_len();
    if n != b.unicode_len() {
        return false;
    }
    let mut i: usize = 0;
    while i < n
        invariant
            n == a@.len() == b@.len(),
            i <= n,
            forall|j: int| 0 <= j < i ==> a@[j] == b@[j],
        decreases n - i,
    {
        if a.get_char(i) != b.get_char(i) {
            return false;
        }
        i = i + 1;
    }
    assert(a@ =~= b@);
    true
}

} // verus!
