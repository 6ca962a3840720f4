//! Text primitives shared by the widgets and the renderer.
//!
//! Every text is modelled as a `Seq<char>`. The spec functions of this module
//! say what a text operation yields; the executable functions compute it on
//! `&str` and `String`.

use vstd::prelude::*;
use vstd::string::*;

verus! {

// ───────────────────────────── Names for std results ─────────────────────────────

/// Whether `c` carries the Unicode `White_Space` property, as
/// `char::is_whitespace` reports it.
pub uninterp spec fn is_whitespace(c: char) -> bool;

/// The lowercase form of a text, as `str::to_lowercase` returns it.
pub uninterp spec fn lowercase(s: Seq<char>) -> Seq<char>;

// ───────────────────────────── Trusted calls into std ─────────────────────────────

/// Calls `String::push`. Trusted: the string afterwards is the string before
/// with `c` appended as its last character.
#[verifier::external_body]
pub(crate) fn push_char(s: &mut String, c: char)
    ensures
        final(s)@ == old(s)@.push(c),
{
    s.push(c);
}

/// Calls `char::is_whitespace`. Trusted: the result is the value that the
/// name [`is_whitespace`] stands for; nothing is claimed about which
/// characters count as whitespace.
#[verifier::external_body]
pub(crate) fn char_is_whitespace(c: char) -> (res: bool)
    ensures
        res == is_whitespace(c),
{
    c.is_whitespace()
}

/// Calls `str::to_lowercase`. Trusted: the result is the text that the name
/// [`lowercase`] stands for; nothing is claimed about what that text is.
#[verifier::external_body]
pub(crate) fn to_lowercase(s: &str) -> (res: String)
    ensures
        res@ == lowercase(s@),
{
    s.to_lowercase()
}

// ───────────────────────────── Views of string collections ─────────────────────────────

/// The texts held by a sequence of owned strings.
pub open spec fn texts(v: Seq<String>) -> Seq<Seq<char>> {
    Seq::new(v.len(), |i: int| v[i]@)
}

/// The texts held by a sequence of string slices.
pub open spec fn str_texts(v: Seq<&str>) -> Seq<Seq<char>> {
    Seq::new(v.len(), |i: int| v[i]@)
}

// ───────────────────────────── Characters and equality ─────────────────────────────

/// The characters of `s`, in order.
pub fn chars_of(s: &str) -> (res: Vec<char>)
    ensures
        res@ == s@,
{
    let mut out: Vec<char> = Vec::new();
    for c in it: s.chars()
        invariant
            out@ == s@.take(it.index() as int),
            it.seq() == s@,
    {
        out.push(c);
    }
    out
}

/// Whether two string slices hold the same text.
pub fn str_eq(a: &str, b: &str) -> (res: bool)
    ensures
        res == (a@ == b@),
{
    let va = chars_of(a);
    let vb = chars_of(b);
    if va.len() != vb.len() {
        return false;
    }
    let mut i: usize = 0;
    while i < va.len()
        invariant
            i <= va.len(),
            va.len() == vb.len(),
            va@ == a@,
            vb@ == b@,
            forall|k: int| 0 <= k < i ==> va@[k] == vb@[k],
        decreases va.len() - i,
    {
        if va[i] != vb[i] {
            return false;
        }
        i += 1;
    }
    assert(va@ =~= vb@);
    true
}

// ───────────────────────────── Trimming ─────────────────────────────

/// `s` without its leading whitespace.
pub open spec fn trim_start(s: Seq<char>) -> Seq<char>
    decreases s.len(),
{
    if s.len() > 0 && is_whitespace(s.first()) {
        trim_start(s.drop_first())
    } else {
        s
    }
}

/// `s` without its trailing whitespace.
pub open spec fn trim_end(s: Seq<char>) -> Seq<char>
    decreases s.len(),
{
    if s.len() > 0 && is_whitespace(s.last()) {
        trim_end(s.drop_last())
    } else {
        s
    }
}

/// `s` without leading and trailing whitespace.
pub open spec fn trim(s: Seq<char>) -> Seq<char> {
    trim_end(trim_start(s))
}

/// Whether every character of `s` is whitespace.
pub open spec fn is_blank(s: Seq<char>) -> bool {
    forall|i: int| 0 <= i < s.len() ==> is_whitespace(#[trigger] s[i])
}

/// A text trims to the empty text exactly when it is blank.
pub proof fn lemma_trim_empty_iff_blank(s: Seq<char>)
    ensures
        trim(s).len() == 0 <==> is_blank(s),
{
    lemma_trim_start_shape(s);
    lemma_trim_end_shape(trim_start(s));
}

/// `trim_start` drops a prefix made of whitespace only and stops at the first
/// character that is not whitespace.
pub proof fn lemma_trim_start_shape(s: Seq<char>)
    ensures
        trim_start(s).len() <= s.len(),
        trim_start(s) == s.skip(s.len() - trim_start(s).len()),
        forall|i: int| 0 <= i < s.len() - trim_start(s).len() ==> is_whitespace(#[trigger] s[i]),
        trim_start(s).len() > 0 ==> !is_whitespace(trim_start(s).first()),
    decreases s.len(),
{
    if s.len() > 0 && is_whitespace(s.first()) {
        let r = s.drop_first();
        lemma_trim_start_shape(r);
        assert forall|i: int| 0 <= i < s.len() - trim_start(s).len() implies is_whitespace(
            #[trigger] s[i],
        ) by {
            if i > 0 {
                assert(s[i] == r[i - 1]);
            }
        }
    }
}

/// `trim_end` drops a suffix made of whitespace only and stops at the last
/// character that is not whitespace.
pub proof fn lemma_trim_end_shape(s: Seq<char>)
    ensures
        trim_end(s).len() <= s.len(),
        trim_end(s) == s.take(trim_end(s).len() as int),
        forall|i: int| trim_end(s).len() <= i < s.len() ==> is_whitespace(#[trigger] s[i]),
        trim_end(s).len() > 0 ==> !is_whitespace(trim_end(s).last()),
    decreases s.len(),
{
    if s.len() > 0 && is_whitespace(s.last()) {
        let r = s.drop_last();
        lemma_trim_end_shape(r);
        assert forall|i: int| trim_end(s).len() <= i < s.len() implies is_whitespace(
            #[trigger] s[i],
        ) by {
            if i < s.len() - 1 {
                assert(s[i] == r[i]);
            }
        }
    }
}

/// The slice of `s` that is left when leading and trailing whitespace is
/// removed.
pub fn trim_str(s: &str) -> (res: &str)
    ensures
        res@ == trim(s@),
{
    let chars = chars_of(s);
    let n = chars.len();
    let mut start: usize = 0;
    assert(chars@.skip(0) =~= chars@);
    while start < n && char_is_whitespace(chars[start])
        invariant
            start <= n,
            n == chars@.len(),
            trim_start(chars@) == trim_start(chars@.skip(start as int)),
        decreases n - start,
    {
        assert(chars@.skip(start as int).drop_first() =~= chars@.skip(start + 1));
        start += 1;
    }
    assert(trim_start(chars@) == chars@.skip(start as int));
    let ghost rest = chars@.skip(start as int);
    let mut end: usize = n;
    while end > start && char_is_whitespace(chars[end - 1])
        invariant
            start <= end <= n,
            n == chars@.len(),
            rest == chars@.skip(start as int),
            trim_end(rest) == trim_end(chars@.subrange(start as int, end as int)),
        decreases end - start,
    {
        assert(chars@.subrange(start as int, end as int).drop_last() =~= chars@.subrange(
            start as int,
            end - 1,
        ));
        end -= 1;
    }
    s.substring_char(start, end)
}

// ───────────────────────────── Substring search ─────────────────────────────

/// Whether `needle` stands in `hay` starting at index `i`.
pub open spec fn occurs_at(hay: Seq<char>, needle: Seq<char>, i: int) -> bool {
    0 <= i && i + needle.len() <= hay.len() && hay.subrange(i, i + needle.len()) == needle
}

/// Whether `needle` stands somewhere in `hay` as a contiguous run.
pub open spec fn contains(hay: Seq<char>, needle: Seq<char>) -> bool {
    exists|i: int| occurs_at(hay, needle, i)
}

/// Whether `needle` occurs in `hay` at index `i`, decided character by
/// character.
fn matches_at(hay: &Vec<char>, needle: &Vec<char>, i: usize) -> (res: bool)
    requires
        i + needle@.len() <= hay@.len(),
    ensures
        res == occurs_at(hay@, needle@, i as int),
{
    let mut j: usize = 0;
    assert(hay@.len() == hay.len());
    while j < needle.len()
        invariant
            j <= needle@.len(),
            i + needle@.len() <= hay@.len() <= usize::MAX,
            forall|k: int| 0 <= k < j ==> hay@[i + k] == needle@[k],
        decreases needle@.len() - j,
    {
        if hay[i + j] != needle[j] {
            return false;
        }
        j += 1;
    }
    assert(hay@.subrange(i as int, i + needle@.len()) =~= needle@);
    true
}

/// Whether `needle` occurs in `hay`.
pub fn str_contains(hay: &str, needle: &str) -> (res: bool)
    ensures
        res == contains(hay@, needle@),
{
    let h = chars_of(hay);
    let n = chars_of(needle);
    if n.len() > h.len() {
        return false;
    }
    let last: usize = h.len() - n.len();
    let mut i: usize = 0;
    loop
        invariant
            i <= last,
            last == h@.len() - n@.len(),
            h@ == hay@,
            n@ == needle@,
            forall|k: int| 0 <= k < i ==> !occurs_at(h@, n@, k),
        decreases last - i,
    {
        if matches_at(&h, &n, i) {
            return true;
        }
        if i == last {
            assert forall|k: int| !occurs_at(hay@, needle@, k) by {
            }
            return false;
        }
        i += 1;
    }
}

// ───────────────────────────── Joining ─────────────────────────────

/// The parts in order, with `sep` between each two neighbours.
pub open spec fn join(parts: Seq<Seq<char>>, sep: Seq<char>) -> Seq<char>
    decreases parts.len(),
{
    if parts.len() == 0 {
        Seq::empty()
    } else if parts.len() == 1 {
        parts[0]
    } else {
        join(parts.drop_last(), sep) + sep + parts.last()
    }
}

/// Joins owned strings with a separator.
pub fn join_strings(parts: &[String], sep: &str) -> (res: String)
    ensures
        res@ == join(texts(parts@), sep@),
{
    let mut out = String::new();
    let mut i: usize = 0;
    while i < parts.len()
        invariant
            i <= parts@.len(),
            out@ == join(texts(parts@).take(i as int), sep@),
        decreases parts@.len() - i,
    {
        proof {
            let next = texts(parts@).take(i + 1);
            assert(next.drop_last() =~= texts(parts@).take(i as int));
        }
        if i > 0 {
            out.append(sep);
        }
        out.append(parts[i].as_str());
        i += 1;
    }
    assert(texts(parts@).take(parts@.len() as int) =~= texts(parts@));
    out
}

/// Joins string slices with a separator.
pub fn join_strs(parts: &[&str], sep: &str) -> (res: String)
    ensures
        res@ == join(str_texts(parts@), sep@),
{
    let mut out = String::new();
    let mut i: usize = 0;
    while i < parts.len()
        invariant
            i <= parts@.len(),
            out@ == join(str_texts(parts@).take(i as int), sep@),
        decreases parts@.len() - i,
    {
        proof {
            let next = str_texts(parts@).take(i + 1);
            assert(next.drop_last() =~= str_texts(parts@).take(i as int));
        }
        if i > 0 {
            out.append(sep);
        }
        out.append(parts[i]);
        i += 1;
    }
    assert(str_texts(parts@).take(parts@.len() as int) =~= str_texts(parts@));
    out
}

// ───────────────────────────── Replacing a character ─────────────────────────────

/// `s` with every occurrence of the character `from` replaced by the text `to`.
pub open spec fn replace_char(s: Seq<char>, from: char, to: Seq<char>) -> Seq<char>
    decreases s.len(),
{
    if s.len() == 0 {
        Seq::empty()
    } else {
        replace_char(s.drop_last(), from, to) + (if s.last() == from {
            to
        } else {
            seq![s.last()]
        })
    }
}

/// Replaces every occurrence of one character by a text.
pub fn replace_char_in(s: &str, from: char, to: &str) -> (res: String)
    ensures
        res@ == replace_char(s@, from, to@),
{
    let mut out = String::new();
    for c in it: s.chars()
        invariant
            it.seq() == s@,
            out@ == replace_char(s@.take(it.index() as int), from, to@),
    {
        proof {
            let next = s@.take(it.index() + 1);
            assert(next.drop_last() =~= s@.take(it.index() as int));
        }
        if c == from {
            out.append(to);
        } else {
            push_char(&mut out, c);
        }
    }
    assert(s@.take(s@.len() as int) =~= s@);
    out
}

// ───────────────────────────── Numbers and booleans ─────────────────────────────

/// The decimal digit for a value below ten.
pub open spec fn digit_char(d: nat) -> char {
    if d == 0 {
        '0'
    } else if d == 1 {
        '1'
    } else if d == 2 {
        '2'
    } else if d == 3 {
        '3'
    } else if d == 4 {
        '4'
    } else if d == 5 {
        '5'
    } else if d == 6 {
        '6'
    } else if d == 7 {
        '7'
    } else if d == 8 {
        '8'
    } else {
        '9'
    }
}

/// The decimal notation of `n`, without sign and without leading zeros.
pub open spec fn decimal(n: nat) -> Seq<char>
    decreases n,
{
    if n < 10 {
        seq![digit_char(n)]
    } else {
        decimal(n / 10).push(digit_char(n % 10))
    }
}

/// The text that stands for a boolean: `true` or `false`.
pub open spec fn bool_text(b: bool) -> Seq<char> {
    if b {
        "true"@
    } else {
        "false"@
    }
}

fn digit_of(d: u64) -> (res: char)
    requires
        d < 10,
    ensures
        res == digit_char(d as nat),
{
    if d == 0 {
        '0'
    } else if d == 1 {
        '1'
    } else if d == 2 {
        '2'
    } else if d == 3 {
        '3'
    } else if d == 4 {
        '4'
    } else if d == 5 {
        '5'
    } else if d == 6 {
        '6'
    } else if d == 7 {
        '7'
    } else if d == 8 {
        '8'
    } else {
        '9'
    }
}

/// Writes `n` in decimal notation.
pub fn decimal_string(n: u64) -> (res: String)
    ensures
        res@ == decimal(n as nat),
    decreases n,
{
    if n < 10 {
        let mut out = String::new();
        push_char(&mut out, digit_of(n));
        out
    } else {
        let mut out = decimal_string(n / 10);
        push_char(&mut out, digit_of(n % 10));
        out
    }
}

/// The text of a boolean.
pub fn bool_str(b: bool) -> (res: &'static str)
    ensures
        res@ == bool_text(b),
{
    if b {
        "true"
    } else {
        "false"
    }
}

// ───────────────────────────── Splitting ─────────────────────────────

/// The index of the first occurrence of `x` in `s`, if there is one.
pub open spec fn first_index_of<A>(s: Seq<A>, x: A) -> Option<int>
    decreases s.len(),
{
    if s.len() == 0 {
        None
    } else if s.first() == x {
        Some(0)
    } else {
        match first_index_of(s.drop_first(), x) {
            Some(i) => Some(i + 1),
            None => None,
        }
    }
}

/// `first_index_of` returns the least index that holds `x`, and `None` exactly
/// when `x` does not occur.
pub proof fn lemma_first_index_of<A>(s: Seq<A>, x: A)
    ensures
        match first_index_of(s, x) {
            Some(i) => 0 <= i < s.len() && s[i] == x && forall|k: int|
                0 <= k < i ==> s[k] != x,
            None => forall|k: int| 0 <= k < s.len() ==> s[k] != x,
        },
    decreases s.len(),
{
    if s.len() > 0 && s.first() != x {
        let r = s.drop_first();
        lemma_first_index_of(r, x);
        match first_index_of(r, x) {
            Some(i) => {
                assert forall|k: int| 0 <= k < i + 1 implies s[k] != x by {
                    if k > 0 {
                        assert(s[k] == r[k - 1]);
                    }
                }
            },
            None => {
                assert forall|k: int| 0 <= k < s.len() implies s[k] != x by {
                    if k > 0 {
                        assert(s[k] == r[k - 1]);
                    }
                }
            },
        }
    }
}

/// An index that fits the description of the first occurrence is the one
/// `first_index_of` returns.
pub proof fn lemma_first_index_unique<A>(s: Seq<A>, x: A, i: int)
    requires
        0 <= i <= s.len(),
        forall|k: int| 0 <= k < i ==> s[k] != x,
        i < s.len() ==> s[i] == x,
    ensures
        first_index_of(s, x) == (if i < s.len() {
            Some(i)
        } else {
            None
        }),
{
    lemma_first_index_of(s, x);
}

/// Splits `s` at the first occurrence of `c`: the text before it and the text
/// after it. `None` when `c` does not occur.
pub fn split_once_char(s: &str, c: char) -> (res: Option<(&str, &str)>)
    ensures
        match first_index_of(s@, c) {
            Some(i) => res matches Some((head, tail)) && head@ == s@.take(i) && tail@ == s@.skip(
                i + 1,
            ),
            None => res is None,
        },
{
    let chars = chars_of(s);
    let n = chars.len();
    let mut i: usize = 0;
    while i < n && chars[i] != c
        invariant
            i <= n,
            n == chars@.len(),
            forall|k: int| 0 <= k < i ==> chars@[k] != c,
        decreases n - i,
    {
        i += 1;
    }
    proof {
        lemma_first_index_unique(s@, c, i as int);
    }
    if i < n {
        let head = s.substring_char(0, i);
        let tail = s.substring_char(i + 1, n);
        Some((head, tail))
    } else {
        None
    }
}

// ───────────────────────────── Optional texts and lists of texts ─────────────────────────────

/// The text of an optional string, or `default` when there is none.
pub open spec fn opt_text(value: Option<String>, default: Seq<char>) -> Seq<char> {
    match value {
        Some(s) => s@,
        None => default,
    }
}

/// The texts of an optional list of strings; none when there is no list.
pub open spec fn opt_texts(list: Option<Vec<String>>) -> Seq<Seq<char>> {
    match list {
        Some(v) => texts(v@),
        None => Seq::empty(),
    }
}

/// Each item with `prefix` put before it.
pub open spec fn prefixed(items: Seq<Seq<char>>, prefix: Seq<char>) -> Seq<Seq<char>> {
    Seq::new(items.len(), |i: int| prefix + items[i])
}

/// A titled block: the title, a blank line, and the items joined by `sep`.
/// Without items there is no block at all.
pub open spec fn titled(title: Seq<char>, items: Seq<Seq<char>>, sep: Seq<char>) -> Seq<char> {
    if items.len() == 0 {
        Seq::empty()
    } else {
        title + "\n\n"@ + join(items, sep)
    }
}

/// The empty string slice.
pub fn empty_str() -> (res: &'static str)
    ensures
        res@ == Seq::<char>::empty(),
{
    proof {
        reveal_strlit("");
    }
    let res = "";
    res
}

/// The string inside the option, or `default`.
pub fn opt_str<'a>(value: &'a Option<String>, default: &'a str) -> (res: &'a str)
    ensures
        res@ == opt_text(*value, default@),
{
    match value {
        Some(s) => s.as_str(),
        None => default,
    }
}

/// Appends one text to a list of texts.
pub fn push_text(items: &mut Vec<String>, item: String)
    ensures
        texts(final(items)@) == texts(old(items)@).push(item@),
{
    items.push(item);
}

/// Joins the items with `sep`, each one behind `prefix`.
pub fn join_prefixed(items: &[String], prefix: &str, sep: &str) -> (res: String)
    ensures
        res@ == join(prefixed(texts(items@), prefix@), sep@),
{
    let mut lines: Vec<String> = Vec::new();
    let mut i: usize = 0;
    while i < items.len()
        invariant
            i <= items@.len(),
            texts(lines@) == prefixed(texts(items@).take(i as int), prefix@),
        decreases items@.len() - i,
    {
        let mut line = String::from_str(prefix);
        line.append(items[i].as_str());
        let ghost before = texts(lines@);
        lines.push(line);
        i += 1;
        assert(texts(lines@) =~= before.push(line@));
    }
    assert(texts(items@).take(items@.len() as int) =~= texts(items@));
    join_strings(lines.as_slice(), sep)
}

/// Renders a titled block from its items.
pub fn titled_block(title: &str, items: &[String], sep: &str) -> (res: String)
    ensures
        res@ == titled(title@, texts(items@), sep@),
{
    if items.len() == 0 {
        return String::new();
    }
    let mut out = String::from_str(title);
    out.append("\n\n");
    out.append(join_strings(items, sep).as_str());
    out
}

} // verus!
