use vstd::prelude::*;
use vstd::string::*;

verus! {

broadcast use vstd::string::group_string_axioms;

/// Characters with the Unicode `White_Space` property, the whitespace that trimming removes.
pub open spec fn is_white_space(c: char) -> bool {
    let u = c as u32;
    ||| 0x9 <= u <= 0xD
    ||| u == 0x20
    ||| u == 0x85
    ||| u == 0xA0
    ||| u == 0x1680
    ||| 0x2000 <= u <= 0x200A
    ||| u == 0x2028
    ||| u == 0x2029
    ||| u == 0x202F
    ||| u == 0x205F
    ||| u == 0x3000
}

/// The text with its leading whitespace removed.
pub open spec fn trim_start(s: Seq<char>) -> Seq<char>
    decreases s.len(),
{
    if s.len() > 0 && is_white_space(s[0]) {
        trim_start(s.drop_first())
    } else {
        s
    }
}

/// The text with its trailing whitespace removed.
pub open spec fn trim_end(s: Seq<char>) -> Seq<char>
    decreases s.len(),
{
    if s.len() > 0 && is_white_space(s.last()) {
        trim_end(s.drop_last())
    } else {
        s
    }
}

/// The text with leading and trailing whitespace removed.
pub open spec fn trim(s: Seq<char>) -> Seq<char> {
    trim_end(trim_start(s))
}

/// Text that holds nothing but whitespace.
pub open spec fn is_blank(s: Seq<char>) -> bool {
    trim(s).len() == 0
}

/// Where the first line of `s` ends: the index of its first newline, or its length.
pub open spec fn line_end(s: Seq<char>) -> int
    decreases s.len(),
{
    if s.len() == 0 || s[0] == '\n' {
        0
    } else {
        1 + line_end(s.drop_first())
    }
}

/// The text before the first newline (all of it where there is none).
pub open spec fn first_line(s: Seq<char>) -> Seq<char> {
    s.subrange(0, line_end(s))
}

/// The text between the first and the second newline (up to the end where there is no
/// second one); none where `s` holds no newline at all.
pub open spec fn second_line(s: Seq<char>) -> Option<Seq<char>> {
    let e = line_end(s);
    if e < s.len() {
        Some(first_line(s.subrange(e + 1, s.len() as int)))
    } else {
        None
    }
}

pub(crate) proof fn lemma_trim_start_at(s: Seq<char>, k: int)
    requires
        0 <= k <= s.len(),
        forall|i: int| 0 <= i < k ==> is_white_space(#[trigger] s[i]),
        k == s.len() || !is_white_space(s[k]),
    ensures
        trim_start(s) == s.subrange(k, s.len() as int),
    decreases k,
{
    if k == 0 {
        assert(s.subrange(0, s.len() as int) =~= s);
    } else {
        let t = s.drop_first();
        assert forall|i: int| 0 <= i < k - 1 implies is_white_space(#[trigger] t[i]) by {
            assert(t[i] == s[i + 1]);
        }
        lemma_trim_start_at(t, k - 1);
        assert(t.subrange(k - 1, t.len() as int) =~= s.subrange(k, s.len() as int));
    }
}

pub(crate) proof fn lemma_trim_end_at(s: Seq<char>, k: int)
    requires
        0 <= k <= s.len(),
        forall|i: int| k <= i < s.len() ==> is_white_space(#[trigger] s[i]),
        k == 0 || !is_white_space(s[k - 1]),
    ensures
        trim_end(s) == s.subrange(0, k),
    decreases s.len() - k,
{
    if k == s.len() {
        assert(s.subrange(0, s.len() as int) =~= s);
    } else {
        let t = s.drop_last();
        assert(is_white_space(s[s.len() - 1]));
        assert forall|i: int| k <= i < t.len() implies is_white_space(#[trigger] t[i]) by {
            assert(t[i] == s[i]);
        }
        lemma_trim_end_at(t, k);
        assert(t.subrange(0, k) =~= s.subrange(0, k));
    }
}

/// Among ASCII characters, the whitespace is exactly tab, line feed, vertical tab, form
/// feed, carriage return and space: letters, digits and punctuation never are.
pub proof fn lemma_ascii_white_space(c: char)
    requires
        (c as u32) < 0x80,
    ensures
        is_white_space(c) <==> ((c as u32) == 0x20 || (0x9 <= (c as u32) && (c as u32) <= 0xD)),
{
}

/// Trimming leaves alone a text that starts and ends with a visible ASCII character (a
/// letter, a digit or punctuation).
pub proof fn lemma_trim_keeps_visible_ends(s: Seq<char>)
    requires
        s.len() > 0,
        0x21 <= (s[0] as u32) <= 0x7E,
        0x21 <= (s.last() as u32) <= 0x7E,
    ensures
        trim(s) == s,
{
    lemma_ascii_white_space(s[0]);
    lemma_ascii_white_space(s.last());
    assert(trim_start(s) == s);
    assert(trim_end(s) == s);
}

/// All characters of `s` are whitespace.
pub open spec fn all_white_space(s: Seq<char>) -> bool {
    forall|i: int| 0 <= i < s.len() ==> is_white_space(#[trigger] s[i])
}

proof fn lemma_trim_end_empty_iff(s: Seq<char>)
    ensures
        trim_end(s).len() == 0 <==> all_white_space(s),
    decreases s.len(),
{
    if s.len() > 0 {
        let t = s.drop_last();
        if is_white_space(s.last()) {
            lemma_trim_end_empty_iff(t);
            if all_white_space(t) {
                assert forall|i: int| 0 <= i < s.len() implies is_white_space(#[trigger] s[i]) by {
                    if i < t.len() {
                        assert(s[i] == t[i]);
                    }
                }
            }
            if all_white_space(s) {
                assert forall|i: int| 0 <= i < t.len() implies is_white_space(#[trigger] t[i]) by {
                    assert(s[i] == t[i]);
                }
            }
        } else {
            assert(!is_white_space(s[s.len() - 1]));
        }
    }
}

proof fn lemma_trim_start_all_white_space(s: Seq<char>)
    ensures
        all_white_space(trim_start(s)) <==> all_white_space(s),
    decreases s.len(),
{
    if s.len() > 0 && is_white_space(s[0]) {
        let t = s.drop_first();
        lemma_trim_start_all_white_space(t);
        if all_white_space(t) {
            assert forall|i: int| 0 <= i < s.len() implies is_white_space(#[trigger] s[i]) by {
                if i > 0 {
                    assert(s[i] == t[i - 1]);
                }
            }
        }
        if all_white_space(s) {
            assert forall|i: int| 0 <= i < t.len() implies is_white_space(#[trigger] t[i]) by {
                assert(t[i] == s[i + 1]);
            }
        }
    }
}

/// A text is blank exactly when every character of it is whitespace: one character that
/// is not whitespace, anywhere, makes it not blank.
pub proof fn lemma_blank_iff_all_white_space(s: Seq<char>)
    ensures
        is_blank(s) <==> all_white_space(s),
{
    lemma_trim_end_empty_iff(trim_start(s));
    lemma_trim_start_all_white_space(s);
}

/// Trimming only removes characters: a character that `s` does not hold, its trimmed text
/// does not hold either.
pub proof fn lemma_trim_keeps_absent(s: Seq<char>, c: char)
    requires
        !s.contains(c),
    ensures
        !trim(s).contains(c),
{
    lemma_trim_start_keeps_absent(s, c);
    lemma_trim_end_keeps_absent(trim_start(s), c);
}

/// Text that is not blank, trimmed, ends in a character that is not whitespace.
pub proof fn lemma_trimmed_ends_in_non_space(s: Seq<char>)
    requires
        !is_blank(s),
    ensures
        trim(s).len() > 0,
        !is_white_space(trim(s).last()),
{
    lemma_trim_end_last(trim_start(s));
}

proof fn lemma_trim_end_last(s: Seq<char>)
    ensures
        trim_end(s).len() > 0 ==> !is_white_space(trim_end(s).last()),
    decreases s.len(),
{
    if s.len() > 0 && is_white_space(s.last()) {
        lemma_trim_end_last(s.drop_last());
    }
}

proof fn lemma_trim_start_keeps_absent(s: Seq<char>, c: char)
    requires
        !s.contains(c),
    ensures
        !trim_start(s).contains(c),
    decreases s.len(),
{
    if s.len() > 0 && is_white_space(s[0]) {
        let t = s.drop_first();
        if t.contains(c) {
            let i = choose|i: int| 0 <= i < t.len() && t[i] == c;
            assert(s[i + 1] == c);
        }
        lemma_trim_start_keeps_absent(t, c);
    }
}

proof fn lemma_trim_end_keeps_absent(s: Seq<char>, c: char)
    requires
        !s.contains(c),
    ensures
        !trim_end(s).contains(c),
    decreases s.len(),
{
    if s.len() > 0 && is_white_space(s.last()) {
        let t = s.drop_last();
        if t.contains(c) {
            let i = choose|i: int| 0 <= i < t.len() && t[i] == c;
            assert(s[i] == c);
        }
        lemma_trim_end_keeps_absent(t, c);
    }
}

proof fn lemma_line_end_at(s: Seq<char>, e: int)
    requires
        0 <= e <= s.len(),
        forall|i: int| 0 <= i < e ==> #[trigger] s[i] != '\n',
        e == s.len() || s[e] == '\n',
    ensures
        line_end(s) == e,
    decreases e,
{
    if e > 0 {
        let t = s.drop_first();
        assert(s[0] != '\n');
        assert forall|i: int| 0 <= i < e - 1 implies #[trigger] t[i] != '\n' by {
            assert(t[i] == s[i + 1]);
        }
        lemma_line_end_at(t, e - 1);
    }
}

/// Whether `c` is whitespace in the sense of Unicode's `White_Space` property.
pub fn is_white_space_char(c: char) -> (b: bool)
    ensures
        b == is_white_space(c),
{
    let u: u32 = c as u32;
    (0x9 <= u && u <= 0xD) || u == 0x20 || u == 0x85 || u == 0xA0 || u == 0x1680 || (0x2000 <= u
        && u <= 0x200A) || u == 0x2028 || u == 0x2029 || u == 0x202F || u == 0x205F || u == 0x3000
}

/// The characters of `s`, in order.
pub fn chars_of(s: &str) -> (v: Vec<char>)
    ensures
        v@ == s@,
{
    let mut v: Vec<char> = Vec::new();
    for c in it: s.chars()
        invariant
            v@ == it.seq().take(it.index() as int),
    {
        v.push(c);
        assert(v@ == it.seq().take(it.index() as int + 1));
    }
    assert(v@ =~= s@);
    v
}

/// `s` with leading and trailing whitespace removed.
pub fn trim_text(s: &str) -> (t: String)
    ensures
        t@ == trim(s@),
{
    let v = chars_of(s);
    let n = v.len();
    let mut a: usize = 0;
    while a < n
        invariant
            v@ == s@,
            n == v@.len(),
            a <= n,
            forall|i: int| 0 <= i < a ==> is_white_space(#[trigger] v@[i]),
        ensures
            a <= n,
            forall|i: int| 0 <= i < a ==> is_white_space(#[trigger] v@[i]),
            a == n || !is_white_space(v@[a as int]),
        decreases n - a,
    {
        if !is_white_space_char(v[a]) {
            break;
        }
        a = a + 1;
    }
    let mut b: usize = n;
    while b > a
        invariant
            v@ == s@,
            n == v@.len(),
            a <= b <= n,
            forall|i: int| b <= i < n ==> is_white_space(#[trigger] v@[i]),
        ensures
            a <= b <= n,
            forall|i: int| b <= i < n ==> is_white_space(#[trigger] v@[i]),
            b == a || !is_white_space(v@[b - 1]),
        decreases b,
    {
        if !is_white_space_char(v[b - 1]) {
            break;
        }
        b = b - 1;
    }
    proof {
        lemma_trim_start_at(s@, a as int);
        let u = s@.subrange(a as int, n as int);
        assert forall|i: int| b - a <= i < u.len() implies is_white_space(#[trigger] u[i]) by {
            assert(u[i] == s@[a + i]);
        }
        if b > a {
            assert(u[b - a - 1] == s@[b - 1]);
        }
        lemma_trim_end_at(u, b - a);
        assert(u.subrange(0, b - a) =~= s@.subrange(a as int, b as int));
    }
    s.substring_char(a, b).to_owned()
}

/// Whether `s` holds nothing but whitespace.
pub fn is_blank_text(s: &str) -> (b: bool)
    ensures
        b == is_blank(s@),
{
    let t = trim_text(s);
    t.as_str().is_empty()
}

/// The index of the first newline in `v` at or after `from`, or the length of `v`.
fn find_line_end(v: &Vec<char>, from: usize) -> (e: usize)
    requires
        from <= v@.len(),
    ensures
        from <= e <= v@.len(),
        e == from + line_end(v@.subrange(from as int, v@.len() as int)),
{
    let mut e: usize = from;
    while e < v.len()
        invariant
            from <= e <= v@.len(),
            forall|i: int| from <= i < e ==> #[trigger] v@[i] != '\n',
        ensures
            from <= e <= v@.len(),
            forall|i: int| from <= i < e ==> #[trigger] v@[i] != '\n',
            e == v@.len() || v@[e as int] == '\n',
        decreases v@.len() - e,
    {
        if v[e] == '\n' {
            break;
        }
        e = e + 1;
    }
    proof {
        let t = v@.subrange(from as int, v@.len() as int);
        assert forall|i: int| 0 <= i < e - from implies #[trigger] t[i] != '\n' by {
            assert(t[i] == v@[from + i]);
        }
        if e < v@.len() {
            assert(t[e - from] == v@[e as int]);
        }
        lemma_line_end_at(t, e - from);
    }
    e
}

/// The first two pieces of `s` split at newlines: the text before the first newline, and,
/// where there is a newline, the text between it and the next one.
pub fn first_two_lines(s: &str) -> (lines: (String, Option<String>))
    ensures
        lines.0@ == first_line(s@),
        lines.1 is Some <==> second_line(s@) is Some,
        lines.1 matches Some(t) ==> second_line(s@) == Some(t@),
{
    let v = chars_of(s);
    let n = v.len();
    let e = find_line_end(&v, 0);
    proof {
        assert(v@.subrange(0, n as int) =~= s@);
    }
    let first = s.substring_char(0, e).to_owned();
    if e < n {
        let f = find_line_end(&v, e + 1);
        let second = s.substring_char(e + 1, f).to_owned();
        proof {
            let r = s@.subrange(e + 1, n as int);
            assert(v@.subrange(e + 1, n as int) == r);
            assert(r.subrange(0, f - e - 1) =~= s@.subrange(e + 1, f as int));
        }
        (first, Some(second))
    } else {
        (first, None)
    }
}

} // verus!
