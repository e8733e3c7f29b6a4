//! Small verified helpers on text.

use vstd::prelude::*;

verus! {

broadcast use vstd::string::group_string_axioms;

/// Calls `String::push`. Claimed, as std documents: the character is appended to
/// the end of the string.
#[verifier::external_body]
pub(crate) fn push_char(s: &mut String, c: char)
    ensures
        final(s)@ == old(s)@.push(c),
{
    s.push(c);
}

/// The text held by an optional string.
pub open spec fn opt_string_view(o: Option<String>) -> Option<Seq<char>> {
    match o {
        Some(s) => Some(s@),
        None => None,
    }
}

/// The characters of `s`, in order.
pub fn chars_of(s: &str) -> (v: Vec<char>)
    ensures
        v@ == s@,
{
    let mut v: Vec<char> = Vec::new();
    for c in it: s.chars()
        invariant
            v@ == it.seq().take(it.index() as int),
            it.seq() == s@,
    {
        v.push(c);
    }
    v
}

/// Whether the character sequences `a` and `b` are equal, decided on slices.
pub fn chars_eq(a: &[char], b: &[char]) -> (r: bool)
    ensures
        r == (a@ == b@),
{
    if a.len() != b.len() {
        return false;
    }
    let mut i: usize = 0;
    while i < a.len()
        invariant
            i <= a.len(),
            a.len() == b.len(),
            forall|j: int| 0 <= j < i ==> a@[j] == b@[j],
        decreases a.len() - i,
    {
        if a[i] != b[i] {
            return false;
        }
        i = i + 1;
    }
    assert(a@ =~= b@);
    true
}

/// Whether `a` and `b` hold the same text.
pub fn text_eq(a: &str, b: &str) -> (r: bool)
    ensures
        r == (a@ == b@),
{
    let av = chars_of(a);
    let bv = chars_of(b);
    chars_eq(av.as_slice(), bv.as_slice())
}

/// `c` with an ASCII upper-case letter mapped to its lower-case letter.
pub open spec fn ascii_lower(c: char) -> char {
    if 'A' <= c && c <= 'Z' {
        ((c as u32) + 32) as char
    } else {
        c
    }
}

/// Whether `a` and `b` are equal when ASCII letters are compared without case.
pub open spec fn spec_eq_ignore_ascii_case(a: Seq<char>, b: Seq<char>) -> bool {
    &&& a.len() == b.len()
    &&& forall|i: int| 0 <= i < a.len() ==> ascii_lower(#[trigger] a[i]) == ascii_lower(b[i])
}

fn to_ascii_lower(c: char) -> (r: char)
    ensures
        r == ascii_lower(c),
{
    if 'A' <= c && c <= 'Z' {
        let b: u8 = (c as u8) + 32;
        b as char
    } else {
        c
    }
}

/// Whether `a` and `b` are equal when ASCII letters are compared without case.
pub fn eq_ignore_ascii_case(a: &str, b: &str) -> (r: bool)
    ensures
        r == spec_eq_ignore_ascii_case(a@, b@),
{
    let av = chars_of(a);
    let bv = chars_of(b);
    if av.len() != bv.len() {
        return false;
    }
    let mut i: usize = 0;
    while i < av.len()
        invariant
            i <= av.len(),
            av@ == a@,
            bv@ == b@,
            av.len() == bv.len(),
            forall|j: int| 0 <= j < i ==> ascii_lower(#[trigger] a@[j]) == ascii_lower(b@[j]),
        decreases av.len() - i,
    {
        if to_ascii_lower(av[i]) != to_ascii_lower(bv[i]) {
            return false;
        }
        i = i + 1;
    }
    true
}

/// Whether `prefix` is a prefix of `s`.
pub open spec fn is_prefix(prefix: Seq<char>, s: Seq<char>) -> bool {
    prefix.len() <= s.len() && s.subrange(0, prefix.len() as int) == prefix
}

/// Whether `prefix` is a prefix of `s`, decided on slices.
pub fn chars_start_with(s: &[char], prefix: &[char]) -> (r: bool)
    ensures
        r == is_prefix(prefix@, s@),
{
    if prefix.len() > s.len() {
        return false;
    }
    let mut i: usize = 0;
    while i < prefix.len()
        invariant
            i <= prefix.len() <= s.len(),
            forall|j: int| 0 <= j < i ==> s@[j] == prefix@[j],
        decreases prefix.len() - i,
    {
        if s[i] != prefix[i] {
            assert(s@.subrange(0, prefix.len() as int)[i as int] == s@[i as int]);
            return false;
        }
        i = i + 1;
    }
    assert(s@.subrange(0, prefix.len() as int) =~= prefix@);
    true
}

/// Appends the characters `cs` to `out`.
pub fn push_chars(out: &mut String, cs: &[char])
    ensures
        final(out)@ == old(out)@ + cs@,
{
    let mut i: usize = 0;
    while i < cs.len()
        invariant
            i <= cs.len(),
            out@ == old(out)@ + cs@.take(i as int),
        decreases cs.len() - i,
    {
        push_char(out, cs[i]);
        assert(cs@.take(i + 1) == cs@.take(i as int).push(cs@[i as int]));
        i = i + 1;
    }
    assert(cs@.take(cs.len() as int) == cs@);
}


/// `line` without one trailing carriage return.
pub open spec fn strip_cr(line: Seq<char>) -> Seq<char> {
    if line.len() > 0 && line.last() == '\r' {
        line.drop_last()
    } else {
        line
    }
}

/// The lines of `s` that end with a line ending (`\n` or `\r\n`, not kept), and
/// what follows the last line ending.
pub open spec fn split_lines_state(s: Seq<char>) -> (Seq<Seq<char>>, Seq<char>)
    decreases s.len(),
{
    if s.len() == 0 {
        (seq![], seq![])
    } else {
        let (done, current) = split_lines_state(s.drop_last());
        if s.last() == '\n' {
            (done.push(strip_cr(current)), seq![])
        } else {
            (done, current.push(s.last()))
        }
    }
}

/// The lines of `s`: split at `\n` or `\r\n`, without the line endings, where the
/// final line ending is optional and a bare `\r` is no line ending.
pub open spec fn spec_lines(s: Seq<char>) -> Seq<Seq<char>> {
    let (done, current) = split_lines_state(s);
    if current.len() == 0 {
        done
    } else {
        done.push(current)
    }
}

/// The concatenation of `parts` with `sep` between each two of them.
pub open spec fn join_with(parts: Seq<Seq<char>>, sep: Seq<char>) -> Seq<char>
    decreases parts.len(),
{
    if parts.len() == 0 {
        seq![]
    } else if parts.len() == 1 {
        parts[0]
    } else {
        join_with(parts.drop_last(), sep) + sep + parts.last()
    }
}

proof fn lemma_join_push(parts: Seq<Seq<char>>, sep: Seq<char>, p: Seq<char>)
    ensures
        join_with(parts.push(p), sep) == if parts.len() == 0 {
            p
        } else {
            join_with(parts, sep) + sep + p
        },
{
    assert(parts.push(p).drop_last() == parts);
}

/// Appends to `out` the separator (unless `first`) and the characters `line`.
fn emit_line(out: &mut String, first: bool, line: &[char], sep: &str)
    ensures
        final(out)@ == if first {
            old(out)@ + line@
        } else {
            old(out)@ + sep@ + line@
        },
{
    if !first {
        out.append(sep);
    }
    push_chars(out, line);
}

/// The lines of `s` joined with `sep`.
pub fn join_lines(s: &str, sep: &str) -> (r: String)
    ensures
        r@ == join_with(spec_lines(s@), sep@),
{
    let cs = chars_of(s);
    let mut out = String::new();
    let mut current: Vec<char> = Vec::new();
    let mut first = true;
    let mut i: usize = 0;
    while i < cs.len()
        invariant
            i <= cs.len(),
            cs@ == s@,
            split_lines_state(cs@.take(i as int)).1 == current@,
            out@ == join_with(split_lines_state(cs@.take(i as int)).0, sep@),
            first == (split_lines_state(cs@.take(i as int)).0.len() == 0),
        decreases cs.len() - i,
    {
        let c = cs[i];
        let ghost prefix = cs@.take(i as int);
        let ghost done = split_lines_state(prefix).0;
        assert(cs@.take(i + 1).drop_last() == prefix);
        assert(cs@.take(i + 1).last() == c);
        if c == '\n' {
            let len = current.len();
            if len > 0 && current[len - 1] == '\r' {
                current.pop();
            }
            proof {
                lemma_join_push(done, sep@, current@);
            }
            emit_line(&mut out, first, current.as_slice(), sep);
            first = false;
            current = Vec::new();
        } else {
            current.push(c);
        }
        i = i + 1;
    }
    assert(cs@.take(cs.len() as int) == cs@);
    if current.len() > 0 {
        proof {
            lemma_join_push(split_lines_state(cs@).0, sep@, current@);
        }
        emit_line(&mut out, first, current.as_slice(), sep);
    }
    out
}

/// The text `s` holds no line feed.
pub open spec fn has_no_line_feed(s: Seq<char>) -> bool {
    forall|i: int| 0 <= i < s.len() ==> s[i] != '\n'
}

proof fn lemma_split_without_line_feed(s: Seq<char>)
    requires
        has_no_line_feed(s),
    ensures
        split_lines_state(s) == (Seq::<Seq<char>>::empty(), s),
    decreases s.len(),
{
    if s.len() > 0 {
        lemma_split_without_line_feed(s.drop_last());
        assert(s.drop_last().push(s.last()) == s);
    }
}

/// Law: joining the lines of a text that holds no line feed gives the text back,
/// whatever the separator.
pub proof fn law_join_lines_single_line(s: Seq<char>, sep: Seq<char>)
    requires
        has_no_line_feed(s),
    ensures
        join_with(spec_lines(s), sep) == s,
{
    lemma_split_without_line_feed(s);
    if s.len() > 0 {
        assert(Seq::<Seq<char>>::empty().push(s).len() == 1);
    }
}

} // verus!
