//! Text: building it, and the few rewritings the terminal needs.
use vstd::prelude::*;
use vstd::string::*;

verus! {

/// `String::push`: puts the character behind the text.
pub assume_specification[ String::push ](s: &mut String, c: char)
    ensures
        final(s)@ == old(s)@.push(c),
;

/// Whether a character has the Unicode property `White_Space`.
pub uninterp spec fn white_space(c: char) -> bool;

/// `char::is_whitespace`: the Unicode property `White_Space`. Of ASCII's printable characters the
/// space alone has it.
#[verifier::external_body]
pub(crate) fn is_white_space(c: char) -> (r: bool)
    ensures
        r == white_space(c),
        c == ' ' ==> r,
        '!' <= c <= '~' ==> !r,
{
    c.is_whitespace()
}

/// The uppercase form of a text, as Unicode has it.
pub uninterp spec fn uppercase(s: Seq<char>) -> Seq<char>;

/// An ASCII character in upper case.
pub open spec fn ascii_upper(c: char) -> char {
    if 'a' <= c <= 'z' {
        (c as u32 - 32) as char
    } else {
        c
    }
}

/// `str::to_uppercase`: the uppercase form of the text. Text that is all ASCII keeps its length
/// and has its letters `a` to `z` replaced one by one.
#[verifier::external_body]
pub(crate) fn to_uppercase(s: &str) -> (r: String)
    ensures
        r@ == uppercase(s@),
        vstd::utf8::is_ascii_chars(s@) ==> r@ == s@.map_values(|c: char| ascii_upper(c)),
{
    s.to_uppercase()
}

/// The characters of a text.
pub fn chars_of(s: &str) -> (v: Vec<char>)
    ensures
        v@ == s@,
{
    let mut v: Vec<char> = Vec::new();
    for c in it: s.chars()
        invariant
            it.seq() == s@,
            v@ == s@.take(it.index() as int),
    {
        v.push(c);
    }
    v
}

/// The text made of the given characters.
pub fn string_of(v: &Vec<char>) -> (s: String)
    ensures
        s@ == v@,
{
    let mut s = String::new();
    let n: usize = v.len();
    for i in 0..n
        invariant
            n == v@.len(),
            s@ == v@.take(i as int),
    {
        s.push(v[i]);
    }
    s
}

/// Whether two texts are the same.
pub fn str_eq(a: &str, b: &str) -> (r: bool)
    ensures
        r == (a@ == b@),
{
    a.to_owned() == b.to_owned()
}

/// What is left of a text behind the prefix, where it starts with it.
pub open spec fn without_prefix(s: Seq<char>, prefix: Seq<char>) -> Option<Seq<char>> {
    if prefix.is_prefix_of(s) {
        Some(s.skip(prefix.len() as int))
    } else {
        None
    }
}

/// Takes the prefix off the text; `None` where the text starts otherwise.
pub fn strip_prefix(s: &str, prefix: &str) -> (r: Option<String>)
    ensures
        match r {
            Some(rest) => without_prefix(s@, prefix@) == Some(rest@),
            None => without_prefix(s@, prefix@) is None,
        },
{
    let cs = chars_of(s);
    let ps = chars_of(prefix);
    let n: usize = cs.len();
    let m: usize = ps.len();
    if n < m {
        return None;
    }
    for i in 0..m
        invariant
            n == cs@.len(),
            m == ps@.len(),
            m <= n,
            cs@ == s@,
            ps@ == prefix@,
            ps@.take(i as int) == cs@.take(i as int),
    {
        if cs[i] != ps[i] {
            assert(!prefix@.is_prefix_of(s@)) by {
                assert(cs@.subrange(0, m as int)[i as int] != ps@[i as int]);
            }
            return None;
        }
        assert(ps@.take(i + 1) == ps@.take(i as int).push(ps@[i as int]));
        assert(cs@.take(i + 1) == cs@.take(i as int).push(cs@[i as int]));
    }
    let mut rest = String::new();
    assert(ps@.take(m as int) == ps@);
    for i in m..n
        invariant
            n == cs@.len(),
            m <= n,
            cs@ == s@,
            rest@ == cs@.subrange(m as int, i as int),
    {
        rest.push(cs[i]);
        assert(cs@.subrange(m as int, i + 1) == cs@.subrange(m as int, i as int).push(
            cs@[i as int],
        ));
    }
    assert(rest@ == s@.skip(m as int));
    Some(rest)
}

/// A text with each carriage return and line feed in a row made one carriage return.
pub open spec fn crlf_to_cr(s: Seq<char>) -> Seq<char>
    decreases s.len(),
{
    if s.len() == 0 {
        s
    } else if s.len() >= 2 && s[0] == '\r' && s[1] == '\n' {
        seq!['\r'] + crlf_to_cr(s.skip(2))
    } else {
        seq![s[0]] + crlf_to_cr(s.skip(1))
    }
}

/// A text with each line feed made a carriage return.
pub open spec fn lf_to_cr(s: Seq<char>) -> Seq<char> {
    s.map_values(|c: char| if c == '\n' { '\r' } else { c })
}

/// A text with its line ends, however written, made carriage returns.
pub open spec fn line_ends_to_cr(s: Seq<char>) -> Seq<char> {
    lf_to_cr(crlf_to_cr(s))
}

/// Makes every line end of the text a carriage return: `\r\n` first, then `\n`.
pub fn normalize_line_ends(s: &str) -> (r: String)
    ensures
        r@ == line_ends_to_cr(s@),
        !r@.contains('\n'),
{
    let cs = chars_of(s);
    let n: usize = cs.len();
    let mut out = String::new();
    let mut i: usize = 0;
    assert(cs@.skip(0) == cs@);
    assert(out@ + lf_to_cr(crlf_to_cr(cs@)) == lf_to_cr(crlf_to_cr(cs@)));
    while i < n
        invariant
            n == cs@.len(),
            i <= n,
            cs@ == s@,
            out@ + lf_to_cr(crlf_to_cr(cs@.skip(i as int))) == line_ends_to_cr(s@),
        decreases n - i,
    {
        let ghost rest = cs@.skip(i as int);
        if i + 1 < n && cs[i] == '\r' && cs[i + 1] == '\n' {
            assert(rest.skip(2) == cs@.skip(i + 2));
            assert(lf_to_cr(crlf_to_cr(rest)) == seq!['\r'] + lf_to_cr(crlf_to_cr(rest.skip(2))));
            out.push('\r');
            i = i + 2;
        } else {
            assert(rest.skip(1) == cs@.skip(i + 1));
            let ghost c0 = if cs@[i as int] == '\n' { '\r' } else { cs@[i as int] };
            assert(lf_to_cr(crlf_to_cr(rest)) == seq![c0] + lf_to_cr(crlf_to_cr(rest.skip(1))));
            if cs[i] == '\n' {
                out.push('\r');
            } else {
                out.push(cs[i]);
            }
            i = i + 1;
        }
    }
    assert(crlf_to_cr(cs@.skip(n as int)) == Seq::<char>::empty());
    assert(out@ == line_ends_to_cr(s@));
    out
}

/// The text without the given character.
pub fn remove_char(s: &str, unwanted: char) -> (r: String)
    ensures
        r@ == s@.filter(|c: char| c != unwanted),
        !r@.contains(unwanted),
{
    let cs = chars_of(s);
    let n: usize = cs.len();
    let mut out = String::new();
    let ghost keep = |c: char| c != unwanted;
    for i in 0..n
        invariant
            n == cs@.len(),
            keep == (|c: char| c != unwanted),
            out@ == cs@.take(i as int).filter(keep),
    {
        proof {
            reveal(Seq::filter);
            assert(cs@.take(i + 1).drop_last() == cs@.take(i as int));
        }
        if cs[i] != unwanted {
            out.push(cs[i]);
        }
    }
    assert(cs@.take(n as int) == s@);
    proof {
        assert forall|j: int| 0 <= j < out@.len() implies out@[j] != unwanted by {
            s@.lemma_filter_pred(keep, j);
        }
    }
    out
}

/// The text up to its last character that is no white space.
pub open spec fn trimmed_end(s: Seq<char>) -> Seq<char>
    decreases s.len(),
{
    if s.len() > 0 && white_space(s.last()) {
        trimmed_end(s.drop_last())
    } else {
        s
    }
}

/// Takes the white space off the end of the text.
pub fn trim_end(s: &str) -> (r: String)
    ensures
        r@ == trimmed_end(s@),
        r@.is_prefix_of(s@),
        r@.len() > 0 ==> !white_space(r@.last()),
{
    let mut cs = chars_of(s);
    while cs.len() > 0 && is_white_space(cs[cs.len() - 1])
        invariant
            trimmed_end(cs@) == trimmed_end(s@),
            cs@.is_prefix_of(s@),
        ensures
            cs@.len() > 0 ==> !white_space(cs@.last()),
        decreases cs@.len(),
    {
        let ghost before = cs@;
        let _ = cs.pop();
        assert(cs@ == before.drop_last());
    }
    string_of(&cs)
}

/// The texts one after the other, with the separator between each two.
pub open spec fn joined(parts: Seq<Seq<char>>, separator: Seq<char>) -> Seq<char>
    decreases parts.len(),
{
    if parts.len() == 0 {
        Seq::empty()
    } else if parts.len() == 1 {
        parts[0]
    } else {
        joined(parts.drop_last(), separator) + separator + parts.last()
    }
}

/// The characters of each text.
pub open spec fn texts(v: Seq<String>) -> Seq<Seq<char>> {
    v.map_values(|s: String| s@)
}

/// Joins the texts from position `from` on.
pub fn join_from(v: &Vec<String>, from: usize, separator: &str) -> (r: String)
    requires
        from <= v@.len(),
    ensures
        r@ == joined(texts(v@.skip(from as int)), separator@),
{
    let mut out = String::new();
    let n: usize = v.len();
    let ghost all = texts(v@.skip(from as int));
    assert(all.take(0) == Seq::<Seq<char>>::empty());
    for i in from..n
        invariant
            n == v@.len(),
            from <= n,
            all == texts(v@.skip(from as int)),
            out@ == joined(all.take(i - from), separator@),
    {
        let ghost k = i - from;
        assert(all.take(k + 1).drop_last() == all.take(k));
        assert(all.take(k + 1).last() == v@[i as int]@);
        if i > from {
            out.append(separator);
        } else {
            assert(all.take(1)[0] == v@[i as int]@);
        }
        out.append(v[i].as_str());
    }
    assert(all.take(all.len() as int) == all);
    out
}

/// The digit at the end of a number written out.
pub open spec fn digit(n: nat) -> char {
    ('0' as u32 + (n % 10)) as char
}

/// A natural number written out in decimal digits.
pub open spec fn digits(n: nat) -> Seq<char>
    decreases n,
{
    if n < 10 {
        seq![digit(n)]
    } else {
        digits(n / 10).push(digit(n))
    }
}

/// An integer written out in decimal, as `{}` writes it.
pub open spec fn decimal(n: int) -> Seq<char> {
    if n < 0 {
        seq!['-'] + digits((-n) as nat)
    } else {
        digits(n as nat)
    }
}

fn digit_char(d: u8) -> (c: char)
    requires
        d < 10,
    ensures
        c == digit(d as nat),
{
    let code: u8 = 48 + d;
    code as char
}

fn push_digits(out: &mut String, n: u64)
    ensures
        final(out)@ == old(out)@ + digits(n as nat),
    decreases n,
{
    if n >= 10 {
        push_digits(out, n / 10);
    }
    out.push(digit_char((n % 10) as u8));
    assert(out@ == old(out)@ + digits(n as nat));
}

/// Writes an integer out in decimal.
pub fn decimal_of(n: i32) -> (r: String)
    ensures
        r@ == decimal(n as int),
{
    let mut out = String::new();
    let m: i64 = n as i64;
    if m < 0 {
        out.push('-');
        push_digits(&mut out, (-m) as u64);
    } else {
        push_digits(&mut out, m as u64);
    }
    assert(out@ == decimal(n as int));
    out
}

} // verus!
