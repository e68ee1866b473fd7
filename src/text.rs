use vstd::prelude::*;
use vstd::std_specs::iter::IteratorSpec;

verus! {

/// `s` with every occurrence of `a` or `b` replaced by `to`.
pub open spec fn substituted(s: Seq<char>, a: char, b: char, to: char) -> Seq<char> {
    Seq::new(s.len(), |i: int| if s[i] == a || s[i] == b { to } else { s[i] })
}

/// Copies `s`, writing the one-character string `with` in place of each
/// `a` and each `b`.
pub fn substitute(s: &str, a: char, b: char, with: &str) -> (r: String)
    requires
        with@.len() == 1,
    ensures
        r@ == substituted(s@, a, b, with@[0]),
{
    let n = s.unicode_len();
    let mut out = String::new();
    let mut i: usize = 0;
    while i < n
        invariant
            n == s@.len(),
            i <= n,
            with@.len() == 1,
            out@ == substituted(s@.subrange(0, i as int), a, b, with@[0]),
        decreases n - i,
    {
        let c = s.get_char(i);
        if c == a || c == b {
            out.append(with);
        } else {
            out.append(s.substring_char(i, i + 1));
        }
        assert(substituted(s@.subrange(0, i + 1), a, b, with@[0]) =~= out@);
        i = i + 1;
    }
    assert(s@.subrange(0, n as int) =~= s@);
    out
}

/// Concatenation of two strings into a new one.
pub fn joined(a: &str, b: &str) -> (r: String)
    ensures
        r@ == a@ + b@,
{
    String::from_str(a).concat(b)
}

/// Relies on std's `String::push`: the character is appended at the end.
pub assume_specification[ String::push ](s: &mut String, ch: char)
    ensures
        final(s)@ == old(s)@.push(ch),
;

/// Drops the last character of `s`, if there is one.
pub fn drop_last_char(s: &mut String)
    ensures
        old(s)@.len() == 0 ==> final(s)@ == old(s)@,
        old(s)@.len() > 0 ==> final(s)@ == old(s)@.drop_last(),
{
    let n = s.as_str().unicode_len();
    if n > 0 {
        let kept = String::from_str(s.as_str().substring_char(0, n - 1));
        *s = kept;
    }
}

/// Splitting `s` at its line feeds, as far as it goes: the lines completed
/// so far, and the line being read.
pub open spec fn split_acc(s: Seq<char>) -> (Seq<Seq<char>>, Seq<char>)
    decreases s.len(),
{
    if s.len() == 0 {
        (Seq::empty(), Seq::empty())
    } else {
        let (done, cur) = split_acc(s.drop_last());
        if s.last() == '\n' {
            (done.push(cur), Seq::empty())
        } else {
            (done, cur.push(s.last()))
        }
    }
}

/// The lines of `s`: the text between line feeds, with a last line that is
/// not ended by a line feed counted only when it is not empty.
pub open spec fn lines_in(s: Seq<char>) -> Seq<Seq<char>> {
    let (done, cur) = split_acc(s);
    if cur.len() > 0 {
        done.push(cur)
    } else {
        done
    }
}

pub fn split_lines(s: &str) -> (r: Vec<String>)
    ensures
        r.deep_view() == lines_in(s@),
{
    broadcast use vstd::string::group_string_axioms;

    let mut chars = s.chars();
    let ghost mut k: int = 0;
    let mut done: Vec<String> = Vec::new();
    let mut cur = String::new();
    loop
        invariant
            0 <= k <= s@.len(),
            chars.remaining() == s@.subrange(k, s@.len() as int),
            chars.obeys_prophetic_iter_laws(),
            (done.deep_view(), cur@) == split_acc(s@.subrange(0, k)),
        ensures
            (done.deep_view(), cur@) == split_acc(s@),
        decreases s@.len() - k,
    {
        match chars.next() {
            Some(c) => {
                assert(s@.subrange(0, k + 1).drop_last() =~= s@.subrange(0, k));
                if c == '\n' {
                    let line = cur;
                    cur = String::new();
                    done.push(line);
                } else {
                    cur.push(c);
                }
                proof {
                    k = k + 1;
                }
                assert(chars.remaining() =~= s@.subrange(k, s@.len() as int));
            },
            None => {
                assert(s@.subrange(0, k) =~= s@);
                break ;
            },
        }
    }
    if cur.as_str().unicode_len() > 0 {
        done.push(cur);
    }
    done
}

} // verus!
