use vstd::prelude::*;
use crate::text::{chars_of, slice_to_string, strip, strip_bounds, trim_spec, CharClass};

verus! {

/// The key that starts the name line of a manifest.
pub const NAME_KEY: &'static str = "\"name\":";

/// The least index `j >= i` with `s[j] == c`, or `s.len()` when there is none.
pub open spec fn next_char_from(s: Seq<char>, i: int, c: char) -> int
    decreases s.len() - i,
{
    if i >= s.len() {
        s.len() as int
    } else if s[i] == c {
        i
    } else {
        next_char_from(s, i + 1, c)
    }
}

/// Whether `line`, once trimmed, starts with the name key.
pub open spec fn is_name_line(line: Seq<char>) -> bool {
    let t = trim_spec(line);
    t.len() >= NAME_KEY@.len() && t.subrange(0, NAME_KEY@.len() as int) == NAME_KEY@
}

/// The value of a name line: the text between its first and its second colon
/// (or its end), trimmed, without quotes and commas at either end.
pub open spec fn name_value(line: Seq<char>) -> Seq<char> {
    let c = next_char_from(line, 0, ':');
    if c >= line.len() {
        Seq::empty()
    } else {
        strip(trim_spec(line.subrange(c + 1, next_char_from(line, c + 1, ':'))), CharClass::QuoteOrComma)
    }
}

/// The first name line of `s` among the lines that start at `i` or later.
pub open spec fn find_name_line(s: Seq<char>, i: int) -> Option<Seq<char>>
    decreases s.len() + 1 - i,
{
    if i < 0 || i > s.len() {
        None
    } else {
        let e = next_char_from(s, i, '\n');
        if is_name_line(s.subrange(i, e)) {
            Some(s.subrange(i, e))
        } else if e >= s.len() || e < i {
            None
        } else {
            find_name_line(s, e + 1)
        }
    }
}

/// The name that a manifest gives: the value of its first name line, when that
/// line exists and its value is not empty.
pub open spec fn manifest_name_spec(content: Seq<char>) -> Option<Seq<char>> {
    match find_name_line(content, 0) {
        Some(line) => if name_value(line).len() > 0 {
            Some(name_value(line))
        } else {
            None
        },
        None => None,
    }
}

proof fn lemma_next_char_bounds(s: Seq<char>, i: int, c: char)
    requires
        0 <= i,
    ensures
        i <= s.len() ==> i <= next_char_from(s, i, c) <= s.len(),
        i > s.len() ==> next_char_from(s, i, c) == s.len(),
    decreases s.len() - i,
{
    if i < s.len() && s[i] != c {
        lemma_next_char_bounds(s, i + 1, c);
    }
}

/// The first index from `from` on at which `v` holds `c`, or its length.
fn find_char(v: &Vec<char>, from: usize, c: char) -> (r: usize)
    requires
        from <= v@.len(),
    ensures
        r as int == next_char_from(v@, from as int, c),
        from <= r <= v@.len(),
{
    let mut j = from;
    while j < v.len() && v[j] != c
        invariant
            from <= j <= v@.len(),
            next_char_from(v@, from as int, c) == next_char_from(v@, j as int, c),
        decreases v@.len() - j,
    {
        j = j + 1;
    }
    j
}

/// Whether the trimmed text `v[a..b]` starts with the name key.
fn starts_with_name_key(v: &Vec<char>, a: usize, b: usize) -> (r: bool)
    requires
        a <= b <= v@.len(),
    ensures
        r == (v@.subrange(a as int, b as int).len() >= NAME_KEY@.len() && v@.subrange(
            a as int,
            b as int,
        ).subrange(0, NAME_KEY@.len() as int) == NAME_KEY@),
{
    proof {
        reveal_strlit("\"name\":");
    }
    if b - a < 7 {
        return false;
    }
    let r = v[a] == '"' && v[a + 1] == 'n' && v[a + 2] == 'a' && v[a + 3] == 'm' && v[a + 4] == 'e'
        && v[a + 5] == '"' && v[a + 6] == ':';
    proof {
        let t = v@.subrange(a as int, b as int).subrange(0, 7);
        if r {
            assert(t =~= NAME_KEY@);
        } else {
            assert(t != NAME_KEY@) by {
                if t == NAME_KEY@ {
                    assert(t[0] == NAME_KEY@[0]);
                    assert(t[1] == NAME_KEY@[1]);
                    assert(t[2] == NAME_KEY@[2]);
                    assert(t[3] == NAME_KEY@[3]);
                    assert(t[4] == NAME_KEY@[4]);
                    assert(t[5] == NAME_KEY@[5]);
                    assert(t[6] == NAME_KEY@[6]);
                }
            }
        }
    }
    r
}

/// The characters `v[from..to]` as a vector of their own.
fn copy_range(v: &Vec<char>, from: usize, to: usize) -> (r: Vec<char>)
    requires
        from <= to <= v@.len(),
    ensures
        r@ == v@.subrange(from as int, to as int),
{
    let mut r: Vec<char> = Vec::new();
    let mut k = from;
    while k < to
        invariant
            from <= k <= to <= v@.len(),
            r@ == v@.subrange(from as int, k as int),
        decreases to - k,
    {
        r.push(v[k]);
        assert(r@ =~= v@.subrange(from as int, k + 1));
        k = k + 1;
    }
    r
}

/// Whether `line` is a name line, and if so the bounds of its value in it.
fn scan_line(line: &Vec<char>) -> (r: (bool, usize, usize))
    ensures
        r.0 == is_name_line(line@),
        r.0 ==> r.1 <= r.2 <= line@.len() && line@.subrange(r.1 as int, r.2 as int) == name_value(
            line@,
        ),
{
    let (a, b) = strip_bounds(line, 0, line.len(), CharClass::Space);
    assert(line@.subrange(0, line@.len() as int) =~= line@);
    if !starts_with_name_key(line, a, b) {
        return (false, 0, 0);
    }
    let c = find_char(line, 0, ':');
    if c >= line.len() {
        assert(name_value(line@) =~= line@.subrange(0, 0));
        return (true, 0, 0);
    }
    let c2 = find_char(line, c + 1, ':');
    let (a2, b2) = strip_bounds(line, c + 1, c2, CharClass::Space);
    let (a3, b3) = strip_bounds(line, a2, b2, CharClass::QuoteOrComma);
    (true, a3, b3)
}

/// Reads the project name from the text of a manifest: the first line whose
/// trimmed text starts with `"name":` gives it, as the text after that colon up
/// to the next one, trimmed and without surrounding quotes and commas. None when
/// there is no such line or the value is empty.
pub fn manifest_name(content: &str) -> (r: Option<String>)
    ensures
        match manifest_name_spec(content@) {
            Some(n) => r is Some && r->Some_0@ == n,
            None => r is None,
        },
{
    let s = chars_of(content);
    let n = s.len();
    let mut i: usize = 0;
    while i <= n
        invariant
            n == s@.len(),
            s@ == content@,
            i <= n + 1,
            find_name_line(s@, 0) == find_name_line(s@, i as int),
        decreases n + 1 - i,
    {
        let e = find_char(&s, i, '\n');
        let line = copy_range(&s, i, e);
        let (found, a, b) = scan_line(&line);
        if found {
            if a == b {
                return None;
            }
            let value = slice_to_string(content, i + a, i + b);
            assert(value@ =~= line@.subrange(a as int, b as int));
            return Some(value);
        }
        if e >= n {
            return None;
        }
        i = e + 1;
    }
    None
}

} // verus!
