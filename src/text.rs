//! Small verified string helpers: decimal numbers and ASCII case matching.
use vstd::prelude::*;

verus! {

/// The character of the decimal digit `d`.
pub open spec fn digit_char(d: nat) -> char
    recommends
        d < 10,
{
    ((48 + d) as u8) as char
}

/// The decimal representation of `n`, without leading zeros.
pub open spec fn decimal(n: nat) -> Seq<char>
    decreases n,
{
    if n < 10 {
        seq![digit_char(n)]
    } else {
        decimal(n / 10).push(digit_char(n % 10))
    }
}

fn digit_str(d: u64) -> (s: &'static str)
    requires
        d < 10,
    ensures
        s@ == seq![digit_char(d as nat)],
{
    if d == 0 {
        proof { reveal_strlit("0"); }
        "0"
    } else if d == 1 {
        proof { reveal_strlit("1"); }
        "1"
    } else if d == 2 {
        proof { reveal_strlit("2"); }
        "2"
    } else if d == 3 {
        proof { reveal_strlit("3"); }
        "3"
    } else if d == 4 {
        proof { reveal_strlit("4"); }
        "4"
    } else if d == 5 {
        proof { reveal_strlit("5"); }
        "5"
    } else if d == 6 {
        proof { reveal_strlit("6"); }
        "6"
    } else if d == 7 {
        proof { reveal_strlit("7"); }
        "7"
    } else if d == 8 {
        proof { reveal_strlit("8"); }
        "8"
    } else {
        proof { reveal_strlit("9"); }
        "9"
    }
}

/// Appends the decimal representation of `n` to `s`.
pub fn push_decimal(s: &mut String, n: u64)
    ensures
        final(s)@ == old(s)@ + decimal(n as nat),
    decreases n,
{
    if n < 10 {
        s.append(digit_str(n));
    } else {
        push_decimal(s, n / 10);
        s.append(digit_str(n % 10));
        assert(old(s)@ + decimal(n as nat) =~= old(s)@ + decimal((n / 10) as nat) + seq![
            digit_char((n % 10) as nat),
        ]);
    }
}

/// The character `c` with ASCII upper-case letters mapped to lower case.
pub open spec fn ascii_lower_char(c: char) -> char {
    if 'A' <= c && c <= 'Z' {
        ((c as u32) + 32) as char
    } else {
        c
    }
}

/// `s` with ASCII upper-case letters mapped to lower case.
pub open spec fn ascii_lower(s: Seq<char>) -> Seq<char> {
    s.map_values(|c: char| ascii_lower_char(c))
}

fn lower_char(c: char) -> (r: char)
    ensures
        r == ascii_lower_char(c),
{
    if 'A' <= c && c <= 'Z' {
        let code: u8 = (c as u8) + 32;
        code as char
    } else {
        c
    }
}

/// Whether `s`, ASCII-lower-cased, is exactly `target`.
pub fn ascii_lower_equals(s: &str, target: &str) -> (r: bool)
    ensures
        r == (ascii_lower(s@) == target@),
{
    let n = s.unicode_len();
    let m = target.unicode_len();
    if n != m {
        assert(ascii_lower(s@).len() != target@.len());
        return false;
    }
    let mut i: usize = 0;
    while i < n
        invariant
            n == s@.len(),
            m == target@.len(),
            n == m,
            i <= n,
            forall|j: int| 0 <= j < i ==> ascii_lower_char(s@[j]) == target@[j],
        decreases n - i,
    {
        if lower_char(s.get_char(i)) != target.get_char(i) {
            assert(ascii_lower(s@)[i as int] != target@[i as int]);
            return false;
        }
        i = i + 1;
    }
    assert(ascii_lower(s@) =~= target@);
    true
}

/// Whether two strings hold the same characters.
pub fn str_equals(a: &str, b: &str) -> (r: bool)
    ensures
        r == (a@ == b@),
{
    let n = a.unicode_len();
    if n != b.unicode_len() {
        return false;
    }
    let mut i: usize = 0;
    while i < n
        invariant
            n == a@.len(),
            n == b@.len(),
            i <= n,
            forall|j: int| 0 <= j < i ==> a@[j] == b@[j],
        decreases n - i,
    {
        if a.get_char(i) != b.get_char(i) {
            return false;
        }
        i = i + 1;
    }
    assert(a@ =~= b@);
    true
}

} // verus!

verus! {

/// `s` with every `"://"` replaced by `"/"`, scanning left to right.
pub open spec fn collapse_scheme(s: Seq<char>) -> Seq<char>
    decreases s.len(),
{
    if s.len() == 0 {
        Seq::empty()
    } else if s.len() >= 3 && s[0] == ':' && s[1] == '/' && s[2] == '/' {
        seq!['/'] + collapse_scheme(s.skip(3))
    } else {
        seq![s[0]] + collapse_scheme(s.skip(1))
    }
}

/// Builds [`collapse_scheme`] of `s`.
pub fn collapse_scheme_of(s: &str) -> (r: String)
    ensures
        r@ == collapse_scheme(s@),
{
    let n = s.unicode_len();
    let mut out = String::new();
    let mut i: usize = 0;
    proof { reveal_strlit("/"); }
    assert(s@.skip(0) =~= s@);
    assert(out@ + collapse_scheme(s@.skip(0)) =~= collapse_scheme(s@));
    while i < n
        invariant
            n == s@.len(),
            i <= n,
            out@ + collapse_scheme(s@.skip(i as int)) == collapse_scheme(s@),
        decreases n - i,
    {
        let ghost rest = s@.skip(i as int);
        let ghost prev = out@;
        if n - i >= 3 && s.get_char(i) == ':' && s.get_char(i + 1) == '/' && s.get_char(i + 2) == '/' {
            assert(rest[0] == ':' && rest[1] == '/' && rest[2] == '/');
            assert(rest.skip(3) =~= s@.skip(i + 3));
            assert(collapse_scheme(rest) == seq!['/'] + collapse_scheme(rest.skip(3)));
            proof { reveal_strlit("/"); }
            out.append("/");
            assert(out@ =~= prev + seq!['/']);
            i = i + 3;
            assert(out@ + collapse_scheme(s@.skip(i as int)) =~= prev + collapse_scheme(rest));
        } else {
            assert(rest.skip(1) =~= s@.skip(i + 1));
            assert(!(rest.len() >= 3 && rest[0] == ':' && rest[1] == '/' && rest[2] == '/'));
            assert(collapse_scheme(rest) == seq![rest[0]] + collapse_scheme(rest.skip(1)));
            out.append(s.substring_char(i, i + 1));
            assert(s@.subrange(i as int, i + 1) =~= seq![rest[0]]);
            i = i + 1;
            assert(out@ + collapse_scheme(s@.skip(i as int)) =~= prev + collapse_scheme(rest));
        }
    }
    assert(s@.skip(n as int) =~= Seq::<char>::empty());
    assert(out@ =~= out@ + collapse_scheme(s@.skip(n as int)));
    out
}

/// The character `c`, reading `-` as `_`.
pub open spec fn dash_as_underscore(c: char) -> char {
    if c == '-' { '_' } else { c }
}

/// Whether `s`, reading each `-` as `_`, is exactly `target`.
pub fn equals_reading_dash_as_underscore(s: &str, target: &str) -> (r: bool)
    ensures
        r == (s@.map_values(|c: char| dash_as_underscore(c)) == target@),
{
    let n = s.unicode_len();
    if n != target.unicode_len() {
        assert(s@.map_values(|c: char| dash_as_underscore(c)).len() != target@.len());
        return false;
    }
    let mut i: usize = 0;
    while i < n
        invariant
            n == s@.len(),
            n == target@.len(),
            i <= n,
            forall|j: int| 0 <= j < i ==> dash_as_underscore(s@[j]) == target@[j],
        decreases n - i,
    {
        let c = s.get_char(i);
        let mapped = if c == '-' { '_' } else { c };
        if mapped != target.get_char(i) {
            assert(s@.map_values(|c: char| dash_as_underscore(c))[i as int] != target@[i as int]);
            return false;
        }
        i = i + 1;
    }
    assert(s@.map_values(|c: char| dash_as_underscore(c)) =~= target@);
    true
}

/// The characters of an optional string.
pub open spec fn opt_view(o: Option<String>) -> Option<Seq<char>> {
    match o {
        Some(s) => Some(s@),
        None => None,
    }
}

/// A copy of an optional string.
pub fn copy_opt(o: &Option<String>) -> (r: Option<String>)
    ensures
        opt_view(r) == opt_view(*o),
{
    match o {
        Some(s) => Some(s.clone()),
        None => None,
    }
}

/// `a`, then `b`, then `c`, as one string.
pub fn join3(a: &str, b: &str, c: &str) -> (r: String)
    ensures
        r@ == a@ + b@ + c@,
{
    let mut s = String::from_str(a);
    s.append(b);
    s.append(c);
    s
}

} // verus!
