//! Character-level helpers over `str` and `String`, specified by their views.

use vstd::prelude::*;
use vstd::string::*;

verus! {

/// The characters that carry the Unicode `White_Space` property.
pub open spec fn is_white_space(c: char) -> bool {
    let u = c as u32;
    ||| 0x09 <= u <= 0x0D
    ||| u == 0x20
    ||| u == 0x85
    ||| u == 0xA0
    ||| u == 0x1680
    ||| 0x2000 <= u <= 0x200A
    ||| u == 0x2028
    ||| u == 0x2029
    ||| u == 0x202F
    ||| u == 0x205F
    ||| u == 0x3000
}

/// Among ASCII characters exactly tab, line feed, vertical tab, form feed,
/// carriage return and space are white space; beyond ASCII, among others,
/// the no-break space, the line and paragraph separators and the ideographic
/// space are, while no letter or digit is.
pub proof fn white_space_characters(c: char)
    ensures
        (c as u32) < 128 ==> (is_white_space(c) <==> (c == '\t' || c == '\n' || c == '\x0B'
            || c == '\x0C' || c == '\r' || c == ' ')),
        c == '\u{A0}' || c == '\u{2028}' || c == '\u{2029}' || c == '\u{3000}' ==> is_white_space(c),
        ('a' <= c <= 'z') || ('A' <= c <= 'Z') || ('0' <= c <= '9') ==> !is_white_space(c),
{
}

/// A string that `str::trim` reduces to the empty string: every character
/// is white space.
pub open spec fn is_blank_chars(s: Seq<char>) -> bool {
    forall|i: int| 0 <= i < s.len() ==> #[trigger] is_white_space(s[i])
}

/// Whether `c` carries the Unicode `White_Space` property, as
/// The empty string is blank; a string is blank exactly when each part of
/// any split of it is; one character that is not white space makes a string
/// not blank.
pub proof fn blank_strings(s: Seq<char>, t: Seq<char>, i: int)
    ensures
        is_blank_chars(Seq::<char>::empty()),
        is_blank_chars(s + t) <==> is_blank_chars(s) && is_blank_chars(t),
        0 <= i < s.len() && !is_white_space(s[i]) ==> !is_blank_chars(s),
{
    if is_blank_chars(s) && is_blank_chars(t) {
        assert forall|k: int| 0 <= k < (s + t).len() implies #[trigger] is_white_space((s + t)[k]) by {
            if k < s.len() {
                assert((s + t)[k] == s[k]);
            } else {
                assert((s + t)[k] == t[k - s.len()]);
            }
        }
    }
    if is_blank_chars(s + t) {
        assert forall|k: int| 0 <= k < s.len() implies #[trigger] is_white_space(s[k]) by {
            assert((s + t)[k] == s[k]);
        }
        assert forall|k: int| 0 <= k < t.len() implies #[trigger] is_white_space(t[k]) by {
            assert((s + t)[k + s.len()] == t[k]);
        }
    }
}

/// `char::is_whitespace` tests it.
pub(crate) fn char_is_whitespace(c: char) -> (b: bool)
    ensures
        b == is_white_space(c),
{
    let u = c as u32;
    (0x09 <= u && u <= 0x0D) || u == 0x20 || u == 0x85 || u == 0xA0 || u == 0x1680
        || (0x2000 <= u && u <= 0x200A) || u == 0x2028 || u == 0x2029 || u == 0x202F
        || u == 0x205F || u == 0x3000
}

/// `str::trim` leaves nothing of `s`.
pub fn is_blank(s: &str) -> (b: bool)
    ensures
        b == is_blank_chars(s@),
{
    let cs = chars_of(s);
    let mut i: usize = 0;
    while i < cs.len()
        invariant
            cs@ == s@,
            i <= cs.len(),
            forall|k: int| 0 <= k < i ==> #[trigger] is_white_space(s@[k]),
        decreases cs.len() - i,
    {
        if !char_is_whitespace(cs[i]) {
            return false;
        }
        i = i + 1;
    }
    true
}

/// The characters of `s`, in order.
pub fn chars_of(s: &str) -> (v: Vec<char>)
    ensures
        v@ == s@,
{
    let mut v: Vec<char> = Vec::new();
    for c in it: s.chars()
        invariant
            it.seq() == s@,
            v@ == s@.take(it.index() as int),
    {
        v.push(c);
    }
    v
}


/// `str == str`: the two strings hold the same characters.
pub fn str_eq(a: &str, b: &str) -> (r: bool)
    ensures
        r == (a@ == b@),
{
    let ac = chars_of(a);
    let bc = chars_of(b);
    if ac.len() != bc.len() {
        return false;
    }
    let mut i: usize = 0;
    while i < ac.len()
        invariant
            ac@ == a@,
            bc@ == b@,
            ac.len() == bc.len(),
            i <= ac.len(),
            forall|k: int| 0 <= k < i ==> ac@[k] == bc@[k],
        decreases ac.len() - i,
    {
        if ac[i] != bc[i] {
            return false;
        }
        i = i + 1;
    }
    assert(a@ =~= b@);
    true
}

/// `s` begins with `p`.
pub open spec fn starts_with(s: Seq<char>, p: Seq<char>) -> bool {
    p.len() <= s.len() && s.take(p.len() as int) == p
}

/// `str::starts_with` with a string pattern.
pub fn str_starts_with(s: &str, p: &str) -> (b: bool)
    ensures
        b == starts_with(s@, p@),
{
    let sc = chars_of(s);
    let pc = chars_of(p);
    if pc.len() > sc.len() {
        return false;
    }
    let mut i: usize = 0;
    while i < pc.len()
        invariant
            sc@ == s@,
            pc@ == p@,
            pc.len() <= sc.len(),
            i <= pc.len(),
            forall|k: int| 0 <= k < i ==> sc@[k] == pc@[k],
        decreases pc.len() - i,
    {
        if sc[i] != pc[i] {
            assert(s@.take(p@.len() as int)[i as int] != p@[i as int]);
            return false;
        }
        i = i + 1;
    }
    assert(s@.take(p@.len() as int) =~= p@);
    true
}


/// `String: FromIterator<char>`: collecting characters gives the string made
/// of exactly those characters, in order.
#[verifier::external_body]
pub(crate) fn string_from_chars(chars: &[char]) -> (s: String)
    ensures
        s@ == chars@,
{
    chars.iter().collect()
}

/// The decimal digit `d` as a character.
pub open spec fn digit_char(d: int) -> char {
    if d == 0 { '0' } else if d == 1 { '1' } else if d == 2 { '2' } else if d == 3 { '3' }
    else if d == 4 { '4' } else if d == 5 { '5' } else if d == 6 { '6' } else if d == 7 { '7' }
    else if d == 8 { '8' } else { '9' }
}

/// The decimal notation of `n`, without sign or leading zeros.
pub open spec fn decimal(n: nat) -> Seq<char>
    decreases n,
{
    if n < 10 {
        seq![digit_char(n as int)]
    } else {
        decimal(n / 10).push(digit_char((n % 10) as int))
    }
}

fn digit(d: u64) -> (c: char)
    requires
        d < 10,
    ensures
        c == digit_char(d as int),
{
    if d == 0 { '0' } else if d == 1 { '1' } else if d == 2 { '2' } else if d == 3 { '3' }
    else if d == 4 { '4' } else if d == 5 { '5' } else if d == 6 { '6' } else if d == 7 { '7' }
    else if d == 8 { '8' } else { '9' }
}

/// The decimal notation of `n`, as `u64`'s `Display` writes it.
pub fn decimal_string(n: u64) -> (s: String)
    ensures
        s@ == decimal(n as nat),
{
    let mut m: u64 = n;
    let mut out: Vec<char> = Vec::new();
    let d0 = digit(m % 10);
    out.insert(0, d0);
    assert(out@ == seq![d0]);
    m = m / 10;
    while m > 0
        invariant
            m == 0 ==> decimal(n as nat) == out@,
            m > 0 ==> decimal(n as nat) == decimal(m as nat) + out@,
        decreases m,
    {
        let ghost before = out@;
        let d = digit(m % 10);
        out.insert(0, d);
        if m < 10 {
            assert(decimal(m as nat) == seq![d]);
        } else {
            assert(decimal(m as nat) == decimal((m / 10) as nat).push(d));
        }
        assert(out@ == seq![d] + before);
        m = m / 10;
    }
    string_from_chars(out.as_slice())
}


/// `s` without the run of `c` at its end (`str::trim_end_matches`).
pub open spec fn trim_end(s: Seq<char>, c: char) -> Seq<char>
    decreases s.len(),
{
    if s.len() > 0 && s.last() == c {
        trim_end(s.drop_last(), c)
    } else {
        s
    }
}

/// `s` without the run of `c` at its start (`str::trim_start_matches`).
pub open spec fn trim_start(s: Seq<char>, c: char) -> Seq<char>
    decreases s.len(),
{
    if s.len() > 0 && s[0] == c {
        trim_start(s.drop_first(), c)
    } else {
        s
    }
}

/// The characters of `s` without the run of `c` at its end.
pub fn trim_end_chars(s: &Vec<char>, c: char) -> (r: Vec<char>)
    ensures
        r@ == trim_end(s@, c),
{
    let mut j: usize = s.len();
    assert(s@.take(j as int) =~= s@);
    while j > 0 && s[j - 1] == c
        invariant
            j <= s.len(),
            trim_end(s@, c) == trim_end(s@.take(j as int), c),
        decreases j,
    {
        assert(s@.take(j as int).drop_last() =~= s@.take(j - 1));
        j = j - 1;
    }
    let r = sub_chars(s, 0, j);
    assert(r@ =~= s@.take(j as int));
    r
}

/// The characters of `s` without the run of `c` at its start.
pub fn trim_start_chars(s: &Vec<char>, c: char) -> (r: Vec<char>)
    ensures
        r@ == trim_start(s@, c),
{
    let mut i: usize = 0;
    assert(s@.skip(0) =~= s@);
    while i < s.len() && s[i] == c
        invariant
            i <= s.len(),
            trim_start(s@, c) == trim_start(s@.skip(i as int), c),
        decreases s.len() - i,
    {
        assert(s@.skip(i as int).drop_first() =~= s@.skip(i + 1));
        i = i + 1;
    }
    let r = sub_chars(s, i, s.len());
    assert(r@ =~= s@.skip(i as int));
    r
}


/// The characters of `s` from index `a` up to, not including, index `b`.
pub fn sub_chars(s: &Vec<char>, a: usize, b: usize) -> (r: Vec<char>)
    requires
        a <= b <= s.len(),
    ensures
        r@ == s@.subrange(a as int, b as int),
{
    let mut r: Vec<char> = Vec::new();
    let mut k: usize = a;
    while k < b
        invariant
            a <= k <= b <= s.len(),
            r@ == s@.subrange(a as int, k as int),
        decreases b - k,
    {
        r.push(s[k]);
        assert(s@.subrange(a as int, k + 1) =~= s@.subrange(a as int, k as int).push(s@[k as int]));
        k = k + 1;
    }
    r
}


/// What `str::to_lowercase` makes of a string.
pub uninterp spec fn lowercase(s: Seq<char>) -> Seq<char>;

/// A character below 128.
pub open spec fn is_ascii_char(c: char) -> bool {
    (c as u32) < 128
}

/// The ASCII lowercase of `c`: `A` to `Z` become `a` to `z`, every other
/// character stays.
pub open spec fn ascii_lower_char(c: char) -> char {
    if 0x41 <= (c as u32) <= 0x5A {
        ((c as u32) + 32) as char
    } else {
        c
    }
}

/// `str::to_lowercase`: the lowercase equivalent of `s`, as the standard
/// library defines it by the Unicode `Lowercase` property. The whole of that
/// mapping is left to the name [`lowercase`]; of an ASCII string the contract
/// states the result, since Unicode maps `A` to `Z` onto `a` to `z` and leaves
/// the other ASCII characters as they are.
#[verifier::external_body]
pub(crate) fn str_to_lowercase(s: &str) -> (r: String)
    ensures
        r@ == lowercase(s@),
        (forall|i: int| 0 <= i < s@.len() ==> #[trigger] is_ascii_char(s@[i])) ==> r@
            == s@.map_values(|c: char| ascii_lower_char(c)),
{
    s.to_lowercase()
}

/// The index of the first `?` or `#` of `s`, or its length when it has none.
pub open spec fn query_start(s: Seq<char>) -> nat
    decreases s.len(),
{
    if s.len() == 0 {
        0
    } else if s[0] == '?' || s[0] == '#' {
        0
    } else {
        1 + query_start(s.drop_first())
    }
}

/// The index of the last `c` in `s`, or -1 when it has none.
pub open spec fn last_index_of(s: Seq<char>, c: char) -> int
    decreases s.len(),
{
    if s.len() == 0 {
        -1
    } else if s.last() == c {
        s.len() - 1
    } else {
        last_index_of(s.drop_last(), c)
    }
}

pub proof fn query_start_bounds(s: Seq<char>)
    ensures
        query_start(s) <= s.len(),
        forall|k: int| 0 <= k < query_start(s) ==> s[k] != '?' && s[k] != '#',
        query_start(s) < s.len() ==> (s[query_start(s) as int] == '?' || s[query_start(s) as int] == '#'),
    decreases s.len(),
{
    if s.len() > 0 && s[0] != '?' && s[0] != '#' {
        query_start_bounds(s.drop_first());
        assert forall|k: int| 0 <= k < query_start(s) implies s[k] != '?' && s[k] != '#' by {
            if k > 0 {
                assert(s[k] == s.drop_first()[k - 1]);
            }
        }
    }
}

pub proof fn last_index_of_bounds(s: Seq<char>, c: char)
    ensures
        -1 <= last_index_of(s, c) < s.len(),
        last_index_of(s, c) >= 0 ==> s[last_index_of(s, c)] == c,
        forall|k: int| last_index_of(s, c) < k < s.len() ==> s[k] != c,
    decreases s.len(),
{
    if s.len() > 0 && s.last() != c {
        last_index_of_bounds(s.drop_last(), c);
        assert forall|k: int| last_index_of(s, c) < k < s.len() implies s[k] != c by {
            if k < s.len() - 1 {
                assert(s[k] == s.drop_last()[k]);
            }
        }
    }
}

/// [`query_start`] of the characters of `s`.
pub fn find_query_start(s: &Vec<char>) -> (k: usize)
    ensures
        k == query_start(s@),
        k <= s.len(),
{
    proof {
        query_start_bounds(s@);
    }
    let mut i: usize = 0;
    assert(s@.skip(0) =~= s@);
    while i < s.len() && s[i] != '?' && s[i] != '#'
        invariant
            i <= s.len(),
            query_start(s@) == i + query_start(s@.skip(i as int)),
        decreases s.len() - i,
    {
        assert(s@.skip(i as int).drop_first() =~= s@.skip(i + 1));
        i = i + 1;
    }
    i
}

/// [`last_index_of`] of the characters of `s`, as an index when it is one.
pub fn find_last(s: &Vec<char>, c: char) -> (k: Option<usize>)
    ensures
        match k {
            Some(j) => j == last_index_of(s@, c),
            None => last_index_of(s@, c) == -1,
        },
        k matches Some(j) ==> j < s.len(),
{
    proof {
        last_index_of_bounds(s@, c);
    }
    let mut j: usize = s.len();
    assert(s@.take(j as int) =~= s@);
    while j > 0 && s[j - 1] != c
        invariant
            j <= s.len(),
            last_index_of(s@, c) == last_index_of(s@.take(j as int), c),
        decreases j,
    {
        assert(s@.take(j as int).drop_last() =~= s@.take(j - 1));
        j = j - 1;
    }
    if j == 0 {
        None
    } else {
        Some(j - 1)
    }
}

} // verus!
