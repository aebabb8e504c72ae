//! Character-level text handling shared by the parsers of this crate:
//! ASCII case folding, Unicode white-space trimming, splitting on a
//! separator, line splitting, and decimal integers.
use vstd::prelude::*;

verus! {

// ---------------------------------------------------------------------
// Conversions between `str`, `String` and `Vec<char>`
// ---------------------------------------------------------------------

/// The characters of `s`, in order.
pub fn chars_of(s: &str) -> (v: Vec<char>)
    ensures
        v@ == s@,
{
    let mut v: Vec<char> = Vec::new();
    for c in it: s.chars()
        invariant
            v@ == it.seq().take(it.index() as int),
            it.seq() == s@,
    {
        v.push(c);
    }
    v
}

/// `String::push`: appends one character.
#[verifier::external_body]
fn push_char(s: &mut String, c: char)
    ensures
        final(s)@ == old(s)@.push(c),
{
    s.push(c);
}

/// The string made of the characters of `v`.
pub fn string_of(v: &Vec<char>) -> (s: String)
    ensures
        s@ == v@,
{
    let mut s = String::new();
    let mut i: usize = 0;
    while i < v.len()
        invariant
            i <= v.len(),
            s@ == v@.take(i as int),
        decreases v.len() - i,
    {
        push_char(&mut s, v[i]);
        assert(v@.take(i + 1) =~= v@.take(i as int).push(v@[i as int]));
        i = i + 1;
    }
    assert(v@.take(v.len() as int) =~= v@);
    s
}

/// The characters of `v` from `lo` up to, not including, `hi`.
pub fn chars_range(v: &Vec<char>, lo: usize, hi: usize) -> (r: Vec<char>)
    requires
        lo <= hi <= v.len(),
    ensures
        r@ == v@.subrange(lo as int, hi as int),
{
    let mut r: Vec<char> = Vec::new();
    let mut i: usize = lo;
    while i < hi
        invariant
            lo <= i <= hi <= v.len(),
            r@ == v@.subrange(lo as int, i as int),
        decreases hi - i,
    {
        r.push(v[i]);
        i = i + 1;
        assert(r@ =~= v@.subrange(lo as int, i as int));
    }
    r
}

/// Whether the two character sequences are equal.
pub fn chars_eq(a: &Vec<char>, b: &Vec<char>) -> (r: bool)
    ensures
        r == (a@ == b@),
{
    if a.len() != b.len() {
        return false;
    }
    let mut i: usize = 0;
    while i < a.len()
        invariant
            a.len() == b.len(),
            i <= a.len(),
            forall|k: int| 0 <= k < i ==> a@[k] == b@[k],
        decreases a.len() - i,
    {
        if a[i] != b[i] {
            return false;
        }
        i = i + 1;
    }
    assert(a@ =~= b@);
    true
}

/// Whether the characters `a` spell exactly the string `w`.
pub fn chars_eq_str(a: &Vec<char>, w: &str) -> (r: bool)
    ensures
        r == (a@ == w@),
{
    let b = chars_of(w);
    chars_eq(a, &b)
}

/// Whether the two strings are equal.
pub fn str_eq(a: &str, b: &str) -> (r: bool)
    ensures
        r == (a@ == b@),
{
    let va = chars_of(a);
    chars_eq_str(&va, b)
}

// ---------------------------------------------------------------------
// ASCII case folding
// ---------------------------------------------------------------------

pub open spec fn is_ascii_upper(c: char) -> bool {
    ('A' as u32) <= (c as u32) && (c as u32) <= ('Z' as u32)
}

/// `char::to_ascii_lowercase`.
pub open spec fn ascii_lower_char(c: char) -> char {
    if is_ascii_upper(c) {
        ((c as u32) + 32) as char
    } else {
        c
    }
}

/// `str::to_ascii_lowercase`: every ASCII upper-case letter replaced by its
/// lower-case form, every other character kept.
pub open spec fn ascii_lower(s: Seq<char>) -> Seq<char> {
    s.map_values(|c: char| ascii_lower_char(c))
}

pub fn lower_char(c: char) -> (r: char)
    ensures
        r == ascii_lower_char(c),
{
    if 'A' <= c && c <= 'Z' {
        let b: u8 = (c as u8) + 32;
        b as char
    } else {
        c
    }
}

/// The ASCII lower-case form of `v`.
pub fn lower_chars(v: &Vec<char>) -> (r: Vec<char>)
    ensures
        r@ == ascii_lower(v@),
{
    let mut r: Vec<char> = Vec::new();
    let mut i: usize = 0;
    while i < v.len()
        invariant
            i <= v.len(),
            r@ == ascii_lower(v@.take(i as int)),
        decreases v.len() - i,
    {
        let c = lower_char(v[i]);
        r.push(c);
        assert(ascii_lower(v@.take(i + 1)) =~= ascii_lower(v@.take(i as int)).push(c));
        i = i + 1;
    }
    assert(v@.take(v.len() as int) =~= v@);
    r
}

// ---------------------------------------------------------------------
// White space and trimming
// ---------------------------------------------------------------------

/// `char::is_whitespace`: the characters with the Unicode `White_Space`
/// property.
pub open spec fn is_white_space(c: char) -> bool {
    let u = c as u32;
    ||| (0x09 <= u && u <= 0x0D)
    ||| u == 0x20
    ||| u == 0x85
    ||| u == 0xA0
    ||| u == 0x1680
    ||| (0x2000 <= u && u <= 0x200A)
    ||| u == 0x2028
    ||| u == 0x2029
    ||| u == 0x202F
    ||| u == 0x205F
    ||| u == 0x3000
}

pub fn white_space(c: char) -> (r: bool)
    ensures
        r == is_white_space(c),
{
    let u = c as u32;
    (0x09 <= u && u <= 0x0D) || u == 0x20 || u == 0x85 || u == 0xA0 || u == 0x1680 || (0x2000
        <= u && u <= 0x200A) || u == 0x2028 || u == 0x2029 || u == 0x202F || u == 0x205F || u
        == 0x3000
}

/// `s` without its leading white space.
pub open spec fn trim_start(s: Seq<char>) -> Seq<char>
    decreases s.len(),
{
    if s.len() > 0 && is_white_space(s[0]) {
        trim_start(s.drop_first())
    } else {
        s
    }
}

/// `s` without its trailing white space.
pub open spec fn trim_end(s: Seq<char>) -> Seq<char>
    decreases s.len(),
{
    if s.len() > 0 && is_white_space(s.last()) {
        trim_end(s.drop_last())
    } else {
        s
    }
}

/// `str::trim`: `s` without leading and trailing white space.
pub open spec fn trim(s: Seq<char>) -> Seq<char> {
    trim_end(trim_start(s))
}

/// `str::trim_end_matches` with a single character: `s` without the
/// copies of `c` that end it.
pub open spec fn trim_end_char(s: Seq<char>, c: char) -> Seq<char>
    decreases s.len(),
{
    if s.len() > 0 && s.last() == c {
        trim_end_char(s.drop_last(), c)
    } else {
        s
    }
}

/// The characters of `v` without leading and trailing white space.
pub fn trim_chars(v: &Vec<char>) -> (r: Vec<char>)
    ensures
        r@ == trim(v@),
{
    let n = v.len();
    let mut i: usize = 0;
    assert(v@.subrange(0, n as int) =~= v@);
    while i < n && white_space(v[i])
        invariant
            n == v.len(),
            i <= n,
            trim_start(v@) == trim_start(v@.subrange(i as int, n as int)),
        decreases n - i,
    {
        assert(v@.subrange(i as int, n as int).drop_first() =~= v@.subrange(i + 1, n as int));
        i = i + 1;
    }
    let mut j: usize = n;
    while j > i && white_space(v[j - 1])
        invariant
            n == v.len(),
            i <= j <= n,
            trim_start(v@) == v@.subrange(i as int, n as int),
            trim_end(v@.subrange(i as int, n as int)) == trim_end(v@.subrange(i as int, j as int)),
        decreases j - i,
    {
        assert(v@.subrange(i as int, j as int).drop_last() =~= v@.subrange(i as int, j - 1));
        j = j - 1;
    }
    let mut r: Vec<char> = Vec::new();
    let mut k: usize = i;
    while k < j
        invariant
            n == v.len(),
            i <= k <= j <= n,
            r@ == v@.subrange(i as int, k as int),
        decreases j - k,
    {
        r.push(v[k]);
        assert(v@.subrange(i as int, k + 1) =~= v@.subrange(i as int, k as int).push(v@[k as int]));
        k = k + 1;
    }
    r
}

/// `str::trim`.
pub fn trim_str(s: &str) -> (r: Vec<char>)
    ensures
        r@ == trim(s@),
{
    let v = chars_of(s);
    trim_chars(&v)
}

/// The characters of `v` without the copies of `c` that end it.
pub fn trim_end_matching(v: &Vec<char>, c: char) -> (r: Vec<char>)
    ensures
        r@ == trim_end_char(v@, c),
{
    let mut j: usize = v.len();
    assert(v@.take(j as int) =~= v@);
    while j > 0 && v[j - 1] == c
        invariant
            j <= v.len(),
            trim_end_char(v@, c) == trim_end_char(v@.take(j as int), c),
        decreases j,
    {
        assert(v@.take(j as int).drop_last() =~= v@.take(j - 1));
        j = j - 1;
    }
    let mut r: Vec<char> = Vec::new();
    let mut k: usize = 0;
    while k < j
        invariant
            j <= v.len(),
            k <= j,
            r@ == v@.take(k as int),
        decreases j - k,
    {
        r.push(v[k]);
        assert(v@.take(k + 1) =~= v@.take(k as int).push(v@[k as int]));
        k = k + 1;
    }
    r
}


// ---------------------------------------------------------------------
// Splitting
// ---------------------------------------------------------------------

/// `str::split` with a single character: the pieces of `s` between the
/// copies of `sep`, in order; always at least one piece.
pub open spec fn split_on(s: Seq<char>, sep: char) -> Seq<Seq<char>>
    decreases s.len(),
{
    if s.len() == 0 {
        seq![Seq::<char>::empty()]
    } else {
        let init = split_on(s.drop_last(), sep);
        if s.last() == sep {
            init.push(Seq::<char>::empty())
        } else {
            init.update(init.len() - 1, init.last().push(s.last()))
        }
    }
}

pub proof fn lemma_split_on_nonempty(s: Seq<char>, sep: char)
    ensures
        split_on(s, sep).len() >= 1,
    decreases s.len(),
{
    if s.len() > 0 {
        lemma_split_on_nonempty(s.drop_last(), sep);
    }
}

/// The views of a vector of character vectors.
pub open spec fn pieces_view(v: Seq<Vec<char>>) -> Seq<Seq<char>> {
    v.map_values(|p: Vec<char>| p@)
}

/// The pieces of `v` between the copies of `sep`.
pub fn split_chars(v: &Vec<char>, sep: char) -> (r: Vec<Vec<char>>)
    ensures
        pieces_view(r@) == split_on(v@, sep),
{
    let mut pieces: Vec<Vec<char>> = Vec::new();
    let mut cur: Vec<char> = Vec::new();
    let mut i: usize = 0;
    assert(v@.take(0) =~= Seq::<char>::empty());
    assert(pieces_view(pieces@).push(cur@) =~= split_on(v@.take(0), sep));
    while i < v.len()
        invariant
            i <= v.len(),
            pieces_view(pieces@).push(cur@) == split_on(v@.take(i as int), sep),
        decreases v.len() - i,
    {
        let c = v[i];
        assert(v@.take(i + 1).drop_last() =~= v@.take(i as int));
        proof {
            lemma_split_on_nonempty(v@.take(i as int), sep);
        }
        if c == sep {
            let ghost before = pieces_view(pieces@);
            pieces.push(cur);
            cur = Vec::new();
            assert(pieces_view(pieces@) =~= before.push(
                split_on(v@.take(i as int), sep).last(),
            ));
            assert(pieces_view(pieces@).push(cur@) =~= split_on(v@.take(i + 1), sep));
        } else {
            cur.push(c);
            assert(pieces_view(pieces@).push(cur@) =~= split_on(v@.take(i + 1), sep));
        }
        i = i + 1;
    }
    assert(v@.take(v.len() as int) =~= v@);
    let ghost before = pieces_view(pieces@);
    let ghost last = cur@;
    pieces.push(cur);
    assert(pieces_view(pieces@) =~= before.push(last));
    pieces
}

/// A line without the carriage return that ended it.
pub open spec fn strip_cr(p: Seq<char>) -> Seq<char> {
    if p.len() > 0 && p.last() == '\r' {
        p.drop_last()
    } else {
        p
    }
}

/// `str::lines`: the pieces between line feeds, each without a carriage
/// return before its line feed; a final empty piece (text that ends with a
/// line feed, or empty text) yields no line.
pub open spec fn lines_of(s: Seq<char>) -> Seq<Seq<char>> {
    let p = split_on(s, '\n');
    let body = p.drop_last().map_values(|q: Seq<char>| strip_cr(q));
    if p.last().len() == 0 {
        body
    } else {
        body.push(p.last())
    }
}

/// The character vector `p` without the carriage return that ends it.
pub fn strip_cr_chars(p: Vec<char>) -> (r: Vec<char>)
    ensures
        r@ == strip_cr(p@),
{
    let mut p = p;
    if p.len() > 0 && p[p.len() - 1] == '\r' {
        let _ = p.pop();
    }
    p
}

/// The lines of `v`.
pub fn lines_chars(v: &Vec<char>) -> (r: Vec<Vec<char>>)
    ensures
        pieces_view(r@) == lines_of(v@),
{
    let pieces = split_chars(v, '\n');
    proof {
        lemma_split_on_nonempty(v@, '\n');
    }
    let ghost p = split_on(v@, '\n');
    let n = pieces.len();
    let mut r: Vec<Vec<char>> = Vec::new();
    let mut i: usize = 0;
    while i + 1 < n
        invariant
            n == pieces.len(),
            n >= 1,
            pieces_view(pieces@) == p,
            i < n,
            pieces_view(r@) == p.take(i as int).map_values(|q: Seq<char>| strip_cr(q)),
        decreases n - i,
    {
        let line = strip_cr_chars(pieces[i].clone());
        let ghost before = pieces_view(r@);
        r.push(line);
        assert(pieces_view(r@) =~= before.push(line@));
        assert(p.take(i + 1).map_values(|q: Seq<char>| strip_cr(q)) =~= p.take(
            i as int,
        ).map_values(|q: Seq<char>| strip_cr(q)).push(strip_cr(p[i as int])));
        i = i + 1;
    }
    assert(p.take(i as int) =~= p.drop_last());
    if pieces[n - 1].len() != 0 {
        let ghost before = pieces_view(r@);
        let last = pieces[n - 1].clone();
        r.push(last);
        assert(pieces_view(r@) =~= before.push(p.last()));
    }
    r
}

// ---------------------------------------------------------------------
// Words
// ---------------------------------------------------------------------

/// The characters of `s` up to its first white space.
pub open spec fn leading_word(s: Seq<char>) -> Seq<char>
    decreases s.len(),
{
    if s.len() == 0 || is_white_space(s[0]) {
        Seq::<char>::empty()
    } else {
        seq![s[0]] + leading_word(s.drop_first())
    }
}

/// `str::split_whitespace().next()`: the first white-space-separated word
/// of `s`, if any.
pub open spec fn first_word(s: Seq<char>) -> Option<Seq<char>> {
    let t = trim_start(s);
    if t.len() == 0 {
        None
    } else {
        Some(leading_word(t))
    }
}

/// The first white-space-separated word of `v`, if any.
pub fn first_word_chars(v: &Vec<char>) -> (r: Option<Vec<char>>)
    ensures
        match r {
            Some(w) => first_word(v@) == Some(w@),
            None => first_word(v@) is None,
        },
{
    let n = v.len();
    let mut i: usize = 0;
    assert(v@.subrange(0, n as int) =~= v@);
    while i < n && white_space(v[i])
        invariant
            n == v.len(),
            i <= n,
            trim_start(v@) == trim_start(v@.subrange(i as int, n as int)),
        decreases n - i,
    {
        assert(v@.subrange(i as int, n as int).drop_first() =~= v@.subrange(i + 1, n as int));
        i = i + 1;
    }
    if i == n {
        return None;
    }
    let ghost t = v@.subrange(i as int, n as int);
    let mut w: Vec<char> = Vec::new();
    let mut k: usize = i;
    while k < n && !white_space(v[k])
        invariant
            n == v.len(),
            i <= k <= n,
            t == v@.subrange(i as int, n as int),
            leading_word(t) == w@ + leading_word(v@.subrange(k as int, n as int)),
        decreases n - k,
    {
        assert(v@.subrange(k as int, n as int).drop_first() =~= v@.subrange(k + 1, n as int));
        assert(v@.subrange(k as int, n as int)[0] == v@[k as int]);
        w.push(v[k]);
        assert(w@ + leading_word(v@.subrange(k + 1, n as int)) =~= (w@.drop_last() + seq![
            v@[k as int],
        ]) + leading_word(v@.subrange(k + 1, n as int)));
        k = k + 1;
    }
    assert(leading_word(v@.subrange(k as int, n as int)) =~= Seq::<char>::empty());
    assert(w@ + Seq::<char>::empty() =~= w@);
    Some(w)
}

// ---------------------------------------------------------------------
// Decimal integers
// ---------------------------------------------------------------------

pub open spec fn is_digit(c: char) -> bool {
    ('0' as u32) <= (c as u32) && (c as u32) <= ('9' as u32)
}

pub open spec fn digit_value(c: char) -> nat {
    ((c as u32) - ('0' as u32)) as nat
}

pub open spec fn all_digits(s: Seq<char>) -> bool {
    forall|i: int| 0 <= i < s.len() ==> is_digit(#[trigger] s[i])
}

/// The number that the decimal digits `s` spell.
pub open spec fn digits_value(s: Seq<char>) -> nat
    decreases s.len(),
{
    if s.len() == 0 {
        0
    } else {
        digits_value(s.drop_last()) * 10 + digit_value(s.last())
    }
}

/// A non-empty run of decimal digits and its value.
pub open spec fn digit_run(s: Seq<char>) -> Option<nat> {
    if s.len() > 0 && all_digits(s) {
        Some(digits_value(s))
    } else {
        None
    }
}

/// The unsigned part of `FromStr` for the integer types: an optional `+`
/// followed by at least one decimal digit, and nothing else.
pub open spec fn parse_unsigned(s: Seq<char>) -> Option<nat> {
    if s.len() > 0 && s[0] == '+' {
        digit_run(s.drop_first())
    } else {
        digit_run(s)
    }
}

/// `u8::from_str`.
pub open spec fn parse_u8(s: Seq<char>) -> Option<u8> {
    match parse_unsigned(s) {
        Some(n) => if n <= 255 {
            Some(n as u8)
        } else {
            None
        },
        None => None,
    }
}

/// `i32::from_str`: an optional sign followed by decimal digits, within
/// the range of `i32`.
pub open spec fn parse_i32(s: Seq<char>) -> Option<i32> {
    if s.len() > 0 && s[0] == '-' {
        match digit_run(s.drop_first()) {
            Some(n) => if n <= 2147483648 {
                Some((0 - n) as i32)
            } else {
                None
            },
            None => None,
        }
    } else {
        match parse_unsigned(s) {
            Some(n) => if n <= 2147483647 {
                Some(n as i32)
            } else {
                None
            },
            None => None,
        }
    }
}

pub proof fn lemma_digits_value_prefix(s: Seq<char>, k: int)
    requires
        0 <= k <= s.len(),
    ensures
        digits_value(s.take(k)) <= digits_value(s),
    decreases s.len(),
{
    if k < s.len() {
        assert(s.drop_last().take(k) =~= s.take(k));
        lemma_digits_value_prefix(s.drop_last(), k);
    } else {
        assert(s.take(k) =~= s);
    }
}

/// The value of the digits `v[start..]` when they are a non-empty run of
/// decimal digits whose value is at most `limit`.
fn digit_run_bounded(v: &Vec<char>, start: usize, limit: u64) -> (r: Option<u64>)
    requires
        start <= v.len(),
        9 <= limit < 0x1000_0000_0000_0000,
    ensures
        match r {
            Some(x) => digit_run(v@.skip(start as int)) == Some(x as nat) && x <= limit,
            None => match digit_run(v@.skip(start as int)) {
                Some(n) => n > limit,
                None => true,
            },
        },
{
    let ghost d = v@.skip(start as int);
    if start == v.len() {
        return None;
    }
    let mut acc: u64 = 0;
    let mut i: usize = start;
    assert(d.take(0) =~= Seq::<char>::empty());
    while i < v.len()
        invariant
            start <= i <= v.len(),
            d == v@.skip(start as int),
            d.len() > 0,
            all_digits(d.take(i - start)),
            acc as nat == digits_value(d.take(i - start)),
            acc <= limit,
            9 <= limit < 0x1000_0000_0000_0000,
        decreases v.len() - i,
    {
        let c = v[i];
        let u = c as u32;
        if !(48 <= u && u <= 57) {
            assert(d[i - start] == c);
            assert(!is_digit(d[i - start]));
            assert(!all_digits(d));
            return None;
        }
        let dv: u64 = ((c as u32) - ('0' as u32)) as u64;
        assert(d.take(i - start + 1).drop_last() =~= d.take(i - start));
        assert(d.take(i - start + 1).last() == c);
        if acc > (limit - dv) / 10 {
            proof {
                assert(acc * 10 + dv > limit) by (nonlinear_arith)
                    requires
                        acc > (limit - dv) / 10,
                        dv <= limit,
                ;
            }
            assert(all_digits(d.take(i - start + 1)));
            proof {
                if all_digits(d) {
                    lemma_digits_value_prefix(d, i - start + 1);
                }
            }
            return None;
        }
        proof {
            assert(acc * 10 + dv <= limit) by (nonlinear_arith)
                requires
                    acc <= (limit - dv) / 10,
                    dv <= limit,
            ;
        }
        acc = acc * 10 + dv;
        i = i + 1;
    }
    assert(d.take(i - start) =~= d);
    Some(acc)
}

/// `u8::from_str`.
pub fn parse_u8_chars(v: &Vec<char>) -> (r: Option<u8>)
    ensures
        r == parse_u8(v@),
{
    let start: usize = if v.len() > 0 && v[0] == '+' {
        1
    } else {
        0
    };
    assert(v@.skip(0) =~= v@);
    assert(v.len() > 0 ==> v@.skip(1) =~= v@.drop_first());
    match digit_run_bounded(v, start, 255) {
        Some(x) => Some(x as u8),
        None => None,
    }
}

/// `i32::from_str`.
pub fn parse_i32_chars(v: &Vec<char>) -> (r: Option<i32>)
    ensures
        r == parse_i32(v@),
{
    assert(v@.skip(0) =~= v@);
    assert(v.len() > 0 ==> v@.skip(1) =~= v@.drop_first());
    if v.len() > 0 && v[0] == '-' {
        match digit_run_bounded(v, 1, 2147483648) {
            Some(x) => {
                let n: i64 = 0 - (x as i64);
                Some(n as i32)
            },
            None => None,
        }
    } else {
        let start: usize = if v.len() > 0 && v[0] == '+' {
            1
        } else {
            0
        };
        match digit_run_bounded(v, start, 2147483647) {
            Some(x) => Some(x as i32),
            None => None,
        }
    }
}

pub open spec fn digit_char(d: nat) -> char {
    (('0' as u32) + d) as char
}

/// The decimal spelling of `n`, without leading zeros.
pub open spec fn decimal(n: nat) -> Seq<char>
    decreases n,
{
    if n < 10 {
        seq![digit_char(n)]
    } else {
        decimal(n / 10).push(digit_char(n % 10))
    }
}

/// The decimal spelling of `n` is a run of digits with value `n`.
pub proof fn lemma_decimal_digits(n: nat)
    ensures
        decimal(n).len() > 0,
        all_digits(decimal(n)),
        digits_value(decimal(n)) == n,
        decimal(n)[0] != '+',
        decimal(n)[0] != '-',
    decreases n,
{
    if n < 10 {
        let s = decimal(n);
        assert(s.drop_last() =~= Seq::<char>::empty());
        assert(s.last() == digit_char(n));
        assert(digit_value(digit_char(n)) == n);
        assert(digits_value(s) == digits_value(s.drop_last()) * 10 + digit_value(s.last()));
    } else {
        lemma_decimal_digits(n / 10);
        let s = decimal(n);
        assert(s.drop_last() =~= decimal(n / 10));
        assert(s[0] == decimal(n / 10)[0]);
        assert(s.last() == digit_char(n % 10));
        assert(digit_value(digit_char(n % 10)) == n % 10);
        assert(digits_value(s) == digits_value(decimal(n / 10)) * 10 + n % 10);
        assert((n / 10) * 10 + n % 10 == n) by (nonlinear_arith);
    }
}

fn digit_of(d: u8) -> (c: char)
    requires
        d < 10,
    ensures
        c == digit_char(d as nat),
{
    (d + 48) as char
}

/// `u8::to_string`.
pub fn u8_decimal(q: u8) -> (s: String)
    ensures
        s@ == decimal(q as nat),
{
    let mut v: Vec<char> = Vec::new();
    if q >= 100 {
        v.push(digit_of(q / 100));
        v.push(digit_of((q / 10) % 10));
        v.push(digit_of(q % 10));
        reveal_with_fuel(decimal, 3);
        assert(decimal(q as nat) =~= seq![
            digit_char((q / 100) as nat),
            digit_char(((q / 10) % 10) as nat),
            digit_char((q % 10) as nat),
        ]) by {
            assert((q as nat) / 10 >= 10);
            assert(((q as nat) / 10) / 10 < 10);
        }
    } else if q >= 10 {
        v.push(digit_of(q / 10));
        v.push(digit_of(q % 10));
        reveal_with_fuel(decimal, 2);
        assert(decimal(q as nat) =~= seq![digit_char((q / 10) as nat), digit_char((q % 10) as nat)]);
    } else {
        v.push(digit_of(q));
        assert(decimal(q as nat) =~= seq![digit_char(q as nat)]);
    }
    string_of(&v)
}


/// The decimal spelling of an integer: a minus sign before negative ones.
pub open spec fn signed_decimal(n: int) -> Seq<char> {
    if n < 0 {
        "-"@ + decimal((0 - n) as nat)
    } else {
        decimal(n as nat)
    }
}

/// The decimal digits of `n`.
fn u64_digits(n: u64) -> (v: Vec<char>)
    ensures
        v@ == decimal(n as nat),
    decreases n,
{
    if n < 10 {
        let v = vec![digit_of(n as u8)];
        assert(v@ =~= decimal(n as nat));
        v
    } else {
        let mut v = u64_digits(n / 10);
        v.push(digit_of((n % 10) as u8));
        v
    }
}

/// `i64::to_string`.
pub fn i64_decimal(n: i64) -> (s: String)
    ensures
        s@ == signed_decimal(n as int),
{
    if n < 0 {
        let m: u64 = (0i128 - (n as i128)) as u64;
        let mut s = "-".to_owned();
        let d = string_of(&u64_digits(m));
        s.append(d.as_str());
        s
    } else {
        string_of(&u64_digits(n as u64))
    }
}

} // verus!
