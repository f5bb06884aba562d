//! Character-sequence helpers: conversions between strings and character
//! vectors, splitting, line breaking, whitespace and decimal numbers.
use vstd::prelude::*;

verus! {

/// Collects the characters of `s`, in order (std's `str::chars`).
#[verifier::external_body]
pub(crate) fn chars_of(s: &str) -> (r: Vec<char>)
    ensures
        r@ == s@,
{
    s.chars().collect()
}

/// Builds a string from a slice of characters (std's `FromIterator<&char>` for `String`).
#[verifier::external_body]
pub(crate) fn string_of(cs: &[char]) -> (r: String)
    ensures
        r@ == cs@,
{
    cs.iter().collect()
}

/// Unicode `White_Space`, the property that std's `char::is_whitespace` tests.
pub open spec fn spec_is_whitespace(c: char) -> bool {
    let u = c as u32;
    ||| 0x09 <= u <= 0x0d
    ||| u == 0x20
    ||| u == 0x85
    ||| u == 0xa0
    ||| u == 0x1680
    ||| 0x2000 <= u <= 0x200a
    ||| u == 0x2028
    ||| u == 0x2029
    ||| u == 0x202f
    ||| u == 0x205f
    ||| u == 0x3000
}

pub fn is_whitespace(c: char) -> (r: bool)
    ensures
        r == spec_is_whitespace(c),
{
    let u = c as u32;
    (0x09 <= u && u <= 0x0d) || u == 0x20 || u == 0x85 || u == 0xa0 || u == 0x1680 || (0x2000
        <= u && u <= 0x200a) || u == 0x2028 || u == 0x2029 || u == 0x202f || u == 0x205f || u
        == 0x3000
}


/// A class of characters to split at or search for: one character, any Unicode
/// whitespace, or any ASCII letter.
#[derive(Clone, Copy)]
pub enum CharClass {
    Char(char),
    Whitespace,
    AsciiAlphabetic,
}

pub open spec fn spec_is_ascii_alphabetic(c: char) -> bool {
    ('a' <= c <= 'z') || ('A' <= c <= 'Z')
}

impl CharClass {
    pub open spec fn matches(self, c: char) -> bool {
        match self {
            CharClass::Char(d) => c == d,
            CharClass::Whitespace => spec_is_whitespace(c),
            CharClass::AsciiAlphabetic => spec_is_ascii_alphabetic(c),
        }
    }

    pub fn is_sep(&self, c: char) -> (r: bool)
        ensures
            r == self.matches(c),
    {
        match self {
            CharClass::Char(d) => c == *d,
            CharClass::Whitespace => is_whitespace(c),
            CharClass::AsciiAlphabetic => ('a' <= c && c <= 'z') || ('A' <= c && c <= 'Z'),
        }
    }
}

/// The index of the first separator in `s` at or after `i`.
pub open spec fn find_from(s: Seq<char>, sep: CharClass, i: int) -> Option<int>
    decreases s.len() - i,
{
    if i >= s.len() {
        None
    } else if sep.matches(s[i]) {
        Some(i)
    } else {
        find_from(s, sep, i + 1)
    }
}

/// The index of the first separator in `s`.
pub open spec fn find(s: Seq<char>, sep: CharClass) -> Option<int> {
    find_from(s, sep, 0)
}

pub proof fn lemma_find_from(s: Seq<char>, sep: CharClass, i: int)
    requires
        0 <= i,
    ensures
        match find_from(s, sep, i) {
            Some(j) => i <= j < s.len() && sep.matches(s[j]) && forall|m: int|
                i <= m < j ==> !sep.matches(#[trigger] s[m]),
            None => forall|m: int| i <= m < s.len() ==> !sep.matches(#[trigger] s[m]),
        },
    decreases s.len() - i,
{
    if i < s.len() && !sep.matches(s[i]) {
        lemma_find_from(s, sep, i + 1);
    }
}

/// `find` gives the first separator, or `None` when there is none.
pub proof fn lemma_find(s: Seq<char>, sep: CharClass)
    ensures
        match find(s, sep) {
            Some(j) => 0 <= j < s.len() && sep.matches(s[j]) && forall|m: int|
                0 <= m < j ==> !sep.matches(#[trigger] s[m]),
            None => forall|m: int| 0 <= m < s.len() ==> !sep.matches(#[trigger] s[m]),
        },
{
    lemma_find_from(s, sep, 0);
}

/// Searching a suffix of `s` is searching `s` from a later start.
pub proof fn lemma_find_from_skip(s: Seq<char>, sep: CharClass, p: int, i: int)
    requires
        0 <= p <= s.len(),
        0 <= i,
    ensures
        find_from(s.skip(p), sep, i) == (match find_from(s, sep, i + p) {
            Some(j) => Some(j - p),
            None => None,
        }),
    decreases s.len() - p - i,
{
    if i < s.len() - p && !sep.matches(s[i + p]) {
        lemma_find_from_skip(s, sep, p, i + 1);
    }
}

/// The index of the first character of class `sep` in `s` at or after `from`.
pub fn find_class_from(s: &[char], sep: CharClass, from: usize) -> (r: Option<usize>)
    ensures
        (match r {
            Some(j) => Some(j as int),
            None => None,
        }) == find_from(s@, sep, from as int),
{
    let mut i = from;
    while i < s.len()
        invariant
            from <= i,
            find_from(s@, sep, from as int) == find_from(s@, sep, i as int),
        decreases s.len() - i,
    {
        if sep.is_sep(s[i]) {
            return Some(i);
        }
        i = i + 1;
    }
    None
}

/// The characters of `s` from `a` up to `b`.
pub fn copy_range(s: &[char], a: usize, b: usize) -> (r: Vec<char>)
    requires
        a <= b <= s@.len(),
    ensures
        r@ == s@.subrange(a as int, b as int),
{
    let mut r: Vec<char> = Vec::new();
    let mut i = a;
    while i < b
        invariant
            a <= i <= b <= s@.len(),
            r@ =~= s@.subrange(a as int, i as int),
        decreases b - i,
    {
        r.push(s[i]);
        i = i + 1;
    }
    r
}

/// The pieces of `s` between separators, as std's `str::split` gives them: a
/// string with `k` separators has `k + 1` pieces, some of them maybe empty.
pub open spec fn split(s: Seq<char>, sep: CharClass) -> Seq<Seq<char>>
    decreases s.len(),
{
    match find(s, sep) {
        None => seq![s],
        Some(k) => {
            if 0 <= k < s.len() {
                seq![s.take(k)] + split(s.skip(k + 1), sep)
            } else {
                seq![s]
            }
        },
    }
}

/// Splits `s` at every separator (std's `str::split`).
pub fn split_at_sep(s: &[char], sep: CharClass) -> (r: Vec<Vec<char>>)
    ensures
        r@.map_values(|v: Vec<char>| v@) == split(s@, sep),
{
    let mut r: Vec<Vec<char>> = Vec::new();
    let mut cur: Vec<char> = Vec::new();
    let mut start: usize = 0;
    let mut i: usize = 0;
    assert(s@.skip(0) =~= s@);
    assert(r@.map_values(|v: Vec<char>| v@) =~= Seq::<Seq<char>>::empty());
    while i < s.len()
        invariant
            start <= i <= s.len(),
            cur@ == s@.subrange(start as int, i as int),
            forall|m: int| start <= m < i ==> !sep.matches(#[trigger] s@[m]),
            r@.map_values(|v: Vec<char>| v@) + split(s@.skip(start as int), sep) == split(s@, sep),
        decreases s.len() - i,
    {
        let c = s[i];
        if sep.is_sep(c) {
            let ghost rest = s@.skip(start as int);
            proof {
                lemma_find(rest, sep);
                assert(rest[i - start] == c);
                assert(find(rest, sep) == Some((i - start) as int));
                assert(rest.take((i - start) as int) =~= cur@);
                assert(rest.skip((i - start) + 1) =~= s@.skip(i + 1));
            }
            let ghost old_r = r@.map_values(|v: Vec<char>| v@);
            r.push(cur);
            assert(r@.map_values(|v: Vec<char>| v@) =~= old_r.push(cur@));
            cur = Vec::new();
            start = i + 1;
            proof {
                assert(cur@ =~= s@.subrange(start as int, (i + 1) as int));
            }
        } else {
            cur.push(c);
            assert(cur@ =~= s@.subrange(start as int, (i + 1) as int));
        }
        i = i + 1;
    }
    let ghost rest = s@.skip(start as int);
    proof {
        lemma_find(rest, sep);
        assert(find(rest, sep) is None);
        assert(rest =~= cur@);
    }
    let ghost old_r = r@.map_values(|v: Vec<char>| v@);
    r.push(cur);
    assert(r@.map_values(|v: Vec<char>| v@) =~= old_r.push(cur@));
    r
}
pub proof fn lemma_split_len(s: Seq<char>, sep: CharClass)
    ensures
        split(s, sep).len() >= 1,
    decreases s.len(),
{
}

/// `l` without one trailing carriage return.
pub open spec fn strip_cr(l: Seq<char>) -> Seq<char> {
    if l.len() > 0 && l.last() == '\r' {
        l.drop_last()
    } else {
        l
    }
}

/// The lines of `s`, as std's `str::lines` gives them: split at `\n`, a `\r`
/// just before a `\n` dropped, and no empty line after a final line ending.
pub open spec fn lines(s: Seq<char>) -> Seq<Seq<char>> {
    let parts = split(s, CharClass::Char('\n'));
    let body = parts.drop_last().map_values(|l: Seq<char>| strip_cr(l));
    if parts.last().len() == 0 {
        body
    } else {
        body.push(parts.last())
    }
}

fn strip_cr_exec(l: Vec<char>) -> (r: Vec<char>)
    ensures
        r@ == strip_cr(l@),
{
    let mut l = l;
    let n = l.len();
    if n > 0 && l[n - 1] == '\r' {
        l.pop();
    }
    l
}

/// The lines of `s` (std's `str::lines`).
pub fn split_lines(s: &[char]) -> (r: Vec<Vec<char>>)
    ensures
        r@.map_values(|v: Vec<char>| v@) == lines(s@),
{
    let parts = split_at_sep(s, CharClass::Char('\n'));
    let ghost pv = parts@.map_values(|v: Vec<char>| v@);
    proof {
        lemma_split_len(s@, CharClass::Char('\n'));
    }
    let n = parts.len();
    let mut r: Vec<Vec<char>> = Vec::new();
    let mut i: usize = 0;
    while i + 1 < n
        invariant
            n == parts.len(),
            n >= 1,
            pv == parts@.map_values(|v: Vec<char>| v@),
            i <= n - 1,
            r@.map_values(|v: Vec<char>| v@) =~= pv.take(i as int).map_values(
                |l: Seq<char>| strip_cr(l),
            ),
        decreases n - i,
    {
        let l = strip_cr_exec(parts[i].clone());
        let ghost old_r = r@.map_values(|v: Vec<char>| v@);
        r.push(l);
        assert(r@.map_values(|v: Vec<char>| v@) =~= old_r.push(l@));
        assert(pv.take(i + 1).map_values(|l: Seq<char>| strip_cr(l)) =~= pv.take(
            i as int,
        ).map_values(|l: Seq<char>| strip_cr(l)).push(strip_cr(pv[i as int])));
        i = i + 1;
    }
    assert(pv.take(n - 1) =~= pv.drop_last());
    if parts[n - 1].len() > 0 {
        let ghost old_r = r@.map_values(|v: Vec<char>| v@);
        let last = parts[n - 1].clone();
        r.push(last);
        assert(r@.map_values(|v: Vec<char>| v@) =~= old_r.push(last@));
    }
    r
}

/// The non-empty pieces of `parts`, in order.
pub open spec fn nonempty(parts: Seq<Seq<char>>) -> Seq<Seq<char>>
    decreases parts.len(),
{
    if parts.len() == 0 {
        seq![]
    } else if parts.last().len() > 0 {
        nonempty(parts.drop_last()).push(parts.last())
    } else {
        nonempty(parts.drop_last())
    }
}

/// Every piece that `nonempty` keeps is non-empty.
pub proof fn lemma_nonempty(parts: Seq<Seq<char>>)
    ensures
        forall|i: int|
            0 <= i < nonempty(parts).len() ==> #[trigger] nonempty(parts)[i].len() > 0,
    decreases parts.len(),
{
    if parts.len() > 0 {
        lemma_nonempty(parts.drop_last());
        let prev = nonempty(parts.drop_last());
        if parts.last().len() > 0 {
            assert forall|i: int| 0 <= i < nonempty(parts).len() implies #[trigger] nonempty(
                parts,
            )[i].len() > 0 by {
                if i < prev.len() {
                    assert(nonempty(parts)[i] == prev[i]);
                }
            }
        }
    }
}

/// The whitespace-separated words of `s`, as std's `str::split_whitespace` gives them.
pub open spec fn words(s: Seq<char>) -> Seq<Seq<char>> {
    nonempty(split(s, CharClass::Whitespace))
}

/// The whitespace-separated words of `s` (std's `str::split_whitespace`).
pub fn split_words(s: &[char]) -> (r: Vec<Vec<char>>)
    ensures
        r@.map_values(|v: Vec<char>| v@) == words(s@),
{
    let parts = split_at_sep(s, CharClass::Whitespace);
    let ghost pv = parts@.map_values(|v: Vec<char>| v@);
    let n = parts.len();
    let mut r: Vec<Vec<char>> = Vec::new();
    let mut i: usize = 0;
    assert(pv.take(0) =~= Seq::<Seq<char>>::empty());
    while i < n
        invariant
            n == parts.len(),
            pv == parts@.map_values(|v: Vec<char>| v@),
            i <= n,
            r@.map_values(|v: Vec<char>| v@) =~= nonempty(pv.take(i as int)),
        decreases n - i,
    {
        assert(pv.take(i + 1).drop_last() =~= pv.take(i as int));
        if parts[i].len() > 0 {
            let ghost old_r = r@.map_values(|v: Vec<char>| v@);
            let w = parts[i].clone();
            r.push(w);
            assert(r@.map_values(|v: Vec<char>| v@) =~= old_r.push(w@));
        }
        i = i + 1;
    }
    assert(pv.take(n as int) =~= pv);
    r
}

pub open spec fn is_digit(c: char) -> bool {
    '0' <= c <= '9'
}

pub open spec fn digit_value(c: char) -> nat {
    (c as int - '0' as int) as nat
}

/// The value of a string of decimal digits.
pub open spec fn digits_value(d: Seq<char>) -> nat
    decreases d.len(),
{
    if d.len() == 0 {
        0
    } else {
        digits_value(d.drop_last()) * 10 + digit_value(d.last())
    }
}

/// An unsigned decimal number as std's `FromStr` for the unsigned integers
/// reads it: an optional `+` and then at least one digit.
pub open spec fn parse_uint(s: Seq<char>) -> Option<nat> {
    let d = sign_stripped(s);
    if d.len() > 0 && all_digits(d) {
        Some(digits_value(d))
    } else {
        None
    }
}

/// `s` without one leading `+`.
pub open spec fn sign_stripped(s: Seq<char>) -> Seq<char> {
    if s.len() > 0 && s[0] == '+' {
        s.skip(1)
    } else {
        s
    }
}

pub open spec fn all_digits(d: Seq<char>) -> bool {
    forall|i: int| 0 <= i < d.len() ==> is_digit(#[trigger] d[i])
}

/// `parse_uint`, when the value is at most `limit`.
pub open spec fn parse_bounded(s: Seq<char>, limit: nat) -> Option<nat> {
    match parse_uint(s) {
        Some(v) => if v <= limit {
            Some(v)
        } else {
            None
        },
        None => None,
    }
}

pub open spec fn min_nat(a: nat, b: nat) -> nat {
    if a <= b {
        a
    } else {
        b
    }
}

/// Reads `s` as an unsigned decimal number of at most `limit`: `Some` exactly
/// when std's `str::parse` would give one for an integer type with that maximum.
pub fn parse_decimal(s: &[char], limit: u64) -> (r: Option<u64>)
    requires
        limit <= u32::MAX,
    ensures
        r == (match parse_bounded(s@, limit as nat) {
            Some(v) => Some(v as u64),
            None => None,
        }),
{
    let n = s.len();
    let mut start: usize = 0;
    if n > 0 && s[0] == '+' {
        start = 1;
    }
    let ghost d = sign_stripped(s@);
    assert(d =~= s@.skip(start as int));
    if start >= n {
        return None;
    }
    let cap: u64 = limit + 1;
    let mut v: u64 = 0;
    let mut i: usize = start;
    assert(d.take(0) =~= Seq::<char>::empty());
    while i < n
        invariant
            start <= i <= n,
            n == s@.len(),
            d =~= s@.skip(start as int),
            d == sign_stripped(s@),
            cap == limit + 1,
            limit <= u32::MAX,
            forall|k: int| start <= k < i ==> is_digit(#[trigger] s@[k]),
            v as nat == min_nat(digits_value(d.take(i - start)), cap as nat),
        decreases n - i,
    {
        let c = s[i];
        if !('0' <= c && c <= '9') {
            proof {
                let k = i - start;
                assert(d[k] == c);
                assert(!is_digit(d[k]));
                assert(!all_digits(d));
                assert(parse_uint(s@) is None);
            }
            return None;
        }
        let dv = (c as u32 - '0' as u32) as u64;
        assert(d.take(i + 1 - start).drop_last() =~= d.take(i - start));
        assert(d.take(i + 1 - start).last() == c);
        if v >= cap {
            v = cap;
        } else {
            let w = v * 10 + dv;
            if w >= cap {
                v = cap;
            } else {
                v = w;
            }
        }
        i = i + 1;
    }
    assert(d.take(n - start) =~= d);
    assert forall|k: int| 0 <= k < d.len() implies is_digit(#[trigger] d[k]) by {
        assert(d[k] == s@[k + start]);
    }
    if v >= cap {
        None
    } else {
        Some(v)
    }
}

pub open spec fn digit_char(n: nat) -> char {
    (n + '0' as nat) as char
}

/// The decimal representation of `n`, without leading zeros.
pub open spec fn decimal(n: nat) -> Seq<char>
    decreases n,
{
    if n < 10 {
        seq![digit_char(n)]
    } else {
        decimal(n / 10).push(digit_char(n % 10))
    }
}

/// The decimal representation of `n` (std's `Display` for `u64`).
pub fn decimal_chars(n: u64) -> (r: Vec<char>)
    ensures
        r@ == decimal(n as nat),
    decreases n,
{
    let d = ((n % 10) as u32 + '0' as u32) as u8 as char;
    assert(d == digit_char((n % 10) as nat));
    if n < 10 {
        let mut v = Vec::new();
        v.push(d);
        assert(v@ =~= seq![d]);
        v
    } else {
        let mut v = decimal_chars(n / 10);
        v.push(d);
        v
    }
}

/// Whether two character sequences are equal.
pub fn chars_eq(a: &[char], b: &[char]) -> (r: bool)
    ensures
        r == (a@ == b@),
{
    if a.len() != b.len() {
        return false;
    }
    let mut i: usize = 0;
    while i < a.len()
        invariant
            i <= a@.len(),
            a@.len() == b@.len(),
            forall|k: int| 0 <= k < i ==> a@[k] == b@[k],
        decreases a@.len() - i,
    {
        if a[i] != b[i] {
            return false;
        }
        i = i + 1;
    }
    assert(a@ =~= b@);
    true
}

/// Whether two strings are equal.
pub fn str_eq(a: &str, b: &str) -> (r: bool)
    ensures
        r == (a@ == b@),
{
    let va = chars_of(a);
    let vb = chars_of(b);
    chars_eq(&va, &vb)
}

/// The ref that stands for the working tree.
pub open spec fn working_tree_ref() -> Seq<char> {
    seq!['.']
}

/// Whether `s` is `.`, the ref that stands for the working tree.
pub fn is_working_tree_ref(s: &str) -> (r: bool)
    ensures
        r == (s@ == working_tree_ref()),
{
    let v = chars_of(s);
    let r = v.len() == 1 && v[0] == '.';
    assert(r ==> v@ =~= working_tree_ref());
    r
}

/// Appends the characters of `s` to `v`.
pub fn push_str(v: &mut Vec<char>, s: &str)
    ensures
        final(v)@ == old(v)@ + s@,
{
    let cs = chars_of(s);
    push_chars(v, &cs);
}

/// Appends `cs` to `v`.
pub fn push_chars(v: &mut Vec<char>, cs: &[char])
    ensures
        final(v)@ == old(v)@ + cs@,
{
    let ghost start = v@;
    let mut i: usize = 0;
    while i < cs.len()
        invariant
            i <= cs@.len(),
            v@ =~= start + cs@.take(i as int),
        decreases cs@.len() - i,
    {
        v.push(cs[i]);
        i = i + 1;
    }
    assert(cs@.take(cs@.len() as int) =~= cs@);
}

pub open spec fn pow10(k: nat) -> nat
    decreases k,
{
    if k == 0 {
        1
    } else {
        10 * pow10((k - 1) as nat)
    }
}

/// A number below `10^k` has at most `k` digits.
pub proof fn lemma_decimal_len(n: nat, k: nat)
    requires
        n < pow10(k),
        k >= 1,
    ensures
        decimal(n).len() <= k,
    decreases k,
{
    if n >= 10 {
        if k == 1 {
            assert(pow10(0) == 1);
            assert(pow10(1) == 10);
        } else {
            lemma_decimal_len(n / 10, (k - 1) as nat);
        }
    }
}

/// A `u32` has at most ten digits.
pub proof fn lemma_decimal_len_u32(n: u32)
    ensures
        decimal(n as nat).len() <= 10,
{
    reveal_with_fuel(pow10, 11);
    assert(pow10(10) == 10000000000);
    lemma_decimal_len(n as nat, 10);
}

} // verus!
