//! Character-level string utilities with exact specifications.
use vstd::prelude::*;

verus! {

broadcast use vstd::string::group_string_axioms;

/// Whether two texts are the same.
pub fn str_equal(a: &str, b: &str) -> (r: bool)
    ensures
        r == (a@ == b@),
{
    a.to_owned() == b.to_owned()
}

/// What the standard library's `str::to_lowercase` makes of the text `s`.
pub uninterp spec fn lowercase(s: Seq<char>) -> Seq<char>;

/// Calls `str::to_lowercase` of the standard library, which maps every
/// character of `s` to its lowercase form under Unicode's rules. The contract
/// only names the result: it is `lowercase` of the characters of `s`, so two
/// calls on equal texts agree; nothing is stated of the mapping itself.
#[verifier::external_body]
pub(crate) fn to_lowercase(s: &str) -> (r: String)
    ensures
        r@ == lowercase(s@),
{
    s.to_lowercase()
}

/// `s` with every occurrence of the non-empty pattern `pat` replaced by `rep`,
/// occurrences found from left to right without overlapping.
pub open spec fn replace_all(s: Seq<char>, pat: Seq<char>, rep: Seq<char>) -> Seq<char>
    decreases s.len(),
{
    if s.len() == 0 || pat.len() == 0 {
        s
    } else if pat.is_prefix_of(s) {
        rep + replace_all(s.skip(pat.len() as int), pat, rep)
    } else {
        seq![s[0]] + replace_all(s.skip(1), pat, rep)
    }
}

/// Whether `c` is one of the ASCII digits `0` to `9`.
pub open spec fn is_decimal_digit(c: char) -> bool {
    '0' <= c && c <= '9'
}

/// The number that the decimal digits `d` write, most significant first.
pub open spec fn digits_value(d: Seq<char>) -> int
    decreases d.len(),
{
    if d.len() == 0 {
        0
    } else {
        digits_value(d.drop_last()) * 10 + ((d.last() as int) - ('0' as int))
    }
}

/// `s` without its leading `+` sign, if it has one.
pub open spec fn unsigned_part(s: Seq<char>) -> Seq<char> {
    if s.len() > 0 && s[0] == '+' {
        s.skip(1)
    } else {
        s
    }
}

/// Whether every character of `d` is a decimal digit.
pub open spec fn all_decimal_digits(d: Seq<char>) -> bool {
    forall|i: int| 0 <= i < d.len() ==> is_decimal_digit(#[trigger] d[i])
}

/// What the standard library's `u64::from_str` gives for the text `s`: an
/// optional `+` sign followed by at least one decimal digit, and no more than
/// `u64::MAX`.
pub open spec fn decimal_u64(s: Seq<char>) -> Option<u64> {
    let d = unsigned_part(s);
    if d.len() > 0 && all_decimal_digits(d) && digits_value(d) <= u64::MAX {
        Some(digits_value(d) as u64)
    } else {
        None
    }
}

proof fn lemma_digits_value_grows(d: Seq<char>, k: int)
    requires
        0 <= k <= d.len(),
        forall|i: int| 0 <= i < d.len() ==> is_decimal_digit(#[trigger] d[i]),
    ensures
        0 <= digits_value(d.take(k)) <= digits_value(d),
    decreases d.len(),
{
    if d.len() > 0 {
        let p = d.drop_last();
        assert forall|i: int| 0 <= i < p.len() implies is_decimal_digit(#[trigger] p[i]) by {
            assert(p[i] == d[i]);
        }
        assert(is_decimal_digit(d[d.len() - 1]));
        if k == d.len() {
            assert(d.take(k) =~= d);
            lemma_digits_value_grows(p, p.len() as int);
            assert(p.take(p.len() as int) =~= p);
        } else {
            lemma_digits_value_grows(p, k);
            assert(p.take(k) =~= d.take(k));
            lemma_digits_value_grows(p, p.len() as int);
            assert(p.take(p.len() as int) =~= p);
        }
    } else {
        assert(d.take(k) =~= d);
    }
}

/// Reads a `u64` written in decimal, as the standard library's
/// `u64::from_str` does.
pub fn parse_u64(s: &str) -> (r: Option<u64>)
    ensures
        r == decimal_u64(s@),
{
    let c = chars_of(s);
    let n = c.len();
    let mut k: usize = if n > 0 && c[0] == '+' { 1 } else { 0 };
    let ghost d = unsigned_part(s@);
    let ghost start = k as int;
    assert(d =~= s@.skip(start));
    if k == n {
        return None;
    }
    let mut acc: u64 = 0;
    assert(d.take(0) =~= Seq::<char>::empty());
    while k < n
        invariant
            c@ == s@,
            n == c.len(),
            0 <= start <= k <= n,
            start < n,
            d == unsigned_part(s@),
            d =~= s@.skip(start),
            d.len() == n - start,
            forall|i: int| 0 <= i < k - start ==> is_decimal_digit(#[trigger] d[i]),
            acc as int == digits_value(d.take(k - start)),
        decreases n - k,
    {
        let ch = c[k];
        assert(s@.skip(start)[k - start] == s@[k as int]);
        assert(d[k - start] == s@[k as int]);
        if !(ch >= '0' && ch <= '9') {
            assert(!is_decimal_digit(d[k - start]));
            assert(!all_decimal_digits(d));
            return None;
        }
        let digit: u64 = ((ch as u32) - ('0' as u32)) as u64;
        let ghost t = d.take(k - start + 1);
        assert(t.drop_last() =~= d.take(k - start));
        assert(t.last() == ch);
        match acc.checked_mul(10) {
            Some(m) => match m.checked_add(digit) {
                Some(v) => {
                    acc = v;
                }
                None => {
                    proof {
                        if all_decimal_digits(d) {
                            lemma_digits_value_grows(d, k - start + 1);
                        }
                    }
                    return None;
                }
            },
            None => {
                proof {
                    if forall|i: int| 0 <= i < d.len() ==> is_decimal_digit(#[trigger] d[i]) {
                        lemma_digits_value_grows(d, k - start + 1);
                    }
                }
                return None;
            }
        }
        k = k + 1;
    }
    assert(d.take(n - start) =~= d);
    Some(acc)
}

/// The characters of `s`, in order.
pub fn chars_of(s: &str) -> (r: Vec<char>)
    ensures
        r@ == s@,
{
    let mut r: Vec<char> = Vec::new();
    for c in it: s.chars()
        invariant
            r@ == it.seq().take(it.index() as int),
            it.seq() == s@,
    {
        r.push(c);
    }
    r
}

/// Whether `pat` occurs in `s` at position `i`.
fn occurs_at(s: &Vec<char>, i: usize, pat: &Vec<char>) -> (r: bool)
    requires
        i <= s.len(),
    ensures
        r == pat@.is_prefix_of(s@.skip(i as int)),
{
    if pat.len() > s.len() - i {
        return false;
    }
    let mut k: usize = 0;
    while k < pat.len()
        invariant
            k <= pat.len(),
            pat.len() <= s.len() - i,
            forall|j: int| 0 <= j < k ==> pat@[j] == s@[i + j],
        decreases pat.len() - k,
    {
        if pat[k] != s[i + k] {
            assert(pat@[k as int] != s@.skip(i as int).subrange(0, pat.len() as int)[k as int]);
            return false;
        }
        k = k + 1;
    }
    assert(pat@ =~= s@.skip(i as int).subrange(0, pat.len() as int));
    true
}

/// Replaces, from left to right, every occurrence of `pat` in `s` by `rep`.
pub fn replace(s: &str, pat: &str, rep: &str) -> (r: String)
    requires
        pat@.len() > 0,
    ensures
        r@ == replace_all(s@, pat@, rep@),
{
    let sc = chars_of(s);
    let pc = chars_of(pat);
    let n = sc.len();
    let mut r = String::new();
    let mut start: usize = 0;
    let mut i: usize = 0;
    assert(s@.skip(0) =~= s@);
    assert(r@ + s@.subrange(0, 0) =~= Seq::<char>::empty());
    while i < n
        invariant
            n == sc.len(),
            sc@ == s@,
            pc@ == pat@,
            pat@.len() > 0,
            start <= i <= n,
            replace_all(s@, pat@, rep@) == r@ + s@.subrange(start as int, i as int)
                + replace_all(s@.skip(i as int), pat@, rep@),
        decreases n - i,
    {
        let ghost rest = s@.skip(i as int);
        if occurs_at(&sc, i, &pc) {
            let seg = s.substring_char(start, i);
            r.append(seg);
            r.append(rep);
            let ghost rest2 = s@.skip((i + pc.len()) as int);
            assert(rest.skip(pat@.len() as int) =~= rest2);
            i = i + pc.len();
            start = i;
            assert(s@.subrange(start as int, i as int) =~= Seq::<char>::empty());
        } else {
            let ghost old_i = i;
            assert(rest.skip(1) =~= s@.skip(i + 1));
            assert(rest[0] == s@[i as int]);
            i = i + 1;
            assert(s@.subrange(start as int, i as int) =~= s@.subrange(start as int, old_i as int)
                + seq![s@[old_i as int]]);
        }
    }
    let tail = s.substring_char(start, n);
    r.append(tail);
    assert(s@.skip(n as int) =~= Seq::<char>::empty());
    r
}

/// The position of the last pair of `pairs` whose key is `key`, or -1 where
/// there is none: reading the pairs into a map, one after another, keeps the
/// last value given for a key.
pub open spec fn last_key_index(pairs: Seq<(String, String)>, key: Seq<char>) -> int
    decreases pairs.len(),
{
    if pairs.len() == 0 {
        -1
    } else if pairs.last().0@ == key {
        pairs.len() - 1
    } else {
        last_key_index(pairs.drop_last(), key)
    }
}

/// A position that [`last_key_index`] gives lies in the list and holds the key.
pub proof fn lemma_last_key_index_bounds(pairs: Seq<(String, String)>, key: Seq<char>)
    ensures
        -1 <= last_key_index(pairs, key) < pairs.len(),
        last_key_index(pairs, key) >= 0 ==> pairs[last_key_index(pairs, key)].0@ == key,
    decreases pairs.len(),
{
    if pairs.len() > 0 {
        lemma_last_key_index_bounds(pairs.drop_last(), key);
    }
}

/// The position of the pair that gives the value of `key` in a list of
/// key/value pairs read as a map.
pub fn find_last_key(pairs: &Vec<(String, String)>, key: &str) -> (r: Option<usize>)
    ensures
        match r {
            Some(i) => i == last_key_index(pairs@, key@),
            None => last_key_index(pairs@, key@) == -1,
        },
{
    let mut i = pairs.len();
    assert(pairs@.take(i as int) =~= pairs@);
    while i > 0
        invariant
            i <= pairs.len(),
            last_key_index(pairs@, key@) == last_key_index(pairs@.take(i as int), key@),
        decreases i,
    {
        let ghost t = pairs@.take(i as int);
        assert(t.drop_last() =~= pairs@.take(i - 1));
        if str_equal(pairs[i - 1].0.as_str(), key) {
            return Some(i - 1);
        }
        i = i - 1;
    }
    None
}

/// The lowercase hexadecimal digit for the value `n`, below 16.
pub open spec fn hex_digit(n: int) -> char {
    if n < 10 {
        (('0' as int) + n) as char
    } else {
        (('a' as int) + n - 10) as char
    }
}

/// The bytes `bytes` written in lowercase hexadecimal, two digits per byte,
/// most significant digit first.
pub open spec fn lower_hex(bytes: Seq<u8>) -> Seq<char>
    decreases bytes.len(),
{
    if bytes.len() == 0 {
        Seq::empty()
    } else {
        lower_hex(bytes.drop_last()) + seq![hex_digit(bytes.last() as int / 16), hex_digit(bytes.last() as int % 16)]
    }
}

/// Calls `hex::encode`, which writes each byte of `data` as two lowercase
/// hexadecimal digits, the high half first.
#[verifier::external_body]
pub(crate) fn hex_encode(data: &[u8]) -> (r: String)
    ensures
        r@ == lower_hex(data@),
{
    hex::encode(data)
}

/// Whether `s` begins with `prefix`.
pub fn starts_with(s: &str, prefix: &str) -> (r: bool)
    ensures
        r == prefix@.is_prefix_of(s@),
{
    let sc = chars_of(s);
    let pc = chars_of(prefix);
    assert(s@.skip(0) =~= s@);
    occurs_at(&sc, 0, &pc)
}

/// `c` with an ASCII lowercase letter made uppercase; any other character
/// unchanged.
pub open spec fn ascii_upper(c: char) -> char {
    if 'a' <= c && c <= 'z' {
        ((c as int) - 32) as char
    } else {
        c
    }
}

/// Calls `str::to_ascii_uppercase` of the standard library, which maps the
/// ASCII letters `a` to `z` to `A` to `Z` and leaves every other character
/// unchanged.
#[verifier::external_body]
pub(crate) fn to_ascii_uppercase(s: &str) -> (r: String)
    ensures
        r@ == s@.map_values(|c: char| ascii_upper(c)),
{
    s.to_ascii_uppercase()
}

/// The pair that [`last_key_index`] picks holds the key, and no later pair
/// does; where it gives -1, no pair holds the key.
pub proof fn last_pair_of_a_key_wins(pairs: Seq<(String, String)>, key: Seq<char>)
    ensures
        -1 <= last_key_index(pairs, key) < pairs.len(),
        last_key_index(pairs, key) >= 0 ==> pairs[last_key_index(pairs, key)].0@ == key,
        forall|j: int| last_key_index(pairs, key) < j < pairs.len() ==> (#[trigger] pairs[j]).0@ != key,
    decreases pairs.len(),
{
    if pairs.len() > 0 {
        let p = pairs.drop_last();
        last_pair_of_a_key_wins(p, key);
        if pairs.last().0@ != key {
            assert forall|j: int| last_key_index(pairs, key) < j < pairs.len() implies (#[trigger] pairs[j]).0@ != key by {
                if j < pairs.len() - 1 {
                    assert(pairs[j] == p[j]);
                }
            }
        }
    }
}

/// The decimal digit character for the value `d`, below 10.
pub open spec fn decimal_digit(d: nat) -> char {
    (('0' as nat) + d) as char
}

/// The number `n` written in decimal without leading zeros.
pub open spec fn decimal_text(n: nat) -> Seq<char>
    decreases n,
{
    if n < 10 {
        seq![decimal_digit(n)]
    } else {
        decimal_text(n / 10).push(decimal_digit(n % 10))
    }
}

proof fn lemma_decimal_digit(d: nat)
    requires
        d < 10,
    ensures
        is_decimal_digit(decimal_digit(d)),
        (decimal_digit(d) as int) - ('0' as int) == d,
{
    assert(('0' as nat) == 48);
    assert(((48 + d) as char) as int == 48 + d);
}

proof fn lemma_decimal_text_value(n: nat)
    ensures
        decimal_text(n).len() > 0,
        all_decimal_digits(decimal_text(n)),
        digits_value(decimal_text(n)) == n,
    decreases n,
{
    if n < 10 {
        lemma_decimal_digit(n);
        let t = seq![decimal_digit(n)];
        assert(t.drop_last() =~= Seq::<char>::empty());
        assert(decimal_text(n) == t);
        assert(digits_value(t) == digits_value(t.drop_last()) * 10 + ((t.last() as int) - ('0' as int)));
    } else {
        lemma_decimal_digit(n % 10);
        assert((n / 10) * 10 + n % 10 == n);
        lemma_decimal_text_value(n / 10);
        let t = decimal_text(n / 10);
        let u = t.push(decimal_digit(n % 10));
        assert(u.drop_last() =~= t);
        assert(decimal_text(n) == u);
        assert(u.last() == decimal_digit(n % 10));
        assert(digits_value(u) == digits_value(u.drop_last()) * 10 + ((u.last() as int) - ('0' as int)));
        assert forall|i: int| 0 <= i < u.len() implies is_decimal_digit(#[trigger] u[i]) by {
            if i < t.len() {
                assert(u[i] == t[i]);
            }
        }
    }
}

/// Reading a `u64` gives back the number from its decimal text, with or
/// without a leading `+`.
pub proof fn decimal_text_reads_back(n: u64)
    ensures
        decimal_u64(decimal_text(n as nat)) == Some(n),
        decimal_u64(seq!['+'] + decimal_text(n as nat)) == Some(n),
{
    lemma_decimal_text_value(n as nat);
    let t = decimal_text(n as nat);
    assert(t[0] != '+') by {
        assert(is_decimal_digit(t[0]));
    }
    assert(unsigned_part(t) == t);
    assert((seq!['+'] + t).skip(1) =~= t);
    assert(unsigned_part(seq!['+'] + t) == t);
}

/// A text holding a character other than a decimal digit, after an
/// optional leading `+`, does not read as a number, and neither does a text
/// with no digits.
pub proof fn non_digits_do_not_read(s: Seq<char>, i: int)
    requires
        0 <= i < unsigned_part(s).len(),
        !is_decimal_digit(unsigned_part(s)[i]),
    ensures
        decimal_u64(s) is None,
        decimal_u64(Seq::empty()) is None,
        decimal_u64(seq!['+']) is None,
{
    assert(seq!['+'].skip(1) =~= Seq::<char>::empty());
}

} // verus!
