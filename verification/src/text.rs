//! Character-level text helpers used to build and inspect messages.

use vstd::prelude::*;
use vstd::utf8::is_ascii_chars;

verus! {

/// Whether `needle` occurs as a contiguous run of characters in `hay`.
pub open spec fn seq_contains(hay: Seq<char>, needle: Seq<char>) -> bool {
    exists|i: int|
        0 <= i && i + needle.len() <= hay.len() && #[trigger] hay.subrange(i, i + needle.len())
            == needle
}

/// The characters of a string, in order.
pub fn chars_of(s: &str) -> (v: Vec<char>)
    ensures
        v@ == s@,
{
    let mut v: Vec<char> = Vec::new();
    for c in it: s.chars()
        invariant
            v@ == it.seq().take(it.index() as int),
            it.seq() == s@,
    {
        v.push(c);
    }
    v
}

/// Substring search over character sequences.
pub fn seq_has(hay: &Vec<char>, needle: &Vec<char>) -> (b: bool)
    ensures
        b == seq_contains(hay@, needle@),
{
    let n = needle.len();
    let h = hay.len();
    if n == 0 {
        assert(hay@.subrange(0, 0 + needle@.len() as int) =~= needle@);
        return true;
    }
    if n > h {
        return false;
    }
    let last = h - n;
    let mut i: usize = 0;
    while i <= last
        invariant
            n == needle@.len(),
            h == hay@.len(),
            0 < n <= h,
            last == h - n,
            i <= last + 1,
            forall|k: int| 0 <= k < i ==> #[trigger] hay@.subrange(k, k + n) != needle@,
        decreases last + 1 - i,
    {
        let mut j: usize = 0;
        while j < n && hay[i + j] == needle[j]
            invariant
                n == needle@.len(),
                h == hay@.len(),
                i + n <= h,
                j <= n,
                forall|t: int| 0 <= t < j ==> hay@[i + t] == needle@[t],
            decreases n - j,
        {
            j = j + 1;
        }
        if j == n {
            assert(hay@.subrange(i as int, i + n) =~= needle@);
            return true;
        }
        assert(hay@.subrange(i as int, i + n)[j as int] != needle@[j as int]);
        i = i + 1;
    }
    assert forall|k: int| 0 <= k && k + needle@.len() <= hay@.len() implies #[trigger] hay@.subrange(
        k,
        k + needle@.len(),
    ) != needle@ by {
        assert(k < i);
    }
    false
}

/// The index of the first occurrence of `needle` in `hay` at or after `i`.
pub open spec fn find_from(hay: Seq<char>, needle: Seq<char>, i: nat) -> Option<nat>
    decreases hay.len() + 1 - i,
{
    if i + needle.len() > hay.len() {
        None
    } else if hay.subrange(i as int, (i + needle.len()) as int) == needle {
        Some(i)
    } else {
        find_from(hay, needle, i + 1)
    }
}

/// No occurrence of `needle` starts from `i` up to `j`, so the search from `i` finds what
/// the search from `j` finds.
pub proof fn lemma_find_skip(hay: Seq<char>, needle: Seq<char>, i: nat, j: nat)
    requires
        i <= j,
        forall|k: int|
            i <= k < j && k + needle.len() <= hay.len() ==> #[trigger] hay.subrange(
                k,
                k + needle.len(),
            ) != needle,
    ensures
        find_from(hay, needle, i) == find_from(hay, needle, j),
    decreases j - i,
{
    if i < j {
        lemma_find_skip(hay, needle, i + 1, j);
    }
}

/// The index of the first occurrence of `needle` in `hay`.
pub fn find_text(hay: &Vec<char>, needle: &Vec<char>) -> (r: Option<usize>)
    ensures
        r matches Some(p) ==> find_from(hay@, needle@, 0) == Some(p as nat) && p + needle@.len()
            <= hay@.len(),
        r is None ==> find_from(hay@, needle@, 0) is None,
{
    let n = needle.len();
    let h = hay.len();
    if n > h {
        return None;
    }
    let mut i: usize = 0;
    while i <= h - n
        invariant
            n == needle@.len(),
            h == hay@.len(),
            n <= h,
            i <= h - n + 1,
            find_from(hay@, needle@, 0) == find_from(hay@, needle@, i as nat),
        decreases h - n + 1 - i,
    {
        let mut j: usize = 0;
        while j < n && hay[i + j] == needle[j]
            invariant
                n == needle@.len(),
                h == hay@.len(),
                i + n <= h,
                j <= n,
                forall|t: int| 0 <= t < j ==> hay@[i + t] == needle@[t],
            decreases n - j,
        {
            j = j + 1;
        }
        if j == n {
            assert(hay@.subrange(i as int, i + n) =~= needle@);
            return Some(i);
        }
        assert(hay@.subrange(i as int, i + n)[j as int] != needle@[j as int]);
        i = i + 1;
    }
    None
}

/// The characters of `v` from `from` up to `to`.
pub fn slice_chars(v: &Vec<char>, from: usize, to: usize) -> (r: Vec<char>)
    requires
        from <= to <= v@.len(),
    ensures
        r@ == v@.subrange(from as int, to as int),
{
    let mut r: Vec<char> = Vec::new();
    let mut k = from;
    while k < to
        invariant
            from <= k <= to,
            to <= v@.len(),
            r@ == v@.subrange(from as int, k as int),
        decreases to - k,
    {
        r.push(v[k]);
        assert(r@ =~= v@.subrange(from as int, k + 1));
        k = k + 1;
    }
    r
}

/// The value of a decimal digit character, or -1 for any other character.
pub open spec fn digit_value(c: char) -> int {
    if c == '0' { 0 } else if c == '1' { 1 } else if c == '2' { 2 } else if c == '3' { 3 }
    else if c == '4' { 4 } else if c == '5' { 5 } else if c == '6' { 6 } else if c == '7' { 7 }
    else if c == '8' { 8 } else if c == '9' { 9 } else { -1 }
}

/// Whether every character of `s` is a decimal digit.
pub open spec fn all_digits(s: Seq<char>) -> bool {
    forall|i: int| 0 <= i < s.len() ==> #[trigger] digit_value(s[i]) >= 0
}

/// The number that the digits `s` write.
pub open spec fn digits_value(s: Seq<char>) -> int
    decreases s.len(),
{
    if s.len() == 0 {
        0
    } else {
        digits_value(s.drop_last()) * 10 + digit_value(s.last())
    }
}

/// The integer a text writes in decimal: digits, with a leading `-` when negative.
pub open spec fn parse_signed(s: Seq<char>) -> Option<int> {
    if s.len() > 0 && s[0] == '-' {
        let d = s.drop_first();
        if d.len() > 0 && all_digits(d) {
            Some(-digits_value(d))
        } else {
            None
        }
    } else if s.len() > 0 && all_digits(s) {
        Some(digits_value(s))
    } else {
        None
    }
}

/// Decimal notation consists of digits and reads back as the number written.
pub proof fn lemma_decimal_reads_back(n: nat)
    ensures
        decimal(n).len() > 0,
        all_digits(decimal(n)),
        digits_value(decimal(n)) == n,
    decreases n,
{
    if n < 10 {
        let d = decimal(n);
        assert(d.drop_last() =~= Seq::<char>::empty());
        assert(d.last() == digit_char(n));
        assert(digit_value(digit_char(n)) == n);
        assert(digits_value(d) == digits_value(d.drop_last()) * 10 + digit_value(d.last()));
        assert forall|i: int| 0 <= i < d.len() implies #[trigger] digit_value(d[i]) >= 0 by {
            assert(d[i] == digit_char(n));
        }
    } else {
        lemma_decimal_reads_back(n / 10);
        let d = decimal(n);
        assert(d.drop_last() =~= decimal(n / 10));
        assert(d.last() == digit_char(n % 10));
        assert(digit_value(digit_char(n % 10)) == n % 10);
        assert((n / 10) * 10 + n % 10 == n);
        assert(digits_value(d) == digits_value(d.drop_last()) * 10 + digit_value(d.last()));
        assert forall|i: int| 0 <= i < d.len() implies #[trigger] digit_value(d[i]) >= 0 by {
            if i < d.len() - 1 {
                assert(d[i] == decimal(n / 10)[i]);
            } else {
                assert(d[i] == digit_char(n % 10));
            }
        }
    }
}

/// A signed decimal reads back as the number written.
pub proof fn lemma_signed_decimal_reads_back(i: int)
    ensures
        parse_signed(signed_decimal(i)) == Some(i),
        forall|k: int| 0 <= k < signed_decimal(i).len() ==> #[trigger] signed_decimal(i)[k] != '<',
        forall|k: int|
            0 <= k < signed_decimal(i).len() ==> #[trigger] signed_decimal(i)[k] == '-' || digit_value(
                signed_decimal(i)[k],
            ) >= 0,
{
    if i < 0 {
        lemma_decimal_reads_back((-i) as nat);
        let s = signed_decimal(i);
        assert(s.drop_first() =~= decimal((-i) as nat));
        assert forall|k: int| 0 <= k < s.len() implies #[trigger] s[k] == '-' || digit_value(s[k])
            >= 0 by {
            if k > 0 {
                assert(s[k] == decimal((-i) as nat)[k - 1]);
                assert(digit_value(decimal((-i) as nat)[k - 1]) >= 0);
            }
        }
    } else {
        lemma_decimal_reads_back(i as nat);
        let s = signed_decimal(i);
        assert(digit_value(s[0]) >= 0);
        assert forall|k: int| 0 <= k < s.len() implies #[trigger] s[k] == '-' || digit_value(s[k])
            >= 0 by {
            assert(digit_value(s[k]) >= 0);
        }
    }
}

/// `a + b + c` holds `b`.
pub proof fn lemma_contains_middle(a: Seq<char>, b: Seq<char>, c: Seq<char>)
    ensures
        seq_contains(a + b + c, b),
{
    assert((a + b + c).subrange(a.len() as int, a.len() + b.len() as int) =~= b);
}

/// Whether the character `c` occurs nowhere in `s`.
pub open spec fn lacks(s: Seq<char>, c: char) -> bool {
    forall|j: int| 0 <= j < s.len() ==> s[j] != c
}

/// A text lacks a character when both its parts do.
pub proof fn lemma_lacks_concat(a: Seq<char>, b: Seq<char>, c: char)
    requires
        lacks(a, c),
        lacks(b, c),
    ensures
        lacks(a + b, c),
{
    assert forall|j: int| 0 <= j < (a + b).len() implies (a + b)[j] != c by {
        if j >= a.len() {
            assert((a + b)[j] == b[j - a.len()]);
        }
    }
}

/// A text that lacks one of the characters of `needle` does not hold `needle`.
pub proof fn lemma_lacks_not_contains(hay: Seq<char>, needle: Seq<char>, k: int)
    requires
        0 <= k < needle.len(),
        lacks(hay, needle[k]),
    ensures
        !seq_contains(hay, needle),
{
    if seq_contains(hay, needle) {
        let i = choose|i: int|
            0 <= i && i + needle.len() <= hay.len() && #[trigger] hay.subrange(i, i + needle.len())
                == needle;
        assert(hay.subrange(i, i + needle.len())[k] == hay[i + k]);
    }
}

fn digit_value_of(c: char) -> (v: i8)
    ensures
        v == digit_value(c),
{
    if c == '0' { 0 } else if c == '1' { 1 } else if c == '2' { 2 } else if c == '3' { 3 }
    else if c == '4' { 4 } else if c == '5' { 5 } else if c == '6' { 6 } else if c == '7' { 7 }
    else if c == '8' { 8 } else if c == '9' { 9 } else { -1 }
}

/// The `i64` a text writes in decimal, if it writes one in range.
pub fn parse_i64(t: &Vec<char>) -> (r: Option<i64>)
    ensures
        match parse_signed(t@) {
            Some(v) => if i64::MIN <= v <= i64::MAX {
                r == Some(v as i64)
            } else {
                r is None
            },
            None => r is None,
        },
{
    let n = t.len();
    if n == 0 {
        return None;
    }
    let neg = t[0] == '-';
    let start: usize = if neg { 1 } else { 0 };
    if start == n {
        return None;
    }
    let ghost d = t@.subrange(start as int, n as int);
    proof {
        if neg {
            assert(d =~= t@.drop_first());
        } else {
            assert(d =~= t@);
        }
    }
    let mut acc: u128 = 0;
    let mut big = false;
    let mut k: usize = start;
    while k < n
        invariant
            start <= k <= n,
            n == t@.len(),
            d == t@.subrange(start as int, n as int),
            neg ==> start == 1 && t@[0] == '-' && d == t@.drop_first(),
            !neg ==> start == 0 && t@[0] != '-' && d == t@,
            all_digits(t@.subrange(start as int, k as int)),
            !big ==> acc == digits_value(t@.subrange(start as int, k as int)) && acc
                <= 0x8000_0000_0000_0000u128,
            big ==> digits_value(t@.subrange(start as int, k as int)) > 0x8000_0000_0000_0000u128,
        decreases n - k,
    {
        let dv = digit_value_of(t[k]);
        if dv < 0 {
            assert(d[k - start] == t@[k as int]);
            assert(!all_digits(d));
            return None;
        }
        let ghost before = t@.subrange(start as int, k as int);
        let ghost after = t@.subrange(start as int, k + 1);
        assert(after.drop_last() =~= before);
        assert(after.last() == t@[k as int]);
        assert forall|i: int| 0 <= i < after.len() implies #[trigger] digit_value(after[i]) >= 0 by {
            if i < before.len() {
                assert(after[i] == before[i]);
            }
        }
        if !big {
            acc = acc * 10 + (dv as u128);
            if acc > 0x8000_0000_0000_0000u128 {
                big = true;
            }
        }
        k = k + 1;
    }
    assert(t@.subrange(start as int, n as int) =~= d);
    proof {
        if neg {
            assert(parse_signed(t@) == Some(-digits_value(d)));
        } else {
            assert(t@[0] != '-');
            assert(parse_signed(t@) == Some(digits_value(d)));
        }
    }
    if big {
        return None;
    }
    if neg {
        // Here `acc` is at most 2^63, so its negation is an `i64`.
        let v: i128 = 0i128 - (acc as i128);
        Some(v as i64)
    } else {
        if acc > 0x7fff_ffff_ffff_ffffu128 {
            return None;
        }
        Some(acc as i64)
    }
}

/// Whether two strings hold the same text.
pub fn same_text(a: &str, b: &str) -> (r: bool)
    ensures
        r == (a@ == b@),
{
    let x = chars_of(a);
    let y = chars_of(b);
    if x.len() != y.len() {
        return false;
    }
    let mut i: usize = 0;
    while i < x.len()
        invariant
            x@ == a@,
            y@ == b@,
            x@.len() == y@.len(),
            i <= x@.len(),
            forall|k: int| 0 <= k < i ==> x@[k] == y@[k],
        decreases x.len() - i,
    {
        if x[i] != y[i] {
            return false;
        }
        i = i + 1;
    }
    assert(x@ =~= y@);
    true
}

/// Whether the characters `hay` contain the text `needle`.
pub fn has_text(hay: &Vec<char>, needle: &str) -> (b: bool)
    ensures
        b == seq_contains(hay@, needle@),
{
    let n = chars_of(needle);
    seq_has(hay, &n)
}

/// Whether the string `hay` contains the text `needle`.
pub fn str_contains(hay: &str, needle: &str) -> (b: bool)
    ensures
        b == seq_contains(hay@, needle@),
{
    let h = chars_of(hay);
    has_text(&h, needle)
}

/// The ASCII lower-case form of a character: `A` to `Z` become `a` to `z`; any other
/// character stays.
pub open spec fn ascii_lower_char(c: char) -> char {
    if c == 'A' { 'a' } else if c == 'B' { 'b' } else if c == 'C' { 'c' } else if c == 'D' { 'd' }
    else if c == 'E' { 'e' } else if c == 'F' { 'f' } else if c == 'G' { 'g' } else if c == 'H' { 'h' }
    else if c == 'I' { 'i' } else if c == 'J' { 'j' } else if c == 'K' { 'k' } else if c == 'L' { 'l' }
    else if c == 'M' { 'm' } else if c == 'N' { 'n' } else if c == 'O' { 'o' } else if c == 'P' { 'p' }
    else if c == 'Q' { 'q' } else if c == 'R' { 'r' } else if c == 'S' { 's' } else if c == 'T' { 't' }
    else if c == 'U' { 'u' } else if c == 'V' { 'v' } else if c == 'W' { 'w' } else if c == 'X' { 'x' }
    else if c == 'Y' { 'y' } else if c == 'Z' { 'z' } else { c }
}

/// The ASCII lower-case form of a text.
pub open spec fn ascii_lower(s: Seq<char>) -> Seq<char> {
    s.map_values(|c: char| ascii_lower_char(c))
}

/// What `str::to_lowercase` gives for a string: the Unicode lower-case mapping of
/// each character, which may change the length of the text.
pub uninterp spec fn lowercase(s: Seq<char>) -> Seq<char>;

/// Calls `str::to_lowercase`. The result is `lowercase` of the input; of ASCII text it is
/// the ASCII lower case (the Unicode lower case of an ASCII letter is the ASCII one, and
/// other ASCII characters have none). Nothing more is stated of the Unicode mapping.
#[verifier::external_body]
pub(crate) fn to_lowercase(s: &str) -> (r: String)
    ensures
        r@ == lowercase(s@),
        is_ascii_chars(s@) ==> r@ == ascii_lower(s@),
{
    s.to_lowercase()
}

/// Calls `String::push`, which appends one character.
#[verifier::external_body]
pub(crate) fn push_char(s: &mut String, c: char)
    ensures
        final(s)@ == old(s)@.push(c),
{
    s.push(c)
}

/// The text `a` followed by `b`.
pub fn concat2(a: &str, b: &str) -> (r: String)
    ensures
        r@ == a@ + b@,
{
    let mut r = String::from_str(a);
    r.append(b);
    r
}

/// The text `a`, then `b`, then `c`.
pub fn concat3(a: &str, b: &str, c: &str) -> (r: String)
    ensures
        r@ == a@ + b@ + c@,
{
    let mut r = String::from_str(a);
    r.append(b);
    r.append(c);
    r
}

/// The decimal digit character for `d`.
pub open spec fn digit_char(d: nat) -> char {
    if d == 0 { '0' } else if d == 1 { '1' } else if d == 2 { '2' } else if d == 3 { '3' }
    else if d == 4 { '4' } else if d == 5 { '5' } else if d == 6 { '6' } else if d == 7 { '7' }
    else if d == 8 { '8' } else { '9' }
}

/// Decimal notation of a natural number, without leading zeros.
pub open spec fn decimal(n: nat) -> Seq<char>
    decreases n,
{
    if n < 10 {
        seq![digit_char(n)]
    } else {
        decimal(n / 10).push(digit_char(n % 10))
    }
}

/// Decimal notation of an integer, with a leading `-` when it is negative.
pub open spec fn signed_decimal(i: int) -> Seq<char> {
    if i < 0 {
        seq!['-'] + decimal((-i) as nat)
    } else {
        decimal(i as nat)
    }
}

fn digit_of(d: u64) -> (c: char)
    requires
        d < 10,
    ensures
        c == digit_char(d as nat),
{
    if d == 0 { '0' } else if d == 1 { '1' } else if d == 2 { '2' } else if d == 3 { '3' }
    else if d == 4 { '4' } else if d == 5 { '5' } else if d == 6 { '6' } else if d == 7 { '7' }
    else if d == 8 { '8' } else { '9' }
}

/// Decimal notation of `n`, as `format!("{}", n)` writes it.
pub fn u64_to_decimal(n: u64) -> (s: String)
    ensures
        s@ == decimal(n as nat),
{
    // Collect the digits from the least significant one up.
    let mut digits: Vec<char> = Vec::new();
    let mut m: u64 = n;
    digits.push(digit_of(m % 10));
    m = m / 10;
    while m > 0
        invariant
            digits@.len() >= 1,
            m > 0 ==> decimal(n as nat) == decimal(m as nat) + digits@.reverse(),
            m == 0 ==> decimal(n as nat) == digits@.reverse(),
        decreases m,
    {
        let ghost old_digits = digits@;
        let ghost old_m = m as nat;
        digits.push(digit_of(m % 10));
        m = m / 10;
        proof {
            assert(digits@.reverse() =~= seq![digit_char(old_m % 10)] + old_digits.reverse());
            if m > 0 {
                assert(decimal(old_m) == decimal(m as nat).push(digit_char(old_m % 10)));
                assert(decimal(m as nat).push(digit_char(old_m % 10)) + old_digits.reverse()
                    =~= decimal(m as nat) + digits@.reverse());
            } else {
                assert(decimal(old_m) == seq![digit_char(old_m)]);
                assert(decimal(old_m) + old_digits.reverse() =~= digits@.reverse());
            }
        }
    }
    let mut s = String::new();
    let mut k: usize = digits.len();
    while k > 0
        invariant
            k <= digits@.len(),
            s@ =~= digits@.reverse().subrange(0, (digits@.len() - k) as int),
        decreases k,
    {
        k = k - 1;
        push_char(&mut s, digits[k]);
        assert(digits@.reverse().subrange(0, (digits@.len() - k) as int) =~= digits@.reverse().subrange(
            0,
            (digits@.len() - k - 1) as int,
        ).push(digits@[k as int]));
    }
    assert(digits@.reverse().subrange(0, digits@.len() as int) =~= digits@.reverse());
    s
}

/// Decimal notation of `i`, as `format!("{}", i)` writes it.
pub fn i64_to_decimal(i: i64) -> (s: String)
    ensures
        s@ == signed_decimal(i as int),
{
    if i < 0 {
        let magnitude: u64 = (0i128 - (i as i128)) as u64;
        let digits = u64_to_decimal(magnitude);
        let mut s = String::from_str("-");
        s.append(digits.as_str());
        proof {
            reveal_strlit("-");
        }
        assert(s@ =~= seq!['-'] + decimal((-i) as nat));
        s
    } else {
        u64_to_decimal(i as u64)
    }
}

} // verus!
