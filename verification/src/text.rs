//! Character-level helpers shared by the codecs: trimming, locating a
//! separator, slicing a line into keyword and remainder, and string equality.

use vstd::prelude::*;
use vstd::string::StrSliceExecFns;

verus! {

/// The whitespace characters removed when a token is trimmed.
pub open spec fn is_space(c: char) -> bool {
    c == ' ' || c == '\t' || c == '\r' || c == '\n'
}

/// Executable mirror of `is_space`.
pub fn space_char(c: char) -> (r: bool)
    ensures
        r == is_space(c),
{
    c == ' ' || c == '\t' || c == '\r' || c == '\n'
}

/// `s` with its leading whitespace removed.
pub open spec fn spec_trim_front(s: Seq<char>) -> Seq<char>
    decreases s.len(),
{
    if s.len() > 0 && is_space(s[0]) {
        spec_trim_front(s.drop_first())
    } else {
        s
    }
}

/// `s` with its trailing whitespace removed.
pub open spec fn spec_trim_back(s: Seq<char>) -> Seq<char>
    decreases s.len(),
{
    if s.len() > 0 && is_space(s.last()) {
        spec_trim_back(s.drop_last())
    } else {
        s
    }
}

/// `s` with leading and trailing whitespace removed.
pub open spec fn spec_trim(s: Seq<char>) -> Seq<char> {
    spec_trim_back(spec_trim_front(s))
}

proof fn lemma_trim_front_exact(s: Seq<char>, i: int)
    requires
        0 <= i <= s.len(),
        forall|j: int| 0 <= j < i ==> is_space(s[j]),
        i < s.len() ==> !is_space(s[i]),
    ensures
        spec_trim_front(s) == s.subrange(i, s.len() as int),
    decreases i,
{
    if i == 0 {
        if s.len() > 0 && is_space(s[0]) {
            assert(false);
        }
        assert(s.subrange(0, s.len() as int) =~= s);
    } else {
        let t = s.drop_first();
        lemma_trim_front_exact(t, i - 1);
        assert(t.subrange(i - 1, t.len() as int) =~= s.subrange(i, s.len() as int));
    }
}

proof fn lemma_trim_back_exact(s: Seq<char>, j: int)
    requires
        0 <= j <= s.len(),
        forall|k: int| j <= k < s.len() ==> is_space(s[k]),
        j > 0 ==> !is_space(s[j - 1]),
    ensures
        spec_trim_back(s) == s.subrange(0, j),
    decreases s.len() - j,
{
    if j == s.len() {
        if s.len() > 0 && is_space(s.last()) {
            let t = s.drop_last();
            lemma_trim_back_exact(t, j - 1);
            assert(t.subrange(0, j - 1) =~= s.subrange(0, j - 1));
        } else {
            assert(s.subrange(0, s.len() as int) =~= s);
        }
    } else {
        let t = s.drop_last();
        lemma_trim_back_exact(t, j);
        assert(t.subrange(0, j) =~= s.subrange(0, j));
    }
}

/// Trims `s`, returning the slice between the first and last non-space
/// characters.
pub fn trim_slice<'a>(s: &'a str) -> (r: &'a str)
    ensures
        r@ == spec_trim(s@),
{
    let len = s.unicode_len();
    let mut i: usize = 0;
    while i < len && space_char(s.get_char(i))
        invariant
            0 <= i <= len,
            len == s@.len(),
            forall|j: int| 0 <= j < i ==> is_space(s@[j]),
        decreases len - i,
    {
        i = i + 1;
    }
    proof {
        lemma_trim_front_exact(s@, i as int);
    }
    let mut j: usize = len;
    while j > i && space_char(s.get_char(j - 1))
        invariant
            i <= j <= len,
            len == s@.len(),
            forall|k: int| j <= k < len ==> is_space(s@[k]),
        decreases j,
    {
        j = j - 1;
    }
    let ghost front = s@.subrange(i as int, len as int);
    proof {
        if j == i {
            assert(forall|k: int| 0 <= k < front.len() ==> is_space(#[trigger] front[k]));
            lemma_trim_back_exact(front, 0);
        } else {
            assert(!is_space(front[j - i as int - 1]));
            lemma_trim_back_exact(front, j - i as int);
        }
        assert(front.subrange(0, j - i as int) =~= s@.subrange(i as int, j as int));
    }
    s.substring_char(i, j)
}

/// The index of the first occurrence of `c` in `s`, if any.
pub open spec fn spec_find(s: Seq<char>, c: char) -> Option<int>
    decreases s.len(),
{
    if s.len() == 0 {
        None
    } else if s[0] == c {
        Some(0)
    } else {
        match spec_find(s.drop_first(), c) {
            None => None,
            Some(i) => Some(i + 1),
        }
    }
}

pub proof fn lemma_find_at(s: Seq<char>, c: char, i: int)
    requires
        0 <= i < s.len(),
        s[i] == c,
        forall|j: int| 0 <= j < i ==> s[j] != c,
    ensures
        spec_find(s, c) == Some(i),
    decreases i,
{
    if i > 0 {
        lemma_find_at(s.drop_first(), c, i - 1);
    }
}

pub proof fn lemma_find_none(s: Seq<char>, c: char)
    requires
        forall|j: int| 0 <= j < s.len() ==> s[j] != c,
    ensures
        spec_find(s, c) is None,
    decreases s.len(),
{
    if s.len() > 0 {
        lemma_find_none(s.drop_first(), c);
    }
}

pub broadcast proof fn lemma_find_in_range(s: Seq<char>, c: char)
    ensures
        #[trigger] spec_find(s, c) matches Some(i) ==> 0 <= i < s.len() && s[i] == c,
    decreases s.len(),
{
    if s.len() > 0 && s[0] != c {
        lemma_find_in_range(s.drop_first(), c);
    }
}

/// Finds the first occurrence of `c` in `s`.
pub fn find_char(s: &str, c: char) -> (r: Option<usize>)
    ensures
        match r {
            Some(i) => spec_find(s@, c) == Some(i as int),
            None => spec_find(s@, c) is None,
        },
{
    let len = s.unicode_len();
    let mut i: usize = 0;
    while i < len
        invariant
            0 <= i <= len,
            len == s@.len(),
            forall|j: int| 0 <= j < i ==> s@[j] != c,
        decreases len - i,
    {
        if s.get_char(i) == c {
            proof {
                lemma_find_at(s@, c, i as int);
            }
            return Some(i);
        }
        i = i + 1;
    }
    proof {
        lemma_find_none(s@, c);
    }
    None
}

pub proof fn lemma_trim_front_len(s: Seq<char>)
    ensures
        spec_trim_front(s).len() <= s.len(),
    decreases s.len(),
{
    if s.len() > 0 && is_space(s[0]) {
        lemma_trim_front_len(s.drop_first());
    }
}

pub proof fn lemma_trim_back_len(s: Seq<char>)
    ensures
        spec_trim_back(s).len() <= s.len(),
    decreases s.len(),
{
    if s.len() > 0 && is_space(s.last()) {
        lemma_trim_back_len(s.drop_last());
    }
}

pub proof fn lemma_trim_len(s: Seq<char>)
    ensures
        spec_trim(s).len() <= s.len(),
{
    lemma_trim_front_len(s);
    lemma_trim_back_len(spec_trim_front(s));
}

/// A sequence that does not begin or end with whitespace is its own trim.
pub proof fn lemma_trim_clean(s: Seq<char>)
    requires
        s.len() > 0 ==> !is_space(s[0]) && !is_space(s.last()),
    ensures
        spec_trim(s) == s,
{
    assert(spec_trim_front(s) == s);
    assert(spec_trim_back(s) == s);
}

/// A non-empty sequence equal to its own trim neither begins nor ends with
/// whitespace, and each one-sided trim leaves it unchanged.
pub proof fn lemma_trim_fixpoint_ends(s: Seq<char>)
    requires
        spec_trim(s) == s,
        s.len() > 0,
    ensures
        !is_space(s[0]),
        !is_space(s.last()),
        spec_trim_front(s) == s,
        spec_trim_back(s) == s,
{
    if is_space(s[0]) {
        lemma_trim_front_len(s.drop_first());
        lemma_trim_back_len(spec_trim_front(s.drop_first()));
        assert(false);
    }
    assert(spec_trim_front(s) == s);
    if is_space(s.last()) {
        lemma_trim_back_len(s.drop_last());
        assert(false);
    }
}

/// The view of an optional borrowed string.
pub open spec fn opt_str_view(o: Option<&str>) -> Option<Seq<char>> {
    match o {
        Option::None => Option::None,
        Option::Some(s) => Option::Some(s@),
    }
}

/// The view of an optional owned string.
pub open spec fn opt_string_view(o: Option<String>) -> Option<Seq<char>> {
    match o {
        Option::None => Option::None,
        Option::Some(s) => Option::Some(s@),
    }
}

/// The keyword of a line: what stands before the first space, trimmed; the
/// whole line, trimmed, when it holds no space.
pub open spec fn spec_keyword(s: Seq<char>) -> Seq<char> {
    match spec_find(s, ' ') {
        Option::None => spec_trim(s),
        Option::Some(i) => spec_trim(s.subrange(0, i)),
    }
}

/// The remainder of a line: what stands after the first space, trimmed;
/// absent when the line holds no space or the remainder trims to nothing.
pub open spec fn spec_rest(s: Seq<char>) -> Option<Seq<char>> {
    match spec_find(s, ' ') {
        Option::None => Option::None,
        Option::Some(i) => {
            let r = spec_trim(s.subrange(i + 1, s.len() as int));
            if r.len() == 0 {
                Option::None
            } else {
                Option::Some(r)
            }
        },
    }
}

/// Splits a line into its keyword and optional remainder.
pub fn split_head<'a>(s: &'a str) -> (r: (&'a str, Option<&'a str>))
    ensures
        r.0@ == spec_keyword(s@),
        opt_str_view(r.1) == spec_rest(s@),
{
    match find_char(s, ' ') {
        None => (trim_slice(s), None),
        Some(i) => {
            proof {
                lemma_find_in_range(s@, ' ');
            }
            let len = s.unicode_len();
            let kw = trim_slice(s.substring_char(0, i));
            let rest = trim_slice(s.substring_char(i + 1, len));
            if rest.unicode_len() == 0 {
                (kw, None)
            } else {
                (kw, Some(rest))
            }
        },
    }
}

/// Splits a remainder at its first space, without trimming; the second part
/// is absent when there is no space or nothing follows it.
pub open spec fn spec_split2(p: Seq<char>) -> (Seq<char>, Option<Seq<char>>) {
    match spec_find(p, ' ') {
        Option::None => (p, Option::None),
        Option::Some(i) => {
            let v = p.subrange(i + 1, p.len() as int);
            if v.len() == 0 {
                (p.subrange(0, i), Option::None)
            } else {
                (p.subrange(0, i), Option::Some(v))
            }
        },
    }
}

/// Splits a remainder at its first space, without trimming.
pub fn split2<'a>(p: &'a str) -> (r: (&'a str, Option<&'a str>))
    ensures
        r.0@ == spec_split2(p@).0,
        opt_str_view(r.1) == spec_split2(p@).1,
{
    match find_char(p, ' ') {
        None => (p, None),
        Some(i) => {
            proof {
                lemma_find_in_range(p@, ' ');
            }
            let len = p.unicode_len();
            let head = p.substring_char(0, i);
            let tail = p.substring_char(i + 1, len);
            if tail.unicode_len() == 0 {
                (head, None)
            } else {
                (head, Some(tail))
            }
        },
    }
}

/// Compares two optional owned strings by their characters.
pub fn opt_string_eq(a: &Option<String>, b: &Option<String>) -> (r: bool)
    ensures
        r == (opt_string_view(*a) == opt_string_view(*b)),
{
    match (a, b) {
        (None, None) => true,
        (Some(x), Some(y)) => str_eq(x.as_str(), y.as_str()),
        _ => false,
    }
}

/// True when `c` is a decimal digit.
pub open spec fn is_digit(c: char) -> bool {
    48 <= c as u32 <= 57
}

/// The numeric value of the digit `c`.
pub open spec fn digit_val(c: char) -> int {
    c as u32 - 48
}

/// The character for the digit `d`.
pub open spec fn digit_char(d: int) -> char {
    if d == 0 {
        '0'
    } else if d == 1 {
        '1'
    } else if d == 2 {
        '2'
    } else if d == 3 {
        '3'
    } else if d == 4 {
        '4'
    } else if d == 5 {
        '5'
    } else if d == 6 {
        '6'
    } else if d == 7 {
        '7'
    } else if d == 8 {
        '8'
    } else {
        '9'
    }
}

/// True when `s` is a non-empty run of decimal digits.
pub open spec fn is_digit_seq(s: Seq<char>) -> bool {
    s.len() > 0 && forall|i: int| 0 <= i < s.len() ==> is_digit(s[i])
}

/// The number denoted by the digit run `s`, most significant digit first.
pub open spec fn digits_val(s: Seq<char>) -> nat
    decreases s.len(),
{
    if s.len() == 0 {
        0
    } else {
        (digits_val(s.drop_last()) * 10 + digit_val(s.last())) as nat
    }
}

/// The canonical decimal rendering of `n`, without leading zeros (except for
/// `n == 0` itself).
pub open spec fn dec_str(n: nat) -> Seq<char>
    decreases n,
{
    if n < 10 {
        seq![digit_char(n as int)]
    } else {
        dec_str(n / 10).push(digit_char((n % 10) as int))
    }
}

/// The decimal rendering of `n` is a digit run denoting `n` again.
pub proof fn lemma_dec_str_digits(n: nat)
    ensures
        is_digit_seq(dec_str(n)),
        digits_val(dec_str(n)) == n,
    decreases n,
{
    if n < 10 {
        let s = seq![digit_char(n as int)];
        assert(s.drop_last() =~= Seq::<char>::empty());
        assert(digits_val(Seq::<char>::empty()) == 0);
        assert(digits_val(s) == digits_val(s.drop_last()) * 10 + digit_val(s.last()));
        assert(digit_val(digit_char(n as int)) == n);
    } else {
        lemma_dec_str_digits(n / 10);
        let head = dec_str(n / 10);
        let c = digit_char((n % 10) as int);
        assert(head.push(c).drop_last() =~= head);
        assert(digit_val(c) == n % 10);
        assert(digits_val(head.push(c)) == (n / 10) * 10 + n % 10);
        assert((n / 10) * 10 + n % 10 == n) by {
            vstd::arithmetic::div_mod::lemma_fundamental_div_mod(n as int, 10);
        }
        assert(forall|i: int|
            0 <= i < head.push(c).len() ==> is_digit(#[trigger] head.push(c)[i]));
    }
}

/// Tests whether every character of `t` is a decimal digit and `t` is
/// non-empty.
pub fn all_digits(t: &str) -> (r: bool)
    ensures
        r == is_digit_seq(t@),
{
    let len = t.unicode_len();
    if len == 0 {
        return false;
    }
    let mut i: usize = 0;
    while i < len
        invariant
            0 <= i <= len,
            len == t@.len(),
            forall|j: int| 0 <= j < i ==> is_digit(t@[j]),
        decreases len - i,
    {
        let c = t.get_char(i);
        if (c as u32) < 48 || (c as u32) > 57 {
            return false;
        }
        i = i + 1;
    }
    true
}

/// The value of a digit run, or `None` when it exceeds `u32::MAX`.
pub fn digits_value(t: &str) -> (r: Option<u32>)
    requires
        is_digit_seq(t@),
    ensures
        match r {
            Some(v) => v as nat == digits_val(t@),
            None => digits_val(t@) > u32::MAX as nat,
        },
{
    let len = t.unicode_len();
    let mut i: usize = 0;
    let mut acc: u64 = 0;
    let mut over: bool = false;
    while i < len
        invariant
            0 <= i <= len,
            len == t@.len(),
            is_digit_seq(t@),
            !over ==> acc as nat == digits_val(t@.subrange(0, i as int)) && acc <= u32::MAX as u64,
            over ==> digits_val(t@.subrange(0, i as int)) > u32::MAX as nat,
        decreases len - i,
    {
        let c = t.get_char(i);
        let d: u32 = (c as u32) - 48;
        proof {
            assert(is_digit(t@[i as int]));
            assert(t@.subrange(0, i as int + 1).drop_last() =~= t@.subrange(0, i as int));
            let prev = digits_val(t@.subrange(0, i as int));
            assert(digits_val(t@.subrange(0, i as int + 1)) == prev * 10 + d);
        }
        if !over {
            let next: u64 = acc * 10 + (d as u64);
            if next > u32::MAX as u64 {
                over = true;
                proof {
                    assert(digits_val(t@.subrange(0, i as int + 1)) > u32::MAX as nat);
                }
            } else {
                acc = next;
            }
        } else {
            proof {
                let prev = digits_val(t@.subrange(0, i as int));
                assert(prev * 10 >= prev) by {
                    assert(prev * 9 >= 0);
                }
            }
        }
        i = i + 1;
    }
    proof {
        assert(t@.subrange(0, len as int) =~= t@);
    }
    if over {
        None
    } else {
        Some(acc as u32)
    }
}

/// A one-character string for the digit `d`.
fn digit_str(d: u8) -> (r: &'static str)
    requires
        d < 10,
    ensures
        r@ == seq![digit_char(d as int)],
{
    let r: &'static str = match d {
        0 => "0",
        1 => "1",
        2 => "2",
        3 => "3",
        4 => "4",
        5 => "5",
        6 => "6",
        7 => "7",
        8 => "8",
        _ => "9",
    };
    proof {
        reveal_strlit("0");
        reveal_strlit("1");
        reveal_strlit("2");
        reveal_strlit("3");
        reveal_strlit("4");
        reveal_strlit("5");
        reveal_strlit("6");
        reveal_strlit("7");
        reveal_strlit("8");
        reveal_strlit("9");
        assert(r@ =~= seq![digit_char(d as int)]);
    }
    r
}

/// The characters of the digit stack `ds`, highest digit first (`ds` holds
/// the lowest digit at index 0).
spec fn chars_of_rev(ds: Seq<u8>) -> Seq<char> {
    Seq::new(ds.len(), |i: int| digit_char(ds[ds.len() - 1 - i] as int))
}

/// Renders `n` in decimal.
pub fn u32_digits(n: u32) -> (s: String)
    ensures
        s@ == dec_str(n as nat),
{
    let mut digs: Vec<u8> = Vec::new();
    let mut m: u32 = n;
    digs.push((m % 10) as u8);
    m = m / 10;
    while m > 0
        invariant
            digs@.len() > 0,
            forall|j: int| 0 <= j < digs@.len() ==> digs@[j] < 10,
            dec_str(n as nat) =~= if m > 0 {
                dec_str(m as nat) + chars_of_rev(digs@)
            } else {
                chars_of_rev(digs@)
            },
        decreases m,
    {
        let ghost old_digs = digs@;
        let ghost old_m = m as nat;
        digs.push((m % 10) as u8);
        m = m / 10;
        proof {
            assert(chars_of_rev(old_digs.push((old_m % 10) as u8)) =~= seq![
                digit_char((old_m % 10) as int),
            ] + chars_of_rev(old_digs));
            if old_m < 10 {
                assert(dec_str(old_m) =~= seq![digit_char(old_m as int)]);
                assert(old_m % 10 == old_m);
            } else {
                assert(dec_str(old_m) =~= dec_str(old_m / 10).push(
                    digit_char((old_m % 10) as int),
                ));
                assert(dec_str(old_m / 10).push(digit_char((old_m % 10) as int)) =~= dec_str(
                    old_m / 10,
                ) + seq![digit_char((old_m % 10) as int)]);
            }
            assert(dec_str(n as nat) =~= if m > 0 {
                dec_str(m as nat) + chars_of_rev(digs@)
            } else {
                chars_of_rev(digs@)
            });
        }
    }
    let ghost target = chars_of_rev(digs@);
    let mut out = String::new();
    let mut k: usize = digs.len();
    while k > 0
        invariant
            0 <= k <= digs@.len(),
            forall|j: int| 0 <= j < digs@.len() ==> digs@[j] < 10,
            target == chars_of_rev(digs@),
            out@ =~= target.subrange(0, digs@.len() - k),
        decreases k,
    {
        let d = digs[k - 1];
        out.append(digit_str(d));
        k = k - 1;
        proof {
            assert(out@ =~= target.subrange(0, digs@.len() - k));
        }
    }
    proof {
        assert(target.subrange(0, digs@.len() as int) =~= target);
    }
    out
}

/// True when the two strings hold the same characters.
pub fn str_eq(a: &str, b: &str) -> (r: bool)
    ensures
        r == (a@ == b@),
{
    let alen = a.unicode_len();
    let blen = b.unicode_len();
    if alen != blen {
        assert(a@ != b@);
        return false;
    }
    let mut i: usize = 0;
    while i < alen
        invariant
            0 <= i <= alen,
            alen == a@.len(),
            alen == b@.len(),
            forall|j: int| 0 <= j < i ==> a@[j] == b@[j],
        decreases alen - i,
    {
        if a.get_char(i) != b.get_char(i) {
            assert(a@ != b@);
            return false;
        }
        i = i + 1;
    }
    proof {
        assert(a@ =~= b@);
    }
    true
}

} // verus!
