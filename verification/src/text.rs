//! Text primitives: comparison, trimming, searching and decimal numerals.
//!
//! A string is modelled by its sequence of characters.
use vstd::prelude::*;

verus! {

/// `String::push` appends one character to the end of the string.
pub assume_specification[ String::push ](s: &mut String, c: char)
    ensures
        final(s)@ == old(s)@.push(c),
;

/// `str`'s equality holds exactly when both strings have the same characters.
pub assume_specification[ <str as PartialEq<str>>::eq ](a: &str, b: &str) -> (r: bool)
    ensures
        r == (a@ == b@),
;

/// Whether two strings hold the same characters.
pub fn same(a: &str, b: &str) -> (r: bool)
    ensures
        r == (a@ == b@),
{
    *a == *b
}

/// Whether `text` is one of `choices`.
pub fn is_one_of(text: &str, choices: &[&str]) -> (r: bool)
    ensures
        r == exists|i: int| 0 <= i < choices@.len() && (#[trigger] choices@[i])@ == text@,
{
    let mut i: usize = 0;
    while i < choices.len()
        invariant
            i <= choices@.len(),
            forall|j: int| 0 <= j < i ==> (#[trigger] choices@[j])@ != text@,
        decreases choices@.len() - i,
    {
        if same(choices[i], text) {
            return true;
        }
        i += 1;
    }
    false
}

/// Concatenates three pieces of text.
pub fn concat3(a: &str, b: &str, c: &str) -> (r: String)
    ensures
        r@ == a@ + b@ + c@,
{
    let mut out = a.to_owned();
    out.append(b);
    out.append(c);
    out
}

// ---------------------------------------------------------------------------
// Whitespace
// ---------------------------------------------------------------------------
/// The characters that carry Unicode's `White_Space` property.
pub open spec fn white_space(c: char) -> bool {
    let n = c as u32;
    ||| 0x09 <= n <= 0x0d
    ||| n == 0x20
    ||| n == 0x85
    ||| n == 0xa0
    ||| n == 0x1680
    ||| 0x2000 <= n <= 0x200a
    ||| n == 0x2028
    ||| n == 0x2029
    ||| n == 0x202f
    ||| n == 0x205f
    ||| n == 0x3000
}

/// Of the ASCII characters, the space, the tab and those that end lines or pages are
/// whitespace, and no other; beyond them so are the no-break space and the wide space of
/// East Asian text, while the zero width space is not.
pub proof fn white_space_is_more_than_spaces(c: char)
    ensures
        (c as u32) < 0x80 ==> (white_space(c) <==> c == ' ' || c == '\t' || c == '\n' || c
            == '\r' || c as u32 == 0x0b || c as u32 == 0x0c),
        c as u32 == 0xa0 || c as u32 == 0x3000 || c as u32 == 0x2009 || c as u32 == 0x2028
            ==> white_space(c),
        c as u32 == 0x200b || c as u32 == 0xfeff ==> !white_space(c),
{
}

/// Whether `c` carries Unicode's `White_Space` property.
pub fn is_white_space(c: char) -> (r: bool)
    ensures
        r == white_space(c),
{
    let n = c as u32;
    (0x09 <= n && n <= 0x0d) || n == 0x20 || n == 0x85 || n == 0xa0 || n == 0x1680 || (0x2000 <= n
        && n <= 0x200a) || n == 0x2028 || n == 0x2029 || n == 0x202f || n == 0x205f || n == 0x3000
}

/// `s` without the whitespace at its front.
pub open spec fn trimmed_front(s: Seq<char>) -> Seq<char>
    decreases s.len(),
{
    if s.len() > 0 && white_space(s[0]) {
        trimmed_front(s.subrange(1, s.len() as int))
    } else {
        s
    }
}

/// `s` without the whitespace at its back.
pub open spec fn trimmed_back(s: Seq<char>) -> Seq<char>
    decreases s.len(),
{
    if s.len() > 0 && white_space(s.last()) {
        trimmed_back(s.drop_last())
    } else {
        s
    }
}

/// `s` without the whitespace at either end.
pub open spec fn trimmed(s: Seq<char>) -> Seq<char> {
    trimmed_back(trimmed_front(s))
}

/// Whether `s` holds nothing but whitespace.
pub open spec fn blank(s: Seq<char>) -> bool {
    forall|i: int| 0 <= i < s.len() ==> white_space(#[trigger] s[i])
}

/// Trimming leaves nothing exactly when the text is blank.
pub proof fn trimmed_is_empty_iff_blank(s: Seq<char>)
    ensures
        trimmed(s).len() == 0 <==> blank(s),
{
    lemma_trimmed_front(s);
    let f = trimmed_front(s);
    if f.len() > 0 {
        lemma_trimmed_back_keeps(f);
        let k = s.len() - f.len();
        assert(s[k] == f[0]);
    } else {
        assert forall|i: int| 0 <= i < s.len() implies white_space(#[trigger] s[i]) by {}
    }
}

proof fn lemma_trimmed_front(s: Seq<char>)
    ensures
        trimmed_front(s).len() <= s.len(),
        trimmed_front(s) == s.subrange(s.len() - trimmed_front(s).len(), s.len() as int),
        forall|i: int| 0 <= i < s.len() - trimmed_front(s).len() ==> white_space(#[trigger] s[i]),
        trimmed_front(s).len() > 0 ==> !white_space(trimmed_front(s)[0]),
    decreases s.len(),
{
    if s.len() > 0 && white_space(s[0]) {
        let t = s.subrange(1, s.len() as int);
        lemma_trimmed_front(t);
        assert forall|i: int| 0 <= i < s.len() - trimmed_front(s).len() implies white_space(
            #[trigger] s[i],
        ) by {
            if i > 0 {
                assert(t[i - 1] == s[i]);
            }
        }
        assert(trimmed_front(s) =~= s.subrange(
            s.len() - trimmed_front(s).len(),
            s.len() as int,
        ));
    } else {
        assert(s =~= s.subrange(0, s.len() as int));
    }
}

proof fn lemma_trimmed_back_keeps(s: Seq<char>)
    requires
        s.len() > 0,
        !white_space(s[0]),
    ensures
        trimmed_back(s).len() > 0,
        trimmed_back(s)[0] == s[0],
    decreases s.len(),
{
    if white_space(s.last()) {
        assert(s.len() > 1);
        lemma_trimmed_back_keeps(s.drop_last());
    }
}

proof fn lemma_trimmed_back(s: Seq<char>)
    ensures
        trimmed_back(s).len() <= s.len(),
        trimmed_back(s) == s.subrange(0, trimmed_back(s).len() as int),
        forall|i: int| trimmed_back(s).len() <= i < s.len() ==> white_space(#[trigger] s[i]),
        trimmed_back(s).len() > 0 ==> !white_space(trimmed_back(s).last()),
    decreases s.len(),
{
    if s.len() > 0 && white_space(s.last()) {
        let t = s.drop_last();
        lemma_trimmed_back(t);
        let n = trimmed_back(s).len() as int;
        assert(s.subrange(0, n) =~= t.subrange(0, n));
        assert forall|i: int| n <= i < s.len() implies white_space(#[trigger] s[i]) by {
            if i < t.len() {
                assert(t[i] == s[i]);
            }
        }
    } else {
        assert(s =~= s.subrange(0, s.len() as int));
    }
}

/// Trimming cuts whitespace off the two ends and nothing else: what is left is a part of
/// the text that neither starts nor ends with whitespace, with nothing but whitespace
/// around it.
pub proof fn trimming_cuts_only_white_space(s: Seq<char>)
    ensures
        exists|from: int, to: int|
            {
                &&& 0 <= from <= to <= s.len()
                &&& trimmed(s) == #[trigger] s.subrange(from, to)
                &&& forall|i: int|
                    0 <= i < from || to <= i < s.len() ==> white_space(#[trigger] s[i])
            },
        trimmed(s).len() > 0 ==> !white_space(trimmed(s)[0]) && !white_space(trimmed(s).last()),
{
    lemma_trimmed_front(s);
    let f = trimmed_front(s);
    lemma_trimmed_back(f);
    if f.len() > 0 {
        lemma_trimmed_back_keeps(f);
    }
    let from = s.len() - f.len();
    let to = from + trimmed(s).len();
    assert(s.subrange(from, to) =~= trimmed(s));
    assert forall|i: int| 0 <= i < from || to <= i < s.len() implies white_space(
        #[trigger] s[i],
    ) by {
        if i >= to {
            assert(f[i - from] == s[i]);
        }
    }
}

/// The text without leading and trailing whitespace.
pub fn trim(s: &str) -> (r: &str)
    ensures
        r@ == trimmed(s@),
{
    let len = s.unicode_len();
    let mut from: usize = 0;
    assert(s@.subrange(0, len as int) =~= s@);
    while from < len && is_white_space(s.get_char(from))
        invariant
            from <= len == s@.len(),
            trimmed_front(s@) == trimmed_front(s@.subrange(from as int, len as int)),
        ensures
            from <= len,
            trimmed_front(s@) == s@.subrange(from as int, len as int),
        decreases len - from,
    {
        assert(s@.subrange(from as int, len as int).subrange(1, len - from)
            =~= s@.subrange(from + 1, len as int));
        from += 1;
    }
    let mut to = len;
    while to > from && is_white_space(s.get_char(to - 1))
        invariant
            from <= to <= len == s@.len(),
            trimmed(s@) == trimmed_back(s@.subrange(from as int, to as int)),
        ensures
            from <= to <= len,
            trimmed(s@) == s@.subrange(from as int, to as int),
        decreases to - from,
    {
        assert(s@.subrange(from as int, to as int).drop_last() =~= s@.subrange(
            from as int,
            to - 1,
        ));
        to -= 1;
    }
    s.substring_char(from, to)
}

/// Whether the text is empty or holds only whitespace.
pub fn is_blank(s: &str) -> (r: bool)
    ensures
        r == blank(s@),
{
    proof {
        trimmed_is_empty_iff_blank(s@);
    }
    trim(s).is_empty()
}

// ---------------------------------------------------------------------------
// Searching and rewriting
// ---------------------------------------------------------------------------
/// Whether `s` ends in the character `c`.
pub open spec fn ends_in(s: Seq<char>, c: char) -> bool {
    s.len() > 0 && s.last() == c
}

/// Whether the text ends in the character `c`.
pub fn ends_with(s: &str, c: char) -> (r: bool)
    ensures
        r == ends_in(s@, c),
{
    let len = s.unicode_len();
    len > 0 && s.get_char(len - 1) == c
}

/// The text with every occurrence of `dropped` left out.
pub fn without_char(s: &str, dropped: char) -> (r: String)
    ensures
        r@ == s@.filter(|c: char| c != dropped),
{
    let mut out = String::new();
    for c in it: s.chars()
        invariant
            it.seq() == s@,
            out@ == s@.take(it.index()).filter(|c: char| c != dropped),
    {
        proof {
            reveal(Seq::filter);
            assert(s@.take(it.index() + 1).drop_last() =~= s@.take(it.index()));
        }
        if c != dropped {
            out.push(c);
        }
    }
    assert(s@.take(s@.len() as int) =~= s@);
    out
}

/// Whether `needle` stands in `hay` at position `at`.
pub open spec fn occurs_at(hay: Seq<char>, needle: Seq<char>, at: int) -> bool {
    0 <= at && at + needle.len() <= hay.len() && hay.subrange(at, at + needle.len()) == needle
}

/// Whether `needle` stands somewhere in `hay`.
pub open spec fn occurs(hay: Seq<char>, needle: Seq<char>) -> bool {
    exists|at: int| occurs_at(hay, needle, at)
}

/// Whether the text holds `needle` as a contiguous part.
pub fn contains(hay: &str, needle: &str) -> (r: bool)
    ensures
        r == occurs(hay@, needle@),
{
    let hay_len = hay.unicode_len();
    let needle_len = needle.unicode_len();
    if needle_len > hay_len {
        return false;
    }
    let mut at: usize = 0;
    while at <= hay_len - needle_len
        invariant
            hay_len == hay@.len(),
            needle_len == needle@.len(),
            at <= hay_len - needle_len + 1,
            hay_len < usize::MAX || at <= hay_len,
            needle_len <= hay_len,
            forall|k: int| 0 <= k < at ==> !occurs_at(hay@, needle@, k),
        decreases hay_len - needle_len + 1 - at,
    {
        if same(hay.substring_char(at, at + needle_len), needle) {
            assert(occurs_at(hay@, needle@, at as int));
            return true;
        }
        if at == hay_len - needle_len {
            return false;
        }
        at += 1;
    }
    false
}

/// `c` with the ASCII capital letters mapped to their small form.
pub open spec fn ascii_lower(c: char) -> char {
    if 'A' <= c <= 'Z' {
        (c as u32 + 32) as char
    } else {
        c
    }
}

/// Whether two texts agree once ASCII capitals are mapped to small letters.
pub open spec fn same_ignoring_ascii_case(a: Seq<char>, b: Seq<char>) -> bool {
    a.len() == b.len() && forall|i: int|
        0 <= i < a.len() ==> ascii_lower(#[trigger] a[i]) == ascii_lower(b[i])
}

fn lower(c: char) -> (r: char)
    ensures
        r == ascii_lower(c),
{
    if 'A' <= c && c <= 'Z' {
        ((c as u8) + 32) as char
    } else {
        c
    }
}

/// Texts that are the same agree, agreement goes both ways, a capital agrees with its
/// small letter, and two characters that differ agree only where they are the two forms
/// of one ASCII letter.
pub proof fn case_is_ignored_for_ascii_letters(a: Seq<char>, b: Seq<char>, c: char, d: char)
    ensures
        same_ignoring_ascii_case(a, a),
        same_ignoring_ascii_case(a, b) == same_ignoring_ascii_case(b, a),
        'A' <= c <= 'Z' && d as u32 == c as u32 + 32 ==> same_ignoring_ascii_case(
            seq![c],
            seq![d],
        ),
        c != d && same_ignoring_ascii_case(seq![c], seq![d]) ==> ('A' <= c <= 'Z' && d as u32
            == c as u32 + 32) || ('A' <= d <= 'Z' && c as u32 == d as u32 + 32),
{
    assert(seq![c][0] == c && seq![d][0] == d);
    assert forall|i: int| same_ignoring_ascii_case(a, b) && 0 <= i < b.len() implies ascii_lower(
        #[trigger] b[i],
    ) == ascii_lower(a[i]) by {
        assert(ascii_lower(a[i]) == ascii_lower(b[i]));
    }
    assert forall|i: int| same_ignoring_ascii_case(b, a) && 0 <= i < a.len() implies ascii_lower(
        #[trigger] a[i],
    ) == ascii_lower(b[i]) by {
        assert(ascii_lower(b[i]) == ascii_lower(a[i]));
    }
    if c != d && same_ignoring_ascii_case(seq![c], seq![d]) {
        assert(ascii_lower(seq![c][0]) == ascii_lower(seq![d][0]));
    }
}

/// Whether two texts agree up to the case of ASCII letters.
pub fn eq_ignore_ascii_case(a: &str, b: &str) -> (r: bool)
    ensures
        r == same_ignoring_ascii_case(a@, b@),
{
    let len = a.unicode_len();
    if b.unicode_len() != len {
        return false;
    }
    let mut i: usize = 0;
    while i < len
        invariant
            i <= len == a@.len(),
            b@.len() == len,
            forall|k: int| 0 <= k < i ==> ascii_lower(#[trigger] a@[k]) == ascii_lower(b@[k]),
        decreases len - i,
    {
        if lower(a.get_char(i)) != lower(b.get_char(i)) {
            return false;
        }
        i += 1;
    }
    true
}

// ---------------------------------------------------------------------------
// Decimal numerals
// ---------------------------------------------------------------------------
/// The character of a decimal digit.
pub open spec fn digit_char(d: int) -> char {
    (48 + d) as char
}

/// The decimal numeral of `n`, without leading zeros.
pub open spec fn numeral(n: nat) -> Seq<char>
    decreases n,
{
    if n < 10 {
        seq![digit_char(n as int)]
    } else {
        numeral(n / 10).push(digit_char((n % 10) as int))
    }
}

/// Appends the decimal numeral of `n`.
pub fn push_u64(out: &mut String, n: u64)
    ensures
        final(out)@ == old(out)@ + numeral(n as nat),
    decreases n,
{
    if n >= 10 {
        push_u64(out, n / 10);
    }
    let digit = (48 + (n % 10) as u8) as char;
    out.push(digit);
    proof {
        if n < 10 {
            assert(old(out)@.push(digit) =~= old(out)@ + numeral(n as nat));
        } else {
            assert((old(out)@ + numeral((n / 10) as nat)).push(digit) =~= old(out)@ + numeral(
                n as nat,
            ));
        }
    }
}

/// The decimal numeral of `n`.
pub fn u64_text(n: u64) -> (r: String)
    ensures
        r@ == numeral(n as nat),
{
    let mut out = String::new();
    push_u64(&mut out, n);
    assert(Seq::<char>::empty() + numeral(n as nat) =~= numeral(n as nat));
    out
}

/// Whether `c` is one of the ten ASCII digits.
pub open spec fn is_digit(c: char) -> bool {
    '0' <= c <= '9'
}

/// The number that a run of digits denotes.
pub open spec fn digits_value(s: Seq<char>) -> nat
    decreases s.len(),
{
    if s.len() == 0 {
        0
    } else {
        digits_value(s.drop_last()) * 10 + (s.last() as nat - 48) as nat
    }
}

/// Whether `s` is a non-empty run of digits.
pub open spec fn all_digits(s: Seq<char>) -> bool {
    s.len() > 0 && forall|i: int| 0 <= i < s.len() ==> is_digit(#[trigger] s[i])
}

/// The signed number that `s` denotes: an optional sign, then digits.
pub open spec fn signed_value(s: Seq<char>) -> Option<int> {
    let signed = s.len() > 0 && (s[0] == '-' || s[0] == '+');
    let digits = if signed {
        s.subrange(1, s.len() as int)
    } else {
        s
    };
    if !all_digits(digits) {
        None
    } else if signed && s[0] == '-' {
        Some(-(digits_value(digits) as int))
    } else {
        Some(digits_value(digits) as int)
    }
}

/// What parsing `s` as a 64-bit signed integer yields.
pub open spec fn i64_value(s: Seq<char>) -> Option<i64> {
    match signed_value(s) {
        Some(v) => if i64::MIN <= v <= i64::MAX {
            Some(v as i64)
        } else {
            None
        },
        None => None,
    }
}

proof fn lemma_digits_value_grows(s: Seq<char>, k: int)
    requires
        0 <= k <= s.len(),
    ensures
        digits_value(s) >= digits_value(s.take(k)),
    decreases s.len() - k,
{
    if k == s.len() {
        assert(s.take(k) =~= s);
    } else {
        lemma_digits_value_grows(s, k + 1);
        assert(s.take(k + 1).drop_last() =~= s.take(k));
    }
}

/// Parses an optionally signed decimal integer; `None` where the text is not
/// one or the number does not fit.
pub fn parse_i64(s: &str) -> (r: Option<i64>)
    ensures
        r == i64_value(s@),
{
    let len = s.unicode_len();
    let signed = len > 0 && (s.get_char(0) == '-' || s.get_char(0) == '+');
    let negative = len > 0 && s.get_char(0) == '-';
    let from: usize = if signed {
        1
    } else {
        0
    };
    let ghost digits = s@.subrange(from as int, len as int);
    proof {
        if !signed {
            assert(digits =~= s@);
        }
    }
    if from == len {
        return None;
    }
    let mut acc: i128 = 0;
    let mut i = from;
    while i < len
        invariant
            from <= i <= len == s@.len(),
            from < len,
            digits == s@.subrange(from as int, len as int),
            signed ==> s@.len() > 0 && digits == s@.subrange(1, s@.len() as int),
            signed == (s@.len() > 0 && (s@[0] == '-' || s@[0] == '+')),
            !signed ==> digits == s@,
            forall|k: int| 0 <= k < i - from ==> is_digit(#[trigger] digits[k]),
            acc == digits_value(digits.take(i - from)),
            0 <= acc <= 0x8000_0000_0000_0000,
        decreases len - i,
    {
        let c = s.get_char(i);
        assert(c == digits[i - from]);
        if !('0' <= c && c <= '9') {
            assert(!is_digit(digits[i - from]));
            return None;
        }
        acc = acc * 10 + (c as u32 - 48) as i128;
        proof {
            assert(digits.take(i - from + 1).drop_last() =~= digits.take(i - from));
            assert(digits.take(i - from + 1).last() == c);
        }
        i += 1;
        if acc > 0x8000_0000_0000_0000 {
            proof {
                lemma_digits_value_grows(digits, i - from);
            }
            return None;
        }
    }
    assert(digits.take(len - from) =~= digits);
    if negative {
        Some((-acc) as i64)
    } else if acc <= 0x7fff_ffff_ffff_ffff {
        Some(acc as i64)
    } else {
        None
    }
}

/// What parsing `s` as a 64-bit unsigned integer yields: an optional plus sign,
/// then digits.
pub open spec fn u64_value(s: Seq<char>) -> Option<u64> {
    let digits = if s.len() > 0 && s[0] == '+' {
        s.subrange(1, s.len() as int)
    } else {
        s
    };
    if all_digits(digits) && digits_value(digits) <= u64::MAX {
        Some(digits_value(digits) as u64)
    } else {
        None
    }
}

/// The numeral of a number holds digits only, without a zero in front, and denotes that
/// number again.
pub proof fn numerals_denote_their_number(n: nat)
    ensures
        all_digits(numeral(n)),
        digits_value(numeral(n)) == n,
        n > 0 ==> numeral(n)[0] != '0',
        n <= u64::MAX ==> u64_value(numeral(n)) == Some(n as u64),
        n <= i64::MAX ==> i64_value(numeral(n)) == Some(n as i64),
    decreases n,
{
    let s = numeral(n);
    if n < 10 {
        assert(s.drop_last() =~= Seq::<char>::empty());
        assert(s.last() as nat == 48 + n);
        assert(digits_value(s.drop_last()) == 0);
    } else {
        numerals_denote_their_number(n / 10);
        assert(s.drop_last() =~= numeral(n / 10));
        assert(s.last() as nat == 48 + n % 10);
        assert forall|i: int| 0 <= i < s.len() implies is_digit(#[trigger] s[i]) by {
            if i < s.len() - 1 {
                assert(s[i] == numeral(n / 10)[i]);
            }
        }
        assert(s[0] == numeral(n / 10)[0]);
    }
    assert(is_digit(s[0]));
}

/// Parses an unsigned decimal integer; `None` where the text is not one or the
/// number does not fit.
pub fn parse_u64(s: &str) -> (r: Option<u64>)
    ensures
        r == u64_value(s@),
{
    let len = s.unicode_len();
    let from: usize = if len > 0 && s.get_char(0) == '+' {
        1
    } else {
        0
    };
    let ghost digits = s@.subrange(from as int, len as int);
    proof {
        if from == 0 {
            assert(digits =~= s@);
        }
    }
    if from == len {
        return None;
    }
    let mut acc: u128 = 0;
    let mut i = from;
    while i < len
        invariant
            from <= i <= len == s@.len(),
            from < len,
            digits == s@.subrange(from as int, len as int),
            from == 1 <==> s@.len() > 0 && s@[0] == '+',
            from == 0 ==> digits == s@,
            from <= 1,
            forall|k: int| 0 <= k < i - from ==> is_digit(#[trigger] digits[k]),
            acc == digits_value(digits.take(i - from)),
            acc <= u64::MAX,
        decreases len - i,
    {
        let c = s.get_char(i);
        assert(c == digits[i - from]);
        if !('0' <= c && c <= '9') {
            assert(!is_digit(digits[i - from]));
            return None;
        }
        acc = acc * 10 + (c as u32 - 48) as u128;
        proof {
            assert(digits.take(i - from + 1).drop_last() =~= digits.take(i - from));
            assert(digits.take(i - from + 1).last() == c);
        }
        i += 1;
        if acc > 0xffff_ffff_ffff_ffff {
            proof {
                lemma_digits_value_grows(digits, i - from);
            }
            return None;
        }
    }
    assert(digits.take(len - from) =~= digits);
    Some(acc as u64)
}

} // verus!
