//! Text building blocks shared by the value objects: character classes,
//! string comparison, decimal rendering, and the facts about sequences of
//! characters that the identity proofs rest on.
use vstd::prelude::*;
use vstd::string::StringSliceAdditionalSpecFns;

verus! {

// ---------------------------------------------------------------------------
// Character classes
// ---------------------------------------------------------------------------

/// Unicode `White_Space` (PropList.txt): the characters that `char::is_whitespace`
/// and `str::trim` treat as whitespace.
pub open spec fn spec_is_white_space(c: char) -> bool {
    let u = c as u32;
    ||| 0x09 <= u <= 0x0d
    ||| u == 0x20
    ||| u == 0x85
    ||| u == 0xa0
    ||| u == 0x1680
    ||| 0x2000 <= u <= 0x200a
    ||| u == 0x2028
    ||| u == 0x2029
    ||| u == 0x202f
    ||| u == 0x205f
    ||| u == 0x3000
}

/// Unicode general category `Cc`: the characters that `char::is_control` accepts.
pub open spec fn spec_is_control(c: char) -> bool {
    let u = c as u32;
    u <= 0x1f || 0x7f <= u <= 0x9f
}

/// `char::is_whitespace`: true exactly for the characters with the Unicode
/// `White_Space` property.
#[verifier::external_body]
pub(crate) fn char_is_whitespace(c: char) -> (r: bool)
    ensures
        r == spec_is_white_space(c),
{
    c.is_whitespace()
}

/// `char::is_control`: true exactly for the characters of general category `Cc`.
#[verifier::external_body]
pub(crate) fn char_is_control(c: char) -> (r: bool)
    ensures
        r == spec_is_control(c),
{
    c.is_control()
}

/// `String::push`: appends one character at the end.
#[verifier::external_body]
pub(crate) fn push_char(s: &mut String, c: char)
    ensures
        final(s)@ == old(s)@.push(c),
{
    s.push(c);
}

/// Whether two strings hold the same characters.
pub fn str_eq(a: &str, b: &str) -> (r: bool)
    ensures
        r == (a@ == b@),
{
    let n = a.unicode_len();
    if n != b.unicode_len() {
        return false;
    }
    let mut i: usize = 0;
    while i < n
        invariant
            n == a@.len(),
            n == b@.len(),
            0 <= i <= n,
            forall|j: int| 0 <= j < i ==> a@[j] == b@[j],
        decreases n - i,
    {
        if a.get_char(i) != b.get_char(i) {
            return false;
        }
        i = i + 1;
    }
    assert(a@ =~= b@);
    true
}

// ---------------------------------------------------------------------------
// Tokens
// ---------------------------------------------------------------------------

/// Why a string is not accepted as an identity token.
#[derive(Debug, Clone, Copy, PartialEq, Eq, Structural)]
pub enum TokenFault {
    /// Empty or whitespace only.
    Blank,
    /// More than 64 characters.
    TooLong,
    /// Holds a control character.
    Control,
    /// Starts or ends with whitespace.
    Untrimmed,
}

/// `str::trim` leaves nothing: every character is whitespace.
pub open spec fn spec_is_blank(s: Seq<char>) -> bool {
    forall|i: int| 0 <= i < s.len() ==> spec_is_white_space(#[trigger] s[i])
}

/// Some character is a control character.
pub open spec fn spec_has_control(s: Seq<char>) -> bool {
    exists|i: int| 0 <= i < s.len() && spec_is_control(#[trigger] s[i])
}

/// `str::trim` would change the string: it starts or ends with whitespace.
pub open spec fn spec_is_untrimmed(s: Seq<char>) -> bool {
    s.len() > 0 && (spec_is_white_space(s[0]) || spec_is_white_space(s.last()))
}

/// The length of the UTF-8 encoding of `s`, as `str::len` counts it.
pub open spec fn spec_byte_len(s: Seq<char>) -> nat {
    vstd::utf8::encode_utf8(s).len()
}

/// The first rule that `s` breaks as an identity token, in the order in
/// which the checks run.
pub open spec fn spec_token_fault(s: Seq<char>) -> Option<TokenFault> {
    if spec_is_blank(s) {
        Some(TokenFault::Blank)
    } else if s.len() > 64 {
        Some(TokenFault::TooLong)
    } else if spec_has_control(s) {
        Some(TokenFault::Control)
    } else if spec_is_untrimmed(s) {
        Some(TokenFault::Untrimmed)
    } else {
        None
    }
}

/// A distinguishable, non-empty identity token.
pub open spec fn spec_is_token(s: Seq<char>) -> bool {
    spec_token_fault(s) is None
}

/// Finds the first rule that `value` breaks as an identity token.
pub(crate) fn token_fault(value: &str) -> (r: Option<TokenFault>)
    ensures
        r == spec_token_fault(value@),
{
    broadcast use vstd::string::group_string_axioms;

    let mut blank = true;
    let mut control = false;
    let mut first_ws = false;
    let mut last_ws = false;
    let mut seen = false;
    for c in it: value.chars()
        invariant
            it.seq() == value@,
            seen == (it.index() > 0),
            it.index() == 0 ==> !first_ws && !last_ws,
            blank == (forall|j: int| 0 <= j < it.index() ==> spec_is_white_space(#[trigger] value@[j])),
            control == (exists|j: int| 0 <= j < it.index() && spec_is_control(#[trigger] value@[j])),
            it.index() > 0 ==> first_ws == spec_is_white_space(value@[0]),
            it.index() > 0 ==> last_ws == spec_is_white_space(value@[it.index() - 1]),
    {
        let ws = char_is_whitespace(c);
        if !seen {
            first_ws = ws;
        }
        last_ws = ws;
        blank = blank && ws;
        control = control || char_is_control(c);
        seen = true;
    }
    proof {
        if value@.len() > 0 {
            assert(value@.last() == value@[value@.len() - 1]);
        }
    }
    if blank {
        Some(TokenFault::Blank)
    } else if value.unicode_len() > 64 {
        Some(TokenFault::TooLong)
    } else if control {
        Some(TokenFault::Control)
    } else if first_ws || last_ws {
        Some(TokenFault::Untrimmed)
    } else {
        None
    }
}

// ---------------------------------------------------------------------------
// Decimal digits
// ---------------------------------------------------------------------------

/// The character of a decimal digit `d` (0 to 9).
pub open spec fn spec_digit(d: int) -> char {
    if d == 0 {
        '0'
    } else if d == 1 {
        '1'
    } else if d == 2 {
        '2'
    } else if d == 3 {
        '3'
    } else if d == 4 {
        '4'
    } else if d == 5 {
        '5'
    } else if d == 6 {
        '6'
    } else if d == 7 {
        '7'
    } else if d == 8 {
        '8'
    } else {
        '9'
    }
}

/// Whether `c` is one of the ten ASCII digits.
pub open spec fn spec_is_digit(c: char) -> bool {
    '0' <= c && c <= '9'
}

/// The value of an ASCII digit character.
pub open spec fn spec_digit_value(c: char) -> int {
    (c as u32) - ('0' as u32)
}

/// The decimal rendering of `n`: no sign and no leading zero ("0" for zero),
/// as `format!("{}", n)` writes an unsigned integer.
pub open spec fn spec_dec(n: nat) -> Seq<char>
    decreases n,
{
    if n < 10 {
        seq![spec_digit(n as int)]
    } else {
        spec_dec(n / 10).push(spec_digit((n % 10) as int))
    }
}

/// `k` zero characters.
pub open spec fn spec_zeros(k: nat) -> Seq<char> {
    Seq::new(k, |i: int| '0')
}

/// `s` padded on the left with zeros to at least `w` characters, as the
/// `{:0w}` format does for a non-negative integer.
pub open spec fn spec_zero_pad(s: Seq<char>, w: nat) -> Seq<char> {
    if s.len() < w {
        spec_zeros((w - s.len()) as nat) + s
    } else {
        s
    }
}

/// The number that a string of decimal digits stands for.
pub open spec fn spec_value(s: Seq<char>) -> int
    decreases s.len(),
{
    if s.len() == 0 {
        0
    } else {
        spec_value(s.drop_last()) * 10 + spec_digit_value(s.last())
    }
}

/// Whether every character of `s` is a decimal digit.
pub open spec fn spec_all_digits(s: Seq<char>) -> bool {
    forall|i: int| 0 <= i < s.len() ==> spec_is_digit(#[trigger] s[i])
}

proof fn lemma_digit(d: int)
    requires
        0 <= d < 10,
    ensures
        spec_is_digit(spec_digit(d)),
        spec_digit_value(spec_digit(d)) == d,
{
}

/// The decimal rendering consists of digits only and is never empty.
pub proof fn lemma_dec_digits(n: nat)
    ensures
        spec_all_digits(spec_dec(n)),
        spec_dec(n).len() >= 1,
    decreases n,
{
    if n < 10 {
        lemma_digit(n as int);
    } else {
        lemma_dec_digits(n / 10);
        lemma_digit((n % 10) as int);
        let s = spec_dec(n);
        assert forall|i: int| 0 <= i < s.len() implies spec_is_digit(#[trigger] s[i]) by {
            if i < s.len() - 1 {
                assert(s[i] == spec_dec(n / 10)[i]);
            }
        }
    }
}

/// Reading back the decimal rendering gives the number.
pub proof fn lemma_value_dec(n: nat)
    ensures
        spec_value(spec_dec(n)) == n,
    decreases n,
{
    if n < 10 {
        lemma_digit(n as int);
        let s = spec_dec(n);
        assert(s.drop_last() =~= Seq::<char>::empty());
        assert(spec_value(s.drop_last()) == 0);
        assert(s.last() == spec_digit(n as int));
    } else {
        lemma_value_dec(n / 10);
        lemma_digit((n % 10) as int);
        let s = spec_dec(n);
        assert(s.drop_last() =~= spec_dec(n / 10));
        assert(s.last() == spec_digit((n % 10) as int));
        vstd::arithmetic::div_mod::lemma_fundamental_div_mod(n as int, 10);
        assert(spec_value(s) == spec_value(spec_dec(n / 10)) * 10 + (n % 10) as int);
    }
}

/// Leading zeros do not change the value of a digit string.
pub proof fn lemma_value_leading_zeros(k: nat, s: Seq<char>)
    ensures
        spec_value(spec_zeros(k) + s) == spec_value(s),
    decreases s.len(), k,
{
    if s.len() == 0 {
        assert(spec_zeros(k) + s =~= spec_zeros(k));
        if k > 0 {
            assert(spec_zeros(k).drop_last() =~= spec_zeros((k - 1) as nat) + s);
            lemma_value_leading_zeros((k - 1) as nat, s);
        }
    } else {
        assert((spec_zeros(k) + s).drop_last() =~= spec_zeros(k) + s.drop_last());
        lemma_value_leading_zeros(k, s.drop_last());
    }
}

/// Zero-padding a decimal rendering keeps its value, keeps it all digits,
/// and gives at least `w` characters (exactly `w` when `n < 10^w` is small).
pub proof fn lemma_padded(n: nat, w: nat)
    ensures
        spec_value(spec_zero_pad(spec_dec(n), w)) == n,
        spec_all_digits(spec_zero_pad(spec_dec(n), w)),
        spec_zero_pad(spec_dec(n), w).len() >= 1,
{
    lemma_value_dec(n);
    lemma_dec_digits(n);
    let d = spec_dec(n);
    if d.len() < w {
        lemma_value_leading_zeros((w - d.len()) as nat, d);
        let p = spec_zero_pad(d, w);
        assert forall|i: int| 0 <= i < p.len() implies spec_is_digit(#[trigger] p[i]) by {
            if i >= w - d.len() {
                assert(p[i] == d[i - (w - d.len())]);
            }
        }
    }
}

/// Zero-padded decimal renderings of two numbers are equal only if the
/// numbers are.
pub proof fn lemma_padded_injective(a: nat, b: nat, w: nat)
    requires
        spec_zero_pad(spec_dec(a), w) == spec_zero_pad(spec_dec(b), w),
    ensures
        a == b,
{
    lemma_padded(a, w);
    lemma_padded(b, w);
}

// ---------------------------------------------------------------------------
// Rendering numbers into a string
// ---------------------------------------------------------------------------

fn digit_char(d: u64) -> (c: char)
    requires
        d < 10,
    ensures
        c == spec_digit(d as int),
{
    if d == 0 {
        '0'
    } else if d == 1 {
        '1'
    } else if d == 2 {
        '2'
    } else if d == 3 {
        '3'
    } else if d == 4 {
        '4'
    } else if d == 5 {
        '5'
    } else if d == 6 {
        '6'
    } else if d == 7 {
        '7'
    } else if d == 8 {
        '8'
    } else {
        '9'
    }
}

/// Appends the decimal rendering of `n`.
pub(crate) fn push_dec(s: &mut String, n: u64)
    ensures
        final(s)@ == old(s)@ + spec_dec(n as nat),
    decreases n,
{
    if n >= 10 {
        push_dec(s, n / 10);
    }
    let c = digit_char(n % 10);
    push_char(s, c);
    proof {
        if n >= 10 {
            assert(spec_dec(n as nat) == spec_dec((n / 10) as nat).push(spec_digit((n % 10) as int)));
            assert(final(s)@ =~= old(s)@ + spec_dec(n as nat));
        } else {
            assert(final(s)@ =~= old(s)@ + spec_dec(n as nat));
        }
    }
}

/// The length of the decimal rendering of `n`.
pub(crate) fn dec_len(n: u64) -> (r: u64)
    ensures
        r == spec_dec(n as nat).len(),
        r <= n + 1,
    decreases n,
{
    if n >= 10 {
        let k = dec_len(n / 10);
        k + 1
    } else {
        1
    }
}

/// Appends the decimal rendering of `n`, zero-padded to `w` characters.
pub(crate) fn push_padded(s: &mut String, n: u64, w: u64)
    ensures
        final(s)@ == old(s)@ + spec_zero_pad(spec_dec(n as nat), w as nat),
{
    let len = dec_len(n);
    let mut i = len;
    while i < w
        invariant
            len <= i,
            len < w ==> i <= w,
            len >= w ==> i == len,
            s@ == old(s)@ + spec_zeros((i - len) as nat),
        decreases w - i,
    {
        push_char(s, '0');
        assert(s@ =~= old(s)@ + spec_zeros((i + 1 - len) as nat));
        i = i + 1;
    }
    let ghost before = s@;
    push_dec(s, n);
    proof {
        if len < w {
            assert(i == w);
            assert(s@ =~= old(s)@ + spec_zero_pad(spec_dec(n as nat), w as nat));
        } else {
            assert(spec_zeros(0) =~= Seq::<char>::empty());
            assert(before =~= old(s)@);
            assert(s@ =~= old(s)@ + spec_zero_pad(spec_dec(n as nat), w as nat));
        }
    }
}

/// `head`, then the decimal rendering of `n`, then `tail`.
pub(crate) fn message_with_count(head: &str, n: usize, tail: &str) -> (s: String)
    ensures
        s@ == head@ + spec_dec(n as nat) + tail@,
{
    let mut s = String::from_str(head);
    push_dec(&mut s, n as u64);
    s.append(tail);
    s
}

// ---------------------------------------------------------------------------
// Facts about sequences of characters
// ---------------------------------------------------------------------------

/// A common prefix can be cancelled.
pub proof fn lemma_cancel_prefix(p: Seq<char>, x: Seq<char>, y: Seq<char>)
    requires
        p + x == p + y,
    ensures
        x == y,
{
    assert(x =~= (p + x).subrange(p.len() as int, (p + x).len() as int));
    assert(y =~= (p + y).subrange(p.len() as int, (p + y).len() as int));
}

/// Two strings that both start with a part free of the separator's first
/// character, followed by the separator, split into equal parts.
pub proof fn lemma_split_at(a: Seq<char>, b: Seq<char>, sep: Seq<char>, x: Seq<char>, y: Seq<char>)
    requires
        sep.len() >= 1,
        !a.contains(sep[0]),
        !b.contains(sep[0]),
        a + (sep + x) == b + (sep + y),
    ensures
        a == b,
        x == y,
{
    let l = a + (sep + x);
    let r = b + (sep + y);
    if a.len() < b.len() {
        assert(l[a.len() as int] == sep[0]);
        assert(r[a.len() as int] == b[a.len() as int]);
        assert(b.contains(b[a.len() as int]));
    } else if b.len() < a.len() {
        assert(r[b.len() as int] == sep[0]);
        assert(l[b.len() as int] == a[b.len() as int]);
        assert(a.contains(a[b.len() as int]));
    } else {
        assert forall|i: int| 0 <= i < a.len() implies a[i] == b[i] by {
            assert(l[i] == a[i]);
            assert(r[i] == b[i]);
        }
        assert(a =~= b);
        lemma_cancel_prefix(a, sep + x, sep + y);
        lemma_cancel_prefix(sep, x, y);
    }
}

/// A string of digits holds none of the given non-digit character.
pub proof fn lemma_digits_exclude(s: Seq<char>, c: char)
    requires
        spec_all_digits(s),
        !spec_is_digit(c),
    ensures
        !s.contains(c),
{
    if s.contains(c) {
        let i = choose|i: int| 0 <= i < s.len() && s[i] == c;
        assert(spec_is_digit(s[i]));
    }
}

} // verus!
