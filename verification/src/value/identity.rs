//! The identity of a curve point: the seven-part identity declared upstream.
//!
//! Identity = `source + series + currency + valuation_date + maturity +
//! curve_kind + vintage`. The canonical key is a stable text projection of
//! the identity; uniqueness within a batch is judged by it.
use vstd::prelude::*;

use crate::error::{YieldCurveError, YieldCurveErrorKind, YieldCurveResult};
use crate::text::{
    lemma_cancel_prefix, lemma_digits_exclude, lemma_padded, lemma_padded_injective, lemma_split_at,
    push_char, spec_dec, spec_is_digit, spec_is_token, spec_token_fault, spec_zero_pad, str_eq,
    token_fault, TokenFault,
};
use crate::value::tenor::{
    lemma_kind_label_injective, lemma_kind_label_no_semicolon, lemma_tenor_label_injective,
    lemma_tenor_label_no_semicolon, spec_kind_label, spec_tenor_label,
};
use crate::value::{spec_date_text, spec_year_text, Date, YieldCurveKind, YieldCurveTenor};

verus! {

/// An identity token declared upstream (used for `source`, `series`,
/// `currency` and `vintage`; the field name carries the meaning).
#[derive(Debug, PartialEq, Eq, Hash)]
pub struct YieldCurveCode(String);

/// The error that `YieldCurveCode::new` gives for a broken rule.
pub open spec fn spec_code_error(f: TokenFault) -> (YieldCurveErrorKind, Seq<char>) {
    match f {
        TokenFault::Blank => (YieldCurveErrorKind::Missing, "身份令牌不得为空"@),
        TokenFault::TooLong => (YieldCurveErrorKind::Invalid, "身份令牌过长（上限 64）"@),
        TokenFault::Control => (YieldCurveErrorKind::Invalid, "身份令牌不得含控制字符"@),
        TokenFault::Untrimmed => (YieldCurveErrorKind::Invalid, "身份令牌不得含前后空白（避免静默等值）"@),
    }
}

impl View for YieldCurveCode {
    type V = Seq<char>;

    closed spec fn view(&self) -> Seq<char> {
        self.0@
    }
}

impl Clone for YieldCurveCode {
    fn clone(&self) -> (r: Self)
        ensures
            r@ == self@,
    {
        proof {
            use_type_invariant(self);
        }
        Self(self.0.clone())
    }
}

impl YieldCurveCode {
    /// Every code is a valid identity token.
    #[verifier::type_invariant]
    spec fn is_token(self) -> bool {
        spec_is_token(self.0@)
    }

    /// Builds and checks an identity token.
    ///
    /// # Errors
    ///
    /// `Missing` when empty or blank; `Invalid` when over 64 characters, holding a
    /// control character, or starting or ending with whitespace.
    pub fn new(value: &str) -> (r: YieldCurveResult<Self>)
        ensures
            match r {
                Ok(c) => spec_token_fault(value@) is None && c@ == value@,
                Err(e) => spec_token_fault(value@) is Some && e@ == spec_code_error(
                    spec_token_fault(value@)->0,
                ),
            },
    {
        match token_fault(value) {
            None => Ok(Self(String::from_str(value))),
            Some(TokenFault::Blank) => Err(YieldCurveError::Missing(String::from_str("身份令牌不得为空"))),
            Some(TokenFault::TooLong) => Err(
                YieldCurveError::Invalid(String::from_str("身份令牌过长（上限 64）")),
            ),
            Some(TokenFault::Control) => Err(
                YieldCurveError::Invalid(String::from_str("身份令牌不得含控制字符")),
            ),
            Some(TokenFault::Untrimmed) => Err(
                YieldCurveError::Invalid(String::from_str("身份令牌不得含前后空白（避免静默等值）")),
            ),
        }
    }

    /// The token as a string slice; it is always a valid identity token.
    pub fn as_str(&self) -> (r: &str)
        ensures
            r@ == self@,
            spec_is_token(r@),
    {
        proof {
            use_type_invariant(self);
        }
        self.0.as_str()
    }
}

/// The identity of a curve point (uniqueness in a batch is judged by
/// [`YieldCurvePointIdentity::canonical_key`]).
#[derive(Debug, PartialEq, Eq, Hash)]
pub struct YieldCurvePointIdentity {
    /// The upstream source.
    pub source: YieldCurveCode,
    /// The upstream series.
    pub series: YieldCurveCode,
    /// The currency.
    pub currency: YieldCurveCode,
    /// The valuation date.
    pub valuation_date: Date,
    /// The tenor.
    pub maturity: YieldCurveTenor,
    /// The curve kind.
    pub curve_kind: YieldCurveKind,
    /// The vintage; `None` where there is no official vintage (never forged).
    pub vintage: Option<YieldCurveCode>,
}

/// An identity as plain values.
pub struct IdentityView {
    /// The source token.
    pub source: Seq<char>,
    /// The series token.
    pub series: Seq<char>,
    /// The currency token.
    pub currency: Seq<char>,
    /// The valuation date.
    pub valuation_date: Date,
    /// The tenor.
    pub maturity: YieldCurveTenor,
    /// The curve kind.
    pub curve_kind: YieldCurveKind,
    /// The vintage token, if any.
    pub vintage: Option<Seq<char>>,
}

impl View for YieldCurvePointIdentity {
    type V = IdentityView;

    open spec fn view(&self) -> IdentityView {
        IdentityView {
            source: self.source@,
            series: self.series@,
            currency: self.currency@,
            valuation_date: self.valuation_date,
            maturity: self.maturity,
            curve_kind: self.curve_kind,
            vintage: match self.vintage {
                Some(v) => Some(v@),
                None => None,
            },
        }
    }
}

impl Clone for YieldCurvePointIdentity {
    fn clone(&self) -> (r: Self)
        ensures
            r@ == self@,
    {
        let vintage = match &self.vintage {
            Some(v) => Some(v.clone()),
            None => None,
        };
        YieldCurvePointIdentity {
            source: self.source.clone(),
            series: self.series.clone(),
            currency: self.currency.clone(),
            valuation_date: self.valuation_date,
            maturity: self.maturity,
            curve_kind: self.curve_kind,
            vintage,
        }
    }
}

// ---------------------------------------------------------------------------
// Canonical key
// ---------------------------------------------------------------------------

/// How one character of a token is written in a key: the escape character
/// and the two separators are percent-encoded, all else is kept.
pub open spec fn spec_escape_char(c: char) -> Seq<char> {
    if c == '%' {
        seq!['%', '2', '5']
    } else if c == ';' {
        seq!['%', '3', 'B']
    } else if c == '=' {
        seq!['%', '3', 'D']
    } else {
        seq![c]
    }
}

/// A token as written in a key (`%` as `%25`, `;` as `%3B`, `=` as `%3D`).
pub open spec fn spec_escape(s: Seq<char>) -> Seq<char>
    decreases s.len(),
{
    if s.len() == 0 {
        Seq::empty()
    } else {
        spec_escape_char(s[0]) + spec_escape(s.drop_first())
    }
}

/// The vintage as written in a key: `-` when absent, `%2D` for a vintage
/// that is literally `-`, the escaped token otherwise.
pub open spec fn spec_vintage_text(v: Option<Seq<char>>) -> Seq<char> {
    match v {
        None => seq!['-'],
        Some(t) => if t == seq!['-'] {
            seq!['%', '2', 'D']
        } else {
            spec_escape(t)
        },
    }
}

/// The canonical key of an identity: its seven parts in a fixed order,
/// each behind its label, separated by `;`.
pub open spec fn spec_canonical_key(id: IdentityView) -> Seq<char> {
    "source="@ + (spec_escape(id.source) + spec_key_after_source(id))
}

/// The key from the series on.
pub open spec fn spec_key_after_source(id: IdentityView) -> Seq<char> {
    ";series="@ + (spec_escape(id.series) + spec_key_after_series(id))
}

/// The key from the currency on.
pub open spec fn spec_key_after_series(id: IdentityView) -> Seq<char> {
    ";currency="@ + (spec_escape(id.currency) + spec_key_after_currency(id))
}

/// The key from the valuation date on.
pub open spec fn spec_key_after_currency(id: IdentityView) -> Seq<char> {
    ";valuation_date="@ + (spec_date_text(id.valuation_date) + spec_key_after_date(id))
}

/// The key from the maturity on.
pub open spec fn spec_key_after_date(id: IdentityView) -> Seq<char> {
    ";maturity="@ + (spec_tenor_label(id.maturity) + spec_key_after_maturity(id))
}

/// The key from the curve kind on.
pub open spec fn spec_key_after_maturity(id: IdentityView) -> Seq<char> {
    ";curve_kind="@ + (spec_kind_label(id.curve_kind) + spec_key_after_kind(id))
}

/// The key's last part, the vintage.
pub open spec fn spec_key_after_kind(id: IdentityView) -> Seq<char> {
    ";vintage="@ + spec_vintage_text(id.vintage)
}

proof fn lemma_escape_concat(a: Seq<char>, b: Seq<char>)
    ensures
        spec_escape(a + b) == spec_escape(a) + spec_escape(b),
    decreases a.len(),
{
    if a.len() == 0 {
        assert(a + b =~= b);
        assert(spec_escape(a) =~= Seq::<char>::empty());
        assert(spec_escape(a) + spec_escape(b) =~= spec_escape(b));
    } else {
        assert((a + b).drop_first() =~= a.drop_first() + b);
        assert((a + b)[0] == a[0]);
        lemma_escape_concat(a.drop_first(), b);
        assert(spec_escape(a + b) =~= spec_escape(a) + spec_escape(b));
    }
}

proof fn lemma_escape_one(c: char)
    ensures
        spec_escape(seq![c]) == spec_escape_char(c),
{
    let s = seq![c];
    assert(s[0] == c);
    assert(s.drop_first() =~= Seq::<char>::empty());
    assert(spec_escape(s.drop_first()) == Seq::<char>::empty());
    assert(spec_escape(s) == spec_escape_char(c) + spec_escape(s.drop_first()));
    assert(spec_escape_char(c) + Seq::<char>::empty() =~= spec_escape_char(c));
}

/// An escaped token holds no `;`.
pub proof fn lemma_escape_no_semicolon(s: Seq<char>)
    ensures
        !spec_escape(s).contains(';'),
    decreases s.len(),
{
    if s.len() > 0 {
        lemma_escape_no_semicolon(s.drop_first());
        let e = spec_escape(s);
        let h = spec_escape_char(s[0]);
        let t = spec_escape(s.drop_first());
        if e.contains(';') {
            let i = choose|i: int| 0 <= i < e.len() && e[i] == ';';
            if i < h.len() {
                assert(e[i] == h[i]);
            } else {
                assert(e[i] == t[i - h.len()]);
                assert(t.contains(';'));
            }
        }
    }
}

/// An escaped token holds no `=`, so a token can never end the `label=`
/// part of a key early.
pub proof fn lemma_escape_no_equals(s: Seq<char>)
    ensures
        !spec_escape(s).contains('='),
    decreases s.len(),
{
    if s.len() > 0 {
        lemma_escape_no_equals(s.drop_first());
        let e = spec_escape(s);
        let h = spec_escape_char(s[0]);
        let t = spec_escape(s.drop_first());
        if e.contains('=') {
            let i = choose|i: int| 0 <= i < e.len() && e[i] == '=';
            if i < h.len() {
                assert(e[i] == h[i]);
            } else {
                assert(e[i] == t[i - h.len()]);
                assert(t.contains('='));
            }
        }
    }
}

/// Escaping loses nothing: equal escapings come from equal tokens.
pub proof fn lemma_escape_injective(s: Seq<char>, t: Seq<char>)
    requires
        spec_escape(s) == spec_escape(t),
    ensures
        s == t,
    decreases s.len(),
{
    if s.len() == 0 {
        if t.len() > 0 {
            assert(spec_escape(t).len() >= 1);
        }
        assert(s =~= t);
    } else {
        if t.len() == 0 {
            assert(spec_escape(s).len() >= 1);
        }
        let hs = spec_escape_char(s[0]);
        let ht = spec_escape_char(t[0]);
        let rs = spec_escape(s.drop_first());
        let rt = spec_escape(t.drop_first());
        assert(hs + rs == ht + rt);
        assert((hs + rs)[0] == hs[0]);
        assert((ht + rt)[0] == ht[0]);
        if hs.len() == ht.len() {
            assert forall|i: int| 0 <= i < hs.len() implies hs[i] == ht[i] by {
                assert((hs + rs)[i] == hs[i]);
                assert((ht + rt)[i] == ht[i]);
            }
            assert(hs =~= ht);
            lemma_cancel_prefix(hs, rs, rt);
            assert(s[0] == t[0]);
            lemma_escape_injective(s.drop_first(), t.drop_first());
            assert(s =~= seq![s[0]] + s.drop_first());
            assert(t =~= seq![t[0]] + t.drop_first());
        } else {
            assert(hs[0] == '%' || ht[0] == '%');
            assert(hs[0] == ht[0]);
            assert(false);
        }
    }
}

/// The vintage text tells apart every vintage, absent or present.
proof fn lemma_vintage_text_injective(a: Option<Seq<char>>, b: Option<Seq<char>>)
    requires
        spec_vintage_text(a) == spec_vintage_text(b),
    ensures
        a == b,
{
    let dash = seq!['-'];
    assert(spec_escape(dash) == dash) by {
        lemma_escape_one('-');
    }
    match (a, b) {
        (None, None) => {},
        (None, Some(t)) => {
            if t != dash {
                lemma_escape_injective(t, dash);
            }
        },
        (Some(s), None) => {
            if s != dash {
                lemma_escape_injective(s, dash);
            }
        },
        (Some(s), Some(t)) => {
            if s == dash && t != dash {
                lemma_escape_not_2d(t);
            } else if s != dash && t == dash {
                lemma_escape_not_2d(s);
            } else if s != dash && t != dash {
                lemma_escape_injective(s, t);
            }
        },
    }
}

/// No token escapes to `%2D`.
proof fn lemma_escape_not_2d(t: Seq<char>)
    ensures
        spec_escape(t) != seq!['%', '2', 'D'],
{
    let p = seq!['%', '2', 'D'];
    assert(p.len() == 3 && p[0] == '%' && p[1] == '2' && p[2] == 'D');
    if t.len() == 0 {
        assert(spec_escape(t) == Seq::<char>::empty());
    } else {
        let e = spec_escape(t);
        let h = spec_escape_char(t[0]);
        let r = spec_escape(t.drop_first());
        assert(e == h + r);
        if e == p {
            assert(e[0] == h[0]);
            if h.len() == 3 {
                assert(e[1] == h[1]);
                assert(e[2] == h[2]);
            } else {
                assert(h[0] == t[0]);
            }
        }
    }
}

/// A rendered date holds no `;`.
proof fn lemma_date_text_no_semicolon(d: Date)
    ensures
        !spec_date_text(d).contains(';'),
{
    let y = d.year as int;
    let m = d.month as nat;
    let dd = d.day as nat;
    lemma_padded(m, 2);
    lemma_padded(dd, 2);
    let t = spec_date_text(d);
    if y < 0 {
        lemma_padded((-y) as nat, 3);
    } else {
        lemma_padded(y as nat, 4);
    }
    if t.contains(';') {
        let i = choose|i: int| 0 <= i < t.len() && t[i] == ';';
        let yt = spec_year_text(y);
        let mt = spec_zero_pad(spec_dec(m), 2);
        let dt = spec_zero_pad(spec_dec(dd), 2);
        assert(t == yt + (seq!['-'] + (mt + (seq!['-'] + dt))));
        if i < yt.len() {
            assert(t[i] == yt[i]);
            if y < 0 {
                if i > 0 {
                    assert(yt[i] == spec_zero_pad(spec_dec((-y) as nat), 3)[i - 1]);
                    assert(spec_is_digit(yt[i]));
                }
            } else {
                assert(spec_is_digit(yt[i]));
            }
        } else if i == yt.len() {
        } else if i < yt.len() + 1 + mt.len() {
            assert(t[i] == mt[i - yt.len() - 1]);
            assert(spec_is_digit(mt[i - yt.len() - 1]));
        } else if i == yt.len() + 1 + mt.len() {
        } else {
            assert(t[i] == dt[i - yt.len() - 2 - mt.len()]);
            assert(spec_is_digit(dt[i - yt.len() - 2 - mt.len()]));
        }
    }
}

/// Month and day text after the year: `-MM-DD` splits back into both.
proof fn lemma_month_day_injective(m1: nat, d1: nat, m2: nat, d2: nat)
    requires
        spec_zero_pad(spec_dec(m1), 2) + (seq!['-'] + spec_zero_pad(spec_dec(d1), 2))
            == spec_zero_pad(spec_dec(m2), 2) + (seq!['-'] + spec_zero_pad(spec_dec(d2), 2)),
    ensures
        m1 == m2,
        d1 == d2,
{
    lemma_padded(m1, 2);
    lemma_padded(m2, 2);
    lemma_digits_exclude(spec_zero_pad(spec_dec(m1), 2), '-');
    lemma_digits_exclude(spec_zero_pad(spec_dec(m2), 2), '-');
    lemma_split_at(
        spec_zero_pad(spec_dec(m1), 2),
        spec_zero_pad(spec_dec(m2), 2),
        seq!['-'],
        spec_zero_pad(spec_dec(d1), 2),
        spec_zero_pad(spec_dec(d2), 2),
    );
    lemma_padded_injective(m1, m2, 2);
    lemma_padded_injective(d1, d2, 2);
}

/// Distinct dates render differently (for every value of the fields).
pub proof fn lemma_date_text_injective(a: Date, b: Date)
    requires
        spec_date_text(a) == spec_date_text(b),
    ensures
        a == b,
{
    let ya = a.year as int;
    let yb = b.year as int;
    let ra = spec_zero_pad(spec_dec(a.month as nat), 2) + (seq!['-'] + spec_zero_pad(
        spec_dec(a.day as nat),
        2,
    ));
    let rb = spec_zero_pad(spec_dec(b.month as nat), 2) + (seq!['-'] + spec_zero_pad(
        spec_dec(b.day as nat),
        2,
    ));
    let ta = spec_date_text(a);
    let tb = spec_date_text(b);
    if ya < 0 && yb < 0 {
        let pa = spec_zero_pad(spec_dec((-ya) as nat), 3);
        let pb = spec_zero_pad(spec_dec((-yb) as nat), 3);
        lemma_padded((-ya) as nat, 3);
        lemma_padded((-yb) as nat, 3);
        lemma_digits_exclude(pa, '-');
        lemma_digits_exclude(pb, '-');
        assert(ta =~= seq!['-'] + (pa + (seq!['-'] + ra)));
        assert(tb =~= seq!['-'] + (pb + (seq!['-'] + rb)));
        lemma_cancel_prefix(seq!['-'], pa + (seq!['-'] + ra), pb + (seq!['-'] + rb));
        lemma_split_at(pa, pb, seq!['-'], ra, rb);
        lemma_padded_injective((-ya) as nat, (-yb) as nat, 3);
    } else if ya >= 0 && yb >= 0 {
        let pa = spec_zero_pad(spec_dec(ya as nat), 4);
        let pb = spec_zero_pad(spec_dec(yb as nat), 4);
        lemma_padded(ya as nat, 4);
        lemma_padded(yb as nat, 4);
        lemma_digits_exclude(pa, '-');
        lemma_digits_exclude(pb, '-');
        lemma_split_at(pa, pb, seq!['-'], ra, rb);
        lemma_padded_injective(ya as nat, yb as nat, 4);
    } else if ya < 0 {
        lemma_padded(yb as nat, 4);
        let pb = spec_zero_pad(spec_dec(yb as nat), 4);
        assert(ta[0] == '-');
        assert(tb[0] == pb[0]);
        assert(spec_is_digit(pb[0]));
    } else {
        lemma_padded(ya as nat, 4);
        let pa = spec_zero_pad(spec_dec(ya as nat), 4);
        assert(tb[0] == '-');
        assert(ta[0] == pa[0]);
        assert(spec_is_digit(pa[0]));
    }
    lemma_month_day_injective(a.month as nat, a.day as nat, b.month as nat, b.day as nat);
}

/// Appends `value` with `%`, `;` and `=` percent-encoded.
pub(crate) fn push_escaped(out: &mut String, value: &str)
    ensures
        final(out)@ == old(out)@ + spec_escape(value@),
{
    broadcast use vstd::string::group_string_axioms;

    for c in it: value.chars()
        invariant
            it.seq() == value@,
            out@ == old(out)@ + spec_escape(value@.take(it.index())),
    {
        let ghost before = out@;
        let ghost i = it.index();
        if c == '%' {
            push_char(out, '%');
            push_char(out, '2');
            push_char(out, '5');
        } else if c == ';' {
            push_char(out, '%');
            push_char(out, '3');
            push_char(out, 'B');
        } else if c == '=' {
            push_char(out, '%');
            push_char(out, '3');
            push_char(out, 'D');
        } else {
            push_char(out, c);
        }
        proof {
            assert(out@ =~= before + spec_escape_char(c));
            assert(value@[i] == c);
            assert(value@.take(i + 1) =~= value@.take(i) + seq![c]);
            lemma_escape_concat(value@.take(i), seq![c]);
            lemma_escape_one(c);
            assert(out@ =~= old(out)@ + spec_escape(value@.take(i + 1)));
        }
    }
    assert(value@.take(value@.len() as int) =~= value@);
}

impl YieldCurvePointIdentity {
    /// The canonical key: the identity's stable text projection, fields in a
    /// fixed order, a missing vintage written `-`; in tokens `%`, `;` and `=`
    /// are percent-encoded and a vintage that is literally `-` is `%2D`.
    ///
    /// The same identity gives the same key and different identities give
    /// different keys (see [`lemma_canonical_key_injective`]).
    pub fn canonical_key(&self) -> (r: String)
        ensures
            r@ == spec_canonical_key(self@),
    {
        let ghost id = self@;
        let ghost key = spec_canonical_key(id);
        let mut s = String::from_str("source=");
        push_escaped(&mut s, self.source.as_str());
        proof {
            lemma_key_step("source="@, spec_escape(id.source), spec_key_after_source(id), key);
        }
        let ghost done = s@;
        s.append(";series=");
        proof {
            lemma_key_step(done, ";series="@, spec_escape(id.series) + spec_key_after_series(id), key);
        }
        let ghost done = s@;
        push_escaped(&mut s, self.series.as_str());
        proof {
            lemma_key_step(done, spec_escape(id.series), spec_key_after_series(id), key);
        }
        let ghost done = s@;
        s.append(";currency=");
        proof {
            lemma_key_step(
                done,
                ";currency="@,
                spec_escape(id.currency) + spec_key_after_currency(id),
                key,
            );
        }
        let ghost done = s@;
        push_escaped(&mut s, self.currency.as_str());
        proof {
            lemma_key_step(done, spec_escape(id.currency), spec_key_after_currency(id), key);
        }
        let ghost done = s@;
        s.append(";valuation_date=");
        proof {
            lemma_key_step(
                done,
                ";valuation_date="@,
                spec_date_text(id.valuation_date) + spec_key_after_date(id),
                key,
            );
        }
        let ghost done = s@;
        let date = self.valuation_date.to_iso_string();
        s.append(date.as_str());
        proof {
            lemma_key_step(done, spec_date_text(id.valuation_date), spec_key_after_date(id), key);
        }
        let ghost done = s@;
        s.append(";maturity=");
        proof {
            lemma_key_step(
                done,
                ";maturity="@,
                spec_tenor_label(id.maturity) + spec_key_after_maturity(id),
                key,
            );
        }
        let ghost done = s@;
        s.append(self.maturity.label());
        proof {
            lemma_key_step(done, spec_tenor_label(id.maturity), spec_key_after_maturity(id), key);
        }
        let ghost done = s@;
        s.append(";curve_kind=");
        proof {
            lemma_key_step(
                done,
                ";curve_kind="@,
                spec_kind_label(id.curve_kind) + spec_key_after_kind(id),
                key,
            );
        }
        let ghost done = s@;
        s.append(self.curve_kind.label());
        proof {
            lemma_key_step(done, spec_kind_label(id.curve_kind), spec_key_after_kind(id), key);
        }
        let ghost done = s@;
        s.append(";vintage=");
        proof {
            lemma_key_step(done, ";vintage="@, spec_vintage_text(id.vintage), key);
        }
        let ghost before_vintage = s@;
        match &self.vintage {
            None => push_char(&mut s, '-'),
            Some(v) => {
                if str_eq(v.as_str(), "-") {
                    s.append("%2D");
                } else {
                    push_escaped(&mut s, v.as_str());
                }
            },
        }
        proof {
            reveal_strlit("-");
            reveal_strlit("%2D");
            assert("-"@ =~= seq!['-']);
            assert("%2D"@ =~= seq!['%', '2', 'D']);
            assert(s@ =~= before_vintage + spec_vintage_text(id.vintage));
        }
        s
    }
}

/// Moving the next piece of a key from the part still to write to the part
/// already written.
proof fn lemma_key_step(done: Seq<char>, piece: Seq<char>, rest: Seq<char>, key: Seq<char>)
    requires
        done + (piece + rest) == key,
    ensures
        (done + piece) + rest == key,
{
    vstd::seq_lib::lemma_concat_associative(done, piece, rest);
}

/// The canonical key is a faithful name for an identity: two identities
/// have the same key exactly when they are the same identity (every one of
/// the seven parts takes part, and no choice of tokens makes two keys
/// collide).
pub proof fn lemma_canonical_key_injective(a: IdentityView, b: IdentityView)
    ensures
        spec_canonical_key(a) == spec_canonical_key(b) <==> a == b,
{
    if spec_canonical_key(a) == spec_canonical_key(b) {
        reveal_strlit(";series=");
        reveal_strlit(";currency=");
        reveal_strlit(";valuation_date=");
        reveal_strlit(";maturity=");
        reveal_strlit(";curve_kind=");
        reveal_strlit(";vintage=");
        lemma_cancel_prefix(
            "source="@,
            spec_escape(a.source) + spec_key_after_source(a),
            spec_escape(b.source) + spec_key_after_source(b),
        );
        lemma_escape_no_semicolon(a.source);
        lemma_escape_no_semicolon(b.source);
        lemma_split_at(
            spec_escape(a.source),
            spec_escape(b.source),
            ";series="@,
            spec_escape(a.series) + spec_key_after_series(a),
            spec_escape(b.series) + spec_key_after_series(b),
        );
        lemma_escape_injective(a.source, b.source);
        lemma_escape_no_semicolon(a.series);
        lemma_escape_no_semicolon(b.series);
        lemma_split_at(
            spec_escape(a.series),
            spec_escape(b.series),
            ";currency="@,
            spec_escape(a.currency) + spec_key_after_currency(a),
            spec_escape(b.currency) + spec_key_after_currency(b),
        );
        lemma_escape_injective(a.series, b.series);
        lemma_escape_no_semicolon(a.currency);
        lemma_escape_no_semicolon(b.currency);
        lemma_split_at(
            spec_escape(a.currency),
            spec_escape(b.currency),
            ";valuation_date="@,
            spec_date_text(a.valuation_date) + spec_key_after_date(a),
            spec_date_text(b.valuation_date) + spec_key_after_date(b),
        );
        lemma_escape_injective(a.currency, b.currency);
        lemma_date_text_no_semicolon(a.valuation_date);
        lemma_date_text_no_semicolon(b.valuation_date);
        lemma_split_at(
            spec_date_text(a.valuation_date),
            spec_date_text(b.valuation_date),
            ";maturity="@,
            spec_tenor_label(a.maturity) + spec_key_after_maturity(a),
            spec_tenor_label(b.maturity) + spec_key_after_maturity(b),
        );
        lemma_date_text_injective(a.valuation_date, b.valuation_date);
        lemma_tenor_label_no_semicolon(a.maturity);
        lemma_tenor_label_no_semicolon(b.maturity);
        lemma_split_at(
            spec_tenor_label(a.maturity),
            spec_tenor_label(b.maturity),
            ";curve_kind="@,
            spec_kind_label(a.curve_kind) + spec_key_after_kind(a),
            spec_kind_label(b.curve_kind) + spec_key_after_kind(b),
        );
        lemma_tenor_label_injective(a.maturity, b.maturity);
        lemma_kind_label_no_semicolon(a.curve_kind);
        lemma_kind_label_no_semicolon(b.curve_kind);
        lemma_split_at(
            spec_kind_label(a.curve_kind),
            spec_kind_label(b.curve_kind),
            ";vintage="@,
            spec_vintage_text(a.vintage),
            spec_vintage_text(b.vintage),
        );
        lemma_kind_label_injective(a.curve_kind, b.curve_kind);
        lemma_vintage_text_injective(a.vintage, b.vintage);
    }
}

} // verus!
