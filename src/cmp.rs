//! The comparison operator: its canonical text, parsing, and evaluation.
use vstd::prelude::*;
use vstd::utf8::*;
use vstd::std_specs::cmp::{PartialEqSpec, PartialOrdSpec};
use vstd::string::StringSliceAdditionalSpecFns;
use crate::error::Error;
use core::cmp::Ordering;

verus! {

/// One of the six relational comparison operators: `!=`, `<`, `<=`, `==`,
/// `>=`, `>`.
///
/// Values are parsed from text or bytes (surrounding ASCII whitespace is
/// ignored, and `=` is accepted for `==`), rendered back with
/// [`ComparisonOperator::as_str`] or [`ComparisonOperator::as_bytes`], and
/// applied to two values with [`ComparisonOperator::compare`].
#[derive(Debug, Clone, Copy, PartialEq, Eq, Structural, Hash, PartialOrd, Ord)]
pub enum ComparisonOperator {
    /// Not equal to.
    Ne,
    /// Less than.
    Lt,
    /// Less than or equal to.
    Le,
    /// Equal to.
    Eq,
    /// Greater than or equal to.
    Ge,
    /// Greater than.
    Gt,
}

/// ASCII whitespace: space, tab, line feed, vertical tab, form feed and
/// carriage return.
pub open spec fn is_ascii_space(b: u8) -> bool {
    b == 0x20u8 || b == 0x09u8 || b == 0x0au8 || b == 0x0bu8 || b == 0x0cu8 || b == 0x0du8
}

/// `s` without its leading ASCII whitespace.
pub open spec fn trim_start(s: Seq<u8>) -> Seq<u8>
    decreases s.len(),
{
    if s.len() > 0 && is_ascii_space(s[0]) {
        trim_start(s.drop_first())
    } else {
        s
    }
}

/// `s` without its trailing ASCII whitespace.
pub open spec fn trim_end(s: Seq<u8>) -> Seq<u8>
    decreases s.len(),
{
    if s.len() > 0 && is_ascii_space(s.last()) {
        trim_end(s.drop_last())
    } else {
        s
    }
}

/// `s` without its surrounding ASCII whitespace.
pub open spec fn trim(s: Seq<u8>) -> Seq<u8> {
    trim_end(trim_start(s))
}

/// The operator that a token names exactly: one of the six canonical texts,
/// or `=` for [`ComparisonOperator::Eq`].
pub open spec fn token(t: Seq<u8>) -> Option<ComparisonOperator> {
    if t == ComparisonOperator::Ne.bytes() {
        Some(ComparisonOperator::Ne)
    } else if t == ComparisonOperator::Lt.bytes() {
        Some(ComparisonOperator::Lt)
    } else if t == ComparisonOperator::Le.bytes() {
        Some(ComparisonOperator::Le)
    } else if t == ComparisonOperator::Eq.bytes() || t == seq![0x3du8] {
        Some(ComparisonOperator::Eq)
    } else if t == ComparisonOperator::Ge.bytes() {
        Some(ComparisonOperator::Ge)
    } else if t == ComparisonOperator::Gt.bytes() {
        Some(ComparisonOperator::Gt)
    } else {
        None
    }
}

/// The result of parsing `s`: the operator that `s` names once its
/// surrounding ASCII whitespace is removed, or [`Error`].
pub open spec fn parse(s: Seq<u8>) -> Result<ComparisonOperator, Error> {
    match token(trim(s)) {
        Some(op) => Ok(op),
        None => Err(Error),
    }
}

/// What [`token`] reads from a single byte.
proof fn lemma_token_one(a: u8)
    ensures
        token(seq![a]) == (if a == 0x3cu8 {
            Some(ComparisonOperator::Lt)
        } else if a == 0x3eu8 {
            Some(ComparisonOperator::Gt)
        } else if a == 0x3du8 {
            Some(ComparisonOperator::Eq)
        } else {
            None
        }),
{
    let t = seq![a];
    assert(t[0] == a);
    assert(t.len() == 1);
    assert(seq![0x3du8][0] == 0x3du8);
    assert(ComparisonOperator::Lt.bytes()[0] == 0x3cu8);
    assert(ComparisonOperator::Gt.bytes()[0] == 0x3eu8);
    if a == 0x3du8 {
        assert(t =~= seq![0x3du8]);
    }
}

/// What [`token`] reads from two bytes.
proof fn lemma_token_two(a: u8, b: u8)
    ensures
        token(seq![a, b]) == (if b != 0x3du8 {
            None
        } else if a == 0x21u8 {
            Some(ComparisonOperator::Ne)
        } else if a == 0x3cu8 {
            Some(ComparisonOperator::Le)
        } else if a == 0x3du8 {
            Some(ComparisonOperator::Eq)
        } else if a == 0x3eu8 {
            Some(ComparisonOperator::Ge)
        } else {
            None
        }),
{
    let t = seq![a, b];
    assert(t[0] == a && t[1] == b);
    assert(t.len() == 2);
    assert(ComparisonOperator::Ne.bytes()[0] == 0x21u8);
    assert(ComparisonOperator::Le.bytes()[0] == 0x3cu8);
    assert(ComparisonOperator::Eq.bytes()[0] == 0x3du8);
    assert(ComparisonOperator::Ge.bytes()[0] == 0x3eu8);
    assert(ComparisonOperator::Ne.bytes()[1] == 0x3du8);
    assert(ComparisonOperator::Le.bytes()[1] == 0x3du8);
    assert(ComparisonOperator::Eq.bytes()[1] == 0x3du8);
    assert(ComparisonOperator::Ge.bytes()[1] == 0x3du8);
    if b == 0x3du8 {
        if a == 0x21u8 {
            assert(t =~= ComparisonOperator::Ne.bytes());
        } else if a == 0x3cu8 {
            assert(t =~= ComparisonOperator::Le.bytes());
        } else if a == 0x3du8 {
            assert(t =~= ComparisonOperator::Eq.bytes());
        } else if a == 0x3eu8 {
            assert(t =~= ComparisonOperator::Ge.bytes());
        }
    }
}

/// Every token is one or two bytes long.
proof fn lemma_token_len(t: Seq<u8>)
    ensures
        token(t) is Some ==> t.len() == 1 || t.len() == 2,
{
}

/// Index of the first byte of `src` that is not ASCII whitespace, or its
/// length.
fn skip_leading_space(src: &[u8]) -> (lo: usize)
    ensures
        lo <= src@.len(),
        trim_start(src@) == src@.subrange(lo as int, src@.len() as int),
{
    let n = src.len();
    let mut lo: usize = 0;
    assert(src@.subrange(0, n as int) =~= src@);
    while lo < n && is_space_byte(src[lo])
        invariant
            n == src@.len(),
            lo <= n,
            trim_start(src@) == trim_start(src@.subrange(lo as int, n as int)),
        decreases n - lo,
    {
        assert(src@.subrange(lo as int, n as int).drop_first() =~= src@.subrange(
            lo + 1,
            n as int,
        ));
        lo = lo + 1;
    }
    lo
}

/// End of `src[lo..]` once its trailing ASCII whitespace is removed.
fn skip_trailing_space(src: &[u8], lo: usize) -> (hi: usize)
    requires
        lo <= src@.len(),
    ensures
        lo <= hi <= src@.len(),
        trim_end(src@.subrange(lo as int, src@.len() as int)) == src@.subrange(
            lo as int,
            hi as int,
        ),
{
    let n = src.len();
    let mut hi: usize = n;
    while hi > lo && is_space_byte(src[hi - 1])
        invariant
            n == src@.len(),
            lo <= hi <= n,
            trim_end(src@.subrange(lo as int, n as int)) == trim_end(
                src@.subrange(lo as int, hi as int),
            ),
        decreases hi - lo,
    {
        assert(src@.subrange(lo as int, hi as int).drop_last() =~= src@.subrange(
            lo as int,
            hi - 1,
        ));
        hi = hi - 1;
    }
    hi
}

/// Whether `b` is ASCII whitespace.
fn is_space_byte(b: u8) -> (r: bool)
    ensures
        r == is_ascii_space(b),
{
    b == 0x20u8 || b == 0x09u8 || b == 0x0au8 || b == 0x0bu8 || b == 0x0cu8 || b == 0x0du8
}

impl ComparisonOperator {
    /// The canonical text of the operator.
    pub open spec fn text(self) -> Seq<char> {
        match self {
            ComparisonOperator::Ne => seq!['!', '='],
            ComparisonOperator::Lt => seq!['<'],
            ComparisonOperator::Le => seq!['<', '='],
            ComparisonOperator::Eq => seq!['=', '='],
            ComparisonOperator::Ge => seq!['>', '='],
            ComparisonOperator::Gt => seq!['>'],
        }
    }

    /// The canonical text of the operator as ASCII bytes.
    pub open spec fn bytes(self) -> Seq<u8> {
        match self {
            ComparisonOperator::Ne => seq![0x21u8, 0x3du8],
            ComparisonOperator::Lt => seq![0x3cu8],
            ComparisonOperator::Le => seq![0x3cu8, 0x3du8],
            ComparisonOperator::Eq => seq![0x3du8, 0x3du8],
            ComparisonOperator::Ge => seq![0x3eu8, 0x3du8],
            ComparisonOperator::Gt => seq![0x3eu8],
        }
    }

    /// The canonical text is ASCII, so its UTF-8 encoding is [`Self::bytes`].
    pub proof fn lemma_text_encoding(self)
        ensures
            encode_utf8(self.text()) == self.bytes(),
            self.bytes().len() == self.text().len(),
    {
        is_ascii_chars_encode_utf8(self.text());
        assert(encode_utf8(self.text()) =~= self.bytes());
    }

    /// The operator as a byte slice.
    #[must_use]
    pub fn as_bytes(self) -> (r: &'static [u8])
        ensures
            r@ == self.bytes(),
    {
        let s = self.as_str();
        proof {
            self.lemma_text_encoding();
        }
        s.as_bytes()
    }

    /// The operator as a string slice.
    #[must_use]
    pub fn as_str(self) -> (r: &'static str)
        ensures
            r@ == self.text(),
    {
        match self {
            ComparisonOperator::Lt => {
                proof { reveal_strlit("<"); }
                "<"
            },
            ComparisonOperator::Le => {
                proof { reveal_strlit("<="); }
                "<="
            },
            ComparisonOperator::Eq => {
                proof { reveal_strlit("=="); }
                "=="
            },
            ComparisonOperator::Ge => {
                proof { reveal_strlit(">="); }
                ">="
            },
            ComparisonOperator::Gt => {
                proof { reveal_strlit(">"); }
                ">"
            },
            ComparisonOperator::Ne => {
                proof { reveal_strlit("!="); }
                "!="
            },
        }
    }

    /// The byte length of the canonical text: 1 for `<` and `>`, 2 for the
    /// others.
    #[must_use]
    pub fn len(self) -> (r: usize)
        ensures
            r == self.bytes().len(),
            r == (if self is Lt || self is Gt { 1usize } else { 2usize }),
    {
        match self {
            ComparisonOperator::Lt | ComparisonOperator::Gt => 1,
            _ => 2,
        }
    }

    /// Always `false`: no operator has an empty text.
    #[must_use]
    pub fn is_empty(self) -> (r: bool)
        ensures
            r == (self.bytes().len() == 0),
            !r,
    {
        false
    }

    /// Whether this is [`ComparisonOperator::Ne`].
    #[must_use]
    pub fn is_ne(self) -> (r: bool)
        ensures
            r == (self is Ne),
    {
        matches!(self, ComparisonOperator::Ne)
    }

    /// Whether this is [`ComparisonOperator::Lt`].
    #[must_use]
    pub fn is_lt(self) -> (r: bool)
        ensures
            r == (self is Lt),
    {
        matches!(self, ComparisonOperator::Lt)
    }

    /// Whether this is [`ComparisonOperator::Le`].
    #[must_use]
    pub fn is_le(self) -> (r: bool)
        ensures
            r == (self is Le),
    {
        matches!(self, ComparisonOperator::Le)
    }

    /// Whether this is [`ComparisonOperator::Eq`].
    #[must_use]
    pub fn is_eq(self) -> (r: bool)
        ensures
            r == (self is Eq),
    {
        matches!(self, ComparisonOperator::Eq)
    }

    /// Whether this is [`ComparisonOperator::Ge`].
    #[must_use]
    pub fn is_ge(self) -> (r: bool)
        ensures
            r == (self is Ge),
    {
        matches!(self, ComparisonOperator::Ge)
    }

    /// Whether this is [`ComparisonOperator::Gt`].
    #[must_use]
    pub fn is_gt(self) -> (r: bool)
        ensures
            r == (self is Gt),
    {
        matches!(self, ComparisonOperator::Gt)
    }

    /// Whether `lhs op rhs` holds, by the order that `T`'s own `PartialEq`
    /// and `PartialOrd` define: `!=` and `==` by equality, the others by
    /// `partial_cmp`, so that incomparable values satisfy none of them.
    pub open spec fn holds<T: PartialOrd>(self, lhs: &T, rhs: &T) -> bool {
        match self {
            ComparisonOperator::Ne => !lhs.eq_spec(rhs),
            ComparisonOperator::Lt => lhs.partial_cmp_spec(rhs) == Some(Ordering::Less),
            ComparisonOperator::Le => lhs.partial_cmp_spec(rhs) matches Some(
                Ordering::Less
                | Ordering::Equal,
            ),
            ComparisonOperator::Eq => lhs.eq_spec(rhs),
            ComparisonOperator::Ge => lhs.partial_cmp_spec(rhs) matches Some(
                Ordering::Greater
                | Ordering::Equal,
            ),
            ComparisonOperator::Gt => lhs.partial_cmp_spec(rhs) == Some(Ordering::Greater),
        }
    }

    /// Compare `lhs` to `rhs` with this operator.
    ///
    /// The result is exactly what `T`'s own `!=`, `<`, `<=`, `==`, `>=` or
    /// `>` returns for the pair, whatever quirks its order has; where `T`'s
    /// comparisons follow their specifications, that is [`Self::holds`].
    pub fn compare<T: PartialOrd>(self, lhs: &T, rhs: &T) -> (r: bool)
        ensures
            (self is Ne || self is Eq) && T::obeys_eq_spec() ==> r == self.holds(lhs, rhs),
            !(self is Ne || self is Eq) && T::obeys_partial_cmp_spec() ==> r == self.holds(
                lhs,
                rhs,
            ),
            self is Ne ==> call_ensures(<T as PartialEq>::ne, (lhs, rhs), r),
            self is Lt ==> call_ensures(<T as PartialOrd>::lt, (lhs, rhs), r),
            self is Le ==> call_ensures(<T as PartialOrd>::le, (lhs, rhs), r),
            self is Eq ==> call_ensures(<T as PartialEq>::eq, (lhs, rhs), r),
            self is Ge ==> call_ensures(<T as PartialOrd>::ge, (lhs, rhs), r),
            self is Gt ==> call_ensures(<T as PartialOrd>::gt, (lhs, rhs), r),
    {
        match self {
            ComparisonOperator::Ne => lhs.ne(rhs),
            ComparisonOperator::Lt => lhs.lt(rhs),
            ComparisonOperator::Le => lhs.le(rhs),
            ComparisonOperator::Eq => lhs.eq(rhs),
            ComparisonOperator::Ge => lhs.ge(rhs),
            ComparisonOperator::Gt => lhs.gt(rhs),
        }
    }
}

impl<'a> TryFrom<&'a [u8]> for ComparisonOperator {
    type Error = Error;

    /// Parse an operator from bytes; surrounding ASCII whitespace is ignored
    /// and `=` is read as `==`.
    fn try_from(src: &'a [u8]) -> (r: Result<Self, Error>) {
        let lo = skip_leading_space(src);
        let hi = skip_trailing_space(src, lo);
        let ghost t = src@.subrange(lo as int, hi as int);
        assert(trim(src@) == t);
        if hi - lo == 1 {
            let a = src[lo];
            assert(t =~= seq![a]);
            proof {
                lemma_token_one(a);
            }
            if a == 0x3cu8 {
                Ok(ComparisonOperator::Lt)
            } else if a == 0x3eu8 {
                Ok(ComparisonOperator::Gt)
            } else if a == 0x3du8 {
                Ok(ComparisonOperator::Eq)
            } else {
                Err(Error)
            }
        } else if hi - lo == 2 {
            let a = src[lo];
            let b = src[lo + 1];
            assert(t =~= seq![a, b]);
            proof {
                lemma_token_two(a, b);
            }
            if b != 0x3du8 {
                Err(Error)
            } else if a == 0x21u8 {
                Ok(ComparisonOperator::Ne)
            } else if a == 0x3cu8 {
                Ok(ComparisonOperator::Le)
            } else if a == 0x3du8 {
                Ok(ComparisonOperator::Eq)
            } else if a == 0x3eu8 {
                Ok(ComparisonOperator::Ge)
            } else {
                Err(Error)
            }
        } else {
            proof {
                lemma_token_len(t);
            }
            Err(Error)
        }
    }
}

impl<'a> vstd::std_specs::convert::TryFromSpecImpl<&'a [u8]> for ComparisonOperator {
    open spec fn obeys_try_from_spec() -> bool {
        true
    }

    open spec fn try_from_spec(src: &'a [u8]) -> Result<Self, Error> {
        parse(src@)
    }
}

impl<'a> TryFrom<&'a str> for ComparisonOperator {
    type Error = Error;

    /// Parse an operator from its text, by the rule of the byte parser.
    fn try_from(src: &'a str) -> (r: Result<Self, Error>) {
        <ComparisonOperator as TryFrom<&[u8]>>::try_from(src.as_bytes())
    }
}

impl<'a> vstd::std_specs::convert::TryFromSpecImpl<&'a str> for ComparisonOperator {
    open spec fn obeys_try_from_spec() -> bool {
        true
    }

    open spec fn try_from_spec(src: &'a str) -> Result<Self, Error> {
        parse(src.spec_bytes())
    }
}

impl core::str::FromStr for ComparisonOperator {
    type Err = Error;

    /// Parse an operator from its text, by the rule of the byte parser.
    fn from_str(src: &str) -> (r: Result<Self, Error>)
        ensures
            r == parse(src.spec_bytes()),
    {
        <ComparisonOperator as TryFrom<&[u8]>>::try_from(src.as_bytes())
    }
}

/// Whether two byte slices hold the same bytes.
fn same_bytes(a: &[u8], b: &[u8]) -> (r: bool)
    ensures
        r == (a@ == b@),
{
    if a.len() != b.len() {
        return false;
    }
    let mut i: usize = 0;
    while i < a.len()
        invariant
            a@.len() == b@.len(),
            i <= a@.len(),
            forall|j: int| 0 <= j < i ==> a@[j] == b@[j],
        decreases a@.len() - i,
    {
        if a[i] != b[i] {
            return false;
        }
        i = i + 1;
    }
    assert(a@ =~= b@);
    true
}

/// A text equals the canonical text of `op` exactly when its UTF-8 bytes equal
/// the canonical bytes of `op`.
pub(crate) proof fn lemma_text_iff_bytes(op: ComparisonOperator, s: &str)
    ensures
        (s@ == op.text()) == (s.spec_bytes() == op.bytes()),
{
    op.lemma_text_encoding();
    if s.spec_bytes() == op.bytes() {
        encode_utf8_decode_utf8(s@);
        encode_utf8_decode_utf8(op.text());
    }
}

/// Whether `op`'s canonical text equals `s`.
fn text_matches(op: ComparisonOperator, s: &str) -> (r: bool)
    ensures
        r == (s@ == op.text()),
{
    proof {
        lemma_text_iff_bytes(op, s);
    }
    same_bytes(op.as_bytes(), s.as_bytes())
}

impl PartialEq<str> for ComparisonOperator {
    /// An operator equals a text exactly when the text is its canonical form.
    fn eq(&self, other: &str) -> (r: bool) {
        text_matches(*self, other)
    }
}

impl vstd::std_specs::cmp::PartialEqSpecImpl<str> for ComparisonOperator {
    open spec fn obeys_eq_spec() -> bool {
        true
    }

    open spec fn eq_spec(&self, other: &str) -> bool {
        other@ == self.text()
    }
}

impl PartialEq<ComparisonOperator> for str {
    /// A text equals an operator exactly when the text is its canonical form.
    fn eq(&self, other: &ComparisonOperator) -> (r: bool) {
        text_matches(*other, self)
    }
}

impl vstd::std_specs::cmp::PartialEqSpecImpl<ComparisonOperator> for str {
    open spec fn obeys_eq_spec() -> bool {
        true
    }

    open spec fn eq_spec(&self, other: &ComparisonOperator) -> bool {
        self@ == other.text()
    }
}

impl AsRef<[u8]> for ComparisonOperator {
    /// The canonical text as bytes.
    fn as_ref(&self) -> &[u8] {
        self.as_bytes()
    }
}

impl AsRef<str> for ComparisonOperator {
    /// The canonical text.
    fn as_ref(&self) -> &str {
        self.as_str()
    }
}

impl core::borrow::Borrow<str> for ComparisonOperator {
    /// The canonical text.
    fn borrow(&self) -> &str {
        self.as_str()
    }
}

} // verus!
