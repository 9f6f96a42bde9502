use chrono::Datelike;
use vstd::prelude::*;

use crate::codec::{decoded_unsigned, WifParse};
use crate::error::{ErrorModel, WifError};
use crate::split::append_chars;
use crate::text::{chars_of, decimal_text, is_digit, parse_unsigned, string_of, unsigned_text};

verus! {

/// How many digits stand in `s` from position `i` on.
pub open spec fn digit_run(s: Seq<char>, i: int) -> int
    decreases s.len() - i,
{
    if 0 <= i < s.len() && is_digit(s[i]) {
        1 + digit_run(s, i + 1)
    } else {
        0
    }
}

/// Where the sign that may stand at `i` ends.
pub open spec fn after_sign(s: Seq<char>, i: int) -> int {
    if 0 <= i < s.len() && (s[i] == '+' || s[i] == '-') {
        i + 1
    } else {
        i
    }
}

/// A decimal number: an optional sign, digits with an optional fraction
/// (at least one digit in all), and an optional exponent.
pub open spec fn is_decimal(s: Seq<char>) -> bool {
    let i0 = after_sign(s, 0);
    let d1 = digit_run(s, i0);
    let i1 = i0 + d1;
    let has_point = i1 < s.len() && s[i1] == '.';
    let d2 = if has_point {
        digit_run(s, i1 + 1)
    } else {
        0
    };
    let i2 = if has_point {
        i1 + 1 + d2
    } else {
        i1
    };
    &&& d1 + d2 > 0
    &&& (i2 == s.len() || (s[i2] == 'e' || s[i2] == 'E') && {
        let i3 = after_sign(s, i2 + 1);
        let d3 = digit_run(s, i3);
        d3 > 0 && i3 + d3 == s.len()
    })
}

fn run_at(s: &Vec<char>, i: usize) -> (r: usize)
    requires
        i <= s@.len(),
    ensures
        r as int == digit_run(s@, i as int),
        i + r <= s@.len(),
{
    let mut j: usize = i;
    while j < s.len() && '0' <= s[j] && s[j] <= '9'
        invariant
            i <= j <= s@.len(),
            digit_run(s@, i as int) == (j - i) + digit_run(s@, j as int),
        decreases s@.len() - j,
    {
        j = j + 1;
    }
    j - i
}

fn sign_at(s: &Vec<char>, i: usize) -> (r: usize)
    requires
        i <= s@.len(),
    ensures
        r as int == after_sign(s@, i as int),
        r <= s@.len(),
{
    if i < s.len() && (s[i] == '+' || s[i] == '-') {
        i + 1
    } else {
        i
    }
}

/// Whether `s` is a decimal number.
pub fn decimal_syntax(s: &Vec<char>) -> (r: bool)
    ensures
        r == is_decimal(s@),
{
    let i0 = sign_at(s, 0);
    let d1 = run_at(s, i0);
    assert(i0 + d1 <= s.len());
    let i1 = i0 + d1;
    let has_point = i1 < s.len() && s[i1] == '.';
    let d2 = if has_point {
        run_at(s, i1 + 1)
    } else {
        0
    };
    let i2 = if has_point {
        i1 + 1 + d2
    } else {
        i1
    };
    if d1 + d2 == 0 {
        return false;
    }
    if i2 == s.len() {
        return true;
    }
    if !(s[i2] == 'e' || s[i2] == 'E') {
        return false;
    }
    let i3 = sign_at(s, i2 + 1);
    let d3 = run_at(s, i3);
    d3 > 0 && i3 + d3 == s.len()
}

/// A length or a spacing, kept as the decimal text that gives it.
#[derive(Debug, Clone, PartialEq, Eq)]
pub struct Measure {
    pub text: String,
}

impl View for Measure {
    type V = Seq<char>;

    open spec fn view(&self) -> Seq<char> {
        self.text@
    }
}

impl WifParse for Measure {
    open spec fn decoded(s: Seq<char>) -> Result<Seq<char>, ErrorModel> {
        if is_decimal(s) {
            Ok(s)
        } else {
            Err(ErrorModel::InvalidFloat { saw: s })
        }
    }

    open spec fn encoded(v: Seq<char>) -> Option<Seq<char>> {
        Some(v)
    }

    fn parse(s: String) -> (r: Result<Measure, WifError>) {
        if decimal_syntax(&chars_of(s.as_str())) {
            Ok(Measure { text: s })
        } else {
            Err(WifError::InvalidFloat { saw: s })
        }
    }

    fn unparse(&self) -> (r: Option<String>) {
        Some(self.text.clone())
    }
}

/// A calendar date.
#[derive(Debug, Clone, Copy, PartialEq, Eq)]
pub struct Date {
    pub year: i32,
    pub month: u32,
    pub day: u32,
}

impl View for Date {
    type V = Date;

    open spec fn view(&self) -> Date {
        *self
    }
}

/// The year, month and day that chrono reads from a `Month DD, YYYY` text.
pub uninterp spec fn date_of(s: Seq<char>) -> Option<(i32, u32, u32)>;

/// The `Month DD, YYYY` text that chrono writes for a date, if it is one.
pub uninterp spec fn date_text(year: i32, month: u32, day: u32) -> Option<Seq<char>>;

/// Relies on chrono's `NaiveDate::parse_from_str` with `%B %d, %Y`: the date a
/// text names, which is a real calendar date.
#[verifier::external_body]
fn read_date(s: &str) -> (r: Option<Date>)
    ensures
        r matches Some(d) ==> date_of(s@) == Some((d.year, d.month, d.day)),
        r is None ==> date_of(s@) is None,
        r matches Some(d) ==> 1 <= d.month <= 12 && 1 <= d.day <= 31,
{
    chrono::NaiveDate::parse_from_str(s, "%B %d, %Y").ok().map(
        |d| Date { year: d.year(), month: d.month(), day: d.day() },
    )
}

/// Relies on chrono's `NaiveDate::from_ymd_opt` and `format` with `%B %d, %Y`:
/// the text of a real calendar date, `None` for any other triple.
#[verifier::external_body]
fn write_date(d: &Date) -> (r: Option<String>)
    ensures
        opt_text_of(r) == date_text(d.year, d.month, d.day),
{
    chrono::NaiveDate::from_ymd_opt(d.year, d.month, d.day).map(
        |n| n.format("%B %d, %Y").to_string(),
    )
}

pub open spec fn opt_text_of(o: Option<String>) -> Option<Seq<char>> {
    crate::codec::opt_text(o)
}

impl WifParse for Date {
    open spec fn decoded(s: Seq<char>) -> Result<Date, ErrorModel> {
        match date_of(s) {
            Some((y, m, d)) => Ok(Date { year: y, month: m, day: d }),
            None => Err(ErrorModel::InvalidDate { saw: s }),
        }
    }

    open spec fn encoded(v: Date) -> Option<Seq<char>> {
        date_text(v.year, v.month, v.day)
    }

    fn parse(s: String) -> (r: Result<Date, WifError>) {
        match read_date(s.as_str()) {
            Some(d) => Ok(d),
            None => Err(WifError::InvalidDate { saw: s }),
        }
    }

    fn unparse(&self) -> (r: Option<String>) {
        write_date(self)
    }
}

/// A thread's base colour: an index into the colour table.
#[derive(Debug, Clone, Copy, PartialEq, Eq)]
pub struct BaseColor {
    pub idx: u32,
    pub alt: Option<crate::codec::Color>,
}

impl View for BaseColor {
    type V = BaseColor;

    open spec fn view(&self) -> BaseColor {
        *self
    }
}

impl WifParse for BaseColor {
    open spec fn decoded(s: Seq<char>) -> Result<BaseColor, ErrorModel> {
        match decoded_unsigned(s, u32::MAX as nat) {
            Ok(n) => Ok(BaseColor { idx: n as u32, alt: None }),
            Err(e) => Err(e),
        }
    }

    open spec fn encoded(v: BaseColor) -> Option<Seq<char>> {
        Some(decimal_text(v.idx as nat))
    }

    fn parse(s: String) -> (r: Result<BaseColor, WifError>) {
        let idx = u32::parse(s)?;
        Ok(BaseColor { idx, alt: None })
    }

    fn unparse(&self) -> (r: Option<String>) {
        self.idx.unparse()
    }
}

/// A thread symbol.
#[derive(Debug, Clone, Copy, PartialEq, Eq)]
pub enum Symbol {
    /// A character written as itself.
    Char(char),
    /// A character written after a `'`.
    Quoted(char),
    /// A character written as `#` and its decimal code point.
    Code(char),
}

impl View for Symbol {
    type V = Symbol;

    open spec fn view(&self) -> Symbol {
        *self
    }
}

pub open spec fn is_char_code(n: nat) -> bool {
    n <= 0x10FFFF && !(0xD800 <= n && n <= 0xDFFF)
}

pub open spec fn code_point(c: char) -> nat {
    c as u32 as nat
}

/// The character whose code point is `n`.
pub open spec fn char_with_code(n: nat) -> char {
    choose|c: char| #[trigger] code_point(c) == n
}

/// Relies on `char::from_u32`: the character with that code point, if there is one.
#[verifier::external_body]
fn char_from_code(n: u32) -> (r: Option<char>)
    ensures
        r is Some <==> is_char_code(n as nat),
        r matches Some(c) ==> c as u32 == n && c == char_with_code(n as nat),
{
    char::from_u32(n)
}

impl WifParse for Symbol {
    open spec fn decoded(s: Seq<char>) -> Result<Symbol, ErrorModel> {
        if s.len() == 0 {
            Err(ErrorModel::ExpectedSymbol { saw: s })
        } else if s[0] == '\'' {
            if s.len() >= 2 {
                Ok(Symbol::Quoted(s[1]))
            } else {
                Err(ErrorModel::ExpectedSymbol { saw: s })
            }
        } else if s[0] == '#' {
            match decoded_unsigned(s.drop_first(), u32::MAX as nat) {
                Err(e) => Err(e),
                Ok(n) => if is_char_code(n) {
                    Ok(Symbol::Code(char_with_code(n)))
                } else {
                    Err(ErrorModel::ExpectedSymbol { saw: s })
                },
            }
        } else {
            Ok(Symbol::Char(s[0]))
        }
    }

    open spec fn encoded(v: Symbol) -> Option<Seq<char>> {
        match v {
            Symbol::Char(c) => Some(seq![c]),
            Symbol::Quoted(c) => Some(seq!['\'', c]),
            Symbol::Code(c) => Some(seq!['#'] + decimal_text(c as u32 as nat)),
        }
    }

    fn parse(s: String) -> (r: Result<Symbol, WifError>) {
        let v = chars_of(s.as_str());
        if v.len() == 0 {
            Err(WifError::ExpectedSymbol { saw: s })
        } else if v[0] == '\'' {
            if v.len() >= 2 {
                Ok(Symbol::Quoted(v[1]))
            } else {
                Err(WifError::ExpectedSymbol { saw: s })
            }
        } else if v[0] == '#' {
            let mut rest: Vec<char> = Vec::new();
            let mut i: usize = 1;
            while i < v.len()
                invariant
                    1 <= i <= v@.len(),
                    rest@ == v@.subrange(1, i as int),
                decreases v@.len() - i,
            {
                rest.push(v[i]);
                i = i + 1;
                assert(rest@ =~= v@.subrange(1, i as int));
            }
            assert(rest@ =~= s@.drop_first());
            match parse_unsigned(&rest, u32::MAX as u64) {
                None => Err(WifError::InvalidNumber { saw: string_of(&rest) }),
                Some(n) => match char_from_code(n as u32) {
                    Some(c) => {
                        assert(code_point(c) == n);

                        Ok(Symbol::Code(c))
                    },
                    None => Err(WifError::ExpectedSymbol { saw: s }),
                },
            }
        } else {
            Ok(Symbol::Char(v[0]))
        }
    }

    fn unparse(&self) -> (r: Option<String>) {
        match self {
            Symbol::Char(c) => Some(string_of(&vec![*c])),
            Symbol::Quoted(c) => Some(string_of(&vec!['\'', *c])),
            Symbol::Code(c) => {
                let mut out = vec!['#'];
                append_chars(&mut out, &unsigned_text(*c as u32 as u64));
                Some(string_of(&out))
            },
        }
    }
}

} // verus!
