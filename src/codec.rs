use vstd::prelude::*;

use crate::collections::{increasing, IdSet};
use crate::error::{outcome, ErrorModel, WifError};
use crate::ids::{Id, Shaft, Treadle, Warp, Weft};
use crate::split::{
    append_chars, first_comma, split_commas, split_first_comma, split_on_commas, text_is,
    texts_of,
};
use crate::text::{
    chars_of, decimal_text, lemma_decimal_round_trip, lower_of, lowercase, parse_unsigned, string_of, trim, trim_of,
    unsigned_text, unsigned_value,
};

verus! {

/// The texts of an optional string.
pub open spec fn opt_text(o: Option<String>) -> Option<Seq<char>> {
    match o {
        Some(s) => Some(s@),
        None => None,
    }
}

/// A value with a canonical text form in a document.
pub trait WifParse: Sized + View {
    /// What decoding `s` gives.
    spec fn decoded(s: Seq<char>) -> Result<Self::V, ErrorModel>;

    /// The canonical text of a value, or `None` for a value that is not written.
    spec fn encoded(v: Self::V) -> Option<Seq<char>>;

    fn parse(s: String) -> (r: Result<Self, WifError>)
        ensures
            outcome(r) == Self::decoded(s@),
    ;

    fn unparse(&self) -> (r: Option<String>)
        ensures
            opt_text(r) == Self::encoded(self@),
    ;
}

/// The first of `parts` that is no numeral up to `max`.
pub open spec fn first_bad(parts: Seq<Seq<char>>, max: nat) -> Option<int> {
    if exists|i: int| 0 <= i < parts.len() && unsigned_value(parts[i], max) is None {
        Some(
            choose|i: int|
                0 <= i < parts.len() && unsigned_value(parts[i], max) is None && forall|j: int|
                    0 <= j < i ==> unsigned_value(parts[j], max) is Some,
        )
    } else {
        None
    }
}

proof fn lemma_first_bad(parts: Seq<Seq<char>>, max: nat, i: int)
    requires
        0 <= i < parts.len(),
        unsigned_value(parts[i], max) is None,
        forall|j: int| 0 <= j < i ==> unsigned_value(parts[j], max) is Some,
    ensures
        first_bad(parts, max) == Some(i),
{
    let c = choose|k: int|
        0 <= k < parts.len() && unsigned_value(parts[k], max) is None && forall|j: int|
            0 <= j < k ==> unsigned_value(parts[j], max) is Some;
    assert(0 <= c < parts.len() && unsigned_value(parts[c], max) is None);
    if c < i {
    } else if c > i {
    }
}

/// The numbers that `parts` denote, when each is a numeral up to `max`.
pub open spec fn values_of(parts: Seq<Seq<char>>, max: nat) -> Seq<nat> {
    parts.map_values(|p: Seq<char>| unsigned_value(p, max).unwrap())
}

/// Reads every part as a numeral up to `max`; on failure, the first part that is none.
fn parse_all(parts: &Vec<Vec<char>>, max: u64) -> (r: Result<Vec<u64>, usize>)
    ensures
        match r {
            Ok(v) => first_bad(texts_of(parts@), max as nat) is None && v@.len() == parts@.len()
                && forall|i: int|
                0 <= i < v@.len() ==> v@[i] as nat == values_of(texts_of(parts@), max as nat)[i],
            Err(i) => i < parts@.len() && first_bad(texts_of(parts@), max as nat) == Some(i as int),
        },
{
    let ghost t = texts_of(parts@);
    let mut out: Vec<u64> = Vec::new();
    let mut i: usize = 0;
    while i < parts.len()
        invariant
            i <= parts@.len(),
            t == texts_of(parts@),
            out@.len() == i,
            forall|j: int| 0 <= j < i ==> unsigned_value(t[j], max as nat) is Some,
            forall|j: int| 0 <= j < i ==> out@[j] as nat == values_of(t, max as nat)[j],
        decreases parts@.len() - i,
    {
        assert(t[i as int] == parts@[i as int]@);
        match parse_unsigned(&parts[i], max) {
            None => {
                proof {
                    lemma_first_bad(t, max as nat, i as int);
                }
                return Err(i);
            },
            Some(n) => {
                out.push(n);
            },
        }
        i = i + 1;
    }
    assert(!exists|j: int| 0 <= j < t.len() && unsigned_value(t[j], max as nat) is None);
    Ok(out)
}

pub open spec fn decoded_unsigned(s: Seq<char>, max: nat) -> Result<nat, ErrorModel> {
    match unsigned_value(s, max) {
        Some(n) => Ok(n),
        None => Err(ErrorModel::InvalidNumber { saw: s }),
    }
}

impl WifParse for u32 {
    open spec fn decoded(s: Seq<char>) -> Result<u32, ErrorModel> {
        match decoded_unsigned(s, u32::MAX as nat) {
            Ok(n) => Ok(n as u32),
            Err(e) => Err(e),
        }
    }

    open spec fn encoded(v: u32) -> Option<Seq<char>> {
        Some(decimal_text(v as nat))
    }

    fn parse(s: String) -> (r: Result<u32, WifError>) {
        let v = chars_of(s.as_str());
        match parse_unsigned(&v, u32::MAX as u64) {
            Some(n) => Ok(n as u32),
            None => Err(WifError::InvalidNumber { saw: s }),
        }
    }

    fn unparse(&self) -> (r: Option<String>) {
        Some(string_of(&unsigned_text(*self as u64)))
    }
}

impl WifParse for usize {
    open spec fn decoded(s: Seq<char>) -> Result<usize, ErrorModel> {
        match decoded_unsigned(s, usize::MAX as nat) {
            Ok(n) => Ok(n as usize),
            Err(e) => Err(e),
        }
    }

    open spec fn encoded(v: usize) -> Option<Seq<char>> {
        Some(decimal_text(v as nat))
    }

    fn parse(s: String) -> (r: Result<usize, WifError>) {
        let v = chars_of(s.as_str());
        match parse_unsigned(&v, usize::MAX as u64) {
            Some(n) => Ok(n as usize),
            None => Err(WifError::InvalidNumber { saw: s }),
        }
    }

    fn unparse(&self) -> (r: Option<String>) {
        Some(string_of(&unsigned_text(*self as u64)))
    }
}

impl WifParse for String {
    open spec fn decoded(s: Seq<char>) -> Result<Seq<char>, ErrorModel> {
        Ok(s)
    }

    open spec fn encoded(v: Seq<char>) -> Option<Seq<char>> {
        Some(v)
    }

    fn parse(s: String) -> (r: Result<String, WifError>) {
        Ok(s)
    }

    fn unparse(&self) -> (r: Option<String>) {
        Some(self.clone())
    }
}

/// What a boolean field's text means once folded to lower case.
pub open spec fn bool_of_folded(f: Seq<char>) -> Option<bool> {
    if f == "true"@ || f == "on"@ || f == "yes"@ || f == "1"@ {
        Some(true)
    } else if f == "false"@ || f == "off"@ || f == "no"@ || f == "0"@ {
        Some(false)
    } else {
        None
    }
}

/// Decodes a boolean from its lower-case folding `folded`; `raw` is the text as written.
pub fn bool_from_folded(folded: &Vec<char>, raw: String) -> (r: Result<bool, WifError>)
    ensures
        outcome(r) == match bool_of_folded(folded@) {
            Some(b) => Ok(b),
            None => Err(ErrorModel::ExpectedBool { saw: raw@ }),
        },
{
    if text_is(folded, "true") || text_is(folded, "on") || text_is(folded, "yes") || text_is(
        folded,
        "1",
    ) {
        Ok(true)
    } else if text_is(folded, "false") || text_is(folded, "off") || text_is(folded, "no")
        || text_is(folded, "0") {
        Ok(false)
    } else {
        Err(WifError::ExpectedBool { saw: raw })
    }
}

impl WifParse for bool {
    open spec fn decoded(s: Seq<char>) -> Result<bool, ErrorModel> {
        match bool_of_folded(lower_of(s)) {
            Some(b) => Ok(b),
            None => Err(ErrorModel::ExpectedBool { saw: s }),
        }
    }

    open spec fn encoded(v: bool) -> Option<Seq<char>> {
        Some(
            if v {
                "true"@
            } else {
                "false"@
            },
        )
    }

    fn parse(s: String) -> (r: Result<bool, WifError>) {
        let folded = chars_of(lowercase(s.as_str()).as_str());
        bool_from_folded(&folded, s)
    }

    fn unparse(&self) -> (r: Option<String>) {
        if *self {
            Some("true".to_owned())
        } else {
            Some("false".to_owned())
        }
    }
}

impl<T: WifParse> WifParse for (T, T) {
    open spec fn decoded(s: Seq<char>) -> Result<(T::V, T::V), ErrorModel> {
        match first_comma(s) {
            None => Err(ErrorModel::ExpectedPair { saw: s }),
            Some(i) => match T::decoded(s.subrange(0, i)) {
                Err(e) => Err(e),
                Ok(a) => match T::decoded(s.subrange(i + 1, s.len() as int)) {
                    Err(e) => Err(e),
                    Ok(b) => Ok((a, b)),
                },
            },
        }
    }

    open spec fn encoded(v: (T::V, T::V)) -> Option<Seq<char>> {
        match (T::encoded(v.0), T::encoded(v.1)) {
            (Some(a), Some(b)) => Some(a + seq![','] + b),
            _ => None,
        }
    }

    fn parse(s: String) -> (r: Result<(T, T), WifError>) {
        let v = chars_of(s.as_str());
        match split_first_comma(&v) {
            None => Err(WifError::ExpectedPair { saw: s }),
            Some((a, b)) => {
                let x = T::parse(string_of(&a))?;
                let y = T::parse(string_of(&b))?;
                Ok((x, y))
            },
        }
    }

    fn unparse(&self) -> (r: Option<String>) {
        match (self.0.unparse(), self.1.unparse()) {
            (Some(a), Some(b)) => {
                let mut out = chars_of(a.as_str());
                out.push(',');
                append_chars(&mut out, &chars_of(b.as_str()));
                Some(string_of(&out))
            },
            _ => None,
        }
    }
}

/// Every number reads back as itself from the text it is written as.
pub proof fn lemma_number_round_trip(v: u32)
    ensures
        <u32 as WifParse>::encoded(v) == Some(decimal_text(v as nat)),
        <u32 as WifParse>::decoded(decimal_text(v as nat)) == Ok::<u32, ErrorModel>(v),
{
    lemma_decimal_round_trip(v as nat, u32::MAX as nat);
}

impl View for Shaft {
    type V = Shaft;

    open spec fn view(&self) -> Shaft {
        *self
    }
}

impl WifParse for Shaft {
    open spec fn decoded(s: Seq<char>) -> Result<Shaft, ErrorModel> {
        match decoded_unsigned(s, u32::MAX as nat) {
            Ok(n) => Ok(Shaft(n as u32)),
            Err(e) => Err(e),
        }
    }

    open spec fn encoded(v: Shaft) -> Option<Seq<char>> {
        Some(decimal_text(v.0 as nat))
    }

    fn parse(s: String) -> (r: Result<Shaft, WifError>) {
        let n = u32::parse(s)?;
        Ok(Shaft(n))
    }

    fn unparse(&self) -> (r: Option<String>) {
        self.0.unparse()
    }
}

impl View for Treadle {
    type V = Treadle;

    open spec fn view(&self) -> Treadle {
        *self
    }
}

impl WifParse for Treadle {
    open spec fn decoded(s: Seq<char>) -> Result<Treadle, ErrorModel> {
        match decoded_unsigned(s, u32::MAX as nat) {
            Ok(n) => Ok(Treadle(n as u32)),
            Err(e) => Err(e),
        }
    }

    open spec fn encoded(v: Treadle) -> Option<Seq<char>> {
        Some(decimal_text(v.0 as nat))
    }

    fn parse(s: String) -> (r: Result<Treadle, WifError>) {
        let n = u32::parse(s)?;
        Ok(Treadle(n))
    }

    fn unparse(&self) -> (r: Option<String>) {
        self.0.unparse()
    }
}

impl View for Warp {
    type V = Warp;

    open spec fn view(&self) -> Warp {
        *self
    }
}

impl WifParse for Warp {
    open spec fn decoded(s: Seq<char>) -> Result<Warp, ErrorModel> {
        match decoded_unsigned(s, u32::MAX as nat) {
            Ok(n) => Ok(Warp(n as u32)),
            Err(e) => Err(e),
        }
    }

    open spec fn encoded(v: Warp) -> Option<Seq<char>> {
        Some(decimal_text(v.0 as nat))
    }

    fn parse(s: String) -> (r: Result<Warp, WifError>) {
        let n = u32::parse(s)?;
        Ok(Warp(n))
    }

    fn unparse(&self) -> (r: Option<String>) {
        self.0.unparse()
    }
}

impl View for Weft {
    type V = Weft;

    open spec fn view(&self) -> Weft {
        *self
    }
}

impl WifParse for Weft {
    open spec fn decoded(s: Seq<char>) -> Result<Weft, ErrorModel> {
        match decoded_unsigned(s, u32::MAX as nat) {
            Ok(n) => Ok(Weft(n as u32)),
            Err(e) => Err(e),
        }
    }

    open spec fn encoded(v: Weft) -> Option<Seq<char>> {
        Some(decimal_text(v.0 as nat))
    }

    fn parse(s: String) -> (r: Result<Weft, WifError>) {
        let n = u32::parse(s)?;
        Ok(Weft(n))
    }

    fn unparse(&self) -> (r: Option<String>) {
        self.0.unparse()
    }
}

/// A colour as three channel values, read against a palette's range.
#[derive(Debug, Clone, Copy, PartialEq, Eq)]
pub struct Color {
    pub red: u32,
    pub green: u32,
    pub blue: u32,
}

impl View for Color {
    type V = Color;

    open spec fn view(&self) -> Color {
        *self
    }
}

/// Each part with the surrounding white space trimmed.
fn trimmed_parts(raw: &Vec<Vec<char>>) -> (r: Vec<Vec<char>>)
    ensures
        texts_of(r@) == texts_of(raw@).map_values(|p: Seq<char>| trim_of(p)),
{
    let mut parts: Vec<Vec<char>> = Vec::new();
    let mut i: usize = 0;
    while i < raw.len()
        invariant
            i <= raw@.len(),
            parts@.len() == i,
            forall|j: int| 0 <= j < i ==> parts@[j]@ == trim_of(raw@[j]@),
        decreases raw@.len() - i,
    {
        let t = trim(string_of(&raw[i]).as_str());
        parts.push(chars_of(t.as_str()));
        i = i + 1;
    }
    assert(texts_of(parts@) =~= texts_of(raw@).map_values(|p: Seq<char>| trim_of(p)));
    parts
}

/// The trimmed parts of a colour's text.
pub open spec fn color_parts(s: Seq<char>) -> Seq<Seq<char>> {
    split_on_commas(s).map_values(|p: Seq<char>| trim_of(p))
}

impl WifParse for Color {
    open spec fn decoded(s: Seq<char>) -> Result<Color, ErrorModel> {
        let parts = color_parts(s);
        match first_bad(parts, u32::MAX as nat) {
            Some(i) => Err(ErrorModel::InvalidNumber { saw: parts[i] }),
            None => if parts.len() != 3 {
                Err(ErrorModel::ColorsMustBeThreeParts)
            } else {
                let v = values_of(parts, u32::MAX as nat);
                Ok(Color { red: v[0] as u32, green: v[1] as u32, blue: v[2] as u32 })
            },
        }
    }

    open spec fn encoded(v: Color) -> Option<Seq<char>> {
        Some(
            decimal_text(v.red as nat) + seq![','] + decimal_text(v.green as nat) + seq![',']
                + decimal_text(v.blue as nat),
        )
    }

    #[verifier::rlimit(40)]
    fn parse(s: String) -> (r: Result<Color, WifError>) {
        let v = chars_of(s.as_str());
        let raw = split_commas(&v);
        let parts = trimmed_parts(&raw);
        let ghost cp = texts_of(parts@);
        assert(cp == color_parts(s@));
        match parse_all(&parts, u32::MAX as u64) {
            Err(i) => {
                assert(cp[i as int] == parts@[i as int]@);
                Err(WifError::InvalidNumber { saw: string_of(&parts[i]) })
            },
            Ok(n) => {
                if n.len() != 3 {
                    Err(WifError::ColorsMustBeThreeParts)
                } else {
                    let ghost vals = values_of(cp, u32::MAX as nat);
                    assert(n@[0] as nat == vals[0] && n@[1] as nat == vals[1] && n@[2] as nat
                        == vals[2]);
                    Ok(Color { red: n[0] as u32, green: n[1] as u32, blue: n[2] as u32 })
                }
            },
        }
    }

    fn unparse(&self) -> (r: Option<String>) {
        let mut out = unsigned_text(self.red as u64);
        out.push(',');
        append_chars(&mut out, &unsigned_text(self.green as u64));
        out.push(',');
        append_chars(&mut out, &unsigned_text(self.blue as u64));
        Some(string_of(&out))
    }
}

} // verus!

verus! {

/// Strictly ascending sequences with the same members are the same sequence.
pub proof fn lemma_increasing_unique(a: Seq<u32>, b: Seq<u32>)
    requires
        increasing(a),
        increasing(b),
        a.to_set() == b.to_set(),
    ensures
        a == b,
    decreases a.len(),
{
    assert forall|x: u32| a.contains(x) == b.contains(x) by {
        assert(a.to_set().contains(x) == a.contains(x));
        assert(b.to_set().contains(x) == b.contains(x));
    }
    if a.len() == 0 {
        if b.len() > 0 {
            assert(b.contains(b[0]));
        }
        assert(a =~= b);
    } else {
        assert(a.contains(a[0]));
        assert(b.len() > 0);
        assert(b.contains(b[0]));
        let j = choose|j: int| 0 <= j < b.len() && b[j] == a[0];
        let k = choose|k: int| 0 <= k < a.len() && a[k] == b[0];
        if j > 0 {
            assert(b[0] < b[j]);
        }
        if k > 0 {
            assert(a[0] < a[k]);
        }
        assert(a[0] == b[0]);
        let a1 = a.drop_first();
        let b1 = b.drop_first();
        assert forall|x: u32| a1.to_set().contains(x) == b1.to_set().contains(x) by {
            assert(a1.to_set().contains(x) == a1.contains(x));
            assert(b1.to_set().contains(x) == b1.contains(x));
            if a1.contains(x) {
                let i = choose|i: int| 0 <= i < a1.len() && a1[i] == x;
                assert(a[i + 1] == x);
                assert(a[0] < a[i + 1]);
                assert(a.contains(x));
                assert(b.contains(x));
                let m = choose|m: int| 0 <= m < b.len() && b[m] == x;
                assert(m != 0);
                assert(b1[m - 1] == x);
            }
            if b1.contains(x) {
                let i = choose|i: int| 0 <= i < b1.len() && b1[i] == x;
                assert(b[i + 1] == x);
                assert(b[0] < b[i + 1]);
                assert(b.contains(x));
                assert(a.contains(x));
                let m = choose|m: int| 0 <= m < a.len() && a[m] == x;
                assert(m != 0);
                assert(a1[m - 1] == x);
            }
        }
        assert(a1.to_set() =~= b1.to_set());
        lemma_increasing_unique(a1, b1);
        assert(a.len() == b.len());
        assert forall|i: int| 0 <= i < a.len() implies a[i] == b[i] by {
            if i > 0 {
                assert(a[i] == a1[i - 1]);
                assert(b[i] == b1[i - 1]);
            }
        }
        assert(a =~= b);
    }
}

/// The members of a set of indices, in ascending order.
pub open spec fn ascending(s: Set<u32>) -> Seq<u32> {
    choose|q: Seq<u32>| increasing(q) && q.to_set() == s
}

proof fn lemma_ascending(q: Seq<u32>)
    requires
        increasing(q),
    ensures
        ascending(q.to_set()) == q,
{
    let c = ascending(q.to_set());
    assert(increasing(c) && c.to_set() == q.to_set());
    lemma_increasing_unique(c, q);
}

/// The numbers that the parts of a list denote.
pub open spec fn value_set(parts: Seq<Seq<char>>) -> Set<u32> {
    Set::new(
        |n: u32|
            exists|i: int|
                0 <= i < parts.len() && values_of(parts, u32::MAX as nat)[i] == n as nat,
    )
}

/// The parts joined with commas between them.
pub open spec fn join_commas(parts: Seq<Seq<char>>) -> Seq<char>
    decreases parts.len(),
{
    if parts.len() == 0 {
        Seq::empty()
    } else if parts.len() == 1 {
        parts[0]
    } else {
        join_commas(parts.drop_last()) + seq![','] + parts.last()
    }
}

pub open spec fn numerals(v: Seq<u32>) -> Seq<Seq<char>> {
    v.map_values(|n: u32| decimal_text(n as nat))
}

impl<K: Id> WifParse for IdSet<K> {
    open spec fn decoded(s: Seq<char>) -> Result<Seq<u32>, ErrorModel> {
        let parts = split_on_commas(s);
        match first_bad(parts, u32::MAX as nat) {
            Some(i) => Err(ErrorModel::InvalidNumber { saw: parts[i] }),
            None => Ok(ascending(value_set(parts))),
        }
    }

    open spec fn encoded(v: Seq<u32>) -> Option<Seq<char>> {
        Some(join_commas(numerals(v)))
    }

    fn parse(s: String) -> (r: Result<IdSet<K>, WifError>) {
        let v = chars_of(s.as_str());
        let parts = split_commas(&v);
        let ghost t = texts_of(parts@);
        match parse_all(&parts, u32::MAX as u64) {
            Err(i) => {
                assert(t[i as int] == parts@[i as int]@);
                Err(WifError::InvalidNumber { saw: string_of(&parts[i]) })
            },
            Ok(n) => {
                let mut set: IdSet<K> = IdSet::new();
                let mut i: usize = 0;
                while i < n.len()
                    invariant
                        i <= n@.len(),
                        n@.len() == t.len(),
                        first_bad(t, u32::MAX as nat) is None,
                        set.wf(),
                        forall|j: int|
                            0 <= j < n@.len() ==> n@[j] as nat == values_of(t, u32::MAX as nat)[j],
                        forall|x: u32|
                            set@.to_set().contains(x) <==> exists|j: int|
                                0 <= j < i && values_of(t, u32::MAX as nat)[j] == x as nat,
                    decreases n@.len() - i,
                {
                    assert(n@[i as int] <= u32::MAX) by {
                        if unsigned_value(t[i as int], u32::MAX as nat) is None {
                            assert(exists|j: int|
                                0 <= j < t.len() && unsigned_value(t[j], u32::MAX as nat) is None);
                        }
                        assert(unsigned_value(t[i as int], u32::MAX as nat) is Some);
                    }
                    let k = K::from_index(n[i] as u32);
                    let ghost before = set@.to_set();
                    set.insert(k);
                    assert forall|x: u32|
                        set@.to_set().contains(x) <==> exists|j: int|
                            0 <= j < i + 1 && values_of(t, u32::MAX as nat)[j] == x as nat by {
                        if set@.to_set().contains(x) && x != k.id() {
                            assert(before.contains(x));
                        }
                        if x == k.id() {
                            assert(values_of(t, u32::MAX as nat)[i as int] == x as nat);
                        }
                        if exists|j: int|
                            0 <= j < i + 1 && values_of(t, u32::MAX as nat)[j] == x as nat {
                            let j = choose|j: int|
                                0 <= j < i + 1 && values_of(t, u32::MAX as nat)[j] == x as nat;
                            if j < i {
                                assert(before.contains(x));
                            }
                        }
                    }
                    i = i + 1;
                }
                proof {
                    assert(set@.to_set() =~= value_set(t));
                    lemma_ascending(set@);
                }
                Ok(set)
            },
        }
    }

    fn unparse(&self) -> (r: Option<String>) {
        let mut out: Vec<char> = Vec::new();
        let mut i: usize = 0;
        let ghost nums = numerals(self@);
        while i < self.len()
            invariant
                i <= self@.len(),
                nums == numerals(self@),
                out@ == join_commas(nums.subrange(0, i as int)),
            decreases self@.len() - i,
        {
            let ghost pre = out@;
            if i > 0 {
                out.push(',');
            }
            let k = self.get(i);
            append_chars(&mut out, &unsigned_text(k.index() as u64));
            proof {
                let q = nums.subrange(0, i + 1);
                assert(q.drop_last() =~= nums.subrange(0, i as int));
                if i == 0 {
                    assert(out@ =~= q[0]);
                } else {
                    assert(out@ =~= pre + seq![','] + q.last());
                }
            }
            i = i + 1;
        }
        assert(nums.subrange(0, i as int) =~= nums);
        Some(string_of(&out))
    }
}

proof fn lemma_split_plain(a: Seq<char>)
    requires
        !a.contains(','),
    ensures
        split_on_commas(a) == seq![a],
    decreases a.len(),
{
    if a.len() > 0 {
        let p = a.drop_last();
        assert forall|i: int| 0 <= i < p.len() implies p[i] != ',' by {
            assert(a[i] == p[i]);
        }
        lemma_split_plain(p);
        assert(a.last() != ',') by {
            assert(a[a.len() - 1] == a.last());
        }
        assert(p.push(a.last()) =~= a);
        assert(seq![p].update(0, p.push(a.last())) =~= seq![a]);
    } else {
        assert(a =~= Seq::<char>::empty());
    }
}

proof fn lemma_split_after_comma(a: Seq<char>, b: Seq<char>)
    requires
        !b.contains(','),
    ensures
        split_on_commas(a + seq![','] + b) == split_on_commas(a).push(b),
    decreases b.len(),
{
    if b.len() == 0 {
        assert(b =~= Seq::<char>::empty());
        assert(a + seq![','] + b =~= a.push(','));
        assert((a + seq![','] + b).drop_last() =~= a);
        assert((a + seq![','] + b).last() == ',');
    } else {
        let p = b.drop_last();
        assert forall|i: int| 0 <= i < p.len() implies p[i] != ',' by {
            assert(b[i] == p[i]);
        }
        lemma_split_after_comma(a, p);
        let whole = a + seq![','] + b;
        assert(whole.drop_last() =~= a + seq![','] + p);
        assert(whole.last() == b.last());
        assert(b.last() != ',') by {
            assert(b[b.len() - 1] == b.last());
        }
        assert(p.push(b.last()) =~= b);
        assert(split_on_commas(a).push(p).update(split_on_commas(a).len() as int, p.push(b.last()))
            =~= split_on_commas(a).push(b));
    }
}

proof fn lemma_split_join(parts: Seq<Seq<char>>)
    requires
        parts.len() >= 1,
        forall|i: int| 0 <= i < parts.len() ==> !(#[trigger] parts[i]).contains(','),
    ensures
        split_on_commas(join_commas(parts)) == parts,
    decreases parts.len(),
{
    if parts.len() == 1 {
        lemma_split_plain(parts[0]);
        assert(seq![parts[0]] =~= parts);
    } else {
        let p = parts.drop_last();
        assert forall|i: int| 0 <= i < p.len() implies !(#[trigger] p[i]).contains(',') by {
            assert(p[i] == parts[i]);
        }
        lemma_split_join(p);
        assert(!parts[parts.len() - 1].contains(','));
        lemma_split_after_comma(join_commas(p), parts.last());
        assert(p.push(parts.last()) =~= parts);
    }
}

/// A non-empty set of indices reads back as itself from the text it is written as.
pub proof fn lemma_id_set_round_trip(v: Seq<u32>)
    requires
        increasing(v),
        v.len() > 0,
    ensures
        join_commas(numerals(v)) == <IdSet<Shaft> as WifParse>::encoded(v).unwrap(),
        <IdSet<Shaft> as WifParse>::decoded(join_commas(numerals(v))) == Ok::<Seq<u32>, ErrorModel>(v),
{
    let parts = numerals(v);
    assert forall|i: int| 0 <= i < parts.len() implies !(#[trigger] parts[i]).contains(',') by {
        crate::text::lemma_decimal_round_trip(v[i] as nat, u32::MAX as nat);
        if parts[i].contains(',') {
            let j = choose|j: int| 0 <= j < parts[i].len() && parts[i][j] == ',';
            crate::text::lemma_decimal_text_digits(v[i] as nat);
            assert(parts[i] == decimal_text(v[i] as nat));
            assert(crate::text::all_digits(parts[i]));
            assert(crate::text::is_digit(parts[i][j]));
        }
    }
    lemma_split_join(parts);
    assert forall|i: int| 0 <= i < parts.len() implies unsigned_value(parts[i], u32::MAX as nat)
        == Some(v[i] as nat) by {
        crate::text::lemma_decimal_round_trip(v[i] as nat, u32::MAX as nat);
    }
    assert(!exists|i: int| 0 <= i < parts.len() && unsigned_value(parts[i], u32::MAX as nat) is None);
    assert forall|x: u32| value_set(parts).contains(x) == v.to_set().contains(x) by {
        assert(v.to_set().contains(x) == v.contains(x));
        if v.contains(x) {
            let i = choose|i: int| 0 <= i < v.len() && v[i] == x;
            assert(values_of(parts, u32::MAX as nat)[i] == x as nat);
        }
        if value_set(parts).contains(x) {
            let i = choose|i: int|
                0 <= i < parts.len() && values_of(parts, u32::MAX as nat)[i] == x as nat;
            assert(v[i] == x);
        }
    }
    assert(value_set(parts) =~= v.to_set());
    lemma_ascending(v);
}

} // verus!
