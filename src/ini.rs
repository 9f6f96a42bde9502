use vstd::prelude::*;

use crate::codec::WifParse;
use crate::collections::{has_key, lookup, Table};
use crate::error::{outcome, ErrorModel, WifError};
use crate::ids::Id;
use crate::text::{chars_of, decimal_text, lower_of, lowercase, parse_unsigned, unsigned_text, string_of, unsigned_value};

verus! {

/// One `key = value` line; a key written without `=` has no value.
#[derive(Debug, Clone)]
pub struct IniEntry {
    pub key: String,
    pub value: Option<String>,
}

/// One bracketed section and its entries.
#[derive(Debug, Clone)]
pub struct IniSection {
    pub name: String,
    pub entries: Vec<IniEntry>,
}

/// A document as sections of keyed, optional values.
#[derive(Debug, Clone)]
pub struct IniDoc {
    pub sections: Vec<IniSection>,
}

pub type EntryModel = (Seq<char>, Option<Seq<char>>);

pub type SectionModel = (Seq<char>, Seq<EntryModel>);

impl View for IniEntry {
    type V = EntryModel;

    open spec fn view(&self) -> EntryModel {
        (self.key@, crate::codec::opt_text(self.value))
    }
}

impl View for IniSection {
    type V = SectionModel;

    open spec fn view(&self) -> SectionModel {
        (self.name@, self.entries@.map_values(|e: IniEntry| e@))
    }
}

impl View for IniDoc {
    type V = Seq<SectionModel>;

    open spec fn view(&self) -> Seq<SectionModel> {
        self.sections@.map_values(|s: IniSection| s@)
    }
}

/// The entries of the first section named `name`.
pub open spec fn section_in(secs: Seq<SectionModel>, name: Seq<char>) -> Option<Seq<EntryModel>>
    decreases secs.len(),
{
    if secs.len() == 0 {
        None
    } else if secs[0].0 == name {
        Some(secs[0].1)
    } else {
        section_in(secs.drop_first(), name)
    }
}

/// The value of the first entry keyed `key`, if it has one.
pub open spec fn value_in(entries: Seq<EntryModel>, key: Seq<char>) -> Option<Seq<char>>
    decreases entries.len(),
{
    if entries.len() == 0 {
        None
    } else if entries[0].0 == key {
        entries[0].1
    } else {
        value_in(entries.drop_first(), key)
    }
}

/// The entry keyed `key` that comes first, with its value.
pub open spec fn entry_in(entries: Seq<EntryModel>, key: Seq<char>) -> Option<Option<Seq<char>>>
    decreases entries.len(),
{
    if entries.len() == 0 {
        None
    } else if entries[0].0 == key {
        Some(entries[0].1)
    } else {
        entry_in(entries.drop_first(), key)
    }
}

/// No two sections share a name, and no two entries of a section share a key.
pub open spec fn distinct_names(doc: Seq<SectionModel>) -> bool {
    &&& forall|i: int, j: int| 0 <= i < j < doc.len() ==> doc[i].0 != doc[j].0
    &&& forall|s: int, i: int, j: int|
        0 <= s < doc.len() && 0 <= i < j < doc[s].1.len() ==> doc[s].1[i].0 != doc[s].1[j].0
}

/// The sections as a map from name to the map from key to value.
pub open spec fn doc_map(doc: Seq<SectionModel>) -> Map<
    Seq<char>,
    Map<Seq<char>, Option<Seq<char>>>,
> {
    Map::new(
        |n: Seq<char>| section_in(doc, n) is Some,
        |n: Seq<char>|
            Map::new(
                |k: Seq<char>| entry_in(section_in(doc, n).unwrap(), k) is Some,
                |k: Seq<char>| entry_in(section_in(doc, n).unwrap(), k).unwrap(),
            ),
    )
}

/// What a lookup of `field` in `section` gives; names match once folded to lower case.
pub open spec fn get_value(doc: Seq<SectionModel>, section: Seq<char>, field: Seq<char>) -> Option<
    Seq<char>,
> {
    match section_in(doc, lower_of(section)) {
        Some(entries) => value_in(entries, lower_of(field)),
        None => None,
    }
}

fn find_section<'a>(doc: &'a IniDoc, name: &Vec<char>) -> (r: Option<&'a IniSection>)
    ensures
        match section_in(doc@, name@) {
            Some(e) => r matches Some(s) && s@.1 == e,
            None => r is None,
        },
{
    let mut i: usize = 0;
    assert(doc@.subrange(0, doc@.len() as int) =~= doc@);
    while i < doc.sections.len()
        invariant
            i <= doc.sections@.len(),
            section_in(doc@, name@) == section_in(doc@.subrange(i as int, doc@.len() as int), name@),
        decreases doc.sections@.len() - i,
    {
        let ghost rest = doc@.subrange(i as int, doc@.len() as int);
        assert(rest.drop_first() =~= doc@.subrange(i + 1, doc@.len() as int));
        assert(rest[0] == doc.sections@[i as int]@);
        if crate::split::text_is(name, doc.sections[i].name.as_str()) {
            return Some(&doc.sections[i]);
        }
        i = i + 1;
    }
    None
}

fn find_value(sec: &IniSection, key: &Vec<char>) -> (r: Option<String>)
    ensures
        crate::codec::opt_text(r) == value_in(sec@.1, key@),
{
    let mut i: usize = 0;
    assert(sec@.1.subrange(0, sec@.1.len() as int) =~= sec@.1);
    while i < sec.entries.len()
        invariant
            i <= sec.entries@.len(),
            value_in(sec@.1, key@) == value_in(sec@.1.subrange(i as int, sec@.1.len() as int), key@),
        decreases sec.entries@.len() - i,
    {
        let ghost rest = sec@.1.subrange(i as int, sec@.1.len() as int);
        assert(rest.drop_first() =~= sec@.1.subrange(i + 1, sec@.1.len() as int));
        assert(rest[0] == sec.entries@[i as int]@);
        if crate::split::text_is(key, sec.entries[i].key.as_str()) {
            return sec.entries[i].value.clone();
        }
        i = i + 1;
    }
    None
}

impl IniDoc {
    /// The value of `field` in `section`, names matched without regard to case.
    pub fn get(&self, section: &str, field: &str) -> (r: Option<String>)
        ensures
            crate::codec::opt_text(r) == get_value(self@, section@, field@),
    {
        let name = chars_of(lowercase(section).as_str());
        match find_section(self, &name) {
            None => None,
            Some(sec) => {
                let key = chars_of(lowercase(field).as_str());
                find_value(sec, &key)
            },
        }
    }
}

/// What reading an optional field gives.
pub open spec fn optional_field<T: WifParse>(
    doc: Seq<SectionModel>,
    section: Seq<char>,
    field: Seq<char>,
) -> Result<Option<T::V>, ErrorModel> {
    match get_value(doc, section, field) {
        None => Ok(None),
        Some(v) => match T::decoded(v) {
            Ok(x) => Ok(Some(x)),
            Err(e) => Err(ErrorModel::FieldParseError { section, field, err: Box::new(e) }),
        },
    }
}

/// What reading a required field gives.
pub open spec fn required_field<T: WifParse>(
    doc: Seq<SectionModel>,
    section: Seq<char>,
    field: Seq<char>,
) -> Result<T::V, ErrorModel> {
    match optional_field::<T>(doc, section, field) {
        Err(e) => Err(e),
        Ok(Some(x)) => Ok(x),
        Ok(None) => Err(ErrorModel::MissingRequiredField { section, field }),
    }
}

pub open spec fn opt_model<T: View>(o: Option<T>) -> Option<T::V> {
    match o {
        Some(x) => Some(x@),
        None => None,
    }
}

/// Reads an optional field of a section.
pub fn get_field<T: WifParse>(doc: &IniDoc, section: &str, field: &str) -> (r: Result<
    Option<T>,
    WifError,
>)
    ensures
        match r {
            Ok(o) => optional_field::<T>(doc@, section@, field@) == Ok::<_, ErrorModel>(opt_model(o)),
            Err(e) => optional_field::<T>(doc@, section@, field@) == Err::<Option<T::V>, _>(e@),
        },
{
    match doc.get(section, field) {
        None => Ok(None),
        Some(v) => match T::parse(v) {
            Ok(x) => Ok(Some(x)),
            Err(e) => Err(e.in_field(section, field)),
        },
    }
}

/// Reads a required field of a section.
pub fn get_required_field<T: WifParse>(doc: &IniDoc, section: &str, field: &str) -> (r: Result<
    T,
    WifError,
>)
    ensures
        outcome(r) == required_field::<T>(doc@, section@, field@),
{
    match get_field::<T>(doc, section, field)? {
        Some(x) => Ok(x),
        None => Err(
            WifError::MissingRequiredField { section: section.to_owned(), field: field.to_owned() },
        ),
    }
}

/// Whether the presence flags list `section`: absent counts as no.
pub open spec fn listed(doc: Seq<SectionModel>, section: Seq<char>) -> Result<bool, ErrorModel> {
    match optional_field::<bool>(doc, "CONTENTS"@, section) {
        Err(e) => Err(e),
        Ok(o) => Ok(o == Some(true)),
    }
}

/// Whether the presence flags list `section`.
pub fn has_section(doc: &IniDoc, section: &str) -> (r: Result<bool, WifError>)
    ensures
        outcome(r) == listed(doc@, section@),
{
    proof {
        reveal_strlit("CONTENTS");
    }
    match get_field::<bool>(doc, "CONTENTS", section)? {
        Some(b) => Ok(b),
        None => Ok(false),
    }
}

/// The map that a table's entries give.
pub open spec fn map_of<W>(s: Seq<(u32, W)>) -> Map<u32, W> {
    Map::new(|k: u32| has_key(s, k), |k: u32| lookup(s, k).unwrap())
}

/// What reading the entries of a table section gives: each entry with a value
/// in turn, a later key replacing an earlier one.
pub open spec fn table_entries<V: WifParse>(entries: Seq<EntryModel>, section: Seq<char>) -> Result<
    Map<u32, V::V>,
    ErrorModel,
>
    decreases entries.len(),
{
    if entries.len() == 0 {
        Ok(Map::empty())
    } else {
        match table_entries::<V>(entries.drop_last(), section) {
            Err(e) => Err(e),
            Ok(m) => {
                let (k, v) = entries.last();
                match v {
                    None => Ok(m),
                    Some(t) => match unsigned_value(k, u32::MAX as nat) {
                        None => Err(ErrorModel::CouldNotParseTableKey { section, key: k }),
                        Some(n) => match V::decoded(t) {
                            Err(e) => Err(
                                ErrorModel::FieldParseError { section, field: k, err: Box::new(e) },
                            ),
                            Ok(x) => Ok(m.insert(n as u32, x)),
                        },
                    },
                }
            },
        }
    }
}

proof fn lemma_table_error_stays<V: WifParse>(entries: Seq<EntryModel>, section: Seq<char>, j: int)
    requires
        0 <= j <= entries.len(),
        table_entries::<V>(entries.subrange(0, j), section) is Err,
    ensures
        table_entries::<V>(entries, section) == table_entries::<V>(entries.subrange(0, j), section),
    decreases entries.len() - j,
{
    if j < entries.len() {
        let next = entries.subrange(0, j + 1);
        assert(next.drop_last() =~= entries.subrange(0, j));
        lemma_table_error_stays::<V>(entries, section, j + 1);
    } else {
        assert(entries.subrange(0, j) =~= entries);
    }
}

/// An entry that reads into a table: no value, or an index key with a value that decodes.
pub open spec fn entry_reads<V: WifParse>(e: EntryModel) -> bool {
    e.1 is Some ==> unsigned_value(e.0, u32::MAX as nat) is Some && V::decoded(e.1.unwrap()) is Ok
}

proof fn lemma_good_prefix<V: WifParse>(entries: Seq<EntryModel>, section: Seq<char>, n: int)
    requires
        0 <= n <= entries.len(),
        forall|i: int| 0 <= i < n ==> entry_reads::<V>(#[trigger] entries[i]),
    ensures
        table_entries::<V>(entries.subrange(0, n), section) is Ok,
    decreases n,
{
    if n > 0 {
        lemma_good_prefix::<V>(entries, section, n - 1);
        assert(entries.subrange(0, n).drop_last() =~= entries.subrange(0, n - 1));
        assert(entries.subrange(0, n).last() == entries[n - 1]);
        assert(entry_reads::<V>(entries[n - 1]));
    }
}

/// A table section whose one valued entry with a key that is no index stands
/// among entries that all read fails with the key error naming that key and
/// the section, and names no other entry.
pub proof fn lemma_bad_key_reported<V: WifParse>(entries: Seq<EntryModel>, section: Seq<char>, b: int)
    requires
        0 <= b < entries.len(),
        entries[b].1 is Some,
        unsigned_value(entries[b].0, u32::MAX as nat) is None,
        forall|i: int| 0 <= i < entries.len() && i != b ==> entry_reads::<V>(#[trigger] entries[i]),
    ensures
        table_entries::<V>(entries, section) == Err::<Map<u32, V::V>, _>(
            ErrorModel::CouldNotParseTableKey { section, key: entries[b].0 },
        ),
{
    lemma_good_prefix::<V>(entries, section, b);
    let next = entries.subrange(0, b + 1);
    assert(next.drop_last() =~= entries.subrange(0, b));
    assert(next.last() == entries[b]);
    lemma_table_error_stays::<V>(entries, section, b + 1);
}

/// What reading a table section gives.
pub open spec fn table_section<V: WifParse>(doc: Seq<SectionModel>, section: Seq<char>) -> Result<
    Map<u32, V::V>,
    ErrorModel,
> {
    match section_in(doc, lower_of(section)) {
        None => Err(ErrorModel::MissingSection { section }),
        Some(entries) => table_entries::<V>(entries, section),
    }
}

/// Reads a section of `index = value` entries into a table.
pub fn parse_table<K: Id, V: WifParse>(doc: &IniDoc, section: &str) -> (r: Result<
    Table<K, V>,
    WifError,
>)
    ensures
        match r {
            Ok(t) => t.wf() && table_section::<V>(doc@, section@) == Ok::<_, ErrorModel>(map_of(t@)),
            Err(e) => table_section::<V>(doc@, section@) == Err::<Map<u32, V::V>, _>(e@),
        },
{
    let name = chars_of(lowercase(section).as_str());
    let sec = match find_section(doc, &name) {
        None => {
            return Err(WifError::MissingSection { section: section.to_owned() });
        },
        Some(s) => s,
    };
    let ghost entries = sec@.1;
    let mut table: Table<K, V> = Table::new();
    let mut i: usize = 0;
    assert(map_of(table@) =~= Map::<u32, V::V>::empty());
    assert(entries.subrange(0, 0) =~= Seq::<EntryModel>::empty());
    while i < sec.entries.len()
        invariant
            i <= sec.entries@.len(),
            entries == sec@.1,
            section_in(doc@, lower_of(section@)) == Some(entries),
            table.wf(),
            table_entries::<V>(entries.subrange(0, i as int), section@) == Ok::<_, ErrorModel>(
                map_of(table@),
            ),
        decreases sec.entries@.len() - i,
    {
        let ghost pre = entries.subrange(0, i as int);
        let ghost post = entries.subrange(0, i + 1);
        assert(post.drop_last() =~= pre);
        assert(post.last() == sec.entries@[i as int]@);
        let entry = &sec.entries[i];
        match &entry.value {
            None => {},
            Some(text) => {
                let key = chars_of(entry.key.as_str());
                let n = match parse_unsigned(&key, u32::MAX as u64) {
                    None => {
                        proof {
                            assert(post.last() == (entry.key@, Some(text@)));
                            assert(table_entries::<V>(post, section@) == Err::<Map<u32, V::V>, _>(
                                ErrorModel::CouldNotParseTableKey { section: section@, key: entry.key@ },
                            ));
                            lemma_table_error_stays::<V>(entries, section@, i + 1);
                        }
                        return Err(
                            WifError::CouldNotParseTableKey {
                                section: section.to_owned(),
                                key: entry.key.clone(),
                            },
                        );
                    },
                    Some(n) => n as u32,
                };
                let v = match V::parse(text.clone()) {
                    Err(e) => {
                        proof {
                            assert(post.last() == (entry.key@, Some(text@)));
                            assert(table_entries::<V>(post, section@) == Err::<Map<u32, V::V>, _>(
                                ErrorModel::FieldParseError { section: section@, field: entry.key@, err: Box::new(e@) },
                            ));
                            lemma_table_error_stays::<V>(entries, section@, i + 1);
                        }
                        return Err(e.in_field(section, entry.key.as_str()));
                    },
                    Ok(v) => v,
                };
                let ghost before = table@;
                let ghost vv = v@;
                let id = K::from_index(n);
                table.insert(id, v);
                proof {
                    assert forall|k: u32| has_key(table@, k) == (k == n || has_key(before, k)) by {
                        if k != n {
                            assert(lookup(table@, k) == lookup(before, k));
                        } else {
                            assert(lookup(table@, n) == Some(vv));
                        }
                    }
                    assert forall|k: u32| #[trigger] has_key(table@, k) implies lookup(table@, k).unwrap()
                        == map_of(before).insert(n, vv)[k] by {
                        if k != n {
                            assert(lookup(table@, k) == lookup(before, k));
                        }
                    }
                }
                assert(map_of(table@) =~= map_of(before).insert(n, vv));
            },
        }
        i = i + 1;
    }
    assert(entries.subrange(0, i as int) =~= entries);
    Ok(table)
}

/// The entries that writing a table gives: each key's numeral with its value's
/// text, in ascending key order, leaving out values that are not written.
pub open spec fn table_lines<V: WifParse>(t: Seq<(u32, V::V)>) -> Seq<EntryModel>
    decreases t.len(),
{
    if t.len() == 0 {
        Seq::empty()
    } else {
        let prev = table_lines::<V>(t.drop_last());
        match V::encoded(t.last().1) {
            Some(x) => prev.push((decimal_text(t.last().0 as nat), Some(x))),
            None => prev,
        }
    }
}

/// Reading back the entries that writing a table gives yields the table,
/// when each of its values reads back from its text.
pub proof fn lemma_table_round_trip<V: WifParse>(t: Seq<(u32, V::V)>, section: Seq<char>)
    requires
        crate::collections::increasing(crate::collections::keys_of(t)),
        forall|i: int|
            0 <= i < t.len() ==> (V::encoded(#[trigger] t[i].1) matches Some(x) && V::decoded(x)
                == Ok::<V::V, ErrorModel>(t[i].1)),
    ensures
        table_entries::<V>(table_lines::<V>(t), section) == Ok::<_, ErrorModel>(map_of(t)),
    decreases t.len(),
{
    if t.len() == 0 {
        assert(map_of(t) =~= Map::<u32, V::V>::empty());
    } else {
        let p = t.drop_last();
        let (k, v) = t.last();
        assert(crate::collections::keys_of(p) =~= crate::collections::keys_of(t).drop_last());
        assert forall|i: int| 0 <= i < p.len() implies (V::encoded(#[trigger] p[i].1) matches Some(
            x,
        ) && V::decoded(x) == Ok::<V::V, ErrorModel>(p[i].1)) by {
            assert(p[i] == t[i]);
        }
        lemma_table_round_trip::<V>(p, section);
        assert(t[t.len() - 1].1 == v);
        let x = V::encoded(v).unwrap();
        let lines = table_lines::<V>(t);
        assert(lines.drop_last() =~= table_lines::<V>(p));
        crate::text::lemma_decimal_round_trip(k as nat, u32::MAX as nat);
        assert(lines.last() == (decimal_text(k as nat), Some(x)));
        assert forall|j: u32| has_key(t, j) == (has_key(p, j) || j == k) by {
            if has_key(t, j) {
                let i = crate::collections::key_position(t, j);
                if i < t.len() - 1 {
                    assert(p[i].0 == j);
                }
            }
            if has_key(p, j) {
                let i = crate::collections::key_position(p, j);
                assert(t[i].0 == j);
            }
            if j == k {
                assert(t[t.len() - 1].0 == j);
            }
        }
        assert forall|j: u32| #[trigger] has_key(t, j) implies lookup(t, j).unwrap() == map_of(
            p,
        ).insert(k, v)[j] by {
            if j == k {
                crate::collections::lemma_lookup_at(t, t.len() - 1);
            } else {
                let i = crate::collections::key_position(t, j);
                crate::collections::lemma_lookup_at(t, i);
                assert(i < t.len() - 1);
                assert(p[i] == t[i]);
                assert(crate::collections::keys_of(p)[i] == j);
                crate::collections::lemma_lookup_at(p, i);
            }
        }
        assert(map_of(t) =~= map_of(p).insert(k, v));
    }
}

/// Writes a table's entries, in ascending key order.
pub fn write_table<K: Id, V: WifParse>(t: &Table<K, V>) -> (r: Vec<IniEntry>)
    ensures
        r@.map_values(|e: IniEntry| e@) == table_lines::<V>(t@),
{
    let mut out: Vec<IniEntry> = Vec::new();
    let mut i: usize = 0;
    while i < t.len()
        invariant
            i <= t@.len(),
            out@.map_values(|e: IniEntry| e@) == table_lines::<V>(t@.subrange(0, i as int)),
        decreases t@.len() - i,
    {
        let (k, v) = t.entry(i);
        let ghost pre = t@.subrange(0, i as int);
        let ghost post = t@.subrange(0, i + 1);
        assert(post.drop_last() =~= pre);
        match v.unparse() {
            None => {},
            Some(text) => {
                let ghost before = out@.map_values(|e: IniEntry| e@);
                let key = string_of(&unsigned_text(k.index() as u64));
                out.push(IniEntry { key, value: Some(text) });
                assert(out@.map_values(|e: IniEntry| e@) =~= before.push(
                    (decimal_text(post.last().0 as nat), Some(V::encoded(post.last().1).unwrap())),
                ));
            },
        }
        i = i + 1;
    }
    assert(t@.subrange(0, i as int) =~= t@);
    out
}

/// Writes one field when its value is written at all.
pub fn put_field<T: WifParse>(out: &mut Vec<IniEntry>, field: &str, value: &T)
    ensures
        final(out)@.map_values(|e: IniEntry| e@) == match T::encoded(value@) {
            Some(x) => old(out)@.map_values(|e: IniEntry| e@).push((field@, Some(x))),
            None => old(out)@.map_values(|e: IniEntry| e@),
        },
{
    let ghost before = out@.map_values(|e: IniEntry| e@);
    match value.unparse() {
        None => {},
        Some(text) => {
            out.push(IniEntry { key: field.to_owned(), value: Some(text) });
            assert(out@.map_values(|e: IniEntry| e@) =~= before.push((field@, Some(T::encoded(value@).unwrap()))));
        },
    }
}

/// Writes an optional field when it is present and written at all.
pub fn put_opt_field<T: WifParse>(out: &mut Vec<IniEntry>, field: &str, value: &Option<T>)
    ensures
        final(out)@.map_values(|e: IniEntry| e@) == match value {
            Some(v) => match T::encoded(v@) {
                Some(x) => old(out)@.map_values(|e: IniEntry| e@).push((field@, Some(x))),
                None => old(out)@.map_values(|e: IniEntry| e@),
            },
            None => old(out)@.map_values(|e: IniEntry| e@),
        },
{
    match value {
        None => {},
        Some(v) => put_field(out, field, v),
    }
}

} // verus!
