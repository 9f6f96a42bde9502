use vstd::prelude::*;

use crate::document::{parse_ini, parse_outcome, sections_of, Wif};
use crate::error::WifError;
use crate::ini::{distinct_names, doc_map, EntryModel, IniDoc, IniEntry, IniSection, SectionModel};

verus! {

/// The sections, keys and values that configparser reads from a text, names
/// folded to lower case; none for a text that it refuses.
pub uninterp spec fn ini_map(text: Seq<char>) -> Map<Seq<char>, Map<Seq<char>, Option<Seq<char>>>>;

/// Relies on configparser's `Ini::new` and `Ini::read`: the sections of a text
/// with their entries, each name once, in no set order. A text that
/// configparser refuses gives no sections.
#[verifier::external_body]
fn read_ini(text: &str) -> (r: IniDoc)
    ensures
        doc_map(r@) == ini_map(text@),
        distinct_names(r@),
{
    let mut ini = configparser::ini::Ini::new();
    let map = ini.read(text.to_string()).unwrap_or_default();
    let sections = map.into_iter().map(
        |(name, m)| IniSection {
            name,
            entries: m.into_iter().map(|(key, value)| IniEntry { key, value }).collect(),
        },
    ).collect();
    IniDoc { sections }
}

/// The end of a line as configparser writes it on one platform or another.
pub open spec fn is_line_ending(le: Seq<char>) -> bool {
    le == "\n"@ || le == "\r\n"@
}

/// The parts one after another.
pub open spec fn concat(parts: Seq<Seq<char>>) -> Seq<char>
    decreases parts.len(),
{
    if parts.len() == 0 {
        Seq::empty()
    } else {
        concat(parts.drop_last()) + parts.last()
    }
}

/// An entry's line: `key=value`, or the key alone when it has no value.
pub open spec fn entry_text(e: EntryModel, le: Seq<char>) -> Seq<char> {
    match e.1 {
        Some(v) => e.0 + seq!['='] + v + le,
        None => e.0 + le,
    }
}

/// A section's header line `[name]` followed by its entries' lines.
pub open spec fn section_text(s: SectionModel, le: Seq<char>) -> Seq<char> {
    seq!['['] + s.0 + seq![']'] + le + concat(s.1.map_values(|e: EntryModel| entry_text(e, le)))
}

/// The sections that hold at least one entry.
pub open spec fn nonempty_sections(doc: Seq<SectionModel>) -> Seq<SectionModel> {
    doc.filter(|s: SectionModel| s.1.len() > 0)
}

/// `w` holds the sections of `doc`, each with its entries, both in any order.
pub open spec fn reordered(w: Seq<SectionModel>, doc: Seq<SectionModel>) -> bool {
    &&& w.map_values(|s: SectionModel| s.0).to_multiset() == doc.map_values(
        |s: SectionModel| s.0,
    ).to_multiset()
    &&& forall|i: int|
        0 <= i < w.len() ==> exists|j: int|
            0 <= j < doc.len() && doc[j].0 == (#[trigger] w[i]).0 && w[i].1.to_multiset()
                == doc[j].1.to_multiset()
}

/// The sections laid out one after another.
pub open spec fn layout(w: Seq<SectionModel>, le: Seq<char>) -> Seq<char> {
    concat(w.map_values(|s: SectionModel| section_text(s, le)))
}

/// `out` is the text of the sections that hold entries, in some order, each
/// with its entries in some order.
pub open spec fn written_as(doc: Seq<SectionModel>, out: Seq<char>) -> bool {
    exists|le: Seq<char>|
        #[trigger] is_line_ending(le) && exists|w: Seq<SectionModel>|
            #[trigger] reordered(w, nonempty_sections(doc)) && out == layout(w, le)
}

/// Sections that configparser writes as given: distinct names and keys, and
/// no section under its default name.
pub open spec fn writable(doc: Seq<SectionModel>) -> bool {
    distinct_names(doc) && forall|i: int| 0 <= i < doc.len() ==> (#[trigger] doc[i]).0 != "default"@
}

/// Relies on configparser's `Ini::new_cs`, `Ini::set` and `Ini::writes`: the
/// text of the sections, names kept as given. A section without entries is
/// never created, and the map's order decides the order of sections and keys.
#[verifier::external_body]
fn ini_text(doc: &IniDoc) -> (r: String)
    ensures
        writable(doc@) ==> written_as(doc@, r@),
{
    let mut ini = configparser::ini::Ini::new_cs();
    for s in doc.sections.iter() {
        for e in s.entries.iter() {
            ini.set(&s.name, &e.key, e.value.clone());
        }
    }
    ini.writes()
}

/// Decodes a document from its text.
pub fn parse(s: &str) -> (r: Result<Wif, WifError>)
    ensures
        exists|doc: Seq<SectionModel>|
            distinct_names(doc) && doc_map(doc) == ini_map(s@) && parse_outcome(doc, r),
{
    let doc = read_ini(s);
    parse_ini(&doc)
}

impl Wif {
    /// The text of the document.
    pub fn to_text(&self) -> (r: String)
        ensures
            writable(sections_of(*self)) ==> written_as(sections_of(*self), r@),
    {
        ini_text(&self.to_ini())
    }
}

} // verus!
