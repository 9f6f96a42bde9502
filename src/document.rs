use vstd::prelude::*;

use crate::codec::{Color, WifParse};
use crate::collections::{has_key, lookup, IdSet, Table};
use crate::draft::{
    composes, lemma_composes_unique, liftplan_from_threading_and_treadle, same_plan,
};
use crate::error::{outcome, ErrorModel, WifError};
use crate::ids::{Id, Shaft, Treadle, Warp, Weft};
use crate::ini::{
    section_in, listed, has_section, map_of, opt_model, parse_table, table_lines, table_section, write_table,
    EntryModel, IniDoc, IniEntry, IniSection, SectionModel,
};
use crate::records::{
    entries_of, ColorPalette, Record, Text, WarpS, WarpSymbolPalette, Weaving, WeftS, WifHeader,
};
use crate::text::lower_of;
use crate::values::Measure;

verus! {

/// The entries of an optional table, as a map.
pub open spec fn opt_map<K: Id, V: View>(o: Option<Table<K, V>>) -> Option<Map<u32, V::V>> {
    match o {
        Some(t) => Some(map_of(t@)),
        None => None,
    }
}

pub open spec fn table_wf<K: Id, V: View>(o: Option<Table<K, V>>) -> bool {
    match o {
        Some(t) => t.wf(),
        None => true,
    }
}

/// What reading a table section gives when the presence flags list it, and
/// `None` when they do not.
pub open spec fn listed_table<V: WifParse>(doc: Seq<SectionModel>, name: Seq<char>) -> Result<
    Option<Map<u32, V::V>>,
    ErrorModel,
> {
    match listed(doc, name) {
        Err(e) => Err(e),
        Ok(false) => Ok(None),
        Ok(true) => match table_section::<V>(doc, name) {
            Err(e) => Err(e),
            Ok(m) => Ok(Some(m)),
        },
    }
}

/// A section that the presence flags do not list, or list as false, is not
/// read, whatever lines stand under its name; one listed as present but
/// missing fails as missing.
pub proof fn lemma_presence_gates<V: WifParse, R: Record>(
    doc: Seq<SectionModel>,
    other: Seq<SectionModel>,
    name: Seq<char>,
)
    requires
        listed(doc, name) is Ok,
        listed(other, name) == listed(doc, name),
    ensures
        listed(doc, name) == Ok::<bool, ErrorModel>(false) ==> listed_table::<V>(doc, name)
            == Ok::<_, ErrorModel>(None::<Map<u32, V::V>>) && listed_table::<V>(other, name)
            == listed_table::<V>(doc, name) && listed_record::<R>(doc, name) == Ok::<_, ErrorModel>(
            None::<R::V>,
        ) && listed_record::<R>(other, name) == listed_record::<R>(doc, name),
        listed(doc, name) == Ok::<bool, ErrorModel>(true) && section_in(doc, lower_of(name)) is None
            ==> listed_table::<V>(doc, name) == Err::<Option<Map<u32, V::V>>, _>(
            ErrorModel::MissingSection { section: name },
        ),
{
}

/// Reads a table section when the presence flags list it.
pub fn read_opt_table<K: Id, V: WifParse>(doc: &IniDoc, name: &str) -> (r: Result<
    Option<Table<K, V>>,
    WifError,
>)
    ensures
        match r {
            Ok(o) => table_wf(o) && listed_table::<V>(doc@, name@) == Ok::<_, ErrorModel>(opt_map(o)),
            Err(e) => listed_table::<V>(doc@, name@) == Err::<Option<Map<u32, V::V>>, _>(e@),
        },
{
    if has_section(doc, name)? {
        Ok(Some(parse_table::<K, V>(doc, name)?))
    } else {
        Ok(None)
    }
}

/// What reading a record section gives when the presence flags list it, and
/// `None` when they do not.
pub open spec fn listed_record<R: Record>(doc: Seq<SectionModel>, name: Seq<char>) -> Result<
    Option<R::V>,
    ErrorModel,
> {
    match listed(doc, name) {
        Err(e) => Err(e),
        Ok(false) => Ok(None),
        Ok(true) => match R::read_spec(doc, name) {
            Err(e) => Err(e),
            Ok(v) => Ok(Some(v)),
        },
    }
}

/// Reads a record section when the presence flags list it.
pub fn read_opt_record<R: Record>(doc: &IniDoc, name: &str) -> (r: Result<Option<R>, WifError>)
    ensures
        match r {
            Ok(o) => listed_record::<R>(doc@, name@) == Ok::<_, ErrorModel>(opt_model(o)),
            Err(e) => listed_record::<R>(doc@, name@) == Err::<Option<R::V>, _>(e@),
        },
{
    if has_section(doc, name)? {
        Ok(Some(R::read(doc, name)?))
    } else {
        Ok(None)
    }
}

/// Which thread shows on top where a warp thread crosses a weft row.
#[derive(Debug, Clone, Copy, PartialEq, Eq, Structural)]
pub enum WarpOrWeft {
    Warp,
    Weft,
}

/// The field declarations of a document.
#[derive(Debug)]
pub struct Wif {
    pub wif_header: WifHeader,
    pub color_palette: Option<ColorPalette>,
    pub color_table: Option<Table<u32, Color>>,
    pub warp_symbol_palette: Option<WarpSymbolPalette>,
    pub weft_symbol_palette: Option<WarpSymbolPalette>,
    pub text: Option<Text>,
    pub weaving: Option<Weaving>,
    pub warp: Option<WarpS>,
    pub weft: Option<WeftS>,
    pub notes: Option<Table<u32, String>>,
    pub tieup: Option<Table<Treadle, IdSet<Shaft>>>,
    pub warp_symbol_table: Option<Table<u32, String>>,
    pub weft_symbols_table: Option<Table<u32, String>>,
    pub threading: Option<Table<Warp, IdSet<Shaft>>>,
    pub warp_thickness: Option<Table<Warp, Measure>>,
    pub warp_thickness_zoom: Option<Table<Warp, u32>>,
    pub warp_spacing: Option<Table<Warp, Measure>>,
    pub warp_spacing_zoom: Option<Table<Warp, u32>>,
    pub warp_colors: Option<Table<Warp, u32>>,
    pub warp_symbols: Option<Table<Warp, u32>>,
    pub weft_thickness: Option<Table<Weft, Measure>>,
    pub weft_thickness_zoom: Option<Table<Weft, u32>>,
    pub weft_spacing: Option<Table<Weft, Measure>>,
    pub weft_spacing_zoom: Option<Table<Weft, u32>>,
    pub weft_colors: Option<Table<Weft, u32>>,
    pub weft_symbols: Option<Table<Weft, u32>>,
    pub treadling: Option<Table<Weft, IdSet<Treadle>>>,
    pub liftplan: Option<Table<Weft, IdSet<Shaft>>>,
}


/// The tie-up's entries, none when there is no tie-up.
pub open spec fn tie_seq(o: Option<Table<Treadle, IdSet<Shaft>>>) -> Seq<(u32, Seq<u32>)> {
    match o {
        Some(u) => u@,
        None => Seq::empty(),
    }
}

/// Whether a treadling and a tie-up give a lift plan: only both together do.
pub open spec fn derivable(
    treadling: Option<Table<Weft, IdSet<Treadle>>>,
    tieup: Option<Table<Treadle, IdSet<Shaft>>>,
) -> bool {
    treadling is Some && tieup is Some
}

/// What the lift plan of a document is, given the one it was read with: the
/// one read, filled in from the treadling and tie-up when it was missing.
pub open spec fn liftplan_rule(read: Option<Map<u32, Seq<u32>>>, w: Wif) -> bool {
    if !derivable(w.treadling, w.tieup) {
        opt_map(w.liftplan) == read
    } else if read is None {
        (w.liftplan matches Some(p) && composes(p@, w.treadling.unwrap()@, tie_seq(w.tieup)))
    } else {
        opt_map(w.liftplan) == read && composes(
            w.liftplan.unwrap()@,
            w.treadling.unwrap()@,
            tie_seq(w.tieup),
        )
    }
}

/// The colour with index `idx` in the colour table.
pub open spec fn table_color(w: Wif, idx: u32) -> Option<Color> {
    match w.color_table {
        Some(t) => lookup(t@, idx),
        None => None,
    }
}

/// A thread's colour: its own entry when that names a colour of the table,
/// else the colour of the default `base`.
pub open spec fn thread_color(w: Wif, own: Option<u32>, base: Option<WarpS>) -> Option<Color> {
    match own {
        Some(i) if table_color(w, i) is Some => table_color(w, i),
        _ => match base {
            Some(b) => match b.color {
                Some(c) => table_color(w, c.idx),
                None => None,
            },
            None => None,
        },
    }
}

pub open spec fn own_index<K: Id>(o: Option<Table<K, u32>>, i: u32) -> Option<u32> {
    match o {
        Some(t) => lookup(t@, i),
        None => None,
    }
}

/// A channel value scaled from the range `low..=high` to `0..=255`, truncated.
pub open spec fn scaled(v: u32, low: u32, high: u32) -> u8 {
    if v <= low || high < low {
        0
    } else if high == low {
        255
    } else {
        let x = ((v - low) * 255) / ((high - low) as int);
        if x > 255 {
            255
        } else {
            x as u8
        }
    }
}

/// The channel range of the colour palette, `0..=999` without one.
pub open spec fn color_range(w: Wif) -> (u32, u32) {
    match w.color_palette {
        Some(p) => p.range,
        None => (0, 999),
    }
}

pub open spec fn scaled_color(c: Color, r: (u32, u32)) -> [u8; 3] {
    [scaled(c.red, r.0, r.1), scaled(c.green, r.0, r.1), scaled(c.blue, r.0, r.1)]
}

/// Whether two ascending sets share a member.
pub open spec fn meet(a: Seq<u32>, b: Seq<u32>) -> bool {
    exists|x: u32| a.contains(x) && b.contains(x)
}

/// Scales one channel value.
pub fn scale(v: u32, low: u32, high: u32) -> (r: u8)
    ensures
        r == scaled(v, low, high),
{
    if v <= low || high < low {
        0
    } else if high == low {
        255
    } else {
        let x: u64 = ((v - low) as u64 * 255) / ((high - low) as u64);
        if x > 255 {
            255
        } else {
            x as u8
        }
    }
}

fn shares_member(a: &IdSet<Shaft>, b: &IdSet<Shaft>) -> (r: bool)
    ensures
        r == meet(a@, b@),
{
    let mut i: usize = 0;
    while i < a.len()
        invariant
            i <= a@.len(),
            forall|j: int| 0 <= j < i ==> !b@.contains(a@[j]),
        decreases a@.len() - i,
    {
        let x = a.get(i);
        if b.contains(x.index()) {
            assert(a@.contains(a@[i as int]));
            return true;
        }
        i = i + 1;
    }
    assert forall|x: u32| !(a@.contains(x) && b@.contains(x)) by {
        if a@.contains(x) {
            let j = choose|j: int| 0 <= j < a@.len() && a@[j] == x;
        }
    }
    false
}

impl Wif {
    /// Every table of the document is in ascending key order.
    pub open spec fn wf(&self) -> bool {
        table_wf(self.color_table)
        && table_wf(self.notes)
        && table_wf(self.tieup)
        && table_wf(self.warp_symbol_table)
        && table_wf(self.weft_symbols_table)
        && table_wf(self.threading)
        && table_wf(self.warp_thickness)
        && table_wf(self.warp_thickness_zoom)
        && table_wf(self.warp_spacing)
        && table_wf(self.warp_spacing_zoom)
        && table_wf(self.warp_colors)
        && table_wf(self.warp_symbols)
        && table_wf(self.weft_thickness)
        && table_wf(self.weft_thickness_zoom)
        && table_wf(self.weft_spacing)
        && table_wf(self.weft_spacing_zoom)
        && table_wf(self.weft_colors)
        && table_wf(self.weft_symbols)
        && table_wf(self.treadling)
        && table_wf(self.liftplan)
    }

    /// The same document but for its lift plan.
    pub open spec fn same_but_liftplan(&self, o: &Wif) -> bool {
        self.wif_header == o.wif_header
        && self.color_palette == o.color_palette
        && self.color_table == o.color_table
        && self.warp_symbol_palette == o.warp_symbol_palette
        && self.weft_symbol_palette == o.weft_symbol_palette
        && self.text == o.text
        && self.weaving == o.weaving
        && self.warp == o.warp
        && self.weft == o.weft
        && self.notes == o.notes
        && self.tieup == o.tieup
        && self.warp_symbol_table == o.warp_symbol_table
        && self.weft_symbols_table == o.weft_symbols_table
        && self.threading == o.threading
        && self.warp_thickness == o.warp_thickness
        && self.warp_thickness_zoom == o.warp_thickness_zoom
        && self.warp_spacing == o.warp_spacing
        && self.warp_spacing_zoom == o.warp_spacing_zoom
        && self.warp_colors == o.warp_colors
        && self.warp_symbols == o.warp_symbols
        && self.weft_thickness == o.weft_thickness
        && self.weft_thickness_zoom == o.weft_thickness_zoom
        && self.weft_spacing == o.weft_spacing
        && self.weft_spacing_zoom == o.weft_spacing_zoom
        && self.weft_colors == o.weft_colors
        && self.weft_symbols == o.weft_symbols
        && self.treadling == o.treadling
    }

    /// Fills in a missing lift plan from the treadling and tie-up, or checks
    /// a given one against them.
    pub fn build_or_validate_liftplan(&mut self) -> (r: Result<(), WifError>)
        requires
            old(self).wf(),
        ensures
            final(self).wf(),
            final(self).same_but_liftplan(old(self)),
            !derivable(old(self).treadling, old(self).tieup) ==> r is Ok && final(self).liftplan
                == old(self).liftplan,
            derivable(old(self).treadling, old(self).tieup) && old(self).liftplan is None ==> (r is Ok
                && (final(self).liftplan matches Some(p) && composes(
                p@,
                old(self).treadling.unwrap()@,
                tie_seq(old(self).tieup),
            ))),
            derivable(old(self).treadling, old(self).tieup) && old(self).liftplan is Some
                ==> final(self).liftplan == old(self).liftplan && (r is Ok <==> composes(
                old(self).liftplan.unwrap()@,
                old(self).treadling.unwrap()@,
                tie_seq(old(self).tieup),
            )),
            r matches Err(e) ==> e@ == ErrorModel::LiftPlanDoesNotMatchTreadling,
    {
        let composed = liftplan_from_threading_and_treadle(
            self.treadling.as_ref(),
            self.tieup.as_ref(),
        );
        match composed {
            None => Ok(()),
            Some(plan) => {
                match &self.liftplan {
                    None => {
                        self.liftplan = Some(plan);
                        Ok(())
                    },
                    Some(given) => {
                        if same_plan(&plan, given) {
                            Ok(())
                        } else {
                            proof {
                                if composes(given@, self.treadling.unwrap()@, tie_seq(self.tieup)) {
                                    lemma_composes_unique(
                                        given@,
                                        plan@,
                                        self.treadling.unwrap()@,
                                        tie_seq(self.tieup),
                                    );
                                }
                            }
                            Err(WifError::LiftPlanDoesNotMatchTreadling)
                        }
                    },
                }
            },
        }
    }

    /// The number of shafts, when the loom's geometry is given.
    pub fn shafts(&self) -> (r: Option<u32>)
        ensures
            r == match self.weaving {
                Some(w) => Some(w.shafts),
                None => None::<u32>,
            },
    {
        match &self.weaving {
            Some(w) => Some(w.shafts),
            None => None,
        }
    }

    /// The number of treadles, when the loom's geometry is given.
    pub fn treadles(&self) -> (r: Option<u32>)
        ensures
            r == match self.weaving {
                Some(w) => Some(w.treadles),
                None => None::<u32>,
            },
    {
        match &self.weaving {
            Some(w) => Some(w.treadles),
            None => None,
        }
    }

    /// The number of warp threads, when the warp is described.
    pub fn width(&self) -> (r: Option<u32>)
        ensures
            r == match self.warp {
                Some(w) => Some(w.threads),
                None => None::<u32>,
            },
    {
        match &self.warp {
            Some(w) => Some(w.threads),
            None => None,
        }
    }

    /// The number of weft rows, when the weft is described.
    pub fn height(&self) -> (r: Option<u32>)
        ensures
            r == match self.weft {
                Some(w) => Some(w.threads),
                None => None::<u32>,
            },
    {
        match &self.weft {
            Some(w) => Some(w.threads),
            None => None,
        }
    }

    fn get_ct(&self, idx: u32) -> (r: Option<Color>)
        requires
            self.wf(),
        ensures
            r == table_color(*self, idx),
    {
        match &self.color_table {
            Some(t) => match t.get(idx) {
                Some(c) => Some(*c),
                None => None,
            },
            None => None,
        }
    }

    fn base_color(&self, base: &Option<WarpS>) -> (r: Option<Color>)
        requires
            self.wf(),
        ensures
            r == thread_color(*self, None, *base),
    {
        match base {
            Some(b) => match &b.color {
                Some(c) => self.get_ct(c.idx),
                None => None,
            },
            None => None,
        }
    }

    /// The colour of a warp thread.
    pub fn warp_color(&self, warp: Warp) -> (r: Option<Color>)
        requires
            self.wf(),
        ensures
            r == thread_color(*self, own_index(self.warp_colors, warp.0), self.warp),
    {
        let own = match &self.warp_colors {
            Some(t) => match t.get(warp.index()) {
                Some(i) => Some(*i),
                None => None,
            },
            None => None,
        };
        match own {
            Some(i) => match self.get_ct(i) {
                Some(c) => Some(c),
                None => self.base_color(&self.warp),
            },
            None => self.base_color(&self.warp),
        }
    }

    /// The colour of a weft row.
    pub fn weft_color(&self, weft: Weft) -> (r: Option<Color>)
        requires
            self.wf(),
        ensures
            r == thread_color(*self, own_index(self.weft_colors, weft.0), self.weft),
    {
        let own = match &self.weft_colors {
            Some(t) => match t.get(weft.index()) {
                Some(i) => Some(*i),
                None => None,
            },
            None => None,
        };
        match own {
            Some(i) => match self.get_ct(i) {
                Some(c) => Some(c),
                None => self.base_color(&self.weft),
            },
            None => self.base_color(&self.weft),
        }
    }

    fn range(&self) -> (r: (u32, u32))
        ensures
            r == color_range(*self),
    {
        match &self.color_palette {
            Some(p) => p.range,
            None => (0, 999),
        }
    }

    /// The colour of a warp thread, scaled to bytes.
    pub fn warp_color_u8(&self, warp: Warp) -> (r: Option<[u8; 3]>)
        requires
            self.wf(),
        ensures
            r == match thread_color(*self, own_index(self.warp_colors, warp.0), self.warp) {
                Some(c) => Some(scaled_color(c, color_range(*self))),
                None => None::<[u8; 3]>,
            },
    {
        let range = self.range();
        match self.warp_color(warp) {
            Some(c) => Some(
                [
                    scale(c.red, range.0, range.1),
                    scale(c.green, range.0, range.1),
                    scale(c.blue, range.0, range.1),
                ],
            ),
            None => None,
        }
    }

    /// The colour of a weft row, scaled to bytes.
    pub fn weft_color_u8(&self, weft: Weft) -> (r: Option<[u8; 3]>)
        requires
            self.wf(),
        ensures
            r == match thread_color(*self, own_index(self.weft_colors, weft.0), self.weft) {
                Some(c) => Some(scaled_color(c, color_range(*self))),
                None => None::<[u8; 3]>,
            },
    {
        let range = self.range();
        match self.weft_color(weft) {
            Some(c) => Some(
                [
                    scale(c.red, range.0, range.1),
                    scale(c.green, range.0, range.1),
                    scale(c.blue, range.0, range.1),
                ],
            ),
            None => None,
        }
    }

    /// Which thread shows where warp thread `warp` crosses weft row `weft`:
    /// the warp when a shaft that the row raises carries the thread, else the
    /// weft, also when the row or the thread has no entry.
    pub fn warp_or_weft(&self, warp: Warp, weft: Weft) -> (r: Option<WarpOrWeft>)
        requires
            self.wf(),
        ensures
            r == match (self.liftplan, self.threading) {
                (Some(l), Some(t)) => Some(
                    match (lookup(l@, weft.0), lookup(t@, warp.0)) {
                        (Some(raised), Some(carried)) => if meet(raised, carried) {
                            WarpOrWeft::Warp
                        } else {
                            WarpOrWeft::Weft
                        },
                        _ => WarpOrWeft::Weft,
                    },
                ),
                _ => None::<WarpOrWeft>,
            },
    {
        let liftplan = match &self.liftplan {
            Some(l) => l,
            None => return None,
        };
        let threading = match &self.threading {
            Some(t) => t,
            None => return None,
        };
        match liftplan.get(weft.index()) {
            Some(raised) => match threading.get(warp.index()) {
                Some(carried) => {
                    if shares_member(raised, carried) {
                        Some(WarpOrWeft::Warp)
                    } else {
                        Some(WarpOrWeft::Weft)
                    }
                },
                None => Some(WarpOrWeft::Weft),
            },
            None => Some(WarpOrWeft::Weft),
        }
    }

    fn push_flags_0(&self, flags: &mut Vec<IniEntry>)
        ensures
            entries_of(final(flags)@) == flags_0(*self, entries_of(old(flags)@)),
    {
        push_flag(flags, "COLOR PALETTE", self.color_palette.is_some());
        push_flag(flags, "COLOR TABLE", self.color_table.is_some());
        push_flag(flags, "WARP SYMBOL PALETTE", self.warp_symbol_palette.is_some());
        push_flag(flags, "WEFT SYMBOL PALETTE", self.weft_symbol_palette.is_some());
        push_flag(flags, "TEXT", self.text.is_some());
        push_flag(flags, "WEAVING", self.weaving.is_some());
        push_flag(flags, "WARP", self.warp.is_some());
        push_flag(flags, "WEFT", self.weft.is_some());
        push_flag(flags, "NOTES", self.notes.is_some());
    }

    fn push_flags_1(&self, flags: &mut Vec<IniEntry>)
        ensures
            entries_of(final(flags)@) == flags_1(*self, entries_of(old(flags)@)),
    {
        push_flag(flags, "TIEUP", self.tieup.is_some());
        push_flag(flags, "WARP SYMBOL TABLE", self.warp_symbol_table.is_some());
        push_flag(flags, "WEFT SYMBOL TABLE", self.weft_symbols_table.is_some());
        push_flag(flags, "THREADING", self.threading.is_some());
        push_flag(flags, "WARP THICKNESS", self.warp_thickness.is_some());
        push_flag(flags, "WARP THICKNESS ZOOM", self.warp_thickness_zoom.is_some());
        push_flag(flags, "WARP SPACING", self.warp_spacing.is_some());
        push_flag(flags, "WARP SPACING ZOOM", self.warp_spacing_zoom.is_some());
        push_flag(flags, "WARP COLORS", self.warp_colors.is_some());
    }

    fn push_flags_2(&self, flags: &mut Vec<IniEntry>)
        ensures
            entries_of(final(flags)@) == flags_2(*self, entries_of(old(flags)@)),
    {
        push_flag(flags, "WARP SYMBOLS", self.warp_symbols.is_some());
        push_flag(flags, "WEFT THICKNESS", self.weft_thickness.is_some());
        push_flag(flags, "WEFT THICKNESS ZOOM", self.weft_thickness_zoom.is_some());
        push_flag(flags, "WEFT SPACING", self.weft_spacing.is_some());
        push_flag(flags, "WEFT SPACING ZOOM", self.weft_spacing_zoom.is_some());
        push_flag(flags, "WEFT COLORS", self.weft_colors.is_some());
        push_flag(flags, "WEFT SYMBOLS", self.weft_symbols.is_some());
        push_flag(flags, "TREADLING", self.treadling.is_some());
        push_flag(flags, "LIFTPLAN", self.liftplan.is_some());
    }

    /// The presence flags of the sections that are written.
    fn contents_flags(&self) -> (r: Vec<IniEntry>)
        ensures
            entries_of(r@) == flags_of(*self),
    {
        let mut flags: Vec<IniEntry> = Vec::new();
        assert(entries_of(flags@) =~= Seq::<EntryModel>::empty());
        self.push_flags_0(&mut flags);
        self.push_flags_1(&mut flags);
        self.push_flags_2(&mut flags);
        flags
    }

    /// The sections that writing this document gives: the header, the
    /// presence flags of the sections that follow, then those sections.
    #[verifier::rlimit(100)]
    pub fn to_ini(&self) -> (r: IniDoc)
        ensures
            r@ == sections_of(*self),
    {
        let flags = self.contents_flags();
        let ghost fl = entries_of(flags@);
        let mut out: Vec<IniSection> = Vec::new();
        out.push(IniSection { name: "WIF".to_owned(), entries: self.wif_header.write() });
        assert(sections_view(out@) =~= seq![("WIF"@, WifHeader::lines(self.wif_header@))]);
        push_contents(&mut out, flags);
        push_part(&mut out, "COLOR PALETTE", record_entries(&self.color_palette));
        push_part(&mut out, "COLOR TABLE", table_part(&self.color_table));
        push_part(&mut out, "WARP SYMBOL PALETTE", record_entries(&self.warp_symbol_palette));
        push_part(&mut out, "WEFT SYMBOL PALETTE", record_entries(&self.weft_symbol_palette));
        push_part(&mut out, "TEXT", record_entries(&self.text));
        push_part(&mut out, "WEAVING", record_entries(&self.weaving));
        push_part(&mut out, "WARP", record_entries(&self.warp));
        push_part(&mut out, "WEFT", record_entries(&self.weft));
        push_part(&mut out, "NOTES", table_part(&self.notes));
        push_part(&mut out, "TIEUP", table_part(&self.tieup));
        push_part(&mut out, "WARP SYMBOL TABLE", table_part(&self.warp_symbol_table));
        push_part(&mut out, "WEFT SYMBOL TABLE", table_part(&self.weft_symbols_table));
        push_part(&mut out, "THREADING", table_part(&self.threading));
        push_part(&mut out, "WARP THICKNESS", table_part(&self.warp_thickness));
        push_part(&mut out, "WARP THICKNESS ZOOM", table_part(&self.warp_thickness_zoom));
        push_part(&mut out, "WARP SPACING", table_part(&self.warp_spacing));
        push_part(&mut out, "WARP SPACING ZOOM", table_part(&self.warp_spacing_zoom));
        push_part(&mut out, "WARP COLORS", table_part(&self.warp_colors));
        push_part(&mut out, "WARP SYMBOLS", table_part(&self.warp_symbols));
        push_part(&mut out, "WEFT THICKNESS", table_part(&self.weft_thickness));
        push_part(&mut out, "WEFT THICKNESS ZOOM", table_part(&self.weft_thickness_zoom));
        push_part(&mut out, "WEFT SPACING", table_part(&self.weft_spacing));
        push_part(&mut out, "WEFT SPACING ZOOM", table_part(&self.weft_spacing_zoom));
        push_part(&mut out, "WEFT COLORS", table_part(&self.weft_colors));
        push_part(&mut out, "WEFT SYMBOLS", table_part(&self.weft_symbols));
        push_part(&mut out, "TREADLING", table_part(&self.treadling));
        push_part(&mut out, "LIFTPLAN", table_part(&self.liftplan));
        let r = IniDoc { sections: out };
        assert(r@ == sections_of(*self));
        r
    }
}

/// The first failure in reading the sections of a document, in reading order.
pub open spec fn read_error(doc: Seq<SectionModel>) -> Option<ErrorModel> {
    match WifHeader::read_spec(doc, "WIF"@) {
        Err(e) => Some(e),
        Ok(_) => 
            match listed_record::<ColorPalette>(doc, "COLOR PALETTE"@) {
                Err(e) => Some(e),
                Ok(_) => 
                    match listed_table::<Color>(doc, "COLOR TABLE"@) {
                        Err(e) => Some(e),
                        Ok(_) => 
                            match listed_record::<WarpSymbolPalette>(doc, "WARP SYMBOL PALETTE"@) {
                                Err(e) => Some(e),
                                Ok(_) => 
                                    match listed_record::<WarpSymbolPalette>(doc, "WEFT SYMBOL PALETTE"@) {
                                        Err(e) => Some(e),
                                        Ok(_) => 
                                            match listed_record::<Text>(doc, "TEXT"@) {
                                                Err(e) => Some(e),
                                                Ok(_) => 
                                                    match listed_record::<Weaving>(doc, "WEAVING"@) {
                                                        Err(e) => Some(e),
                                                        Ok(_) => 
                                                            match listed_record::<WarpS>(doc, "WARP"@) {
                                                                Err(e) => Some(e),
                                                                Ok(_) => 
                                                                    match listed_record::<WeftS>(doc, "WEFT"@) {
                                                                        Err(e) => Some(e),
                                                                        Ok(_) => 
                                                                            match listed_table::<String>(doc, "NOTES"@) {
                                                                                Err(e) => Some(e),
                                                                                Ok(_) => 
                                                                                    match listed_table::<IdSet<Shaft>>(doc, "TIEUP"@) {
                                                                                        Err(e) => Some(e),
                                                                                        Ok(_) => 
                                                                                            match listed_table::<String>(doc, "WARP SYMBOL TABLE"@) {
                                                                                                Err(e) => Some(e),
                                                                                                Ok(_) => 
                                                                                                    match listed_table::<String>(doc, "WEFT SYMBOL TABLE"@) {
                                                                                                        Err(e) => Some(e),
                                                                                                        Ok(_) => 
                                                                                                            match listed_table::<IdSet<Shaft>>(doc, "THREADING"@) {
                                                                                                                Err(e) => Some(e),
                                                                                                                Ok(_) => 
                                                                                                                    match listed_table::<Measure>(doc, "WARP THICKNESS"@) {
                                                                                                                        Err(e) => Some(e),
                                                                                                                        Ok(_) => 
                                                                                                                            match listed_table::<u32>(doc, "WARP THICKNESS ZOOM"@) {
                                                                                                                                Err(e) => Some(e),
                                                                                                                                Ok(_) => 
                                                                                                                                    match listed_table::<Measure>(doc, "WARP SPACING"@) {
                                                                                                                                        Err(e) => Some(e),
                                                                                                                                        Ok(_) => 
                                                                                                                                            match listed_table::<u32>(doc, "WARP SPACING ZOOM"@) {
                                                                                                                                                Err(e) => Some(e),
                                                                                                                                                Ok(_) => 
                                                                                                                                                    match listed_table::<u32>(doc, "WARP COLORS"@) {
                                                                                                                                                        Err(e) => Some(e),
                                                                                                                                                        Ok(_) => 
                                                                                                                                                            match listed_table::<u32>(doc, "WARP SYMBOLS"@) {
                                                                                                                                                                Err(e) => Some(e),
                                                                                                                                                                Ok(_) => 
                                                                                                                                                                    match listed_table::<Measure>(doc, "WEFT THICKNESS"@) {
                                                                                                                                                                        Err(e) => Some(e),
                                                                                                                                                                        Ok(_) => 
                                                                                                                                                                            match listed_table::<u32>(doc, "WEFT THICKNESS ZOOM"@) {
                                                                                                                                                                                Err(e) => Some(e),
                                                                                                                                                                                Ok(_) => 
                                                                                                                                                                                    match listed_table::<Measure>(doc, "WEFT SPACING"@) {
                                                                                                                                                                                        Err(e) => Some(e),
                                                                                                                                                                                        Ok(_) => 
                                                                                                                                                                                            match listed_table::<u32>(doc, "WEFT SPACING ZOOM"@) {
                                                                                                                                                                                                Err(e) => Some(e),
                                                                                                                                                                                                Ok(_) => 
                                                                                                                                                                                                    match listed_table::<u32>(doc, "WEFT COLORS"@) {
                                                                                                                                                                                                        Err(e) => Some(e),
                                                                                                                                                                                                        Ok(_) => 
                                                                                                                                                                                                            match listed_table::<u32>(doc, "WEFT SYMBOLS"@) {
                                                                                                                                                                                                                Err(e) => Some(e),
                                                                                                                                                                                                                Ok(_) => 
                                                                                                                                                                                                                    match listed_table::<IdSet<Treadle>>(doc, "TREADLING"@) {
                                                                                                                                                                                                                        Err(e) => Some(e),
                                                                                                                                                                                                                        Ok(_) => 
                                                                                                                                                                                                                            match listed_table::<IdSet<Shaft>>(doc, "LIFTPLAN"@) {
                                                                                                                                                                                                                                Err(e) => Some(e),
                                                                                                                                                                                                                                Ok(_) => 
                                                                                                                                                                                                                                    None
                                                                                                                                                                                                                            }
                                                                                                                                                                                                                    }
                                                                                                                                                                                                            }
                                                                                                                                                                                                    }
                                                                                                                                                                                            }
                                                                                                                                                                                    }
                                                                                                                                                                            }
                                                                                                                                                                    }
                                                                                                                                                            }
                                                                                                                                                    }
                                                                                                                                            }
                                                                                                                                    }
                                                                                                                            }
                                                                                                                    }
                                                                                                            }
                                                                                                    }
                                                                                            }
                                                                                    }
                                                                            }
                                                                    }
                                                            }
                                                    }
                                            }
                                    }
                            }
                    }
            }
    }
}

/// What each section of a document read as, before the lift plan is reconciled.
pub open spec fn read_as(doc: Seq<SectionModel>, w: Wif) -> bool {
    &&& WifHeader::read_spec(doc, "WIF"@) == Ok::<_, ErrorModel>(w.wif_header@)
    &&& listed_record::<ColorPalette>(doc, "COLOR PALETTE"@) == Ok::<_, ErrorModel>(opt_model(w.color_palette))
    &&& listed_table::<Color>(doc, "COLOR TABLE"@) == Ok::<_, ErrorModel>(opt_map(w.color_table))
    &&& listed_record::<WarpSymbolPalette>(doc, "WARP SYMBOL PALETTE"@) == Ok::<_, ErrorModel>(opt_model(w.warp_symbol_palette))
    &&& listed_record::<WarpSymbolPalette>(doc, "WEFT SYMBOL PALETTE"@) == Ok::<_, ErrorModel>(opt_model(w.weft_symbol_palette))
    &&& listed_record::<Text>(doc, "TEXT"@) == Ok::<_, ErrorModel>(opt_model(w.text))
    &&& listed_record::<Weaving>(doc, "WEAVING"@) == Ok::<_, ErrorModel>(opt_model(w.weaving))
    &&& listed_record::<WarpS>(doc, "WARP"@) == Ok::<_, ErrorModel>(opt_model(w.warp))
    &&& listed_record::<WeftS>(doc, "WEFT"@) == Ok::<_, ErrorModel>(opt_model(w.weft))
    &&& listed_table::<String>(doc, "NOTES"@) == Ok::<_, ErrorModel>(opt_map(w.notes))
    &&& listed_table::<IdSet<Shaft>>(doc, "TIEUP"@) == Ok::<_, ErrorModel>(opt_map(w.tieup))
    &&& listed_table::<String>(doc, "WARP SYMBOL TABLE"@) == Ok::<_, ErrorModel>(opt_map(w.warp_symbol_table))
    &&& listed_table::<String>(doc, "WEFT SYMBOL TABLE"@) == Ok::<_, ErrorModel>(opt_map(w.weft_symbols_table))
    &&& listed_table::<IdSet<Shaft>>(doc, "THREADING"@) == Ok::<_, ErrorModel>(opt_map(w.threading))
    &&& listed_table::<Measure>(doc, "WARP THICKNESS"@) == Ok::<_, ErrorModel>(opt_map(w.warp_thickness))
    &&& listed_table::<u32>(doc, "WARP THICKNESS ZOOM"@) == Ok::<_, ErrorModel>(opt_map(w.warp_thickness_zoom))
    &&& listed_table::<Measure>(doc, "WARP SPACING"@) == Ok::<_, ErrorModel>(opt_map(w.warp_spacing))
    &&& listed_table::<u32>(doc, "WARP SPACING ZOOM"@) == Ok::<_, ErrorModel>(opt_map(w.warp_spacing_zoom))
    &&& listed_table::<u32>(doc, "WARP COLORS"@) == Ok::<_, ErrorModel>(opt_map(w.warp_colors))
    &&& listed_table::<u32>(doc, "WARP SYMBOLS"@) == Ok::<_, ErrorModel>(opt_map(w.warp_symbols))
    &&& listed_table::<Measure>(doc, "WEFT THICKNESS"@) == Ok::<_, ErrorModel>(opt_map(w.weft_thickness))
    &&& listed_table::<u32>(doc, "WEFT THICKNESS ZOOM"@) == Ok::<_, ErrorModel>(opt_map(w.weft_thickness_zoom))
    &&& listed_table::<Measure>(doc, "WEFT SPACING"@) == Ok::<_, ErrorModel>(opt_map(w.weft_spacing))
    &&& listed_table::<u32>(doc, "WEFT SPACING ZOOM"@) == Ok::<_, ErrorModel>(opt_map(w.weft_spacing_zoom))
    &&& listed_table::<u32>(doc, "WEFT COLORS"@) == Ok::<_, ErrorModel>(opt_map(w.weft_colors))
    &&& listed_table::<u32>(doc, "WEFT SYMBOLS"@) == Ok::<_, ErrorModel>(opt_map(w.weft_symbols))
    &&& listed_table::<IdSet<Treadle>>(doc, "TREADLING"@) == Ok::<_, ErrorModel>(opt_map(w.treadling))
}


/// The lift plan section as read, if it was.
pub open spec fn liftplan_read(doc: Seq<SectionModel>) -> Option<Map<u32, Seq<u32>>> {
    match listed_table::<IdSet<Shaft>>(doc, "LIFTPLAN"@) {
        Ok(o) => o,
        Err(_) => None,
    }
}

/// What reading a document gives: the sections as read, with the lift plan
/// reconciled; or the first failure in reading order; or, when all was read,
/// a lift plan that contradicts the treadling and tie-up.
pub open spec fn parse_outcome(doc: Seq<SectionModel>, r: Result<Wif, WifError>) -> bool {
    match r {
        Ok(w) => read_error(doc) is None && w.wf() && read_as(doc, w) && liftplan_rule(
            liftplan_read(doc),
            w,
        ),
        Err(e) => read_error(doc) == Some(e@) || (read_error(doc) is None
            && e@ == ErrorModel::LiftPlanDoesNotMatchTreadling && exists|w: Wif|
            read_as(doc, w) && w.wf() && listed_table::<IdSet<Shaft>>(doc, "LIFTPLAN"@) == Ok::<
                _,
                ErrorModel,
            >(opt_map(w.liftplan)) && derivable(w.treadling, w.tieup) && w.liftplan is Some
                && !composes(w.liftplan.unwrap()@, w.treadling.unwrap()@, tie_seq(w.tieup))),
    }
}

/// Decodes a document from its sections.
#[verifier::rlimit(100)]
pub fn parse_ini(doc: &IniDoc) -> (r: Result<Wif, WifError>)
    ensures
        parse_outcome(doc@, r),
{
    let wif_header = WifHeader::read(doc, "WIF")?;
    let color_palette = read_opt_record::<ColorPalette>(doc, "COLOR PALETTE")?;
    let color_table = read_opt_table::<u32, Color>(doc, "COLOR TABLE")?;
    let warp_symbol_palette = read_opt_record::<WarpSymbolPalette>(doc, "WARP SYMBOL PALETTE")?;
    let weft_symbol_palette = read_opt_record::<WarpSymbolPalette>(doc, "WEFT SYMBOL PALETTE")?;
    let text = read_opt_record::<Text>(doc, "TEXT")?;
    let weaving = read_opt_record::<Weaving>(doc, "WEAVING")?;
    let warp = read_opt_record::<WarpS>(doc, "WARP")?;
    let weft = read_opt_record::<WeftS>(doc, "WEFT")?;
    let notes = read_opt_table::<u32, String>(doc, "NOTES")?;
    let tieup = read_opt_table::<Treadle, IdSet<Shaft>>(doc, "TIEUP")?;
    let warp_symbol_table = read_opt_table::<u32, String>(doc, "WARP SYMBOL TABLE")?;
    let weft_symbols_table = read_opt_table::<u32, String>(doc, "WEFT SYMBOL TABLE")?;
    let threading = read_opt_table::<Warp, IdSet<Shaft>>(doc, "THREADING")?;
    let warp_thickness = read_opt_table::<Warp, Measure>(doc, "WARP THICKNESS")?;
    let warp_thickness_zoom = read_opt_table::<Warp, u32>(doc, "WARP THICKNESS ZOOM")?;
    let warp_spacing = read_opt_table::<Warp, Measure>(doc, "WARP SPACING")?;
    let warp_spacing_zoom = read_opt_table::<Warp, u32>(doc, "WARP SPACING ZOOM")?;
    let warp_colors = read_opt_table::<Warp, u32>(doc, "WARP COLORS")?;
    let warp_symbols = read_opt_table::<Warp, u32>(doc, "WARP SYMBOLS")?;
    let weft_thickness = read_opt_table::<Weft, Measure>(doc, "WEFT THICKNESS")?;
    let weft_thickness_zoom = read_opt_table::<Weft, u32>(doc, "WEFT THICKNESS ZOOM")?;
    let weft_spacing = read_opt_table::<Weft, Measure>(doc, "WEFT SPACING")?;
    let weft_spacing_zoom = read_opt_table::<Weft, u32>(doc, "WEFT SPACING ZOOM")?;
    let weft_colors = read_opt_table::<Weft, u32>(doc, "WEFT COLORS")?;
    let weft_symbols = read_opt_table::<Weft, u32>(doc, "WEFT SYMBOLS")?;
    let treadling = read_opt_table::<Weft, IdSet<Treadle>>(doc, "TREADLING")?;
    let liftplan = read_opt_table::<Weft, IdSet<Shaft>>(doc, "LIFTPLAN")?;
    let mut wif = Wif {
        wif_header,
        color_palette,
        color_table,
        warp_symbol_palette,
        weft_symbol_palette,
        text,
        weaving,
        warp,
        weft,
        notes,
        tieup,
        warp_symbol_table,
        weft_symbols_table,
        threading,
        warp_thickness,
        warp_thickness_zoom,
        warp_spacing,
        warp_spacing_zoom,
        warp_colors,
        warp_symbols,
        weft_thickness,
        weft_thickness_zoom,
        weft_spacing,
        weft_spacing_zoom,
        weft_colors,
        weft_symbols,
        treadling,
        liftplan,
    };
    let ghost before = wif;
    match wif.build_or_validate_liftplan() {
        Ok(()) => Ok(wif),
        Err(e) => {
            assert(read_as(doc@, before));
            Err(e)
        },
    }
}

/// Adds the presence flag of a section that is written.
#[verifier::opaque]
pub open spec fn flag(s: Seq<EntryModel>, name: Seq<char>, present: bool) -> Seq<EntryModel> {
    if present {
        s.push((name, Some("true"@)))
    } else {
        s
    }
}

/// Adds the presence-flag section when it lists any section.
pub open spec fn with_contents(secs: Seq<SectionModel>, flags: Seq<EntryModel>) -> Seq<
    SectionModel,
> {
    if flags.len() > 0 {
        secs.push(("CONTENTS"@, flags))
    } else {
        secs
    }
}

/// Adds a section that is present.
pub open spec fn part(secs: Seq<SectionModel>, name: Seq<char>, o: Option<Seq<EntryModel>>) -> Seq<
    SectionModel,
> {
    match o {
        Some(e) => secs.push((name, e)),
        None => secs,
    }
}

pub open spec fn record_lines<R: Record>(o: Option<R>) -> Option<Seq<EntryModel>> {
    match o {
        Some(r) => Some(R::lines(r@)),
        None => None,
    }
}

pub open spec fn opt_lines<K: Id, V: WifParse>(o: Option<Table<K, V>>) -> Option<Seq<EntryModel>> {
    match o {
        Some(t) => Some(table_lines::<V>(t@)),
        None => None,
    }
}

pub open spec fn sections_view(v: Seq<IniSection>) -> Seq<SectionModel> {
    v.map_values(|s: IniSection| s@)
}

pub open spec fn opt_entries(o: Option<Vec<IniEntry>>) -> Option<Seq<EntryModel>> {
    match o {
        Some(v) => Some(entries_of(v@)),
        None => None,
    }
}

/// Adds the presence flags of the sections in group 0.
pub open spec fn flags_0(w: Wif, s: Seq<EntryModel>) -> Seq<EntryModel> {
    flag(flag(flag(flag(flag(flag(flag(flag(flag(s, "COLOR PALETTE"@, w.color_palette is Some), "COLOR TABLE"@, w.color_table is Some), "WARP SYMBOL PALETTE"@, w.warp_symbol_palette is Some), "WEFT SYMBOL PALETTE"@, w.weft_symbol_palette is Some), "TEXT"@, w.text is Some), "WEAVING"@, w.weaving is Some), "WARP"@, w.warp is Some), "WEFT"@, w.weft is Some), "NOTES"@, w.notes is Some)
}

/// Adds the presence flags of the sections in group 1.
pub open spec fn flags_1(w: Wif, s: Seq<EntryModel>) -> Seq<EntryModel> {
    flag(flag(flag(flag(flag(flag(flag(flag(flag(s, "TIEUP"@, w.tieup is Some), "WARP SYMBOL TABLE"@, w.warp_symbol_table is Some), "WEFT SYMBOL TABLE"@, w.weft_symbols_table is Some), "THREADING"@, w.threading is Some), "WARP THICKNESS"@, w.warp_thickness is Some), "WARP THICKNESS ZOOM"@, w.warp_thickness_zoom is Some), "WARP SPACING"@, w.warp_spacing is Some), "WARP SPACING ZOOM"@, w.warp_spacing_zoom is Some), "WARP COLORS"@, w.warp_colors is Some)
}

/// Adds the presence flags of the sections in group 2.
pub open spec fn flags_2(w: Wif, s: Seq<EntryModel>) -> Seq<EntryModel> {
    flag(flag(flag(flag(flag(flag(flag(flag(flag(s, "WARP SYMBOLS"@, w.warp_symbols is Some), "WEFT THICKNESS"@, w.weft_thickness is Some), "WEFT THICKNESS ZOOM"@, w.weft_thickness_zoom is Some), "WEFT SPACING"@, w.weft_spacing is Some), "WEFT SPACING ZOOM"@, w.weft_spacing_zoom is Some), "WEFT COLORS"@, w.weft_colors is Some), "WEFT SYMBOLS"@, w.weft_symbols is Some), "TREADLING"@, w.treadling is Some), "LIFTPLAN"@, w.liftplan is Some)
}

/// The presence flags of a document's sections, in writing order.
pub open spec fn flags_of(w: Wif) -> Seq<EntryModel> {
    flags_2(w, flags_1(w, flags_0(w, Seq::empty())))
}

/// The sections that writing a document gives, in order.
pub open spec fn sections_of(w: Wif) -> Seq<SectionModel> {
    part(part(part(part(part(part(part(part(part(part(part(part(part(part(part(part(part(part(part(part(part(part(part(part(part(part(part(with_contents(seq![("WIF"@, WifHeader::lines(w.wif_header@))], flags_of(w)), "COLOR PALETTE"@, record_lines::<ColorPalette>(w.color_palette)), "COLOR TABLE"@, opt_lines::<u32, Color>(w.color_table)), "WARP SYMBOL PALETTE"@, record_lines::<WarpSymbolPalette>(w.warp_symbol_palette)), "WEFT SYMBOL PALETTE"@, record_lines::<WarpSymbolPalette>(w.weft_symbol_palette)), "TEXT"@, record_lines::<Text>(w.text)), "WEAVING"@, record_lines::<Weaving>(w.weaving)), "WARP"@, record_lines::<WarpS>(w.warp)), "WEFT"@, record_lines::<WeftS>(w.weft)), "NOTES"@, opt_lines::<u32, String>(w.notes)), "TIEUP"@, opt_lines::<Treadle, IdSet<Shaft>>(w.tieup)), "WARP SYMBOL TABLE"@, opt_lines::<u32, String>(w.warp_symbol_table)), "WEFT SYMBOL TABLE"@, opt_lines::<u32, String>(w.weft_symbols_table)), "THREADING"@, opt_lines::<Warp, IdSet<Shaft>>(w.threading)), "WARP THICKNESS"@, opt_lines::<Warp, Measure>(w.warp_thickness)), "WARP THICKNESS ZOOM"@, opt_lines::<Warp, u32>(w.warp_thickness_zoom)), "WARP SPACING"@, opt_lines::<Warp, Measure>(w.warp_spacing)), "WARP SPACING ZOOM"@, opt_lines::<Warp, u32>(w.warp_spacing_zoom)), "WARP COLORS"@, opt_lines::<Warp, u32>(w.warp_colors)), "WARP SYMBOLS"@, opt_lines::<Warp, u32>(w.warp_symbols)), "WEFT THICKNESS"@, opt_lines::<Weft, Measure>(w.weft_thickness)), "WEFT THICKNESS ZOOM"@, opt_lines::<Weft, u32>(w.weft_thickness_zoom)), "WEFT SPACING"@, opt_lines::<Weft, Measure>(w.weft_spacing)), "WEFT SPACING ZOOM"@, opt_lines::<Weft, u32>(w.weft_spacing_zoom)), "WEFT COLORS"@, opt_lines::<Weft, u32>(w.weft_colors)), "WEFT SYMBOLS"@, opt_lines::<Weft, u32>(w.weft_symbols)), "TREADLING"@, opt_lines::<Weft, IdSet<Treadle>>(w.treadling)), "LIFTPLAN"@, opt_lines::<Weft, IdSet<Shaft>>(w.liftplan))
}


fn push_flag(flags: &mut Vec<IniEntry>, name: &str, present: bool)
    ensures
        entries_of(final(flags)@) == flag(entries_of(old(flags)@), name@, present),
{
    reveal(flag);
    if present {
        let ghost before = entries_of(flags@);
        flags.push(IniEntry { key: name.to_owned(), value: Some("true".to_owned()) });
        proof {
            reveal_strlit("true");
        }
        assert(entries_of(flags@) =~= before.push((name@, Some("true"@))));
    }
}

fn push_contents(out: &mut Vec<IniSection>, flags: Vec<IniEntry>)
    ensures
        sections_view(final(out)@) == with_contents(sections_view(old(out)@), entries_of(flags@)),
{
    if flags.len() > 0 {
        let ghost before = sections_view(out@);
        let ghost f = entries_of(flags@);
        out.push(IniSection { name: "CONTENTS".to_owned(), entries: flags });
        proof {
            reveal_strlit("CONTENTS");
        }
        assert(sections_view(out@) =~= before.push(("CONTENTS"@, f)));
    }
}

fn push_part(out: &mut Vec<IniSection>, name: &str, o: Option<Vec<IniEntry>>)
    ensures
        sections_view(final(out)@) == part(sections_view(old(out)@), name@, opt_entries(o)),
{
    match o {
        Some(entries) => {
            let ghost before = sections_view(out@);
            let ghost e = entries_of(entries@);
            out.push(IniSection { name: name.to_owned(), entries });
            assert(sections_view(out@) =~= before.push((name@, e)));
        },
        None => {},
    }
}

fn record_entries<R: Record>(o: &Option<R>) -> (r: Option<Vec<IniEntry>>)
    ensures
        opt_entries(r) == record_lines::<R>(*o),
{
    match o {
        Some(rec) => Some(rec.write()),
        None => None,
    }
}

fn table_part<K: Id, V: WifParse>(o: &Option<Table<K, V>>) -> (r: Option<Vec<IniEntry>>)
    ensures
        opt_entries(r) == opt_lines::<K, V>(*o),
{
    match o {
        Some(t) => Some(write_table(t)),
        None => None,
    }
}

} // verus!
