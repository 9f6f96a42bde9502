use vstd::prelude::*;

use crate::codec::{Color, WifParse};
use crate::error::{outcome, ErrorModel, WifError};
use crate::ini::{get_field, get_required_field, opt_model, optional_field, put_field, put_opt_field, required_field, EntryModel, IniDoc, IniEntry, SectionModel};
use crate::values::{BaseColor, Date, Measure};

verus! {

/// The entries of a section written so far, as models.
pub open spec fn entries_of(v: Seq<IniEntry>) -> Seq<EntryModel> {
    v.map_values(|e: IniEntry| e@)
}

/// Appends a field line when the value has a text.
pub open spec fn put(s: Seq<EntryModel>, field: Seq<char>, text: Option<Seq<char>>) -> Seq<EntryModel> {
    match text {
        Some(x) => s.push((field, Some(x))),
        None => s,
    }
}

/// Appends an optional field's line when it is present and has a text.
pub open spec fn put_opt<T: WifParse>(s: Seq<EntryModel>, field: Seq<char>, v: Option<T::V>) -> Seq<EntryModel> {
    match v {
        Some(x) => put(s, field, T::encoded(x)),
        None => s,
    }
}

/// A section of named fields.
pub trait Record: Sized + View {
    /// What reading the record from section `name` gives.
    spec fn read_spec(doc: Seq<SectionModel>, name: Seq<char>) -> Result<Self::V, ErrorModel>;

    /// The lines that writing the record gives.
    spec fn lines(v: Self::V) -> Seq<EntryModel>;

    fn read(doc: &IniDoc, name: &str) -> (r: Result<Self, WifError>)
        ensures
            outcome(r) == Self::read_spec(doc@, name@),
    ;

    fn write(&self) -> (r: Vec<IniEntry>)
        ensures
            entries_of(r@) == Self::lines(self@),
    ;
}

/// The mandatory header of a document.
#[derive(Debug)]
pub struct WifHeader {
    pub version: String,
    pub date: Date,
    pub developers: String,
    pub source_program: String,
    pub source_version: Option<String>,
}

impl View for WifHeader {
    type V = (<String as View>::V, <Date as View>::V, <String as View>::V, <String as View>::V, Option<<String as View>::V>,);

    open spec fn view(&self) -> Self::V {
        (self.version@, self.date@, self.developers@, self.source_program@, opt_model(self.source_version),)
    }
}

impl Record for WifHeader {
    open spec fn read_spec(doc: Seq<SectionModel>, name: Seq<char>) -> Result<Self::V, ErrorModel> {
        match required_field::<String>(doc, name, "Version"@) {
            Err(e) => Err(e),
            Ok(v0) => 
                match required_field::<Date>(doc, name, "Date"@) {
                    Err(e) => Err(e),
                    Ok(v1) => 
                        match required_field::<String>(doc, name, "Developers"@) {
                            Err(e) => Err(e),
                            Ok(v2) => 
                                match required_field::<String>(doc, name, "Source Program"@) {
                                    Err(e) => Err(e),
                                    Ok(v3) => 
                                        match optional_field::<String>(doc, name, "Source Version"@) {
                                            Err(e) => Err(e),
                                            Ok(v4) => 
                                                Ok((v0, v1, v2, v3, v4,))
                                        }
                                }
                        }
                }
        }
    }

    open spec fn lines(v: Self::V) -> Seq<EntryModel> {
        put_opt::<String>(put(put(put(put(Seq::<EntryModel>::empty(), "Version"@, <String as WifParse>::encoded(v.0)), "Date"@, <Date as WifParse>::encoded(v.1)), "Developers"@, <String as WifParse>::encoded(v.2)), "Source Program"@, <String as WifParse>::encoded(v.3)), "Source Version"@, v.4)
    }

    fn read(doc: &IniDoc, name: &str) -> (r: Result<Self, WifError>) {
        let version = get_required_field::<String>(doc, name, "Version")?;
        let date = get_required_field::<Date>(doc, name, "Date")?;
        let developers = get_required_field::<String>(doc, name, "Developers")?;
        let source_program = get_required_field::<String>(doc, name, "Source Program")?;
        let source_version = get_field::<String>(doc, name, "Source Version")?;
        Ok(WifHeader { version, date, developers, source_program, source_version })
    }

    fn write(&self) -> (r: Vec<IniEntry>) {
        let mut out: Vec<IniEntry> = Vec::new();
        assert(entries_of(out@) =~= Seq::<EntryModel>::empty());
        put_field(&mut out, "Version", &self.version);
        put_field(&mut out, "Date", &self.date);
        put_field(&mut out, "Developers", &self.developers);
        put_field(&mut out, "Source Program", &self.source_program);
        put_opt_field(&mut out, "Source Version", &self.source_version);
        out
    }
}

/// The size of the colour table and the range of its channel values.
#[derive(Debug)]
pub struct ColorPalette {
    pub entries: usize,
    pub range: (u32, u32),
}

impl View for ColorPalette {
    type V = (<usize as View>::V, <(u32, u32) as View>::V,);

    open spec fn view(&self) -> Self::V {
        (self.entries@, self.range@,)
    }
}

impl Record for ColorPalette {
    open spec fn read_spec(doc: Seq<SectionModel>, name: Seq<char>) -> Result<Self::V, ErrorModel> {
        match required_field::<usize>(doc, name, "Entries"@) {
            Err(e) => Err(e),
            Ok(v0) => 
                match required_field::<(u32, u32)>(doc, name, "Range"@) {
                    Err(e) => Err(e),
                    Ok(v1) => 
                        Ok((v0, v1,))
                }
        }
    }

    open spec fn lines(v: Self::V) -> Seq<EntryModel> {
        put(put(Seq::<EntryModel>::empty(), "Entries"@, <usize as WifParse>::encoded(v.0)), "Range"@, <(u32, u32) as WifParse>::encoded(v.1))
    }

    fn read(doc: &IniDoc, name: &str) -> (r: Result<Self, WifError>) {
        let entries = get_required_field::<usize>(doc, name, "Entries")?;
        let range = get_required_field::<(u32, u32)>(doc, name, "Range")?;
        Ok(ColorPalette { entries, range })
    }

    fn write(&self) -> (r: Vec<IniEntry>) {
        let mut out: Vec<IniEntry> = Vec::new();
        assert(entries_of(out@) =~= Seq::<EntryModel>::empty());
        put_field(&mut out, "Entries", &self.entries);
        put_field(&mut out, "Range", &self.range);
        out
    }
}

/// The size of a symbol table.
#[derive(Debug)]
pub struct WarpSymbolPalette {
    pub entries: usize,
}

impl View for WarpSymbolPalette {
    type V = (<usize as View>::V,);

    open spec fn view(&self) -> Self::V {
        (self.entries@,)
    }
}

impl Record for WarpSymbolPalette {
    open spec fn read_spec(doc: Seq<SectionModel>, name: Seq<char>) -> Result<Self::V, ErrorModel> {
        match required_field::<usize>(doc, name, "Entries"@) {
            Err(e) => Err(e),
            Ok(v0) => 
                Ok((v0,))
        }
    }

    open spec fn lines(v: Self::V) -> Seq<EntryModel> {
        put(Seq::<EntryModel>::empty(), "Entries"@, <usize as WifParse>::encoded(v.0))
    }

    fn read(doc: &IniDoc, name: &str) -> (r: Result<Self, WifError>) {
        let entries = get_required_field::<usize>(doc, name, "Entries")?;
        Ok(WarpSymbolPalette { entries })
    }

    fn write(&self) -> (r: Vec<IniEntry>) {
        let mut out: Vec<IniEntry> = Vec::new();
        assert(entries_of(out@) =~= Seq::<EntryModel>::empty());
        put_field(&mut out, "Entries", &self.entries);
        out
    }
}

/// Descriptive text about the draft.
#[derive(Debug)]
pub struct Text {
    pub title: Option<String>,
    pub author: Option<String>,
    pub address: Option<String>,
    pub email: Option<String>,
    pub telephone: Option<String>,
    pub fax: Option<String>,
}

impl View for Text {
    type V = (Option<<String as View>::V>, Option<<String as View>::V>, Option<<String as View>::V>, Option<<String as View>::V>, Option<<String as View>::V>, Option<<String as View>::V>,);

    open spec fn view(&self) -> Self::V {
        (opt_model(self.title), opt_model(self.author), opt_model(self.address), opt_model(self.email), opt_model(self.telephone), opt_model(self.fax),)
    }
}

impl Record for Text {
    open spec fn read_spec(doc: Seq<SectionModel>, name: Seq<char>) -> Result<Self::V, ErrorModel> {
        match optional_field::<String>(doc, name, "Title"@) {
            Err(e) => Err(e),
            Ok(v0) => 
                match optional_field::<String>(doc, name, "Author"@) {
                    Err(e) => Err(e),
                    Ok(v1) => 
                        match optional_field::<String>(doc, name, "Address"@) {
                            Err(e) => Err(e),
                            Ok(v2) => 
                                match optional_field::<String>(doc, name, "EMail"@) {
                                    Err(e) => Err(e),
                                    Ok(v3) => 
                                        match optional_field::<String>(doc, name, "Telephone"@) {
                                            Err(e) => Err(e),
                                            Ok(v4) => 
                                                match optional_field::<String>(doc, name, "Fax"@) {
                                                    Err(e) => Err(e),
                                                    Ok(v5) => 
                                                        Ok((v0, v1, v2, v3, v4, v5,))
                                                }
                                        }
                                }
                        }
                }
        }
    }

    open spec fn lines(v: Self::V) -> Seq<EntryModel> {
        put_opt::<String>(put_opt::<String>(put_opt::<String>(put_opt::<String>(put_opt::<String>(put_opt::<String>(Seq::<EntryModel>::empty(), "Title"@, v.0), "Author"@, v.1), "Address"@, v.2), "EMail"@, v.3), "Telephone"@, v.4), "Fax"@, v.5)
    }

    fn read(doc: &IniDoc, name: &str) -> (r: Result<Self, WifError>) {
        let title = get_field::<String>(doc, name, "Title")?;
        let author = get_field::<String>(doc, name, "Author")?;
        let address = get_field::<String>(doc, name, "Address")?;
        let email = get_field::<String>(doc, name, "EMail")?;
        let telephone = get_field::<String>(doc, name, "Telephone")?;
        let fax = get_field::<String>(doc, name, "Fax")?;
        Ok(Text { title, author, address, email, telephone, fax })
    }

    fn write(&self) -> (r: Vec<IniEntry>) {
        let mut out: Vec<IniEntry> = Vec::new();
        assert(entries_of(out@) =~= Seq::<EntryModel>::empty());
        put_opt_field(&mut out, "Title", &self.title);
        put_opt_field(&mut out, "Author", &self.author);
        put_opt_field(&mut out, "Address", &self.address);
        put_opt_field(&mut out, "EMail", &self.email);
        put_opt_field(&mut out, "Telephone", &self.telephone);
        put_opt_field(&mut out, "Fax", &self.fax);
        out
    }
}

/// The loom's geometry.
#[derive(Debug)]
pub struct Weaving {
    pub shafts: u32,
    pub treadles: u32,
    pub rising_shed: Option<bool>,
}

impl View for Weaving {
    type V = (<u32 as View>::V, <u32 as View>::V, Option<<bool as View>::V>,);

    open spec fn view(&self) -> Self::V {
        (self.shafts@, self.treadles@, opt_model(self.rising_shed),)
    }
}

impl Record for Weaving {
    open spec fn read_spec(doc: Seq<SectionModel>, name: Seq<char>) -> Result<Self::V, ErrorModel> {
        match required_field::<u32>(doc, name, "Shafts"@) {
            Err(e) => Err(e),
            Ok(v0) => 
                match required_field::<u32>(doc, name, "Treadles"@) {
                    Err(e) => Err(e),
                    Ok(v1) => 
                        match optional_field::<bool>(doc, name, "Rising Shed"@) {
                            Err(e) => Err(e),
                            Ok(v2) => 
                                Ok((v0, v1, v2,))
                        }
                }
        }
    }

    open spec fn lines(v: Self::V) -> Seq<EntryModel> {
        put_opt::<bool>(put(put(Seq::<EntryModel>::empty(), "Shafts"@, <u32 as WifParse>::encoded(v.0)), "Treadles"@, <u32 as WifParse>::encoded(v.1)), "Rising Shed"@, v.2)
    }

    fn read(doc: &IniDoc, name: &str) -> (r: Result<Self, WifError>) {
        let shafts = get_required_field::<u32>(doc, name, "Shafts")?;
        let treadles = get_required_field::<u32>(doc, name, "Treadles")?;
        let rising_shed = get_field::<bool>(doc, name, "Rising Shed")?;
        Ok(Weaving { shafts, treadles, rising_shed })
    }

    fn write(&self) -> (r: Vec<IniEntry>) {
        let mut out: Vec<IniEntry> = Vec::new();
        assert(entries_of(out@) =~= Seq::<EntryModel>::empty());
        put_field(&mut out, "Shafts", &self.shafts);
        put_field(&mut out, "Treadles", &self.treadles);
        put_opt_field(&mut out, "Rising Shed", &self.rising_shed);
        out
    }
}

/// The defaults of the warp or of the weft threads.
#[derive(Debug)]
pub struct WarpS {
    pub threads: u32,
    pub color: Option<BaseColor>,
    pub symbol: Option<String>,
    pub symbol_number: Option<usize>,
    pub units: Option<String>,
    pub spacing: Option<Measure>,
    pub thickness: Option<Measure>,
    pub spacing_zoom: Option<u32>,
    pub thickness_zoom: Option<u32>,
}

impl View for WarpS {
    type V = (<u32 as View>::V, Option<<BaseColor as View>::V>, Option<<String as View>::V>, Option<<usize as View>::V>, Option<<String as View>::V>, Option<<Measure as View>::V>, Option<<Measure as View>::V>, Option<<u32 as View>::V>, Option<<u32 as View>::V>,);

    open spec fn view(&self) -> Self::V {
        (self.threads@, opt_model(self.color), opt_model(self.symbol), opt_model(self.symbol_number), opt_model(self.units), opt_model(self.spacing), opt_model(self.thickness), opt_model(self.spacing_zoom), opt_model(self.thickness_zoom),)
    }
}

impl Record for WarpS {
    open spec fn read_spec(doc: Seq<SectionModel>, name: Seq<char>) -> Result<Self::V, ErrorModel> {
        match required_field::<u32>(doc, name, "Threads"@) {
            Err(e) => Err(e),
            Ok(v0) => 
                match optional_field::<BaseColor>(doc, name, "Color"@) {
                    Err(e) => Err(e),
                    Ok(v1) => 
                        match optional_field::<String>(doc, name, "Symbol"@) {
                            Err(e) => Err(e),
                            Ok(v2) => 
                                match optional_field::<usize>(doc, name, "Symbol Number"@) {
                                    Err(e) => Err(e),
                                    Ok(v3) => 
                                        match optional_field::<String>(doc, name, "Units"@) {
                                            Err(e) => Err(e),
                                            Ok(v4) => 
                                                match optional_field::<Measure>(doc, name, "Spacing"@) {
                                                    Err(e) => Err(e),
                                                    Ok(v5) => 
                                                        match optional_field::<Measure>(doc, name, "Thickness"@) {
                                                            Err(e) => Err(e),
                                                            Ok(v6) => 
                                                                match optional_field::<u32>(doc, name, "Spacing Thickness"@) {
                                                                    Err(e) => Err(e),
                                                                    Ok(v7) => 
                                                                        match optional_field::<u32>(doc, name, "Thickness Zoom"@) {
                                                                            Err(e) => Err(e),
                                                                            Ok(v8) => 
                                                                                Ok((v0, v1, v2, v3, v4, v5, v6, v7, v8,))
                                                                        }
                                                                }
                                                        }
                                                }
                                        }
                                }
                        }
                }
        }
    }

    open spec fn lines(v: Self::V) -> Seq<EntryModel> {
        put_opt::<u32>(put_opt::<u32>(put_opt::<Measure>(put_opt::<Measure>(put_opt::<String>(put_opt::<usize>(put_opt::<String>(put_opt::<BaseColor>(put(Seq::<EntryModel>::empty(), "Threads"@, <u32 as WifParse>::encoded(v.0)), "Color"@, v.1), "Symbol"@, v.2), "Symbol Number"@, v.3), "Units"@, v.4), "Spacing"@, v.5), "Thickness"@, v.6), "Spacing Thickness"@, v.7), "Thickness Zoom"@, v.8)
    }

    fn read(doc: &IniDoc, name: &str) -> (r: Result<Self, WifError>) {
        let threads = get_required_field::<u32>(doc, name, "Threads")?;
        let color = get_field::<BaseColor>(doc, name, "Color")?;
        let symbol = get_field::<String>(doc, name, "Symbol")?;
        let symbol_number = get_field::<usize>(doc, name, "Symbol Number")?;
        let units = get_field::<String>(doc, name, "Units")?;
        let spacing = get_field::<Measure>(doc, name, "Spacing")?;
        let thickness = get_field::<Measure>(doc, name, "Thickness")?;
        let spacing_zoom = get_field::<u32>(doc, name, "Spacing Thickness")?;
        let thickness_zoom = get_field::<u32>(doc, name, "Thickness Zoom")?;
        Ok(WarpS { threads, color, symbol, symbol_number, units, spacing, thickness, spacing_zoom, thickness_zoom })
    }

    fn write(&self) -> (r: Vec<IniEntry>) {
        let mut out: Vec<IniEntry> = Vec::new();
        assert(entries_of(out@) =~= Seq::<EntryModel>::empty());
        put_field(&mut out, "Threads", &self.threads);
        put_opt_field(&mut out, "Color", &self.color);
        put_opt_field(&mut out, "Symbol", &self.symbol);
        put_opt_field(&mut out, "Symbol Number", &self.symbol_number);
        put_opt_field(&mut out, "Units", &self.units);
        put_opt_field(&mut out, "Spacing", &self.spacing);
        put_opt_field(&mut out, "Thickness", &self.thickness);
        put_opt_field(&mut out, "Spacing Thickness", &self.spacing_zoom);
        put_opt_field(&mut out, "Thickness Zoom", &self.thickness_zoom);
        out
    }
}

/// The defaults of the weft threads.
pub type WeftS = WarpS;

} // verus!
