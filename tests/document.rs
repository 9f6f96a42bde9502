use wif::document::scale;
use wif::{
    liftplan_from_threading_and_treadle, parse, IdSet, Shaft, Table, Treadle, Warp, WarpOrWeft,
    Weft, WifError, WifParse,
};

const HEADER: &str = "[WIF]\nVersion=1.1\nDate=April 20, 1997\nDevelopers=wif@mhsoft.com\nSource Program=Loom\n";

fn doc(rest: &str) -> String {
    format!("{}{}", HEADER, rest)
}

#[test]
fn header_only() {
    let w = parse(HEADER).unwrap();
    assert_eq!(w.wif_header.version, "1.1");
    assert_eq!(w.wif_header.developers, "wif@mhsoft.com");
    assert_eq!(w.wif_header.source_version, None);
    assert!(w.weaving.is_none());
    assert_eq!(w.shafts(), None);
    assert_eq!(w.width(), None);
}

#[test]
fn missing_header_field() {
    match parse("[WIF]\nVersion=1.1\n") {
        Err(WifError::MissingRequiredField { section, field }) => {
            assert_eq!(section, "WIF");
            assert_eq!(field, "Date");
        }
        other => panic!("unexpected {:?}", other),
    }
}

#[test]
fn bad_field_is_attributed() {
    let text = doc("[CONTENTS]\nWEAVING=yes\n[WEAVING]\nShafts=four\nTreadles=4\n");
    match parse(&text) {
        Err(WifError::FieldParseError { section, field, err }) => {
            assert_eq!(section, "WEAVING");
            assert_eq!(field, "Shafts");
            assert!(matches!(*err, WifError::InvalidNumber { .. }));
        }
        other => panic!("unexpected {:?}", other),
    }
}

#[test]
fn geometry_accessors() {
    let text = doc("[CONTENTS]\nWEAVING=true\nWARP=1\nWEFT=on\n[WEAVING]\nShafts=8\nTreadles=10\nRising Shed=yes\n[WARP]\nThreads=200\n[WEFT]\nThreads=300\n");
    let w = parse(&text).unwrap();
    assert_eq!(w.shafts(), Some(8));
    assert_eq!(w.treadles(), Some(10));
    assert_eq!(w.width(), Some(200));
    assert_eq!(w.height(), Some(300));
    assert_eq!(w.weaving.as_ref().unwrap().rising_shed, Some(true));
}

#[test]
fn unlisted_section_is_not_read() {
    let text = doc("[CONTENTS]\nWEAVING=false\n[WEAVING]\nShafts=bad\n[THREADING]\nx=1\n");
    let w = parse(&text).unwrap();
    assert!(w.weaving.is_none());
    assert!(w.threading.is_none());
}

#[test]
fn listed_table_must_exist() {
    let text = doc("[CONTENTS]\nTHREADING=true\n");
    match parse(&text) {
        Err(WifError::MissingSection { section }) => assert_eq!(section, "THREADING"),
        other => panic!("unexpected {:?}", other),
    }
}

#[test]
fn table_key_must_be_numeric() {
    let text = doc("[CONTENTS]\nTHREADING=true\n[THREADING]\n1=1\nabc=2\n2=3\n");
    match parse(&text) {
        Err(WifError::CouldNotParseTableKey { section, key }) => {
            assert_eq!(section, "THREADING");
            assert_eq!(key, "abc");
        }
        other => panic!("unexpected {:?}", other),
    }
}

#[test]
fn table_value_error_names_the_key() {
    let text = doc("[CONTENTS]\nTHREADING=true\n[THREADING]\n1=1\n2=z\n");
    match parse(&text) {
        Err(WifError::FieldParseError { section, field, .. }) => {
            assert_eq!(section, "THREADING");
            assert_eq!(field, "2");
        }
        other => panic!("unexpected {:?}", other),
    }
}

const DRAFT: &str = "[CONTENTS]\nTIEUP=true\nTREADLING=true\nTHREADING=true\n[TIEUP]\n1=1,2\n2=2,3\n[TREADLING]\n1=1\n2=2\n3=1,2\n[THREADING]\n1=1\n2=3\n";

#[test]
fn liftplan_is_derived() {
    let w = parse(&doc(DRAFT)).unwrap();
    let lp = w.liftplan.as_ref().unwrap();
    assert_eq!(lp.len(), 3);
    assert_eq!(lp.get(1).unwrap().unparse().unwrap(), "1,2");
    assert_eq!(lp.get(2).unwrap().unparse().unwrap(), "2,3");
    assert_eq!(lp.get(3).unwrap().unparse().unwrap(), "1,2,3");
}

const WITH_PLAN: &str = "[CONTENTS]\nTIEUP=true\nTREADLING=true\nTHREADING=true\nLIFTPLAN=true\n[TIEUP]\n1=1,2\n2=2,3\n[TREADLING]\n1=1\n2=2\n3=1,2\n[THREADING]\n1=1\n2=3\n";

#[test]
fn matching_liftplan_is_accepted() {
    let text = doc(&format!("{}[LIFTPLAN]\n1=2,1\n2=3,2\n3=3,2,1\n", WITH_PLAN));
    let w = parse(&text).unwrap();
    assert_eq!(w.liftplan.as_ref().unwrap().get(3).unwrap().unparse().unwrap(), "1,2,3");
}

#[test]
fn mismatched_liftplan_is_rejected() {
    let text = doc(&format!("{}[LIFTPLAN]\n1=1\n2=2,3\n3=1,2,3\n", WITH_PLAN));
    assert!(matches!(parse(&text), Err(WifError::LiftPlanDoesNotMatchTreadling)));
}

#[test]
fn interlacement() {
    let w = parse(&doc(DRAFT)).unwrap();
    assert_eq!(w.warp_or_weft(Warp(1), Weft(1)), Some(WarpOrWeft::Warp));
    assert_eq!(w.warp_or_weft(Warp(2), Weft(1)), Some(WarpOrWeft::Weft));
    assert_eq!(w.warp_or_weft(Warp(2), Weft(2)), Some(WarpOrWeft::Warp));
    assert_eq!(w.warp_or_weft(Warp(9), Weft(1)), Some(WarpOrWeft::Weft));
    assert_eq!(w.warp_or_weft(Warp(1), Weft(9)), Some(WarpOrWeft::Weft));
    let bare = parse(HEADER).unwrap();
    assert_eq!(bare.warp_or_weft(Warp(1), Weft(1)), None);
}

#[test]
fn compose_without_tieup() {
    let mut t: Table<Weft, IdSet<Treadle>> = Table::new();
    t.insert(Weft(1), IdSet::new());
    assert!(liftplan_from_threading_and_treadle(Some(&t), None).is_none());
    let mut row = IdSet::new();
    row.insert(Treadle(1));
    t.insert(Weft(2), row);
    assert!(liftplan_from_threading_and_treadle(Some(&t), None).is_none());
    let mut u: Table<Treadle, IdSet<Shaft>> = Table::new();
    let mut s = IdSet::new();
    s.insert(Shaft(4));
    u.insert(Treadle(1), s);
    let plan = liftplan_from_threading_and_treadle(Some(&t), Some(&u)).unwrap();
    assert_eq!(plan.get(2).unwrap().unparse().unwrap(), "4");
    assert_eq!(plan.get(1).unwrap().len(), 0);
    assert!(liftplan_from_threading_and_treadle(None, Some(&u)).is_none());
}

const COLORS: &str = "[CONTENTS]\nCOLOR PALETTE=true\nCOLOR TABLE=true\nWARP=true\nWARP COLORS=true\nWEFT=true\n[COLOR PALETTE]\nEntries=2\nRange=0,999\n[COLOR TABLE]\n1=999,0,500\n2=0,999,0\n[WARP]\nThreads=3\nColor=2\n[WEFT]\nThreads=3\n[WARP COLORS]\n1=1\n3=7\n";

#[test]
fn color_normalization() {
    let w = parse(&doc(COLORS)).unwrap();
    assert_eq!(w.warp_color_u8(Warp(1)), Some([255, 0, 127]));
    assert_eq!(scale(500, 0, 999), 127);
    assert_eq!(scale(999, 0, 999), 255);
    assert_eq!(scale(0, 0, 999), 0);
}

#[test]
fn color_fallbacks() {
    let w = parse(&doc(COLORS)).unwrap();
    let own = w.warp_color(Warp(1)).unwrap();
    assert_eq!((own.red, own.green, own.blue), (999, 0, 500));
    let missing = w.warp_color(Warp(3)).unwrap();
    assert_eq!((missing.red, missing.green, missing.blue), (0, 999, 0));
    let default = w.warp_color(Warp(2)).unwrap();
    assert_eq!((default.red, default.green, default.blue), (0, 999, 0));
    assert_eq!(w.weft_color(Weft(1)), None);
    assert_eq!(w.weft_color_u8(Weft(1)), None);
}

#[test]
fn text_round_trip() {
    let text = doc(
        "[CONTENTS]\nTEXT=true\nNOTES=true\nTIEUP=true\nTREADLING=true\nTHREADING=true\n[TEXT]\nTitle=Sample\n[NOTES]\n1=first\n[TIEUP]\n1=1,2\n2=2,3\n[TREADLING]\n1=1\n2=2\n3=1,2\n[THREADING]\n1=1\n2=3\n",
    );
    let w = parse(&text).unwrap();
    let again = parse(&w.to_text()).unwrap();
    assert_eq!(again.wif_header.version, w.wif_header.version);
    assert_eq!(again.wif_header.date, w.wif_header.date);
    assert_eq!(again.text.as_ref().unwrap().title, Some("Sample".to_string()));
    assert_eq!(again.notes.as_ref().unwrap().get(1), Some(&"first".to_string()));
    assert_eq!(again.threading.as_ref().unwrap().len(), 2);
    assert_eq!(again.liftplan.as_ref().unwrap().get(3).unwrap().unparse().unwrap(), "1,2,3");
}

#[test]
fn treadling_without_tieup_keeps_given_liftplan() {
    let text = doc("[CONTENTS]\nTREADLING=true\nLIFTPLAN=true\n[TREADLING]\n[LIFTPLAN]\n1=2\n");
    let w = parse(&text).unwrap();
    assert_eq!(w.liftplan.as_ref().unwrap().get(1).unwrap().unparse().unwrap(), "2");
    let bare = parse(&doc("[CONTENTS]\nTREADLING=true\n[TREADLING]\n1=1\n")).unwrap();
    assert!(bare.liftplan.is_none());
}

#[test]
fn written_text_has_sections() {
    let w = parse(&doc(DRAFT)).unwrap();
    let t = w.to_text();
    assert!(t.contains("[WIF]"));
    assert!(t.contains("[TIEUP]"));
    assert!(t.contains("Version=1.1"));
    assert!(t.contains("1=1,2"));
}
