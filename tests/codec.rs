use wif::error::WifError;
use wif::{Color, IdSet, Measure, Shaft, Symbol, WifParse};

#[test]
fn booleans_true() {
    for s in ["Yes", "ON", "1", "true", "TRUE"] {
        assert_eq!(bool::parse(s.to_string()).unwrap(), true);
    }
}

#[test]
fn booleans_false() {
    for s in ["No", "off", "0", "False"] {
        assert_eq!(bool::parse(s.to_string()).unwrap(), false);
    }
}

#[test]
fn boolean_rejects_other_text() {
    match bool::parse("maybe".to_string()) {
        Err(WifError::ExpectedBool { saw }) => assert_eq!(saw, "maybe"),
        other => panic!("unexpected {:?}", other),
    }
}

#[test]
fn boolean_written_canonically() {
    assert_eq!(true.unparse(), Some("true".to_string()));
    assert_eq!(false.unparse(), Some("false".to_string()));
}

#[test]
fn pair_of_integers() {
    assert_eq!(<(u32, u32)>::parse("10,20".to_string()).unwrap(), (10, 20));
    assert_eq!((10u32, 20u32).unparse(), Some("10,20".to_string()));
}

#[test]
fn pair_needs_a_comma() {
    match <(u32, u32)>::parse(String::new()) {
        Err(WifError::ExpectedPair { saw }) => assert_eq!(saw, ""),
        other => panic!("unexpected {:?}", other),
    }
}

#[test]
fn pair_part_must_be_a_number() {
    assert!(matches!(
        <(u32, u32)>::parse("10,x".to_string()),
        Err(WifError::InvalidNumber { .. })
    ));
}

#[test]
fn set_of_indices() {
    let s = IdSet::<Shaft>::parse("1,3,5".to_string()).unwrap();
    assert_eq!(s.len(), 3);
    assert_eq!(s.get(0), Shaft(1));
    assert_eq!(s.get(1), Shaft(3));
    assert_eq!(s.get(2), Shaft(5));
    assert!(s.contains(3));
    assert!(!s.contains(2));
}

#[test]
fn set_is_sorted_and_deduplicated() {
    let s = IdSet::<Shaft>::parse("5,1,5,3".to_string()).unwrap();
    assert_eq!(s.unparse(), Some("1,3,5".to_string()));
}

#[test]
fn set_fails_on_a_bad_member() {
    match IdSet::<Shaft>::parse("1,x,3".to_string()) {
        Err(WifError::InvalidNumber { saw }) => assert_eq!(saw, "x"),
        other => panic!("unexpected {:?}", other),
    }
}

#[test]
fn numbers() {
    assert_eq!(u32::parse("42".to_string()).unwrap(), 42);
    assert_eq!(u32::parse("+7".to_string()).unwrap(), 7);
    assert_eq!(u32::parse("4294967295".to_string()).unwrap(), u32::MAX);
    assert!(u32::parse("4294967296".to_string()).is_err());
    assert!(u32::parse("".to_string()).is_err());
    assert!(u32::parse("-1".to_string()).is_err());
    assert_eq!(1234u32.unparse(), Some("1234".to_string()));
    assert_eq!(0u32.unparse(), Some("0".to_string()));
}

#[test]
fn colors() {
    let c = Color::parse(" 999, 0 ,500".to_string()).unwrap();
    assert_eq!(c, Color { red: 999, green: 0, blue: 500 });
    assert_eq!(c.unparse(), Some("999,0,500".to_string()));
}

#[test]
fn color_needs_three_parts() {
    assert!(matches!(
        Color::parse("1,2".to_string()),
        Err(WifError::ColorsMustBeThreeParts)
    ));
    assert!(matches!(
        Color::parse("1,2,3,4".to_string()),
        Err(WifError::ColorsMustBeThreeParts)
    ));
    assert!(matches!(
        Color::parse("1,b,3".to_string()),
        Err(WifError::InvalidNumber { .. })
    ));
}

#[test]
fn symbols() {
    assert_eq!(Symbol::parse("x".to_string()).unwrap(), Symbol::Char('x'));
    assert_eq!(Symbol::parse("'#".to_string()).unwrap(), Symbol::Quoted('#'));
    assert_eq!(Symbol::parse("#65".to_string()).unwrap(), Symbol::Code('A'));
    assert_eq!(Symbol::Code('A').unparse(), Some("#65".to_string()));
    assert_eq!(Symbol::Quoted('a').unparse(), Some("'a".to_string()));
    assert!(matches!(
        Symbol::parse(String::new()),
        Err(WifError::ExpectedSymbol { .. })
    ));
    assert!(matches!(
        Symbol::parse("#55296".to_string()),
        Err(WifError::ExpectedSymbol { .. })
    ));
}

#[test]
fn measures() {
    assert!(Measure::parse("1.5".to_string()).is_ok());
    assert!(Measure::parse("-.5e3".to_string()).is_ok());
    assert!(Measure::parse("2".to_string()).is_ok());
    assert!(matches!(
        Measure::parse("1.5x".to_string()),
        Err(WifError::InvalidFloat { .. })
    ));
    assert!(Measure::parse(".".to_string()).is_err());
}

#[test]
fn dates() {
    let d = wif::Date::parse("April 20, 1997".to_string()).unwrap();
    assert_eq!((d.year, d.month, d.day), (1997, 4, 20));
    assert_eq!(d.unparse(), Some("April 20, 1997".to_string()));
    assert!(matches!(
        wif::Date::parse("20/04/1997".to_string()),
        Err(WifError::InvalidDate { .. })
    ));
}

#[test]
fn identifiers() {
    assert_eq!(Shaft::parse("12".to_string()).unwrap(), Shaft(12));
    assert_eq!(wif::Treadle(3).unparse(), Some("3".to_string()));
    assert!(matches!(
        wif::Warp::parse("w".to_string()),
        Err(WifError::InvalidNumber { .. })
    ));
    assert_eq!(wif::Weft::from(9), wif::Weft(9));
}
