//! Property bags: round trips by id and by name, the blank default, the
//! interior-nul error, and the decimal rendering of numeric values.

use spx::engine::Engine;
use spx::error::SpxError;
use spx::properties::{decimal_string, Properties, PropertyBag};

fn bag(engine: &mut Engine) -> Properties {
    let h = engine.open_bag().unwrap();
    Properties::new(h)
}

#[test]
fn put_then_get_by_id_round_trips() {
    let mut engine = Engine::new();
    let props = bag(&mut engine);
    let cases: [(u32, &str); 4] = [
        (1000, "a subscription key"),
        (3001, "de-DE"),
        (42, ""),
        (7, "gr\u{00fc}\u{00df} Gott \u{4e16}\u{754c}"),
    ];
    for (id, value) in cases.iter() {
        props.put_by_id(&mut engine, *id, value).unwrap();
        let got = props.get_by_id(&engine, *id).unwrap();
        assert_eq!(got.as_str(), *value);
    }
}

#[test]
fn put_then_get_by_name_round_trips() {
    let mut engine = Engine::new();
    let props = bag(&mut engine);
    props.put_by_name(&mut engine, "endpoint", "wss://example").unwrap();
    props.put_by_name(&mut engine, "empty", "").unwrap();
    let a = props.get_by_name(&engine, &"endpoint".to_string()).unwrap();
    let b = props.get_by_name(&engine, &"empty".to_string()).unwrap();
    assert_eq!(a.as_str(), "wss://example");
    assert_eq!(b.as_str(), "");
}

#[test]
fn a_later_put_wins_and_other_ids_keep_their_value() {
    let mut engine = Engine::new();
    let props = bag(&mut engine);
    props.put_by_id(&mut engine, 1, "first").unwrap();
    props.put_by_id(&mut engine, 2, "other").unwrap();
    props.put_by_id(&mut engine, 1, "second").unwrap();
    assert_eq!(props.get_by_id(&engine, 1).unwrap().as_str(), "second");
    assert_eq!(props.get_by_id(&engine, 2).unwrap().as_str(), "other");
}

#[test]
fn a_key_never_set_reads_as_the_blank_default() {
    let mut engine = Engine::new();
    let props = bag(&mut engine);
    assert_eq!(props.get_by_id(&engine, 9999).unwrap().as_str(), "");
    assert_eq!(
        props.get_by_name(&engine, &"nothing".to_string()).unwrap().as_str(),
        ""
    );
}

#[test]
fn an_interior_nul_byte_is_a_documented_error() {
    let mut engine = Engine::new();
    let props = bag(&mut engine);
    assert!(matches!(
        props.put_by_id(&mut engine, 1, "bad\0value"),
        Err(SpxError::IsNull)
    ));
    assert!(matches!(
        props.put_by_name(&mut engine, "na\0me", "v"),
        Err(SpxError::IsNull)
    ));
    assert!(matches!(
        props.put_by_name(&mut engine, "name", "v\0"),
        Err(SpxError::IsNull)
    ));
    // The store is untouched by the refused writes.
    assert_eq!(props.get_by_id(&engine, 1).unwrap().as_str(), "");
}

#[test]
fn operations_on_a_dead_bag_report_the_engine_error() {
    let mut engine = Engine::new();
    let mut props = bag(&mut engine);
    let h = props.handle;
    props.release(&mut engine);
    let stale = Properties::new(h);
    assert!(matches!(
        stale.get_by_id(&engine, 1),
        Err(SpxError::ApiError(_))
    ));
}

#[test]
fn decimal_rendering_is_exact() {
    assert_eq!(decimal_string(0).as_str(), "0");
    assert_eq!(decimal_string(7).as_str(), "7");
    assert_eq!(decimal_string(10).as_str(), "10");
    assert_eq!(decimal_string(8080).as_str(), "8080");
    assert_eq!(decimal_string(u32::MAX).as_str(), "4294967295");
}

#[test]
fn from_hr_maps_status_codes() {
    assert!(spx::error::from_hr(0).is_ok());
    assert!(matches!(
        spx::error::from_hr(0x21),
        Err(SpxError::ApiError(0x21))
    ));
}
