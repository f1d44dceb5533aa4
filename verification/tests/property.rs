use raptor::error::ErrorCode;
use raptor::property::{
    forget_observer_id, parse_property_value, unobserve_property, DefaultPropertyStore, ObserverIdCounter,
    PropertyValue,
};

fn make_store() -> DefaultPropertyStore {
    DefaultPropertyStore::new()
}

#[test]
fn test_get_set() {
    let mut store = make_store();
    store.set("volume", PropertyValue::Int(80));
    assert_eq!(store.get("volume"), Some(PropertyValue::Int(80)));
}

#[test]
fn test_get_missing() {
    let store = make_store();
    assert_eq!(store.get("nonexistent"), None);
}

#[test]
fn test_set_different_types() {
    let mut store = make_store();
    store.set("name", PropertyValue::String("test".into()));
    store.set("volume", PropertyValue::Int(50));
    store.set("position", PropertyValue::Float(1.5f64.to_bits()));
    store.set("muted", PropertyValue::Bool(false));

    assert_eq!(store.get("name"), Some(PropertyValue::String("test".into())));
    assert_eq!(store.get("volume"), Some(PropertyValue::Int(50)));
    assert_eq!(store.get("position"), Some(PropertyValue::Float(1.5f64.to_bits())));
    assert_eq!(store.get("muted"), Some(PropertyValue::Bool(false)));
}

#[test]
fn test_observer_triggered() {
    let mut store = make_store();
    let mut ids = ObserverIdCounter::new();
    let id = store.observe("volume", &mut ids);
    let notified = store.set("volume", PropertyValue::Int(90));
    assert!(notified.contains(&id));
}

#[test]
fn test_observer_receives_value() {
    let mut store = make_store();
    let mut ids = ObserverIdCounter::new();
    let id = store.observe("volume", &mut ids);
    let notified = store.set("volume", PropertyValue::Int(42));
    assert_eq!(notified, vec![id]);
    assert_eq!(store.get("volume"), Some(PropertyValue::Int(42)));
}

#[test]
fn test_unobserve() {
    let mut store = make_store();
    let mut ids = ObserverIdCounter::new();
    let id = store.observe("volume", &mut ids);
    assert!(store.unobserve("volume", id));
    let notified = store.set("volume", PropertyValue::Int(100));
    assert!(!notified.contains(&id));
}

#[test]
fn test_unobserve_nonexistent() {
    let mut store = make_store();
    assert!(!store.unobserve("volume", 999));
}

#[test]
fn test_multiple_observers() {
    let mut store = make_store();
    let mut ids = ObserverIdCounter::new();
    for _ in 0..3 {
        store.observe("volume", &mut ids);
    }
    let notified = store.set("volume", PropertyValue::Int(50));
    assert_eq!(notified.len(), 3);
}

// === Further cases ===

#[test]
fn overwrite_keeps_other_keys() {
    let mut store = make_store();
    store.set("a", PropertyValue::Int(1));
    store.set("b", PropertyValue::Int(2));
    store.set("a", PropertyValue::Bool(true));
    assert_eq!(store.get("a"), Some(PropertyValue::Bool(true)));
    assert_eq!(store.get("b"), Some(PropertyValue::Int(2)));
}

#[test]
fn observer_ids_count_up_from_one() {
    let mut store = make_store();
    let mut ids = ObserverIdCounter::new();
    assert_eq!(store.observe("x", &mut ids), 1);
    assert_eq!(store.observe("y", &mut ids), 2);
    assert_eq!(ids.next_observer_id(), 3);
    assert_eq!(store.observe("x", &mut ids), 4);
}

#[test]
fn notifications_follow_registration_order_per_key() {
    let mut store = make_store();
    let mut ids = ObserverIdCounter::new();
    let a = store.observe("volume", &mut ids);
    let b = store.observe("position", &mut ids);
    let c = store.observe("volume", &mut ids);
    assert_eq!(store.set("volume", PropertyValue::Int(1)), vec![a, c]);
    assert_eq!(store.set("position", PropertyValue::Int(1)), vec![b]);
    assert_eq!(store.set("other", PropertyValue::Int(1)), Vec::<i64>::new());
}

#[test]
fn unobserve_needs_matching_key() {
    let mut store = make_store();
    let mut ids = ObserverIdCounter::new();
    let id = store.observe("volume", &mut ids);
    assert!(!store.unobserve("position", id));
    assert!(store.unobserve("volume", id));
    assert!(!store.unobserve("volume", id));
}

#[test]
fn json_of_each_kind() {
    assert_eq!(PropertyValue::Int(-42).to_json(), Some("-42".to_string()));
    assert_eq!(PropertyValue::Int(0).to_json(), Some("0".to_string()));
    assert_eq!(PropertyValue::Int(i64::MIN).to_json(), Some("-9223372036854775808".to_string()));
    assert_eq!(PropertyValue::Bool(true).to_json(), Some("true".to_string()));
    assert_eq!(PropertyValue::Bool(false).to_json(), Some("false".to_string()));
    assert_eq!(PropertyValue::String("a\"b".into()).to_json(), Some("\"a\\\"b\"".to_string()));
    assert_eq!(PropertyValue::String("a\\b".into()).to_json(), Some("\"a\\\\b\"".to_string()));
    assert_eq!(PropertyValue::String("l1\nl2\t\r".into()).to_json(), Some("\"l1\\nl2\\t\\r\"".to_string()));
    assert_eq!(PropertyValue::String("\u{8}\u{c}\u{1}\u{1f}".into()).to_json(), Some("\"\\b\\f\\u0001\\u001f\"".to_string()));
    assert_eq!(PropertyValue::String("é/\u{7f}".into()).to_json(), Some("\"é/\u{7f}\"".to_string()));
    assert_eq!(PropertyValue::String("".into()).to_json(), Some("\"\"".to_string()));
    assert_eq!(PropertyValue::Float(2.5f64.to_bits()).to_json(), None);
}

#[test]
fn parse_values_in_order() {
    assert_eq!(parse_property_value("42", Some(42.0f64.to_bits())), PropertyValue::Int(42));
    assert_eq!(parse_property_value("-7", None), PropertyValue::Int(-7));
    assert_eq!(parse_property_value("+7", None), PropertyValue::Int(7));
    assert_eq!(parse_property_value("1.5", Some(1.5f64.to_bits())), PropertyValue::Float(1.5f64.to_bits()));
    assert_eq!(parse_property_value("true", None), PropertyValue::Bool(true));
    assert_eq!(parse_property_value("false", None), PropertyValue::Bool(false));
    assert_eq!(parse_property_value("\"hello\"", None), PropertyValue::String("hello".into()));
    assert_eq!(parse_property_value("\"\"x\"", None), PropertyValue::String("x".into()));
    assert_eq!(parse_property_value("\"\"", None), PropertyValue::String("".into()));
    assert_eq!(parse_property_value("9223372036854775808", Some(9.223372036854776e18f64.to_bits())),
        PropertyValue::Float(9.223372036854776e18f64.to_bits()));
}

#[test]
fn json_reads_back() {
    for v in [PropertyValue::Int(123), PropertyValue::Int(-5), PropertyValue::Bool(true), PropertyValue::Bool(false)] {
        let text = v.to_json().unwrap();
        assert_eq!(parse_property_value(&text, None), v);
    }
}

#[test]
fn forget_observer_keeps_others_in_order() {
    let mut ids = vec![3, 1, 3, 2];
    forget_observer_id(&mut ids, 3);
    assert_eq!(ids, vec![1, 2]);
    forget_observer_id(&mut ids, 9);
    assert_eq!(ids, vec![1, 2]);
}

#[test]
fn string_json_matches_serde_json() {
    for text in ["plain", "quote \" and \\ backslash", "tab\tnew\nline\r", "\u{0}\u{7}\u{1b}\u{1f} ", "héllo ✓ \u{7f}", ""] {
        let ours = PropertyValue::String(text.to_string()).to_json().unwrap();
        assert_eq!(ours, serde_json::to_string(text).unwrap());
        let back: String = serde_json::from_str(&ours).unwrap();
        assert_eq!(back, text);
    }
}

#[test]
fn ids_are_unique_across_stores_sharing_a_counter() {
    let mut ids = ObserverIdCounter::new();
    let mut first = make_store();
    let mut second = make_store();
    let a = first.observe("volume", &mut ids);
    let b = second.observe("volume", &mut ids);
    let c = first.observe("volume", &mut ids);
    assert_eq!((a, b, c), (1, 2, 3));
    assert_eq!(first.set("volume", PropertyValue::Int(1)), vec![a, c]);
    assert_eq!(second.set("volume", PropertyValue::Int(1)), vec![b]);
}

#[test]
fn unobserve_by_id_removes_every_registration() {
    let mut store = make_store();
    let mut ids = ObserverIdCounter::new();
    let a = store.observe("volume", &mut ids);
    let b = store.observe("position", &mut ids);
    assert!(store.unobserve_id(a));
    assert!(!store.unobserve_id(a));
    assert_eq!(store.set("volume", PropertyValue::Int(1)), Vec::<i64>::new());
    assert_eq!(store.set("position", PropertyValue::Int(1)), vec![b]);
}

#[test]
fn unobserve_property_reports_unknown_ids() {
    let mut store = make_store();
    let mut ids = ObserverIdCounter::new();
    let mut handle_ids = Vec::new();
    let a = store.observe("volume", &mut ids);
    handle_ids.push(a);
    let b = store.observe("volume", &mut ids);
    handle_ids.push(b);
    assert_eq!(unobserve_property(&mut store, &mut handle_ids, a), 0);
    assert_eq!(handle_ids, vec![b]);
    assert_eq!(store.set("volume", PropertyValue::Int(3)), vec![b]);
    assert_eq!(unobserve_property(&mut store, &mut handle_ids, a), ErrorCode::InvalidArgument.code());
    assert_eq!(unobserve_property(&mut store, &mut handle_ids, 999), -1);
    assert_eq!(handle_ids, vec![b]);
}
