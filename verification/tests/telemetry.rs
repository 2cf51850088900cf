use proctor::elements::telemetry::{FieldSet, TelemetryData};

fn text(s: &str) -> String {
    s.to_string()
}

fn data(entries: &[(&str, &str)]) -> TelemetryData {
    TelemetryData::from_data(entries.iter().map(|(k, v)| (text(k), text(v))).collect())
}

#[test]
fn a_field_set_lists_each_name_once() {
    let mut set = FieldSet::from_names(vec![text("a"), text("b"), text("a")]);
    assert_eq!(set.len(), 2);
    assert_eq!(set.names(), &vec![text("a"), text("b")]);
    assert!(set.contains(&text("b")));
    assert!(!set.contains(&text("c")));
    assert!(set.insert(text("c")));
    assert!(!set.insert(text("c")));
    assert_eq!(set.len(), 3);
    assert!(!set.is_empty());
    assert!(FieldSet::new().is_empty());
}

#[test]
fn field_sets_are_compared_as_sets() {
    let ab = FieldSet::from_names(vec![text("a"), text("b")]);
    let ba = FieldSet::from_names(vec![text("b"), text("a")]);
    let a = FieldSet::from_names(vec![text("a")]);
    assert_eq!(ab, ba);
    assert!(ab != a);
    assert!(a.is_subset(&ab));
    assert!(!ab.is_subset(&a));
    assert!(ab.intersects(&a));
    assert!(!FieldSet::new().intersects(&a));
    assert_eq!(ab.clone(), ba);
}

#[test]
fn a_later_value_replaces_an_earlier_one() {
    let record = data(&[("a", "1"), ("b", "2"), ("a", "3")]);
    assert_eq!(record.get(&text("a")), Some(&text("3")));
    assert_eq!(record.get(&text("b")), Some(&text("2")));
    assert_eq!(record.get(&text("c")), None);
    assert_eq!(record.keys(), FieldSet::from_names(vec![text("a"), text("b")]));
}

#[test]
fn extending_prefers_the_new_values() {
    let mut record = data(&[("a", "1"), ("b", "2")]);
    record.extend(data(&[("b", "3"), ("c", "4")]));
    assert_eq!(record, data(&[("a", "1"), ("b", "3"), ("c", "4")]));
    record.extend(data(&[("b", "3"), ("c", "4")]));
    assert_eq!(record, data(&[("c", "4"), ("b", "3"), ("a", "1")]));
    record.insert(text("a"), text("9"));
    assert_eq!(record.get(&text("a")), Some(&text("9")));
}

#[test]
fn retaining_keeps_the_chosen_fields() {
    let mut record = data(&[("a", "1"), ("b", "2"), ("c", "3")]);
    record.retain(&FieldSet::from_names(vec![text("c"), text("a"), text("z")]));
    assert_eq!(record, data(&[("a", "1"), ("c", "3")]));
    assert!(record != data(&[("a", "1"), ("c", "4")]));
    assert!(record != data(&[("a", "1")]));
    assert!(data(&[("a", "1")]) != record);
    record.retain(&FieldSet::new());
    assert!(record.is_empty());
    assert_eq!(record, TelemetryData::default());
    assert_eq!(record.clone(), TelemetryData::new());
}
