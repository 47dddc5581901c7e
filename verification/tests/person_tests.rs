use chrono::{TimeZone, Utc};
use wininfra::hello::Person;

#[test]
fn age_should_be_15() {
    let birth_date = Utc.with_ymd_and_hms(2000, 2, 29, 0, 0, 0).unwrap();
    let person = Person::new(&"Leap".to_string(), birth_date.timestamp());
    let expected_age = (Utc::now().signed_duration_since(birth_date).num_days() / 365) as u32;
    assert_eq!(person.age(), Some(expected_age));
}

#[test]
fn calendar_range_bounds() {
    let min = chrono::DateTime::<Utc>::MIN_UTC.timestamp();
    let max = chrono::DateTime::<Utc>::MAX_UTC.timestamp();
    assert_eq!(min, -8334601228800);
    assert_eq!(max, 8210266876799);
    let p = Person::new(&"Born".to_string(), 0);
    assert!(p.age_at(max).is_some());
    assert!(p.age_at(min).is_some());
    assert_eq!(p.age_at(max + 1), None);
    assert_eq!(p.age_at(min - 1), None);
    let far = Person::new(&"Far".to_string(), max + 1);
    assert_eq!(far.age(), None);
    assert!(far.age_at(0).is_none());
}
