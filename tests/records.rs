use grss::decimal::push_decimal;
use grss::person::Person;
use grss::records::{ExampleStruct, PrivateData, PrivateStructPublicFields};

fn alice() -> Person {
    Person::new("Alice".to_string(), 25, "alice@example.com".to_string())
}

#[test]
fn greet_names_person_and_age() {
    assert_eq!(alice().greet(), "Hello, my name is Alice and I'm 25 years old");
}

#[test]
fn greet_with_zero_and_largest_age() {
    let baby = Person::new("Bo".to_string(), 0, String::new());
    assert_eq!(baby.greet(), "Hello, my name is Bo and I'm 0 years old");
    let old = Person::new("Zed".to_string(), u32::MAX, String::new());
    assert_eq!(old.greet(), "Hello, my name is Zed and I'm 4294967295 years old");
}

#[test]
fn new_person_is_active_until_deactivated() {
    let mut p = alice();
    assert!(p.is_active());
    p.deactivate();
    assert!(!p.is_active());
    assert_eq!(p.greet(), "Hello, my name is Alice and I'm 25 years old");
}

#[test]
fn delete_gives_notice() {
    let p = Person::new("John Doe".to_string(), 25, "john@example.com".to_string());
    assert_eq!(p.delete(), "John Doe has been permanently deleted");
}

#[test]
fn decimal_digits_are_appended() {
    let mut s = "n=".to_string();
    push_decimal(&mut s, 1070);
    assert_eq!(s, "n=1070");
    let mut z = String::new();
    push_decimal(&mut z, 9);
    assert_eq!(z, "9");
}

#[test]
fn example_struct_holds_value() {
    assert_eq!(ExampleStruct::new(-7).value, -7);
    assert_eq!(ExampleStruct::new(i32::MAX), ExampleStruct { value: i32::MAX });
}

#[test]
fn private_fields_reached_through_methods() {
    let r = PrivateStructPublicFields::new(3, "cfg".to_string(), "hidden".to_string());
    assert_eq!(r.id, 3);
    assert_eq!(r.name, "cfg");
    assert_eq!(r.get_internal_data(), "hidden");
}

#[test]
fn secret_is_revealed() {
    let d = PrivateData::new("Top Secret".to_string());
    assert_eq!(d.reveal_secret(), "Top Secret");
}
