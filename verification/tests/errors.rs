use bearings::error::{UNKNOWN_OBJECT_TEXT, UUID_IN_USE_TEXT};
use bearings::{as_error, never_invoke, Error, UserErrorHolder};

#[test]
fn user_errors_round_trip() {
    let e: Error<usize> = as_error(123);
    assert_eq!(e.to_user(), Some(&123));
    let other: Error<usize> = Error::Stringized("boom".to_string());
    assert_eq!(other.to_user(), None);
    let holder = UserErrorHolder::new(5u8);
    assert_eq!(holder.into_inner(), 5);
}

#[test]
fn error_texts() {
    let e: Error<()> = Error::UuidAlreadyInUse;
    assert_eq!(e.describe().unwrap(), UUID_IN_USE_TEXT);
    assert_eq!(
        UUID_IN_USE_TEXT,
        "the service already serves an object with the same uuid as the object you tried to add"
    );
    let e: Error<()> = Error::Stringized("broken pipe".to_string());
    assert_eq!(e.describe().unwrap(), "broken pipe");
    let e: Error<()> = Error::UnknownObject(3);
    assert_eq!(e.describe().unwrap(), UNKNOWN_OBJECT_TEXT);
    let e: Error<u32> = as_error(9);
    assert_eq!(e.describe(), None);
    let io = std::io::Error::new(std::io::ErrorKind::Other, "stream closed");
    let e: Error<()> = Error::from(io);
    assert_eq!(e.describe().unwrap(), "stream closed");
}

#[test]
fn conversions_pick_the_variant() {
    let io = std::io::Error::new(std::io::ErrorKind::Other, "x");
    assert!(matches!(Error::<()>::from(io), Error::IoError(_)));
    let json = serde_json::from_str::<u8>("not json").unwrap_err();
    let text = json.to_string();
    let e = Error::<()>::from(json);
    assert!(matches!(e, Error::JsonError(_)));
    assert_eq!(e.describe().unwrap(), text);
}

#[test]
fn undecodable_variants_decode_to_nothing() {
    assert_eq!(never_invoke::<u32, &str>("anything"), None);
}
