use nostd_cow::{NoStdCow, RefCow};
use std::borrow::Cow;

#[test]
fn borrowed_round_trip_stays_borrowed() {
    let x: i32 = 1;
    let c: RefCow<i32> = NoStdCow::Borrowed(&x);
    let std_cow = c.into_std_cow();
    assert!(matches!(std_cow, Cow::Borrowed(_)));
    let back: RefCow<i32> = NoStdCow::from_std_cow(std_cow);
    assert_eq!(back, NoStdCow::Borrowed(&x));
}

#[test]
fn owned_round_trip_keeps_value() {
    let c: NoStdCow<String, String> = NoStdCow::Owned(String::from("abc"));
    let std_cow = c.into_std_cow();
    assert!(matches!(std_cow, Cow::Owned(_)));
    let back: NoStdCow<String, String> = NoStdCow::from_std_cow(std_cow);
    assert_eq!(back, NoStdCow::Owned(String::from("abc")));
}

#[test]
fn from_impls_match_named_conversions() {
    let x: i32 = 2;
    let from_std: RefCow<i32> = NoStdCow::from(Cow::Borrowed(&x));
    assert_eq!(from_std, NoStdCow::Borrowed(&x));

    let to_std: Cow<i32> = Cow::from(NoStdCow::Owned(3));
    assert_eq!(to_std, Cow::<i32>::Owned(3));
}
