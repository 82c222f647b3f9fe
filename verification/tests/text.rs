use std::borrow::Cow;

use pointers_threads::th1::th1f::{
    cow_is_owned, cow_type, create_cow_owned, make_cow_for_u8, make_owned, sanitize,
};
use pointers_threads::th3::th3b::St;
use pointers_threads::th3::th3d::{AnyMusic, Classic, Music, Pop, Rock};

#[test]
fn sanitize_keeps_plain_text_borrowed() {
    let r = sanitize("hello world");
    assert_eq!(cow_type(&r), "Borrowed");
    assert_eq!(r, "hello world");
}

#[test]
fn sanitize_escapes_angle_brackets() {
    let r = sanitize("hello <world>");
    assert_eq!(cow_type(&r), "Owned");
    assert_eq!(r, "hello <<<world>>>");
    assert_eq!(sanitize("<>"), "<<<>>>");
    assert_eq!(sanitize(""), "");
    assert_eq!(cow_type(&sanitize("")), "Borrowed");
    assert_eq!(sanitize("é<ü"), "é<<<ü");
}

#[test]
fn cow_owned_conversions() {
    let c1: Cow<'_, str> = Cow::Borrowed("Hello there");
    assert_eq!(make_owned(c1), String::from("Hello there"));
    let z = create_cow_owned(Cow::Borrowed("Hello there"));
    assert_eq!(cow_type(&z), "Owned");
    assert_eq!(z, "Hello there");
    let z = create_cow_owned(Cow::<str>::Owned(String::from("owned")));
    assert_eq!(cow_type(&z), "Owned");
    assert_eq!(make_owned(z), "owned");
}

#[test]
fn cow_owned_conversions_of_slices_and_numbers() {
    let x: [u8; 5] = [1, 2, 3, 4, 5];
    let y: Vec<u8> = make_owned(Cow::Borrowed(&x[..]));
    assert_eq!(y, vec![1, 2, 3, 4, 5]);
    let n = 5;
    assert_eq!(make_owned(Cow::Borrowed(&n)), 5);
    let z = create_cow_owned(Cow::Borrowed(&x[..]));
    assert_eq!(cow_type(&z), "Owned");
    assert_eq!(&*z, &[1u8, 2, 3, 4, 5][..]);
    let z = create_cow_owned(Cow::Borrowed(&n));
    assert_eq!(cow_type(&z), "Owned");
    assert_eq!(*z, 5);
    let owned: Cow<'_, [u8]> = Cow::Owned(vec![9, 8]);
    let z = create_cow_owned(owned);
    assert_eq!(make_owned(z), vec![9, 8]);
}

#[test]
fn cow_type_on_slices() {
    let x = [1, 2, 3, 4, 5];
    let mut c1: Cow<'_, [i32]> = Cow::Borrowed(&x[..]);
    assert_eq!(cow_type(&c1), "Borrowed");
    c1.to_mut().push(6);
    assert_eq!(cow_type(&c1), "Owned");
}

#[test]
fn make_cow_for_u8_by_remainder() {
    let y = make_cow_for_u8(8);
    assert_eq!(cow_type(&y), "Owned");
    assert_eq!(y, "Convert to Owned Cow");
    let y = make_cow_for_u8(3);
    assert_eq!(cow_type(&y), "Borrowed");
    assert_eq!(y, "Convert to borrowed Cow");
    assert!(cow_is_owned(8));
    assert!(!cow_is_owned(3));
    assert!(!cow_is_owned(0));
    assert!(!cow_is_owned(255));
    assert!(cow_is_owned(254));
}

#[test]
fn music_lines() {
    assert_eq!(Rock.sound(), "Rock on!!!");
    assert_eq!(Rock.instrument(), Some("Instrument - Guitar: \u{1F3B8}"));
    assert_eq!(Pop.sound(), "Yeee heee..");
    assert_eq!(Pop.instrument(), None);
    assert_eq!(Classic.sound(), "Do ray me");
    assert_eq!(Classic.instrument(), None);
}

#[test]
fn erased_music_answers_as_the_genre() {
    assert_eq!(AnyMusic::new(&Rock).sound(), Rock.sound());
    assert_eq!(AnyMusic::new(&Rock).instrument(), Rock.instrument());
    let mut any_music = AnyMusic::new(&Pop);
    assert_eq!(any_music.sound(), "Yeee heee..");
    assert_eq!(any_music.instrument(), None);
    any_music = AnyMusic::new(&Classic);
    assert_eq!(any_music.sound(), "Do ray me");
    assert_eq!(any_music.instrument(), None);
}

#[test]
fn st_get_answers() {
    let x = St { a: "Yo".to_string(), b: "Mama" };
    assert_eq!(x.get("random"), Some("random".to_string()));
    assert_eq!(x.get("said"), Some("said".to_string()));
    assert_eq!(x.get("hahhhahahah"), None);
    assert_eq!(x.get("a"), Some("Yo".to_string()));
    assert_eq!(x.get("Mo"), Some("Yo".to_string()));
    assert_eq!(x.get("1234567"), Some("1234567".to_string()));
    assert_eq!(x.get("12345678"), None);
    assert_eq!(x.b, "Mama");
}

#[test]
fn sanitize_escapes_piece_by_piece() {
    let whole = sanitize("<ab>");
    let joined = format!("{}{}", sanitize("<a"), sanitize("b>"));
    assert_eq!(whole, joined.as_str());
    assert_eq!(whole, "<<<ab>>>");
}
