use cch24::modules::day_twenty_three::{
    dot_of, dots_of, lockfile, ornament, ornament_of, present, present_of, star, switch_of,
    Checksum, Color, Lockfile, Package, Upload, DIGEST_SIZE, RIBBON, STAR,
};
use cch24::utils::error_handling::{Error, ErrorKind};
use cch24::utils::reply::Status;

fn digest(front: &[u8]) -> [u8; 32] {
    let mut digest = [0u8; 32];
    digest[..front.len()].copy_from_slice(front);
    digest
}

fn package(front: &[u8]) -> Package {
    Package { checksum: Some(Checksum::from(digest(front))) }
}

#[test]
fn star_is_lit() {
    let reply = star();
    assert_eq!(reply.status, Status::Success);
    assert_eq!(reply.body, "<div id=\"star\" class=\"lit\"></div>");
    assert_eq!(STAR, r#"<div id="star" class="lit"></div>"#);
}

#[test]
fn colors_follow_each_other_in_a_ring() {
    assert_eq!(Color::Red.next(), Color::Blue);
    assert_eq!(Color::Blue.next(), Color::Purple);
    assert_eq!(Color::Purple.next(), Color::Red);
    assert_eq!(Color::Red.next().next().next(), Color::Red);
}

#[test]
fn colors_have_lower_case_names() {
    assert_eq!(Color::Red.name(), "red");
    assert_eq!(Color::Blue.name(), "blue");
    assert_eq!(Color::Purple.name(), "purple");
}

#[test]
fn colors_are_read_in_any_case() {
    assert_eq!(Color::try_from("red".to_string()), Ok(Color::Red));
    assert_eq!(Color::try_from("RED".to_string()), Ok(Color::Red));
    assert_eq!(Color::try_from("Blue".to_string()), Ok(Color::Blue));
    assert_eq!(Color::try_from("pUrPlE".to_string()), Ok(Color::Purple));
    for unknown in ["green", "", "red ", " red", "reď"] {
        assert_eq!(
            Color::try_from(unknown.to_string()),
            Err(Error::new(ErrorKind::InvalidColor))
        );
    }
    assert_eq!(Error::new(ErrorKind::InvalidColor).message(), "Invalid color");
}

#[test]
fn color_names_are_exact_when_read_as_written() {
    assert_eq!(Color::from_name("red"), Ok(Color::Red));
    assert_eq!(Color::from_name("blue"), Ok(Color::Blue));
    assert_eq!(Color::from_name("purple"), Ok(Color::Purple));
    assert_eq!(Color::from_name("RED"), Err(Error::new(ErrorKind::InvalidColor)));
}

#[test]
fn present_asks_for_the_next_color() {
    let expected = r#"<div class="present red" hx-get="/23/present/blue" hx-swap="outerHTML">
  <div class="ribbon"></div>
  <div class="ribbon"></div>
  <div class="ribbon"></div>
  <div class="ribbon"></div>
</div>
"#;
    assert_eq!(present_of(Color::Red), expected);
    let reply = present("red".to_string());
    assert_eq!(reply.status, Status::Success);
    assert_eq!(reply.body, expected);
    let reply = present("PURPLE".to_string());
    assert_eq!(reply.status, Status::Success);
    assert!(reply
        .body
        .starts_with("<div class=\"present purple\" hx-get=\"/23/present/red\" hx-swap=\"outerHTML\">\n"));
    assert!(reply.body.ends_with(&format!("{}</div>\n", RIBBON.repeat(4))));
    assert_eq!(RIBBON, "  <div class=\"ribbon\"></div>\n");
    assert_eq!(present_of(Color::Blue).matches("ribbon").count(), 4);
}

#[test]
fn present_of_an_unknown_color_is_a_teapot() {
    let reply = present("green".to_string());
    assert_eq!(reply.status, Status::ImATeapot);
    assert_eq!(reply.status.code(), 418);
    assert_eq!(reply.body, "");
}

#[test]
fn switch_words_are_on_and_off() {
    assert_eq!(switch_of("on"), Some(true));
    assert_eq!(switch_of("off"), Some(false));
    assert_eq!(switch_of("ON"), None);
    assert_eq!(switch_of(""), None);
    assert_eq!(switch_of("of"), None);
}

#[test]
fn ornament_asks_for_the_opposite_state() {
    let reply = ornament("on".to_string(), "1".to_string());
    assert_eq!(reply.status, Status::Success);
    assert_eq!(
        reply.body,
        "<div class=\"ornament on\" id=\"ornament1\" hx-trigger=\"load delay:2s once\" hx-get=\"/23/ornament/off/1\" hx-swap=\"outerHTML\"></div>\n"
    );
    let reply = ornament("OFF".to_string(), "7".to_string());
    assert_eq!(reply.status, Status::Success);
    assert_eq!(
        reply.body,
        "<div class=\"ornament\" id=\"ornament7\" hx-trigger=\"load delay:2s once\" hx-get=\"/23/ornament/on/7\" hx-swap=\"outerHTML\"></div>\n"
    );
    assert_eq!(ornament_of(true, "x"), ornament("On".to_string(), "x".to_string()).body);
}

#[test]
fn ornament_identifier_is_made_safe() {
    let reply = ornament("on".to_string(), "\"><script>alert('&')</script>".to_string());
    assert_eq!(reply.status, Status::Success);
    let safe = "&quot;&gt;&lt;script&gt;alert(&#x27;&amp;&#x27;)&lt;/script&gt;";
    assert_eq!(
        reply.body,
        format!(
            "<div class=\"ornament on\" id=\"ornament{}\" hx-trigger=\"load delay:2s once\" hx-get=\"/23/ornament/off/{}\" hx-swap=\"outerHTML\"></div>\n",
            safe, safe
        )
    );
}

#[test]
fn ornament_in_an_unknown_state_is_a_teapot() {
    for state in ["", "dim", "onn", "o n"] {
        let reply = ornament(state.to_string(), "1".to_string());
        assert_eq!(reply.status, Status::ImATeapot);
        assert_eq!(reply.body, "");
    }
}

#[test]
fn checksum_is_read_from_hex_digits() {
    let text = "337789faa0372648a8ac286b2f92a53121fe118f12e29009ac504872a5145cf5";
    let checksum = Checksum::from_str(text).unwrap();
    assert_eq!(checksum.digest()[0], 0x33);
    assert_eq!(checksum.digest()[1], 0x77);
    assert_eq!(checksum.digest()[31], 0xf5);
    assert_eq!(checksum.to_hex(), text);
    assert_eq!(checksum.to_upper_hex(), text.to_uppercase());
    assert_eq!(checksum.debug_text(), format!("Sha256({})", text));
    assert_eq!(Checksum::from_str(&text.to_uppercase()), Ok(checksum));
}

#[test]
fn short_checksum_is_filled_with_zeros() {
    let checksum = Checksum::from_str("ff00aA10").unwrap();
    assert_eq!(checksum, Checksum::from(digest(&[0xff, 0x00, 0xaa, 0x10])));
    assert_eq!(
        checksum.to_hex(),
        "ff00aa1000000000000000000000000000000000000000000000000000000000"
    );
    assert_eq!(DIGEST_SIZE, 32);
}

#[test]
fn checksum_that_is_no_hex_number_is_invalid() {
    let invalid = Err(Error::new(ErrorKind::InvalidChecksum));
    for text in [
        "",
        "ab",
        "abcdef",
        "abcdef0",
        "abcdef012",
        "abcdefgh",
        "0x123456",
        "+1234567",
        "1234 678",
        "éééé",
        "12345678ü",
    ] {
        assert_eq!(Checksum::from_str(text), invalid, "{}", text);
    }
    assert_eq!(Error::new(ErrorKind::InvalidChecksum).message(), "invalid_checksum");
}

#[test]
fn long_text_that_is_no_hex_number_is_invalid_too() {
    let invalid = Err(Error::new(ErrorKind::InvalidChecksum));
    let odd = "a".repeat(65);
    assert!(!Checksum::is_valid(&odd));
    assert_eq!(Checksum::from_str(&odd), invalid);
    let other = format!("{}xy", "0".repeat(64));
    assert!(!Checksum::is_valid(&other));
    assert_eq!(Checksum::from_str(&other), invalid);
}

#[test]
fn validity_is_told_without_reading() {
    assert!(Checksum::is_valid("12345678"));
    assert!(Checksum::is_valid("abcdefABCDEF0123456789"));
    assert!(Checksum::is_valid(&"f".repeat(64)));
    assert!(Checksum::is_valid(&"f".repeat(66)));
    assert!(!Checksum::is_valid(""));
    assert!(!Checksum::is_valid("123456"));
    assert!(!Checksum::is_valid("123456789"));
    assert!(!Checksum::is_valid("1234567g"));
    assert!(!Checksum::is_valid("éééé"));
}

#[test]
fn dot_takes_color_and_place_from_the_digest() {
    let checksum = Checksum::from(digest(&[0x33, 0x77, 0x89, 0xfa, 0xa0]));
    assert_eq!(
        dot_of(&checksum),
        "<div style=\"background-color:#337789;top:250px;left:160px;\"></div>\n"
    );
    let checksum = Checksum::from(digest(&[0, 1, 0x0a, 0, 9]));
    assert_eq!(
        dot_of(&checksum),
        "<div style=\"background-color:#00010a;top:0px;left:9px;\"></div>\n"
    );
}

#[test]
fn dots_skip_packages_without_checksum() {
    let lock = Lockfile {
        package: vec![
            Package { checksum: None },
            package(&[0x33, 0x77, 0x89, 0xfa, 0xa0]),
            Package { checksum: None },
            package(&[0x22, 0xba, 0x45, 0x4b, 0x13]),
            Package { checksum: None },
        ],
    };
    let expected = "<div style=\"background-color:#337789;top:250px;left:160px;\"></div>\n\n<div style=\"background-color:#22ba45;top:75px;left:19px;\"></div>\n";
    assert_eq!(dots_of(&lock), expected);
    let reply = lockfile(&Upload::Parsed(lock));
    assert_eq!(reply.status, Status::Success);
    assert_eq!(reply.body, expected);
}

#[test]
fn lockfile_without_checksums_shows_nothing() {
    assert_eq!(dots_of(&Lockfile { package: vec![] }), "");
    let lock = Lockfile { package: vec![Package { checksum: None }] };
    let reply = lockfile(&Upload::Parsed(lock));
    assert_eq!(reply.status, Status::Success);
    assert_eq!(reply.body, "");
}

#[test]
fn lockfile_that_was_not_read_is_turned_away() {
    let reply = lockfile(&Upload::Missing);
    assert_eq!((reply.status, reply.body.as_str()), (Status::BadRequest, ""));
    let reply = lockfile(&Upload::Unreadable("invalid_checksum".to_string()));
    assert_eq!((reply.status, reply.body.as_str()), (Status::UnprocessableEntity, ""));
    assert_eq!(reply.status.code(), 422);
    let reply = lockfile(&Upload::Unreadable("missing field `package`".to_string()));
    assert_eq!((reply.status, reply.body.as_str()), (Status::BadRequest, ""));
    let reply = lockfile(&Upload::Unreadable("Invalid_checksum".to_string()));
    assert_eq!(reply.status, Status::BadRequest);
}
