use cch24::modules::day_nine::{
    bad_request, milk, milk_withdrawn, ok, too_many_requests, Milk, BUCKET_INITIAL, BUCKET_MAX,
    BUCKET_REFILL, JSON, REFILL_SECONDS,
};
use cch24::modules::day_nineteen::{
    fetch_limit, has_next_page, next_page, page_offset, FIRST_PAGE, PAGE_SIZE,
};
use cch24::utils::reply::Status;

#[test]
fn bucket_is_set_up_with_five_portions() {
    assert_eq!(BUCKET_MAX, 5);
    assert_eq!(BUCKET_INITIAL, 5);
    assert_eq!(BUCKET_REFILL, 1);
    assert_eq!(REFILL_SECONDS, 1);
    assert_eq!(JSON, "application/json");
}

#[test]
fn fixed_milk_answers() {
    let reply = too_many_requests();
    assert_eq!((reply.status, reply.body.as_str()), (Status::TooManyRequests, "No milk available\n"));
    assert_eq!(reply.status.code(), 429);
    let reply = milk_withdrawn();
    assert_eq!((reply.status, reply.body.as_str()), (Status::Success, "Milk withdrawn\n"));
    let reply = bad_request();
    assert_eq!((reply.status, reply.body.as_str()), (Status::BadRequest, ""));
    let reply = ok();
    assert_eq!((reply.status, reply.body.as_str()), (Status::Success, ""));
}

#[test]
fn empty_bucket_turns_every_request_away() {
    for content_type in [None, Some(&b"application/json"[..]), Some(&b"text/plain"[..])] {
        for has_payload in [false, true] {
            assert_eq!(milk(false, content_type, has_payload), Milk::Answer(too_many_requests()));
        }
    }
}

#[test]
fn request_that_is_not_json_withdraws_milk() {
    for content_type in [
        None,
        Some(&b"text/plain"[..]),
        Some(&b""[..]),
        Some(&b"application/jso"[..]),
        Some(&b"application/json "[..]),
        Some(&b"Application/json"[..]),
        Some(&b"application/json; charset=utf-8"[..]),
        Some(&[0xff, 0xfe][..]),
    ] {
        for has_payload in [false, true] {
            assert_eq!(milk(true, content_type, has_payload), Milk::Answer(milk_withdrawn()));
        }
    }
}

#[test]
fn json_request_needs_a_quantity() {
    assert_eq!(milk(true, Some(b"application/json"), false), Milk::Answer(bad_request()));
    assert_eq!(milk(true, Some(b"application/json"), true), Milk::Convert);
}

#[test]
fn pages_hold_three_quotes() {
    assert_eq!(PAGE_SIZE, 3);
    assert_eq!(FIRST_PAGE, 1);
    assert_eq!(fetch_limit(), 4);
}

#[test]
fn page_starts_behind_the_pages_before_it() {
    assert_eq!(page_offset(1), Some(0));
    assert_eq!(page_offset(2), Some(3));
    assert_eq!(page_offset(3), Some(6));
    assert_eq!(page_offset(100), Some(297));
    assert_eq!(page_offset(0), Some(-3));
    assert_eq!(page_offset(715827883), Some(2147483646));
    assert_eq!(page_offset(-715827881), Some(-2147483646));
    assert_eq!(page_offset(715827884), None);
    assert_eq!(page_offset(-715827882), None);
    assert_eq!(page_offset(i32::MAX), None);
    assert_eq!(page_offset(i32::MIN), None);
}

#[test]
fn another_page_follows_a_full_fetch() {
    assert!(!has_next_page(0));
    assert!(!has_next_page(1));
    assert!(!has_next_page(3));
    assert!(has_next_page(4));
    assert!(has_next_page(5));
}

#[test]
fn next_page_is_one_further() {
    assert_eq!(next_page(1), Some(2));
    assert_eq!(next_page(2), Some(3));
    assert_eq!(next_page(-1), Some(0));
    assert_eq!(next_page(i32::MAX - 1), Some(i32::MAX));
    assert_eq!(next_page(i32::MAX), None);
}
