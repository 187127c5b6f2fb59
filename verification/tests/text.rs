use bid_pinger::decimal::push_decimal;
use bid_pinger::market::{request_url, status_accepted, CONTENT_TYPE, USER_AGENT};
use bid_pinger::notify::alert_message;

#[test]
fn alert_names_the_bid_in_pounds_and_mentions_everyone() {
    assert_eq!(alert_message(120), "New ask! 120£ @everyone");
    assert_eq!(alert_message(301), "New ask! 301£ @everyone");
}

#[test]
fn alert_for_the_smallest_and_largest_bid() {
    assert_eq!(alert_message(0), "New ask! 0£ @everyone");
    assert_eq!(alert_message(u16::MAX), "New ask! 65535£ @everyone");
}

#[test]
fn alert_agrees_with_standard_formatting() {
    for bid in [0u16, 1, 9, 10, 11, 99, 100, 101, 999, 1000, 1001, 9999, 10000, 10001, 65534, 65535]
    {
        assert_eq!(alert_message(bid), format!("New ask! {}£ @everyone", bid));
    }
}

#[test]
fn decimal_has_no_leading_zero_and_keeps_inner_zeros() {
    let mut out = String::new();
    push_decimal(&mut out, 1005);
    assert_eq!(out, "1005");
    let mut zero = String::new();
    push_decimal(&mut zero, 0);
    assert_eq!(zero, "0");
}

#[test]
fn decimal_is_appended_to_what_is_there() {
    let mut out = String::from("bid=");
    push_decimal(&mut out, 42);
    push_decimal(&mut out, 7);
    assert_eq!(out, "bid=427");
}

#[test]
fn decimal_of_every_number_agrees_with_standard_formatting() {
    for n in 0..=u16::MAX {
        let mut out = String::new();
        push_decimal(&mut out, n);
        assert_eq!(out, format!("{}", n));
    }
}

#[test]
fn url_holds_the_key_between_the_fixed_parts() {
    assert_eq!(
        request_url("air-jordan-1"),
        "https://stockx.com/api/products/air-jordan-1/?currency=GBP&includes=market"
    );
}

#[test]
fn url_takes_the_key_as_it_is() {
    assert_eq!(
        request_url(""),
        "https://stockx.com/api/products//?currency=GBP&includes=market"
    );
    assert_eq!(
        request_url("a b/ü?x=1"),
        "https://stockx.com/api/products/a b/ü?x=1/?currency=GBP&includes=market"
    );
}

#[test]
fn fixed_headers_have_their_values() {
    assert_eq!(
        USER_AGENT,
        "Mozilla/5.0 (Macintosh; Intel Mac OS X 10_15_7) AppleWebKit/605.1.15 (KHTML, like Gecko) Version/16.1 Safari/605.1.15"
    );
    assert_eq!(CONTENT_TYPE, "application/json");
}

#[test]
fn statuses_from_200_to_299_are_accepted() {
    assert!(status_accepted(200));
    assert!(status_accepted(204));
    assert!(status_accepted(299));
    for status in 200..=299u16 {
        assert!(status_accepted(status));
    }
}

#[test]
fn every_other_status_is_turned_down() {
    assert!(!status_accepted(0));
    assert!(!status_accepted(100));
    assert!(!status_accepted(199));
    assert!(!status_accepted(300));
    assert!(!status_accepted(301));
    assert!(!status_accepted(403));
    assert!(!status_accepted(404));
    assert!(!status_accepted(500));
    assert!(!status_accepted(u16::MAX));
    for status in (0..200u16).chain(300..=u16::MAX) {
        assert!(!status_accepted(status));
    }
}
