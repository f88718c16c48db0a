use openai::cookie::{CookieSettings, SameSite};
use openai::date::rfc3339;

fn sample(secure: bool, http_only: bool, same_site: SameSite) -> CookieSettings {
    CookieSettings {
        name: "sid".to_string(),
        value: "abc".to_string(),
        path: "/".to_string(),
        same_site,
        secure,
        http_only,
    }
}

#[test]
fn cookie_with_expiry_has_every_attribute_in_order() {
    let text = sample(true, true, SameSite::Lax).header_until(1_445_412_480).unwrap();
    assert_eq!(
        text,
        "sid=abc; HttpOnly; SameSite=Lax; Secure; Path=/; Expires=Wed, 21 Oct 2015 07:28:00 GMT"
    );
}

#[test]
fn cookie_without_flags_leaves_them_out() {
    let text = sample(false, false, SameSite::Lax).header_until(0).unwrap();
    assert_eq!(text, "sid=abc; SameSite=Lax; Path=/; Expires=Thu, 01 Jan 1970 00:00:00 GMT");
}

#[test]
fn cookie_same_site_none_adds_no_secure_of_its_own() {
    let text = sample(false, false, SameSite::Unrestricted).header_for(0);
    assert_eq!(text, "sid=abc; SameSite=None; Path=/; Max-Age=0");
    let text = sample(false, false, SameSite::Strict).header_for(-15);
    assert_eq!(text, "sid=abc; SameSite=Strict; Path=/; Max-Age=-15");
}

#[test]
fn cookie_max_age_is_written_in_decimal() {
    let text = sample(true, false, SameSite::Lax).header_for(9_223_372_036_854_775_807);
    assert_eq!(text, "sid=abc; SameSite=Lax; Secure; Path=/; Max-Age=9223372036854775807");
    let text = sample(true, false, SameSite::Lax).header_for(i64::MIN);
    assert_eq!(text, "sid=abc; SameSite=Lax; Secure; Path=/; Max-Age=-9223372036854775808");
    let text = sample(true, false, SameSite::Lax).header_for(1203);
    assert_eq!(text, "sid=abc; SameSite=Lax; Secure; Path=/; Max-Age=1203");
}

#[test]
fn cookie_expiry_is_bounded_by_the_years_of_a_date() {
    let cookie = sample(false, false, SameSite::Lax);
    assert!(cookie.header_until(253_402_300_799).is_some());
    assert!(cookie.header_until(253_402_300_800).is_none());
    assert!(cookie.header_until(-377_705_116_800).is_some());
    assert!(cookie.header_until(-377_705_116_801).is_none());
    assert!(cookie.header_until(i64::MAX).is_none());
    assert!(cookie.header_until(i64::MIN).is_none());
    assert_eq!(
        cookie.header_until(253_402_300_799).unwrap(),
        "sid=abc; SameSite=Lax; Path=/; Expires=Fri, 31 Dec 9999 23:59:59 GMT"
    );
}

#[test]
fn rfc3339_text_of_known_instants() {
    assert_eq!(rfc3339(0).unwrap(), "1970-01-01T00:00:00Z");
    assert_eq!(rfc3339(1_546_300_800).unwrap(), "2019-01-01T00:00:00Z");
    assert_eq!(rfc3339(253_402_300_799).unwrap(), "9999-12-31T23:59:59Z");
    assert_eq!(rfc3339(-62_167_219_200).unwrap(), "0000-01-01T00:00:00Z");
}

#[test]
fn rfc3339_is_bounded_by_the_years_zero_and_9999() {
    assert!(rfc3339(-62_167_219_201).is_none());
    assert!(rfc3339(253_402_300_800).is_none());
    assert!(rfc3339(-377_705_116_800).is_none());
    assert!(rfc3339(i64::MIN).is_none());
    assert!(rfc3339(i64::MAX).is_none());
}
