use cef::cookie::{Cookie, RawCookie};
use cef::values::Time;

fn time(year: i32, second: i32) -> Time {
    Time {
        year,
        month: 3,
        day_of_week: 2,
        day_of_month: 14,
        hour: 15,
        minute: 9,
        second,
        millisecond: 265,
    }
}

#[test]
fn cookie_from_raw_defaults_unset_strings() {
    let raw = RawCookie {
        name: Some("session".to_string()),
        value: None,
        domain: Some(".example.com".to_string()),
        path: None,
        secure: 1,
        httponly: 0,
        creation: time(2020, 1),
        last_access: time(2021, 2),
        has_expires: 0,
        expires: time(2022, 3),
    };
    let c = Cookie::new(&raw);
    assert_eq!(c.name, "session");
    assert_eq!(c.value, "");
    assert_eq!(c.domain, ".example.com");
    assert_eq!(c.path, "");
    assert!(c.secure);
    assert!(!c.httponly);
    assert_eq!(c.creation, time(2020, 1));
    assert_eq!(c.last_access, time(2021, 2));
    assert_eq!(c.expires, None);
}

#[test]
fn cookie_expiration_only_where_flagged() {
    let raw = RawCookie {
        name: None,
        value: None,
        domain: None,
        path: None,
        secure: 0,
        httponly: 7,
        creation: time(2020, 1),
        last_access: time(2020, 1),
        has_expires: 1,
        expires: time(2030, 0),
    };
    let c = Cookie::new(&raw);
    assert!(c.httponly);
    assert_eq!(c.expires, Some(time(2030, 0)));
}

#[test]
fn cookie_round_trip() {
    let c = Cookie {
        name: "a".to_string(),
        value: "b".to_string(),
        domain: "".to_string(),
        path: "/".to_string(),
        secure: false,
        httponly: true,
        creation: time(2019, 5),
        last_access: time(2019, 6),
        expires: None,
    };
    let raw = c.to_raw();
    assert_eq!(raw.has_expires, 0);
    assert_eq!(raw.expires, Time::zero());
    assert_eq!(raw.httponly, 1);
    assert_eq!(raw.name, Some("a".to_string()));
    assert_eq!(Cookie::new(&raw), c);

    let mut d = c.clone();
    d.expires = Some(time(2040, 1));
    let raw = d.to_raw();
    assert_eq!(raw.has_expires, 1);
    assert_eq!(Cookie::new(&raw), d);
}
