use vstd::prelude::*;
use crate::values::{c_bool, Time};

verus! {

/// The fields of a `cef_cookie_t`. A string that CEF leaves unset is `None`.
#[derive(Clone, Debug, PartialEq, Eq)]
pub struct RawCookie {
    pub name: Option<String>,
    pub value: Option<String>,
    pub domain: Option<String>,
    pub path: Option<String>,
    pub secure: i32,
    pub httponly: i32,
    pub creation: Time,
    pub last_access: Time,
    pub has_expires: i32,
    pub expires: Time,
}

/// Cookie information.
#[derive(Clone, Debug, PartialEq, Eq)]
pub struct Cookie {
    /// The cookie name.
    pub name: String,
    /// The cookie value.
    pub value: String,
    /// If `domain` is empty a host cookie will be created instead of a domain
    /// cookie. Domain cookies are stored with a leading "." and are visible to
    /// sub-domains whereas host cookies are not.
    pub domain: String,
    /// If `path` is non-empty only URLs at or below the path will get the cookie
    /// value.
    pub path: String,
    /// If `secure` is true the cookie will only be sent for HTTPS requests.
    pub secure: bool,
    /// If `httponly` is true the cookie will only be sent for HTTP requests.
    pub httponly: bool,
    /// The cookie creation date. This is automatically populated by the system on
    /// cookie creation.
    pub creation: Time,
    /// The cookie last access date. This is automatically populated by the system
    /// on access.
    pub last_access: Time,
    /// The cookie expiration date.
    pub expires: Option<Time>,
}

/// One cookie handed to a cookie visitor.
pub struct CookieVisit<'a> {
    pub cookie: Cookie,
    /// 0-based index of current cookie.
    pub index: usize,
    /// Total number of cookies.
    pub len: usize,
    /// Set to `true` to delete the cookie.
    pub delete_cookie: &'a mut bool,
}

/// The text of a CEF string field: its contents, or the empty string where it
/// is unset.
pub open spec fn string_or_empty(s: Option<String>) -> Seq<char> {
    match s {
        Some(s) => s@,
        None => Seq::empty(),
    }
}

fn text_or_empty(s: &Option<String>) -> (r: String)
    ensures
        r@ == string_or_empty(*s),
        s matches Some(t) ==> r == t,
{
    match s {
        Some(t) => t.clone(),
        None => String::new(),
    }
}

/// `c` is the cookie that the CEF record `raw` describes: unset strings read
/// as empty, C booleans as `!= 0`, and the expiration date only where
/// `has_expires` is set.
pub open spec fn reads_cookie(raw: RawCookie, c: Cookie) -> bool {
    &&& c.name@ == string_or_empty(raw.name)
    &&& c.value@ == string_or_empty(raw.value)
    &&& c.domain@ == string_or_empty(raw.domain)
    &&& c.path@ == string_or_empty(raw.path)
    &&& raw.name matches Some(s) ==> c.name == s
    &&& raw.value matches Some(s) ==> c.value == s
    &&& raw.domain matches Some(s) ==> c.domain == s
    &&& raw.path matches Some(s) ==> c.path == s
    &&& c.secure == (raw.secure != 0)
    &&& c.httponly == (raw.httponly != 0)
    &&& c.creation == raw.creation
    &&& c.last_access == raw.last_access
    &&& c.expires == (if raw.has_expires != 0 { Some(raw.expires) } else { None })
}

/// `raw` is the CEF record of the cookie `c`: every string set, booleans as 1
/// or 0, and an all-zero expiration field where `c` has no expiration date.
pub open spec fn writes_cookie(c: Cookie, raw: RawCookie) -> bool {
    &&& raw.name == Some(c.name)
    &&& raw.value == Some(c.value)
    &&& raw.domain == Some(c.domain)
    &&& raw.path == Some(c.path)
    &&& raw.secure == c_bool(c.secure)
    &&& raw.httponly == c_bool(c.httponly)
    &&& raw.creation == c.creation
    &&& raw.last_access == c.last_access
    &&& raw.has_expires == c_bool(c.expires is Some)
    &&& raw.expires == (match c.expires { Some(t) => t, None => Time::zero_spec() })
}

/// Reading a cookie back from the CEF record it was written to gives the same
/// cookie.
pub proof fn lemma_cookie_round_trip(c: Cookie, raw: RawCookie, back: Cookie)
    requires
        writes_cookie(c, raw),
        reads_cookie(raw, back),
    ensures
        back == c,
{
}

/// Reading a cookie takes each value from the field of the same name: each
/// text from its own string field (empty where unset), each flag from its own
/// C boolean, each date from its own time record, and the expiration date only
/// where `has_expires` is set. Writing fills each field from the value of the
/// same name.
pub proof fn lemma_cookie_fields(raw: RawCookie, c: Cookie, d: Cookie, out: RawCookie)
    requires
        reads_cookie(raw, c),
        writes_cookie(d, out),
    ensures
        c.name@ == string_or_empty(raw.name),
        c.value@ == string_or_empty(raw.value),
        c.domain@ == string_or_empty(raw.domain),
        c.path@ == string_or_empty(raw.path),
        c.secure == (raw.secure != 0),
        c.httponly == (raw.httponly != 0),
        c.creation == raw.creation,
        c.last_access == raw.last_access,
        raw.has_expires != 0 ==> c.expires == Some(raw.expires),
        raw.has_expires == 0 ==> c.expires is None,
        out.name == Some(d.name),
        out.value == Some(d.value),
        out.domain == Some(d.domain),
        out.path == Some(d.path),
        out.secure == (if d.secure { 1i32 } else { 0i32 }),
        out.httponly == (if d.httponly { 1i32 } else { 0i32 }),
        out.creation == d.creation,
        out.last_access == d.last_access,
        out.has_expires == (if d.expires is Some { 1i32 } else { 0i32 }),
        d.expires matches Some(t) ==> out.expires == t,
{
}

impl Cookie {
    /// Reads the cookie that CEF describes.
    pub fn new(cookie: &RawCookie) -> (c: Cookie)
        ensures
            reads_cookie(*cookie, c),
    {
        Cookie {
            name: text_or_empty(&cookie.name),
            value: text_or_empty(&cookie.value),
            domain: text_or_empty(&cookie.domain),
            path: text_or_empty(&cookie.path),
            secure: cookie.secure != 0,
            httponly: cookie.httponly != 0,
            creation: cookie.creation,
            last_access: cookie.last_access,
            expires: if cookie.has_expires != 0 { Some(cookie.expires) } else { None },
        }
    }

    /// The CEF representation of this cookie. Without an expiration date the
    /// expiration field is all zeros.
    pub fn to_raw(&self) -> (raw: RawCookie)
        ensures
            writes_cookie(*self, raw),
    {
        RawCookie {
            name: Some(self.name.clone()),
            value: Some(self.value.clone()),
            domain: Some(self.domain.clone()),
            path: Some(self.path.clone()),
            secure: if self.secure { 1 } else { 0 },
            httponly: if self.httponly { 1 } else { 0 },
            creation: self.creation,
            last_access: self.last_access,
            has_expires: if self.expires.is_some() { 1 } else { 0 },
            expires: match self.expires {
                Some(t) => t,
                None => Time::zero(),
            },
        }
    }
}

} // verus!
