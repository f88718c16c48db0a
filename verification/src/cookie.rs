//! The text of `Set-Cookie` headers.

use crate::date::is_date;
use crate::text::decimal;
use vstd::prelude::*;

verus! {

/// When a browser sends a cookie along with requests from other sites.
#[derive(Clone, Copy, Debug, PartialEq, Eq, Structural)]
pub enum SameSite {
    /// Never.
    Strict,
    /// Only when the user navigates to the cookie's site.
    Lax,
    /// Always.
    Unrestricted,
}

impl SameSite {
    /// The word that stands for the policy in a header.
    pub open spec fn word(self) -> Seq<char> {
        match self {
            SameSite::Strict => "Strict"@,
            SameSite::Lax => "Lax"@,
            SameSite::Unrestricted => "None"@,
        }
    }
}

/// What a cookie is and who may see it; when it ends is said apart.
pub struct CookieModel {
    /// The cookie's name.
    pub name: Seq<char>,
    /// The cookie's value.
    pub value: Seq<char>,
    /// The path below which the cookie is sent.
    pub path: Seq<char>,
    /// The cross-site policy.
    pub same_site: SameSite,
    /// The cookie is sent over TLS only.
    pub secure: bool,
    /// Scripts cannot read the cookie.
    pub http_only: bool,
}

impl CookieModel {
    /// The header text up to the cookie's end of life: name and value, then
    /// the attributes in the order `HttpOnly`, `SameSite`, `Secure`, `Path`.
    pub open spec fn text(self) -> Seq<char> {
        self.name + "="@ + self.value + (if self.http_only {
            "; HttpOnly"@
        } else {
            Seq::<char>::empty()
        }) + "; SameSite="@ + self.same_site.word() + (if self.secure {
            "; Secure"@
        } else {
            Seq::<char>::empty()
        }) + "; Path="@ + self.path
    }

    /// The header text of a cookie that ends at the instant whose date reads
    /// `date`.
    pub open spec fn text_until(self, date: Seq<char>) -> Seq<char> {
        self.text() + "; Expires="@ + date
    }

    /// The header text of a cookie that ends `max_age` seconds after it was
    /// received.
    pub open spec fn text_for(self, max_age: int) -> Seq<char> {
        self.text() + "; Max-Age="@ + decimal(max_age)
    }
}

/// What a cookie is and who may see it.
#[derive(Debug)]
pub struct CookieSettings {
    /// The cookie's name.
    pub name: String,
    /// The cookie's value.
    pub value: String,
    /// The path below which the cookie is sent.
    pub path: String,
    /// The cross-site policy.
    pub same_site: SameSite,
    /// The cookie is sent over TLS only.
    pub secure: bool,
    /// Scripts cannot read the cookie.
    pub http_only: bool,
}

impl View for CookieSettings {
    type V = CookieModel;

    open spec fn view(&self) -> CookieModel {
        CookieModel {
            name: self.name@,
            value: self.value@,
            path: self.path@,
            same_site: self.same_site,
            secure: self.secure,
            http_only: self.http_only,
        }
    }
}

/// The date of an instant as a cookie's `Expires` attribute holds it, such as
/// `Wed, 21 Oct 2015 07:28:00 GMT`.
pub uninterp spec fn http_date(timestamp: int) -> Seq<char>;

/// `time::error::ComponentRange`, of which nothing is known.
#[verifier::external_type_specification]
#[verifier::external_body]
pub struct ExComponentRange(time::error::ComponentRange);

/// Builds a cookie with `cookie::Cookie::build`, sets `path`, `same_site`,
/// `expires`, `secure` and `http_only` on the builder and writes the cookie
/// with its `Display`. The date is made by
/// `time::OffsetDateTime::from_unix_timestamp`, which fails outside the years
/// -9999 to 9999 (the crate is built without its feature `large-dates`).
/// `Display` writes name and value, then `HttpOnly` where it is
/// set to true, `SameSite`, `Secure` where it is set to true, `Path`, and
/// `Expires` with the date in UTC.
#[verifier::external_body]
fn write_until(cookie: &CookieSettings, expires: i64) -> (written: Result<
    String,
    time::error::ComponentRange,
>)
    ensures
        written is Ok <==> is_date(expires as int),
        written matches Ok(text) ==> text@ == cookie@.text_until(http_date(expires as int)),
{
    let when = time::OffsetDateTime::from_unix_timestamp(expires)?;
    let same_site = match cookie.same_site {
        SameSite::Strict => axum_extra::extract::cookie::SameSite::Strict,
        SameSite::Lax => axum_extra::extract::cookie::SameSite::Lax,
        SameSite::Unrestricted => axum_extra::extract::cookie::SameSite::None,
    };
    Ok(axum_extra::extract::cookie::Cookie::build(cookie.name.clone(), cookie.value.clone())
        .path(cookie.path.clone()).same_site(same_site).expires(when).secure(cookie.secure)
        .http_only(cookie.http_only).finish().to_string())
}

/// Builds a cookie with `cookie::Cookie::build`, sets `path`, `same_site`,
/// `max_age`, `secure` and `http_only` on the builder and writes the cookie
/// with its `Display`, which writes `Max-Age` in whole seconds behind `Path`.
#[verifier::external_body]
fn write_for(cookie: &CookieSettings, max_age: i64) -> (text: String)
    ensures
        text@ == cookie@.text_for(max_age as int),
{
    let same_site = match cookie.same_site {
        SameSite::Strict => axum_extra::extract::cookie::SameSite::Strict,
        SameSite::Lax => axum_extra::extract::cookie::SameSite::Lax,
        SameSite::Unrestricted => axum_extra::extract::cookie::SameSite::None,
    };
    axum_extra::extract::cookie::Cookie::build(cookie.name.clone(), cookie.value.clone())
        .path(cookie.path.clone()).same_site(same_site).max_age(time::Duration::seconds(max_age))
        .secure(cookie.secure).http_only(cookie.http_only).finish().to_string()
}

impl CookieSettings {
    /// The `Set-Cookie` text of the cookie ending at `expires`, in seconds
    /// since the epoch; nothing where `expires` cannot stand as a date.
    pub fn header_until(&self, expires: i64) -> (text: Option<String>)
        ensures
            text is Some <==> is_date(expires as int),
            text matches Some(t) ==> t@ == self@.text_until(http_date(expires as int)),
    {
        match write_until(self, expires) {
            Ok(text) => Some(text),
            Err(_) => None,
        }
    }

    /// The `Set-Cookie` text of the cookie ending `max_age` seconds after it
    /// was received.
    pub fn header_for(&self, max_age: i64) -> (text: String)
        ensures
            text@ == self@.text_for(max_age as int),
    {
        write_for(self, max_age)
    }
}

} // verus!
