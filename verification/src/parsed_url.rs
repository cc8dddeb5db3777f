//! URLs, parsed by the `url` crate and held as the plain parts that the
//! configs read.

use vstd::prelude::*;

verus! {

/// A parsed absolute URL: its serialization and the components that the
/// configs read from it.
pub struct ParsedUrl {
    /// The URL as `url::Url::as_str` gives it.
    pub serialization: String,
    /// `url::Url::host_str`.
    pub host: Option<String>,
    /// `url::Url::username` (empty when there is none).
    pub username: String,
    /// `url::Url::password`.
    pub password: Option<String>,
    /// `url::Url::path`.
    pub path: String,
}

/// What a [`ParsedUrl`] holds, as mathematical values.
pub struct ParsedUrlView {
    pub serialization: Seq<char>,
    pub host: Option<Seq<char>>,
    pub username: Seq<char>,
    pub password: Option<Seq<char>>,
    pub path: Seq<char>,
}

impl View for ParsedUrl {
    type V = ParsedUrlView;

    open spec fn view(&self) -> ParsedUrlView {
        ParsedUrlView {
            serialization: self.serialization@,
            host: self.host.deep_view(),
            username: self.username@,
            password: self.password.deep_view(),
            path: self.path@,
        }
    }
}

#[verifier::external_type_specification]
#[verifier::external_body]
pub struct ExUrlParseError(url::ParseError);

/// What `url::Url::parse` makes of a string: `None` where it fails, else the
/// parts of the parsed URL.
pub uninterp spec fn url_parse_outcome(input: Seq<char>) -> Option<ParsedUrlView>;

/// `s` is non-empty and made of lowercase ASCII letters.
pub open spec fn is_lower_alpha(s: Seq<char>) -> bool {
    s.len() > 0 && forall|i: int| 0 <= i < s.len() ==> 97 <= (#[trigger] s[i]) as int <= 122
}

/// `s` is non-empty and made of lowercase ASCII letters and digits.
pub open spec fn is_lower_alnum(s: Seq<char>) -> bool {
    s.len() > 0 && forall|i: int|
        0 <= i < s.len() ==> (97 <= (#[trigger] s[i]) as int <= 122 || 48 <= s[i] as int <= 57)
}

/// `input` is `<scheme>://<user>:<password>@<rest>`: a scheme of lowercase
/// letters other than `file`, a user and a password of lowercase letters and
/// digits, and no further `@`.
pub open spec fn credentials_url(
    input: Seq<char>,
    scheme: Seq<char>,
    user: Seq<char>,
    password: Seq<char>,
    rest: Seq<char>,
) -> bool {
    &&& is_lower_alpha(scheme)
    &&& scheme != "file"@
    &&& is_lower_alnum(user)
    &&& is_lower_alnum(password)
    &&& forall|i: int| 0 <= i < rest.len() ==> rest[i] != '@'
    &&& input == scheme + "://"@ + user + ":"@ + password + "@"@ + rest
}

/// Calls `url::Url::parse` and reads the parsed URL's serialization, host,
/// username, password and path. Claimed: the outcome depends on `input` alone
/// (it is `url_parse_outcome(input)`); nothing is claimed of which strings parse.
/// Also claimed, from the parser's authority state (`parse_userinfo` takes
/// the text before the last `@` and splits it at its first `:`; letters and
/// digits are not percent-encoded): a parsed `<scheme>://<user>:<password>@...`
/// URL of the plain form `credentials_url` describes has that user and password.
#[verifier::external_body]
fn url_parse(input: &str) -> (r: Result<ParsedUrl, url::ParseError>)
    ensures
        match r {
            Ok(u) => url_parse_outcome(input@) == Some(u@),
            Err(_) => url_parse_outcome(input@) is None,
        },
        r matches Ok(u) ==> forall|scheme: Seq<char>, user: Seq<char>, password: Seq<char>, rest: Seq<char>|
            #[trigger] credentials_url(input@, scheme, user, password, rest)
                ==> u@.username == user && u@.password == Some(password),
{
    match url::Url::parse(input) {
        Ok(u) => Ok(ParsedUrl {
            serialization: u.as_str().to_string(),
            host: u.host_str().map(|h| h.to_string()),
            username: u.username().to_string(),
            password: u.password().map(|p| p.to_string()),
            path: u.path().to_string(),
        }),
        Err(e) => Err(e),
    }
}

/// The input is not an absolute URL.
#[derive(PartialEq, Eq, Structural, Debug)]
pub enum UrlError {
    Invalid,
}

/// The library's error for a failed parse.
fn url_error_from(_e: url::ParseError) -> (r: UrlError)
    ensures
        r == UrlError::Invalid,
{
    UrlError::Invalid
}

impl ParsedUrl {
    /// Parses an absolute URL.
    pub fn parse(input: &str) -> (r: Result<ParsedUrl, UrlError>)
        ensures
            match r {
                Ok(u) => url_parse_outcome(input@) == Some(u@),
                Err(e) => url_parse_outcome(input@) is None && e == UrlError::Invalid,
            },
            r matches Ok(u) ==> forall|scheme: Seq<char>, user: Seq<char>, password: Seq<char>, rest: Seq<char>|
                #[trigger] credentials_url(input@, scheme, user, password, rest)
                    ==> u@.username == user && u@.password == Some(password),
    {
        match url_parse(input) {
            Ok(u) => Ok(u),
            Err(e) => Err(url_error_from(e)),
        }
    }
}

} // verus!
