use vstd::prelude::*;
use vstd::string::*;
use crate::authentication::AuthError;
use crate::signing::{
    hex_encoding, query_string, query_string_of, query_verdict, sign_hex, signature_of, QueryParams,
};
use crate::startup::HmacSecret;

verus! {

/// HTTP status of every answer to `POST /login`.
pub const SEE_OTHER: u16 = 303;

pub const DASHBOARD_PATH: &'static str = "/admin/dashboard";

pub const LOGIN_QUERY_START: &'static str = "/login?";

pub const TAG_SEPARATOR: &'static str = "&tag=";

pub const AUTH_FAILED_TEXT: &'static str = "Authentication failed";

pub const UNEXPECTED_TEXT: &'static str = "Something went wrong";

pub const ERROR_OPEN: &'static str = "<p><i>";

pub const ERROR_CLOSE: &'static str = "</i></p>";

pub const LOGIN_PAGE_HEAD: &'static str = "<!DOCTYPE html>
<html lang=\"en\">
<head>
<meta http-equiv=\"content-type\" content=\"text/html; charset=utf-8\">
<title>Login</title>
</head>
<body>
";

pub const LOGIN_PAGE_TAIL: &'static str = "
<form action=\"/login\" method=\"post\">
<label>Username
<input
type=\"text\"
placeholder=\"Enter Username\"
name=\"username\"
>
</label>
<label>Password
<input
type=\"password\"
placeholder=\"Enter Password\"
name=\"password\"
>
</label>
<button type=\"submit\">Login</button>
</form>
</body>
</html>";

/// Why a login was refused, as shown to the visitor.
#[derive(Debug, Clone, Copy, PartialEq, Eq, Structural)]
pub enum LoginError {
    AuthError,
    UnexpectedError,
}

pub open spec fn login_error_text(e: LoginError) -> Seq<char> {
    match e {
        LoginError::AuthError => AUTH_FAILED_TEXT@,
        LoginError::UnexpectedError => UNEXPECTED_TEXT@,
    }
}

pub open spec fn login_error_of(e: AuthError) -> LoginError {
    match e {
        AuthError::InvalidCredentials => LoginError::AuthError,
        AuthError::UnexpectedError => LoginError::UnexpectedError,
    }
}

impl LoginError {
    /// The generic text shown to the visitor; it never names the underlying cause.
    pub fn to_string(&self) -> (r: String)
        ensures
            r@ == login_error_text(*self),
    {
        match self {
            LoginError::AuthError => String::from_str(AUTH_FAILED_TEXT),
            LoginError::UnexpectedError => String::from_str(UNEXPECTED_TEXT),
        }
    }
}

pub fn login_error_for(e: AuthError) -> (r: LoginError)
    ensures
        r == login_error_of(e),
{
    match e {
        AuthError::InvalidCredentials => LoginError::AuthError,
        AuthError::UnexpectedError => LoginError::UnexpectedError,
    }
}

/// A redirect answer: status and `Location`.
pub struct Redirect {
    pub status: u16,
    pub location: String,
}

/// What the login handler does next with the outcome of validation.
pub enum LoginStep {
    /// Renew the session and store this user id in it.
    EstablishSession(uuid::Uuid),
    /// Answer with this redirect.
    Respond(Redirect),
}

/// `/login?error=<percent-encoded message>&tag=<hex HMAC of the query string>`.
pub open spec fn error_location(message: Seq<char>, key: Seq<char>) -> Seq<char> {
    LOGIN_QUERY_START@ + query_string_of(message) + TAG_SEPARATOR@ + hex_encoding(signature_of(message, key))
}

/// Redirects back to the login form, carrying the error's text with its tag.
pub fn login_redirect(e: LoginError, secret: &HmacSecret) -> (r: Redirect)
    ensures
        r.status == SEE_OTHER,
        r.location@ == error_location(login_error_text(e), secret.0@),
{
    let text = e.to_string();
    let mut location = String::from_str(LOGIN_QUERY_START);
    let q = query_string(text.as_str());
    location.append(q.as_str());
    location.append(TAG_SEPARATOR);
    let tag = sign_hex(text.as_str(), secret);
    location.append(tag.as_str());
    Redirect { status: SEE_OTHER, location }
}

/// The step after credential validation: a known user gets a session; any failure, whatever
/// its kind, the same 303 back to the form with a generic text.
pub fn login_step(auth: Result<uuid::Uuid, AuthError>, secret: &HmacSecret) -> (r: LoginStep)
    ensures
        auth is Ok <==> r is EstablishSession,
        r is EstablishSession ==> auth == Ok::<uuid::Uuid, AuthError>(r->EstablishSession_0),
        r is Respond ==> r->Respond_0.status == SEE_OTHER,
        r is Respond ==> r->Respond_0.location@ == error_location(login_error_text(login_error_of(auth->Err_0)), secret.0@),
{
    match auth {
        Ok(user_id) => LoginStep::EstablishSession(user_id),
        Err(e) => LoginStep::Respond(login_redirect(login_error_for(e), secret)),
    }
}

/// The answer once the session store has (or has not) taken the user id.
pub fn session_step(stored: bool, secret: &HmacSecret) -> (r: Redirect)
    ensures
        r.status == SEE_OTHER,
        stored ==> r.location@ == DASHBOARD_PATH@,
        !stored ==> r.location@ == error_location(login_error_text(LoginError::UnexpectedError), secret.0@),
{
    if stored {
        Redirect { status: SEE_OTHER, location: String::from_str(DASHBOARD_PATH) }
    } else {
        login_redirect(LoginError::UnexpectedError, secret)
    }
}

/// The entity that replaces a character, or the character itself.
pub open spec fn html_entity(c: char) -> Seq<char> {
    if c == '"' {
        seq!['&', 'q', 'u', 'o', 't', ';']
    } else if c == '&' {
        seq!['&', 'a', 'm', 'p', ';']
    } else if c == '\'' {
        seq!['&', '#', 'x', '2', '7', ';']
    } else if c == '<' {
        seq!['&', 'l', 't', ';']
    } else if c == '>' {
        seq!['&', 'g', 't', ';']
    } else {
        seq![c]
    }
}

pub open spec fn html_escaped(s: Seq<char>) -> Seq<char>
    decreases s.len(),
{
    if s.len() == 0 {
        Seq::empty()
    } else {
        html_escaped(s.drop_last()) + html_entity(s.last())
    }
}

/// Relies on htmlescape::encode_minimal: each of `"`, `&`, `'`, `<`, `>` becomes its entity,
/// every other character is kept.
#[verifier::external_body]
fn escape_html(s: &str) -> (r: String)
    ensures
        r@ == html_escaped(s@),
{
    htmlescape::encode_minimal(s)
}

pub open spec fn error_paragraph(message: Seq<char>) -> Seq<char> {
    ERROR_OPEN@ + html_escaped(message) + ERROR_CLOSE@
}

/// The error markup of the form: the escaped message when its tag authenticates it, else nothing.
pub open spec fn shown_error(query: Option<QueryParams>, key: Seq<char>) -> Seq<char> {
    match query {
        None => Seq::empty(),
        Some(q) => if query_verdict(q.error@, q.tag@, key) is Ok {
            error_paragraph(q.error@)
        } else {
            Seq::empty()
        },
    }
}

pub open spec fn login_page_of(error_html: Seq<char>) -> Seq<char> {
    LOGIN_PAGE_HEAD@ + error_html + LOGIN_PAGE_TAIL@
}

/// The error markup for the query of `GET /login`; a tag that fails shows nothing.
pub fn error_html(query: Option<QueryParams>, secret: &HmacSecret) -> (r: String)
    ensures
        r@ == shown_error(query, secret.0@),
{
    match query {
        None => String::new(),
        Some(q) => {
            match q.verify(secret) {
                Ok(message) => {
                    let mut html = String::from_str(ERROR_OPEN);
                    let escaped = escape_html(message.as_str());
                    html.append(escaped.as_str());
                    html.append(ERROR_CLOSE);
                    html
                },
                Err(_) => String::new(),
            }
        },
    }
}

/// The login form page around the given error markup.
pub fn login_page(error_html: &str) -> (r: String)
    ensures
        r@ == login_page_of(error_html@),
{
    let mut page = String::from_str(LOGIN_PAGE_HEAD);
    page.append(error_html);
    page.append(LOGIN_PAGE_TAIL);
    page
}

/// A message is shown once: a later `GET /login` without the error query renders the bare
/// form, whatever the key.
pub proof fn lemma_form_without_query_shows_no_error(key: Seq<char>)
    ensures
        shown_error(None, key) == Seq::<char>::empty(),
        login_page_of(shown_error(None, key)) == LOGIN_PAGE_HEAD@ + LOGIN_PAGE_TAIL@,
{
    assert(LOGIN_PAGE_HEAD@ + Seq::<char>::empty() =~= LOGIN_PAGE_HEAD@);
}

/// The page `GET /login` answers with.
pub fn login_form_page(query: Option<QueryParams>, secret: &HmacSecret) -> (r: String)
    ensures
        r@ == login_page_of(shown_error(query, secret.0@)),
{
    let e = error_html(query, secret);
    login_page(e.as_str())
}

} // verus!
