//! Signing in to the international maimai DX NET site with a SEGA ID.
use vstd::prelude::*;

use crate::models::song_title::opt_view;
use crate::text::{
    chars_of, contains, contains_chars, copy_range, ends_with, ends_with_chars, find, find_chars,
    rfind, rfind_chars, starts_with, starts_with_chars, string_of,
};

verus! {

/// The top page of maimai DX NET (international).
pub const MAIMAI_MOBILE_ROOT: &'static str = "https://maimaidx-eng.com/maimai-mobile/";

/// The record page, which only a signed-in player can see.
pub const RECORD_URL: &'static str = "https://maimaidx-eng.com/maimai-mobile/record/";

/// The browser headers that the site is sent: user agent, accepted types and languages.
pub fn default_mobile_headers() -> (r: Vec<(&'static str, &'static str)>)
    ensures
        r@.len() == 3,
        r@[0].0@ == "user-agent"@,
        r@[1].0@ == "accept"@,
        r@[2].0@ == "accept-language"@,
{
    proof {
        reveal_strlit("user-agent");
        reveal_strlit("accept");
        reveal_strlit("accept-language");
    }
    vec![
        (
            "user-agent",
            "Mozilla/5.0 (iPhone; CPU iPhone OS 17_0 like Mac OS X) AppleWebKit/605.1.15 (KHTML, like Gecko) Version/17.0 Mobile/15E148 Safari/604.1",
        ),
        ("accept", "text/html,application/xhtml+xml,application/xml;q=0.9,*/*;q=0.8"),
        ("accept-language", "en-US,en;q=0.9,ja;q=0.8"),
    ]
}

/// The address a response came from, as the sign-in checks read it: the whole address, its
/// path, and its domain when the host is a name.
#[derive(Debug, Clone)]
pub struct PageUrl {
    pub serialized: String,
    pub path: String,
    pub domain: Option<String>,
}

/// Whether a page is a sign-in page, an error page, or a page of an expired session.
pub open spec fn login_or_expired(url: Seq<char>, path: Seq<char>, domain: Option<Seq<char>>, body: Seq<
    char,
>) -> bool {
    ||| starts_with(path, "/maimai-mobile/error/"@)
    ||| contains(url, "/common_auth/login"@)
    ||| (match domain {
        Some(d) => ends_with(d, "am-all.net"@),
        None => false,
    } && contains(url, "/common_auth/"@))
    ||| contains(body, "Please login again."@)
    ||| contains(body, "ERROR CODE"@)
    ||| contains(body, "title_error.png"@)
    ||| contains(body, "The connection time has been expired"@)
}

fn holds_text(v: &[char], lit: &str) -> (b: bool)
    ensures
        b == contains(v@, lit@),
{
    let p = chars_of(lit);
    contains_chars(v, p.as_slice())
}

/// Whether a page is a sign-in page, an error page, or a page of an expired session.
pub fn looks_like_login_or_expired(final_url: &PageUrl, body: &str) -> (b: bool)
    ensures
        b == login_or_expired(
            final_url.serialized@,
            final_url.path@,
            opt_view(final_url.domain),
            body@,
        ),
{
    let url = chars_of(final_url.serialized.as_str());
    let path = chars_of(final_url.path.as_str());
    let body_chars = chars_of(body);
    let err_prefix = chars_of("/maimai-mobile/error/");
    let am_all = chars_of("am-all.net");
    let on_am_all = match &final_url.domain {
        Some(d) => ends_with_chars(chars_of(d.as_str()).as_slice(), am_all.as_slice()),
        None => false,
    };
    starts_with_chars(path.as_slice(), err_prefix.as_slice()) || holds_text(url.as_slice(), "/common_auth/login")
        || (on_am_all && holds_text(url.as_slice(), "/common_auth/")) || holds_text(
        body_chars.as_slice(),
        "Please login again.",
    ) || holds_text(body_chars.as_slice(), "ERROR CODE") || holds_text(body_chars.as_slice(), "title_error.png")
        || holds_text(body_chars.as_slice(), "The connection time has been expired")
}

/// The value of the attribute `attr_name` of a tag: the text after the first `attr_name="`
/// up to the next `"`; failing that, the same with `'`. A value without its closing quote
/// gives nothing.
pub open spec fn attr_value(tag: Seq<char>, attr_name: Seq<char>) -> Option<Seq<char>> {
    let dq = attr_name + seq!['=', '"'];
    let sq = attr_name + seq!['=', '\''];
    match find(tag, dq) {
        Some(i) => {
            let start = i + dq.len();
            match find(tag.skip(start), seq!['"']) {
                Some(e) => Some(tag.subrange(start, start + e)),
                None => None,
            }
        },
        None => match find(tag, sq) {
            Some(i) => {
                let start = i + sq.len();
                match find(tag.skip(start), seq!['\'']) {
                    Some(e) => Some(tag.subrange(start, start + e)),
                    None => None,
                }
            },
            None => None,
        },
    }
}

fn attr_value_chars(tag: &[char], attr_name: &[char]) -> (r: Option<Vec<char>>)
    ensures
        match r {
            Some(v) => attr_value(tag@, attr_name@) == Some(v@),
            None => attr_value(tag@, attr_name@) is None,
        },
{
    let mut dq: Vec<char> = copy_range(attr_name, 0, attr_name.len());
    dq.push('=');
    dq.push('"');
    let mut sq: Vec<char> = copy_range(attr_name, 0, attr_name.len());
    sq.push('=');
    sq.push('\'');
    assert(dq@ =~= attr_name@ + seq!['=', '"']);
    assert(sq@ =~= attr_name@ + seq!['=', '\'']);
    let (needle, quote) = match find_chars(tag, dq.as_slice()) {
        Some(i) => (i + dq.len(), '"'),
        None => match find_chars(tag, sq.as_slice()) {
            Some(i) => (i + sq.len(), '\''),
            None => {
                return None;
            },
        },
    };
    let rest = copy_range(tag, needle, tag.len());
    assert(rest@ =~= tag@.skip(needle as int));
    let q = vec![quote];
    assert(q@ =~= seq![quote]);
    match find_chars(rest.as_slice(), q.as_slice()) {
        Some(e) => {
            let v = copy_range(tag, needle, needle + e);
            Some(v)
        },
        None => None,
    }
}

/// The value of an attribute of a tag, `"`-quoted or else `'`-quoted.
pub fn extract_attr_value(tag: &str, attr_name: &str) -> (r: Option<String>)
    ensures
        opt_view(r) == attr_value(tag@, attr_name@),
{
    let t = chars_of(tag);
    let a = chars_of(attr_name);
    match attr_value_chars(t.as_slice(), a.as_slice()) {
        Some(v) => Some(string_of(v.as_slice())),
        None => None,
    }
}

/// The `action` of the form with id `form_id`: from the last `<form` before `id="form_id"`
/// to the first `>` after it.
pub open spec fn form_action(html: Seq<char>, form_id: Seq<char>) -> Option<Seq<char>> {
    let id_attr = "id=\""@ + form_id + seq!['"'];
    match find(html, id_attr) {
        None => None,
        Some(id_idx) => match rfind(html.take(id_idx), "<form"@) {
            None => None,
            Some(form_idx) => match find(html.skip(id_idx), seq!['>']) {
                None => None,
                Some(e) => attr_value(html.subrange(form_idx, id_idx + e + 1), "action"@),
            },
        },
    }
}

/// The `action` of the form with id `form_id`.
pub fn find_form_action(html: &str, form_id: &str) -> (r: Option<String>)
    ensures
        opt_view(r) == form_action(html@, form_id@),
{
    let h = chars_of(html);
    let mut id_attr = chars_of("id=\"");
    let fid = chars_of(form_id);
    let mut k: usize = 0;
    let ghost prefix = id_attr@;
    proof {
        reveal_strlit("id=\"");
    }
    while k < fid.len()
        invariant
            k <= fid.len(),
            prefix == "id=\""@,
            id_attr@ == prefix + fid@.take(k as int),
        decreases fid.len() - k,
    {
        id_attr.push(fid[k]);
        assert(fid@.take(k + 1) =~= fid@.take(k as int).push(fid@[k as int]));
        k += 1;
    }
    id_attr.push('"');
    assert(fid@.take(fid.len() as int) =~= fid@);
    assert(id_attr@ =~= "id=\""@ + form_id@ + seq!['"']);
    let id_idx = match find_chars(h.as_slice(), id_attr.as_slice()) {
        Some(i) => i,
        None => {
            return None;
        },
    };
    let head = copy_range(h.as_slice(), 0, id_idx);
    assert(head@ =~= h@.take(id_idx as int));
    let form_lit = chars_of("<form");
    let form_idx = match rfind_chars(head.as_slice(), form_lit.as_slice()) {
        Some(f) => f,
        None => {
            return None;
        },
    };
    let tail = copy_range(h.as_slice(), id_idx, h.len());
    assert(tail@ =~= h@.skip(id_idx as int));
    let gt = vec!['>'];
    assert(gt@ =~= seq!['>']);
    let e = match find_chars(tail.as_slice(), gt.as_slice()) {
        Some(e) => e,
        None => {
            return None;
        },
    };
    let tag = copy_range(h.as_slice(), form_idx, id_idx + e + 1);
    let action = chars_of("action");
    match attr_value_chars(tag.as_slice(), action.as_slice()) {
        Some(v) => Some(string_of(v.as_slice())),
        None => None,
    }
}

/// The address that `Url::join` resolves `input` to against `base`, when both parse.
pub uninterp spec fn url_joined(base: Seq<char>, input: Seq<char>) -> Option<Seq<char>>;

/// Calls `reqwest::Url::parse` on `base` and then `Url::join` with `input`. Trusted: the result
/// is a function of the two texts alone; what it is is left to the name `url_joined`.
#[verifier::external_body]
fn join_url(base: &str, input: &str) -> (r: Option<String>)
    ensures
        opt_view(r) == url_joined(base@, input@),
{
    match reqwest::Url::parse(base) {
        Ok(u) => match u.join(input) {
            Ok(j) => Some(j.as_str().to_string()),
            Err(_) => None,
        },
        Err(_) => None,
    }
}

/// Why signing in failed.
#[derive(Debug, Clone, PartialEq, Eq, Structural)]
pub enum AuthError {
    UnresolvableLoginUrl,
    UnexpectedLoginResponse,
    LoginFailed,
}

/// Where the credentials are posted: the `action` of the `sidForm` form resolved against the
/// sign-in page, else the known path `/common_auth/login/sid`.
pub open spec fn login_post_url(page: Seq<char>, html: Seq<char>) -> Option<Seq<char>> {
    match form_action(html, "sidForm"@) {
        Some(action) => url_joined(page, action),
        None => url_joined(page, "/common_auth/login/sid"@),
    }
}

/// Where the credentials are posted.
pub fn extract_login_post_url(login_page_url: &str, login_page_html: &str) -> (r: Result<
    String,
    AuthError,
>)
    ensures
        match r {
            Ok(u) => login_post_url(login_page_url@, login_page_html@) == Some(u@),
            Err(e) => e == AuthError::UnresolvableLoginUrl && login_post_url(
                login_page_url@,
                login_page_html@,
            ) is None,
        },
{
    let joined = match find_form_action(login_page_html, "sidForm") {
        Some(action) => join_url(login_page_url, action.as_str()),
        None => join_url(login_page_url, "/common_auth/login/sid"),
    };
    match joined {
        Some(u) => Ok(u),
        None => Err(AuthError::UnresolvableLoginUrl),
    }
}

/// What to do with the page that the top page redirects to.
#[derive(Debug, Clone)]
pub enum LoginPageAction {
    AlreadySignedIn,
    PostCredentials(String),
}

/// What to do with the page that the top page redirects to: a page without the SEGA ID form
/// means the session is live, unless it is an error or sign-in page; a page with the form
/// gets the credentials posted to its form's address.
pub fn login_page_action(page: &PageUrl, html: &str) -> (r: Result<LoginPageAction, AuthError>)
    ensures
        !contains(html@, "id=\"sidForm\""@) ==> (if login_or_expired(
            page.serialized@,
            page.path@,
            opt_view(page.domain),
            html@,
        ) {
            r == Err::<LoginPageAction, AuthError>(AuthError::UnexpectedLoginResponse)
        } else {
            r matches Ok(LoginPageAction::AlreadySignedIn)
        }),
        contains(html@, "id=\"sidForm\""@) ==> match r {
            Ok(LoginPageAction::PostCredentials(u)) => login_post_url(page.serialized@, html@)
                == Some(u@),
            Err(e) => e == AuthError::UnresolvableLoginUrl && login_post_url(
                page.serialized@,
                html@,
            ) is None,
            _ => false,
        },
{
    let h = chars_of(html);
    if !holds_text(h.as_slice(), "id=\"sidForm\"") {
        if looks_like_login_or_expired(page, html) {
            return Err(AuthError::UnexpectedLoginResponse);
        }
        return Ok(LoginPageAction::AlreadySignedIn);
    }
    match extract_login_post_url(page.serialized.as_str(), html) {
        Ok(u) => Ok(LoginPageAction::PostCredentials(u)),
        Err(e) => Err(e),
    }
}

/// The form fields of the sign-in post.
pub fn login_form(sega_id: &str, sega_password: &str) -> (r: Vec<(&'static str, String)>)
    ensures
        r@.len() == 3,
        r@[0].0@ == "sid"@ && r@[0].1@ == sega_id@,
        r@[1].0@ == "password"@ && r@[1].1@ == sega_password@,
        r@[2].0@ == "retention"@ && r@[2].1@ == "1"@,
{
    proof {
        reveal_strlit("sid");
        reveal_strlit("password");
        reveal_strlit("retention");
    }
    vec![
        ("sid", String::from_str(sega_id)),
        ("password", String::from_str(sega_password)),
        ("retention", String::from_str("1")),
    ]
}

/// Whether the page after posting the credentials shows a live session.
pub fn check_login_result(final_url: &PageUrl, body: &str) -> (r: Result<(), AuthError>)
    ensures
        r is Err <==> login_or_expired(
            final_url.serialized@,
            final_url.path@,
            opt_view(final_url.domain),
            body@,
        ),
        r matches Err(e) ==> e == AuthError::LoginFailed,
{
    if looks_like_login_or_expired(final_url, body) {
        Err(AuthError::LoginFailed)
    } else {
        Ok(())
    }
}

} // verus!
