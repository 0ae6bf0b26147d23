//! What the commands around the tunnel decide: which server and token to
//! use, whether a pasted token can be one, where the account pages are, and
//! what the server's answers about subdomains hold.

use vstd::prelude::*;
use vstd::string::*;

use crate::config::Config;
use crate::json::Json;
use crate::text::{has_prefix, str_starts_with, str_trim, trimmed_text};

verus! {

/// The server to use: the one given on the command line, else the one of the
/// configuration, else `localhost`.
pub open spec fn resolved_server(cli: Option<Seq<char>>, configured: Option<Seq<char>>) -> Seq<char> {
    match cli {
        Some(server) => server,
        None => match configured {
            Some(server) => server,
            None => "localhost"@,
        },
    }
}

/// Chooses the server to use.
pub fn resolve_server(cli: Option<String>, config: &Config) -> (r: String)
    ensures
        r@ == resolved_server(cli.deep_view(), config.auth.server.deep_view()),
{
    match cli {
        Some(server) => server,
        None => match &config.auth.server {
            Some(server) => server.clone(),
            None => String::from_str("localhost"),
        },
    }
}

/// Chooses the token to use: the one given on the command line, else the one
/// of the configuration.
pub fn resolve_token(cli: Option<String>, config: &Config) -> (r: Option<String>)
    ensures
        r.deep_view() == match cli {
            Some(token) => Some(token@),
            None => config.auth.token.deep_view(),
        },
{
    match cli {
        Some(token) => Some(token),
        None => match &config.auth.token {
            Some(token) => Some(token.clone()),
            None => None,
        },
    }
}

/// Why a pasted token was refused.
#[derive(Debug, Clone, Copy, PartialEq, Eq, Structural)]
pub enum TokenError {
    /// Nothing was pasted.
    Missing,
    /// The token does not start with `brw_`.
    Format,
}

impl TokenError {
    /// The error in words.
    pub fn message(&self) -> (r: &'static str)
        ensures
            r@ == match *self {
                TokenError::Missing => "No token provided"@,
                TokenError::Format => "Invalid token format. Tokens should start with 'brw_'"@,
            },
    {
        match self {
            TokenError::Missing => "No token provided",
            TokenError::Format => "Invalid token format. Tokens should start with 'brw_'",
        }
    }
}

/// The token that a pasted line holds: the line without the white space at
/// its ends, which must not be empty and must start with `brw_`.
pub open spec fn checked_token(line: Seq<char>) -> Result<Seq<char>, TokenError> {
    let token = trimmed_text(line);
    if token.len() == 0 {
        Err(TokenError::Missing)
    } else if !has_prefix(token, "brw_"@) {
        Err(TokenError::Format)
    } else {
        Ok(token)
    }
}

/// The model of a checked token.
pub open spec fn token_model(r: Result<String, TokenError>) -> Result<Seq<char>, TokenError> {
    match r {
        Ok(token) => Ok(token@),
        Err(e) => Err(e),
    }
}

/// Checks a pasted line for a token.
pub fn check_token(line: &str) -> (r: Result<String, TokenError>)
    ensures
        token_model(r) == checked_token(line@),
{
    let token = str_trim(line);
    if token.is_empty() {
        Err(TokenError::Missing)
    } else if !str_starts_with(token, "brw_") {
        Err(TokenError::Format)
    } else {
        Ok(token.to_string())
    }
}

/// The page on which tokens are made: `https://{server}/account`.
pub fn account_url(server: &str) -> (r: String)
    ensures
        r@ == "https://"@ + server@ + "/account"@,
{
    let mut url = String::from_str("https://");
    url.append(server);
    url.append("/account");
    url
}

/// The list of the reserved subdomains: `https://{server}/api/subdomains`.
pub fn subdomains_url(server: &str) -> (r: String)
    ensures
        r@ == "https://"@ + server@ + "/api/subdomains"@,
{
    let mut url = String::from_str("https://");
    url.append(server);
    url.append("/api/subdomains");
    url
}

/// The reservation of one subdomain:
/// `https://{server}/api/subdomains/{subdomain}`.
pub fn release_url(server: &str, subdomain: &str) -> (r: String)
    ensures
        r@ == "https://"@ + server@ + "/api/subdomains/"@ + subdomain@,
{
    let mut url = String::from_str("https://");
    url.append(server);
    url.append("/api/subdomains/");
    url.append(subdomain);
    url
}

/// The string member `key` of a document, or `fallback` where there is none.
pub open spec fn text_or(j: Json, key: Seq<char>, fallback: Seq<char>) -> Seq<char> {
    match j.member(key) {
        Some(Json::Str(s)) => s@,
        _ => fallback,
    }
}

fn member_text_or(j: &Json, key: &str, fallback: &str) -> (r: String)
    ensures
        r@ == text_or(*j, key@, fallback@),
{
    match j.get(key) {
        Some(Json::Str(s)) => s.clone(),
        _ => fallback.to_string(),
    }
}

/// The error that an answer of the server reports: the member `message` of
/// its member `error`, or `Unknown error`.
pub open spec fn reported_error(j: Json) -> Seq<char> {
    match j.member("error"@) {
        Some(error) => text_or(error, "message"@, "Unknown error"@),
        None => "Unknown error"@,
    }
}

/// Reads the error that an answer of the server reports.
pub fn error_message(body: &Json) -> (r: String)
    ensures
        r@ == reported_error(*body),
{
    match body.get("error") {
        Some(error) => member_text_or(error, "message", "Unknown error"),
        None => String::from_str("Unknown error"),
    }
}

/// A reserved subdomain: its name, and when it was reserved; `?` stands for
/// what the answer does not say.
pub open spec fn listed_entry(j: Json) -> (Seq<char>, Seq<char>) {
    (text_or(j, "subdomain"@, "?"@), text_or(j, "created_at"@, "?"@))
}

/// The reserved subdomains that an answer of the server lists: the entries
/// of its member `subdomains`, in order; none where that is no array.
pub open spec fn listed(j: Json) -> Seq<(Seq<char>, Seq<char>)> {
    match j.member("subdomains"@) {
        Some(Json::Array(items)) => Seq::new(items@.len(), |i: int| listed_entry(items@[i])),
        _ => Seq::empty(),
    }
}

/// Reads the reserved subdomains that an answer of the server lists.
pub fn listed_subdomains(body: &Json) -> (r: Vec<(String, String)>)
    ensures
        r.deep_view() == listed(*body),
{
    let mut entries: Vec<(String, String)> = Vec::new();
    match body.get("subdomains") {
        Some(Json::Array(items)) => {
            let mut i: usize = 0;
            while i < items.len()
                invariant
                    i <= items.len(),
                    entries.len() == i,
                    forall|k: int|
                        0 <= k < i ==> (#[trigger] entries@[k].0@, entries@[k].1@) == listed_entry(
                            items@[k],
                        ),
                decreases items.len() - i,
            {
                let name = member_text_or(&items[i], "subdomain", "?");
                let created = member_text_or(&items[i], "created_at", "?");
                entries.push((name, created));
                i += 1;
            }
            assert(entries.deep_view() =~= listed(*body));
        },
        _ => {
            assert(entries.deep_view() =~= Seq::empty());
        },
    }
    entries
}

} // verus!
