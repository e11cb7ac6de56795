//! Text that goes on the wire: URLs, cookies and the login name.

use vstd::prelude::*;
use vstd::string::*;

verus! {

/// `https://{base_url}:{port}/{path}` as a sequence of characters.
pub open spec fn uri(base_url: Seq<char>, port: Seq<char>, path: Seq<char>) -> Seq<char> {
    "https://"@ + base_url + ":"@ + port + "/"@ + path
}

/// `https://{base_url}:{port}`: the origin that the session cookie is scoped to.
pub open spec fn origin(base_url: Seq<char>, port: Seq<char>) -> Seq<char> {
    "https://"@ + base_url + ":"@ + port
}

/// `{key}={value}`.
pub open spec fn cookie(key: Seq<char>, value: Seq<char>) -> Seq<char> {
    key + "="@ + value
}

/// `{user}@{realm}`: the name under which a user logs in.
pub open spec fn login_name(user: Seq<char>, realm: Seq<char>) -> Seq<char> {
    user + "@"@ + realm
}

/// Formats a cookie pair for a cookie store.
pub fn format_cookie(key: &str, value: &str) -> (r: String)
    ensures
        r@ == cookie(key@, value@),
{
    let mut s = String::from_str(key);
    s.append("=");
    s.append(value);
    s
}

/// Formats the URL of a resource on the server at `base_url:port`.
pub fn format_uri(base_url: &str, port: &str, path: &str) -> (r: String)
    ensures
        r@ == uri(base_url@, port@, path@),
{
    let mut s = format_origin(base_url, port);
    s.append("/");
    s.append(path);
    s
}

/// Formats the origin of the server at `base_url:port`.
pub fn format_origin(base_url: &str, port: &str) -> (r: String)
    ensures
        r@ == origin(base_url@, port@),
{
    let mut s = String::from_str("https://");
    s.append(base_url);
    s.append(":");
    s.append(port);
    s
}

/// Formats the login name of `user` in `realm`.
pub fn format_login_name(user: &str, realm: &str) -> (r: String)
    ensures
        r@ == login_name(user@, realm@),
{
    let mut s = String::from_str(user);
    s.append("@");
    s.append(realm);
    s
}

/// A URL is its origin, a slash and the path.
pub proof fn lemma_uri_extends_origin(base_url: Seq<char>, port: Seq<char>, path: Seq<char>)
    ensures
        uri(base_url, port, path) == origin(base_url, port) + "/"@ + path,
        origin(base_url, port).is_prefix_of(uri(base_url, port, path)),
{
}

} // verus!
