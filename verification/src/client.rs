//! The HTTP client that talks to the marketplace: every request goes through
//! one forward proxy with basic authentication and carries two fixed headers.
//!
//! The client, its builder, the proxy and the header map are `reqwest`'s. What
//! this module states of them is taken on trust from `reqwest` and `http`; each
//! such item says so.

use vstd::prelude::*;
use reqwest::header::{HeaderMap, HeaderValue};
use reqwest::{Client, ClientBuilder, Proxy};
use crate::market::{CONTENT_TYPE, USER_AGENT};

verus! {

/// `reqwest::Client`, taken as it is: nothing is known of its inside.
#[verifier::external_type_specification]
#[verifier::external_body]
pub struct ExClient(reqwest::Client);

/// `reqwest::Proxy`, taken as it is.
#[verifier::external_type_specification]
#[verifier::external_body]
pub struct ExProxy(reqwest::Proxy);

/// `reqwest::Error`, taken as it is.
#[verifier::external_type_specification]
#[verifier::external_body]
pub struct ExError(reqwest::Error);

/// `http::HeaderValue`, taken as it is.
#[verifier::external_type_specification]
#[verifier::external_body]
pub struct ExHeaderValue(reqwest::header::HeaderValue);

/// `http::HeaderMap`, taken as it is; what it holds goes by [`header_fields`].
#[verifier::external_type_specification]
#[verifier::external_body]
#[verifier::reject_recursive_types(T)]
pub struct ExHeaderMap<T>(reqwest::header::HeaderMap<T>);

/// What a header map holds: for each header name in it, written in lower case
/// as the map keeps it, the value that a lookup of the name finds, each byte of
/// the value read as the character with that code.
pub uninterp spec fn header_fields(map: HeaderMap<HeaderValue>) -> Map<Seq<char>, Seq<char>>;

/// The number of header names that a header map holds.
pub uninterp spec fn header_count(map: HeaderMap<HeaderValue>) -> nat;

/// What `reqwest::Proxy::all` makes of `address`: the proxy for all traffic at
/// that address, or nothing where it does not take the address.
pub uninterp spec fn proxy_for_all(address: Seq<char>) -> Option<Proxy>;

/// What `reqwest::Proxy::basic_auth` makes of `proxy`: the same proxy, which
/// then authenticates with `user` and `password`.
pub uninterp spec fn proxy_with_auth(proxy: Proxy, user: Seq<char>, password: Seq<char>) -> Proxy;

/// Whether `reqwest::Proxy::all` takes `address` as the address of a proxy.
pub open spec fn proxy_address_accepted(address: Seq<char>) -> bool {
    proxy_for_all(address) is Some
}

/// The header map that holds nothing.
pub open spec fn no_headers() -> Map<Seq<char>, Seq<char>> {
    Map::empty()
}

/// The number of names below which a header map never refuses a new one. It
/// refuses one only when its table, of 32768 slots at most, would have to grow,
/// and the table grows only once a fifth of its slots are taken.
pub const HEADER_ROOM: usize = 6554;

/// True for an ASCII letter, a digit or a hyphen.
pub open spec fn is_name_char(c: char) -> bool {
    ('a' <= c && c <= 'z') || ('A' <= c && c <= 'Z') || ('0' <= c && c <= '9') || c == '-'
}

/// True for a header name of 1 to 64 letters, digits and hyphens.
pub open spec fn is_plain_name(name: Seq<char>) -> bool {
    &&& 1 <= name.len() <= 64
    &&& forall|i: int| 0 <= i < name.len() ==> is_name_char(#[trigger] name[i])
}

/// True for text made of the visible ASCII characters, the space and the tab.
pub open spec fn is_visible_text(text: Seq<char>) -> bool {
    forall|i: int|
        0 <= i < text.len() ==> (' ' <= #[trigger] text[i] && text[i] <= '~') || text[i] == '\t'
}

/// `c` with an upper-case ASCII letter turned into its lower-case letter.
pub open spec fn lower_char(c: char) -> char {
    if 'A' <= c && c <= 'Z' {
        ((c as u8) + 32) as char
    } else {
        c
    }
}

/// `name` in lower case.
pub open spec fn lower(name: Seq<char>) -> Seq<char> {
    Seq::new(name.len(), |i: int| lower_char(name[i]))
}

/// `HeaderMap::new`: a header map that holds nothing.
#[verifier::external_body]
fn header_map_new() -> (map: HeaderMap<HeaderValue>)
    ensures
        header_fields(map) == no_headers(),
        header_count(map) == 0,
{
    HeaderMap::new()
}

/// `HeaderMap::insert` with a value made by `HeaderValue::from_static`: the
/// name, in lower case, then has `value` as its one value, and every other name
/// keeps what it had. `http` panics on a name or a value with a character that
/// it does not take, and on a new name for which its table would have to grow
/// beyond 32768 slots; the `requires` keeps to names and values that it takes
/// and to maps too small for that.
#[verifier::external_body]
fn header_insert(map: &mut HeaderMap<HeaderValue>, name: &'static str, value: &'static str)
    requires
        is_plain_name(name@),
        is_visible_text(value@),
        header_count(*old(map)) < HEADER_ROOM,
    ensures
        header_fields(*final(map)) == header_fields(*old(map)).insert(lower(name@), value@),
        header_count(*final(map)) <= header_count(*old(map)) + 1,
{
    map.insert(name, HeaderValue::from_static(value));
}

/// `Proxy::all`: a proxy for all traffic at `address`, or the error with which
/// `reqwest` turns the address down. Whether it is taken, and the proxy that
/// is made, depend on the text of the address alone.
#[verifier::external_body]
fn proxy_all(address: &str) -> (made: Result<Proxy, reqwest::Error>)
    ensures
        match made {
            Ok(proxy) => proxy_for_all(address@) == Some(proxy),
            Err(_) => proxy_for_all(address@) is None,
        },
{
    Proxy::all(address)
}

/// `Proxy::basic_auth`: the same proxy, with a user and a password. What comes
/// back depends on the proxy and the two texts alone.
pub assume_specification[ reqwest::Proxy::basic_auth ](
    proxy: reqwest::Proxy,
    username: &str,
    password: &str,
) -> (with_auth: reqwest::Proxy)
    ensures
        with_auth == proxy_with_auth(proxy, username@, password@),
;

/// `ClientBuilder::new`, `default_headers`, `proxy` and `build`, in this
/// order: the client that sends `headers` with every request and routes
/// through `proxy`, or the error that stopped `reqwest` from making it, which
/// depends on the machine. The builder starts with one header of its own and
/// takes in those of `headers`; the `requires` leaves room for it.
#[verifier::external_body]
fn build_client(headers: HeaderMap<HeaderValue>, proxy: Proxy) -> (built: Result<
    Client,
    reqwest::Error,
>)
    requires
        header_count(headers) + 1 < HEADER_ROOM,
{
    ClientBuilder::new().default_headers(headers).proxy(proxy).build()
}

/// Why no client could be made.
#[derive(Debug)]
pub enum ClientError {
    /// The address of the proxy was turned down.
    ProxyAddress(reqwest::Error),
    /// The client could not be built on this machine.
    Build(reqwest::Error),
}

/// The headers that every request carries.
pub open spec fn fixed_headers() -> Map<Seq<char>, Seq<char>> {
    no_headers().insert("user-agent"@, USER_AGENT@).insert(
        "content-type"@,
        CONTENT_TYPE@,
    )
}

/// Makes the header map with the two fixed headers.
pub fn default_headers() -> (headers: HeaderMap)
    ensures
        header_fields(headers) == fixed_headers(),
        header_count(headers) <= 2,
{
    let mut headers = header_map_new();
    proof {
        lemma_fixed_header_texts();
    }
    header_insert(&mut headers, "User-Agent", USER_AGENT);
    header_insert(&mut headers, "Content-Type", CONTENT_TYPE);
    headers
}

/// Gives the proxy its credentials, or reports that its address was turned
/// down.
pub fn proxy_from(made: Result<Proxy, reqwest::Error>, user: &str, password: &str) -> (proxy:
    Result<Proxy, ClientError>)
    ensures
        match made {
            Ok(bare) => proxy == Ok::<Proxy, ClientError>(proxy_with_auth(bare, user@, password@)),
            Err(e) => proxy == Err::<Proxy, ClientError>(ClientError::ProxyAddress(e)),
        },
{
    match made {
        Ok(bare) => Ok(bare.basic_auth(user, password)),
        Err(e) => Err(ClientError::ProxyAddress(e)),
    }
}

/// Makes the proxy for all traffic at `proxy_url` that authenticates with
/// `user` and `password`; an address that `reqwest` does not take gives
/// `ProxyAddress`.
pub fn make_proxy(proxy_url: &str, user: &str, password: &str) -> (proxy: Result<
    Proxy,
    ClientError,
>)
    ensures
        match proxy_for_all(proxy_url@) {
            Some(bare) => proxy == Ok::<Proxy, ClientError>(
                proxy_with_auth(bare, user@, password@),
            ),
            None => proxy matches Err(ClientError::ProxyAddress(_)),
        },
{
    proxy_from(proxy_all(proxy_url), user, password)
}

/// Hands the client on, or reports that it could not be built.
pub fn client_from(built: Result<Client, reqwest::Error>) -> (client: Result<Client, ClientError>)
    ensures
        match built {
            Ok(c) => client == Ok::<Client, ClientError>(c),
            Err(e) => client == Err::<Client, ClientError>(ClientError::Build(e)),
        },
{
    match built {
        Ok(c) => Ok(c),
        Err(e) => Err(ClientError::Build(e)),
    }
}

/// Makes the client. The builder is handed the header map of
/// [`default_headers`] and the proxy of [`make_proxy`], so that every request
/// carries the two fixed headers and goes through the proxy at `proxy_url`
/// with `user` and `password`. An address that `reqwest` does not take as a
/// proxy's gives `ProxyAddress`, and nothing else does; with a good address
/// the result is what the builder made of the two: the client, or `Build`
/// where this machine cannot make one.
pub fn create_http_client(proxy_url: &str, user: &str, password: &str) -> (client: Result<
    Client,
    ClientError,
>)
    ensures
        client matches Err(ClientError::ProxyAddress(_)) <==> !proxy_address_accepted(proxy_url@),
        proxy_address_accepted(proxy_url@) ==> client is Ok || client matches Err(
            ClientError::Build(_),
        ),
{
    match make_proxy(proxy_url, user, password) {
        Ok(proxy) => client_from(build_client(default_headers(), proxy)),
        Err(e) => Err(e),
    }
}

/// The names and values of the fixed headers are such as a header map takes.
proof fn lemma_fixed_header_texts()
    ensures
        is_plain_name("User-Agent"@),
        is_plain_name("Content-Type"@),
        lower("User-Agent"@) == "user-agent"@,
        lower("Content-Type"@) == "content-type"@,
        is_visible_text(USER_AGENT@),
        is_visible_text(CONTENT_TYPE@),
{
    reveal_strlit("User-Agent");
    reveal_strlit("Content-Type");
    reveal_strlit("user-agent");
    reveal_strlit("content-type");
    reveal_strlit("application/json");
    reveal_strlit(
        "Mozilla/5.0 (Macintosh; Intel Mac OS X 10_15_7) AppleWebKit/605.1.15 (KHTML, like Gecko) Version/16.1 Safari/605.1.15",
    );
    assert(lower("User-Agent"@) =~= "user-agent"@);
    assert(lower("Content-Type"@) =~= "content-type"@);
}

} // verus!
