//! Opening the socket: the upgrade request.

use vstd::prelude::*;
use vstd::string::{StrSliceExecFns, StringExecFns};
use super::DEFAULT_WS_URL;

verus! {

/// How many characters stand before the first `/` of a text: all of them where
/// it has none.
pub open spec fn slash_index(text: Seq<char>) -> int
    decreases text.len(),
{
    if text.len() == 0 || text[0] == '/' {
        0
    } else {
        1 + slash_index(text.drop_first())
    }
}

proof fn lemma_slash_index_found(text: Seq<char>, i: int)
    requires
        0 <= i <= text.len(),
        forall|j: int| 0 <= j < i ==> text[j] != '/',
        i == text.len() || text[i] == '/',
    ensures
        slash_index(text) == i,
    decreases i,
{
    if i > 0 {
        let rest = text.drop_first();
        assert forall|j: int| 0 <= j < i - 1 implies rest[j] != '/' by {
            assert(rest[j] == text[j + 1]);
        }
        lemma_slash_index_found(rest, i - 1);
    }
}

fn count_to_slash(text: &str, skip: usize, total: usize) -> (n: usize)
    requires
        skip <= total,
        total == text@.len(),
    ensures
        n == slash_index(text@.skip(skip as int)),
{
    let mut seen: usize = 0;
    let mut end: usize = total;
    for c in it: text.chars()
        invariant
            it.seq() == text@,
            total == text@.len(),
            seen == it.index(),
            skip <= end <= total,
            end < total ==> end < seen && text@[end as int] == '/',
            forall|j: int| skip <= j < seen && j < end ==> text@[j] != '/',
    {
        if seen >= skip && end == total && c == '/' {
            end = seen;
        }
        seen = seen + 1;
    }
    proof {
        let rest = text@.skip(skip as int);
        assert forall|j: int| 0 <= j < end - skip implies rest[j] != '/' by {
            assert(rest[j] == text@[j + skip]);
        }
        lemma_slash_index_found(rest, end - skip);
    }
    end - skip
}

/// The length of the scheme that a URL begins with, if it is one of `wss://`,
/// `ws://`, `https://` and `http://`.
pub open spec fn scheme_length(url: Seq<char>) -> Option<int> {
    if "wss://"@.is_prefix_of(url) {
        Some("wss://"@.len() as int)
    } else if "ws://"@.is_prefix_of(url) {
        Some("ws://"@.len() as int)
    } else if "https://"@.is_prefix_of(url) {
        Some("https://"@.len() as int)
    } else if "http://"@.is_prefix_of(url) {
        Some("http://"@.len() as int)
    } else {
        None
    }
}

/// The host of a URL: what stands between the scheme and the next `/`. A URL
/// with another scheme, or with none, has no host.
pub open spec fn spec_url_host(url: Seq<char>) -> Option<Seq<char>> {
    match scheme_length(url) {
        Some(n) => Some(url.subrange(n, n + slash_index(url.skip(n)))),
        None => None,
    }
}

proof fn lemma_slash_index_bound(text: Seq<char>)
    ensures
        0 <= slash_index(text) <= text.len(),
    decreases text.len(),
{
    if text.len() > 0 && text[0] != '/' {
        lemma_slash_index_bound(text.drop_first());
    }
}

fn has_prefix(text: &str, total: usize, prefix: &str) -> (found: Option<usize>)
    requires
        total == text@.len(),
    ensures
        found is Some == prefix@.is_prefix_of(text@),
        found is Some ==> found->0 == prefix@.len(),
{
    let length = prefix.unicode_len();
    if length > total {
        return None;
    }
    let mut i: usize = 0;
    while i < length
        invariant
            i <= length <= total,
            length == prefix@.len(),
            total == text@.len(),
            forall|j: int| 0 <= j < i ==> text@[j] == prefix@[j],
        decreases length - i,
    {
        if text.get_char(i) != prefix.get_char(i) {
            assert(text@.subrange(0, length as int)[i as int] != prefix@[i as int]);
            return None;
        }
        i = i + 1;
    }
    assert(prefix@ =~= text@.subrange(0, length as int));
    Some(length)
}

/// Extract the host from a URL string.
pub fn url_host(url: &str) -> (host: Option<&str>)
    ensures
        host.deep_view() == spec_url_host(url@),
{
    let total = url.unicode_len();
    let scheme = match has_prefix(url, total, "wss://") {
        Some(n) => Some(n),
        None => match has_prefix(url, total, "ws://") {
            Some(n) => Some(n),
            None => match has_prefix(url, total, "https://") {
                Some(n) => Some(n),
                None => has_prefix(url, total, "http://"),
            },
        },
    };
    match scheme {
        Some(n) => {
            let length = count_to_slash(url, n, total);
            proof {
                lemma_slash_index_bound(url@.skip(n as int));
            }
            Some(url.substring_char(n, n + length))
        },
        None => None,
    }
}

/// The request that opens the socket: where to connect, and the headers to
/// send, in order.
#[derive(Debug, Clone)]
pub struct HandshakeRequest {
    pub uri: String,
    pub headers: Vec<(String, String)>,
}

/// [`HandshakeRequest`] as the contracts see it: strings as sequences of characters.
pub struct HandshakeRequestView {
    pub uri: Seq<char>,
    pub headers: Seq<(Seq<char>, Seq<char>)>,
}

impl DeepView for HandshakeRequest {
    type V = HandshakeRequestView;

    open spec fn deep_view(&self) -> HandshakeRequestView {
        HandshakeRequestView { uri: self.uri@, headers: self.headers.deep_view() }
    }
}

/// The value of the `Host` header: the URL's host, or nothing where it has
/// none.
pub open spec fn host_header(url: Seq<char>) -> Seq<char> {
    match spec_url_host(url) {
        Some(host) => host,
        None => Seq::<char>::empty(),
    }
}

/// The headers of the upgrade handshake.
pub open spec fn upgrade_headers(url: Seq<char>, key: Seq<char>) -> Seq<(Seq<char>, Seq<char>)> {
    seq![
        ("Host"@, host_header(url)),
        ("Connection"@, "Upgrade"@),
        ("Upgrade"@, "websocket"@),
        ("Sec-WebSocket-Version"@, "13"@),
        ("Sec-WebSocket-Key"@, key),
    ]
}

impl HandshakeRequestView {
    /// The upgrade request for a URL: the headers of the handshake with the given
    /// key, then the caller's own headers in their order.
    pub open spec fn new(url: Seq<char>, key: Seq<char>, headers: Seq<(Seq<char>, Seq<char>)>) -> HandshakeRequestView {
        HandshakeRequestView { uri: url, headers: upgrade_headers(url, key) + headers }
    }
}

fn pair(name: &str, value: &str) -> (header: (String, String))
    ensures
        header.deep_view() == (name@, value@),
{
    (name.to_owned(), value.to_owned())
}

fn push_header(headers: &mut Vec<(String, String)>, header: (String, String))
    ensures
        final(headers).deep_view() == old(headers).deep_view().push(header.deep_view()),
{
    headers.push(header);
    assert(headers.deep_view() =~= old(headers).deep_view().push(header.deep_view()));
}

/// A fresh random value for the `Sec-WebSocket-Key` header, from tungstenite's
/// `generate_key`. The key is random: nothing is claimed of it.
#[verifier::external_body]
fn fresh_key() -> String {
    tokio_tungstenite::tungstenite::handshake::client::generate_key()
}

impl HandshakeRequest {
    /// Builds the upgrade request for a URL with the given handshake key and
    /// extra headers.
    pub fn with_key(url: &str, key: &str, headers: &[(&str, &str)]) -> (request: Self)
        ensures
            request.deep_view() == HandshakeRequestView::new(url@, key@, headers.deep_view()),
    {
        let host = match url_host(url) {
            Some(host) => host,
            None => "",
        };
        proof {
            if spec_url_host(url@) is None {
                reveal_strlit("");
                assert(""@ =~= Seq::<char>::empty());
            }
        }
        let mut list: Vec<(String, String)> = Vec::new();
        assert(list.deep_view() =~= Seq::<(Seq<char>, Seq<char>)>::empty());
        push_header(&mut list, pair("Host", host));
        push_header(&mut list, pair("Connection", "Upgrade"));
        push_header(&mut list, pair("Upgrade", "websocket"));
        push_header(&mut list, pair("Sec-WebSocket-Version", "13"));
        push_header(&mut list, pair("Sec-WebSocket-Key", key));
        assert(list.deep_view() =~= upgrade_headers(url@, key@));
        let ghost extra = headers.deep_view();
        let mut i: usize = 0;
        while i < headers.len()
            invariant
                i <= headers.len(),
                extra == headers.deep_view(),
                list.deep_view() == upgrade_headers(url@, key@) + extra.take(i as int),
            decreases headers.len() - i,
        {
            let name: &str = headers[i].0;
            let value: &str = headers[i].1;
            assert(extra[i as int] == headers@[i as int].deep_view());
            push_header(&mut list, pair(name, value));
            assert(upgrade_headers(url@, key@) + extra.take(i + 1) =~= (upgrade_headers(
                url@,
                key@,
            ) + extra.take(i as int)).push(extra[i as int]));
            i = i + 1;
        }
        assert(extra.take(i as int) =~= extra);
        HandshakeRequest { uri: url.to_owned(), headers: list }
    }

    /// Builds the upgrade request for a URL with extra headers, under a fresh
    /// random handshake key. Whatever the key, the request is the one that
    /// [`HandshakeRequest::with_key`] builds with it.
    pub fn new(url: &str, headers: &[(&str, &str)]) -> (request: Self)
        ensures
            request.headers@.len() == 5 + headers@.len(),
            request.deep_view() == HandshakeRequestView::new(
                url@,
                request.headers@[4].1@,
                headers.deep_view(),
            ),
    {
        let key = fresh_key();
        let request = HandshakeRequest::with_key(url, key.as_str(), headers);
        proof {
            let built = HandshakeRequestView::new(url@, key@, headers.deep_view());
            assert(request.headers.deep_view().len() == request.headers@.len());
            assert(request.headers.deep_view()[4] == request.headers@[4].deep_view());
            assert(built.headers[4] == ("Sec-WebSocket-Key"@, key@));
        }
        request
    }

    /// The upgrade request for the default endpoint, without extra headers.
    pub fn default_endpoint() -> (request: Self)
        ensures
            request.headers@.len() == 5,
            request.deep_view() == HandshakeRequestView::new(
                DEFAULT_WS_URL@,
                request.headers@[4].1@,
                Seq::<(Seq<char>, Seq<char>)>::empty(),
            ),
    {
        let none: [(&str, &str); 0] = [];
        let headers = none.as_slice();
        assert(headers.deep_view() =~= Seq::<(Seq<char>, Seq<char>)>::empty());
        HandshakeRequest::new(DEFAULT_WS_URL, headers)
    }

    /// The upgrade request for the default endpoint that authenticates with an
    /// API key: one extra header, `Authorization`, carries the key as a bearer
    /// token.
    pub fn with_api_key(api_key: &str) -> (request: Self)
        ensures
            request.headers@.len() == 6,
            request.deep_view() == HandshakeRequestView::new(
                DEFAULT_WS_URL@,
                request.headers@[4].1@,
                seq![("Authorization"@, bearer_token(api_key@))],
            ),
    {
        let token = "Bearer ".to_owned().concat(api_key);
        let one: [(&str, &str); 1] = [("Authorization", token.as_str())];
        let headers = one.as_slice();
        assert(headers.deep_view() =~= seq![("Authorization"@, bearer_token(api_key@))]);
        HandshakeRequest::new(DEFAULT_WS_URL, headers)
    }
}

/// The value of an `Authorization` header that carries an API key.
pub open spec fn bearer_token(api_key: Seq<char>) -> Seq<char> {
    "Bearer "@ + api_key
}

} // verus!
