//! The request dispatcher: one request in, one response out, by way of a
//! WebSocket upgrade or of the static content that the request's path names.
//!
//! The dispatcher reads no content itself. Where a response depends on
//! content, it names the path to resolve and is told what was found.

use crate::http::{
    ascii, ascii_bytes, bytes_eq, contains_token, eq_ignore_ascii_case, eq_ignore_case,
    find_header, has_token, header_value, Header, HeaderView, Request, RequestView, Response,
    ResponseView, Version, SLASH,
};
use vstd::prelude::*;
use vstd::slice::{slice_subrange, slice_to_vec};

verus! {

broadcast use vstd::string::group_string_axioms;

/// The `Sec-WebSocket-Accept` value that answers a `Sec-WebSocket-Key`.
pub uninterp spec fn accept_key(key: Seq<u8>) -> Seq<u8>;

/// `tungstenite::handshake::derive_accept_key`: the base64 text of the SHA-1
/// digest of the key followed by the WebSocket GUID. The digest is not
/// restated here; the result is known only as [`accept_key`] of the key.
#[verifier::external_body]
fn derive_accept_key(key: &[u8]) -> (accept: Vec<u8>)
    ensures
        accept@ == accept_key(key@),
{
    tungstenite::handshake::derive_accept_key(key).into_bytes()
}

/// Whether a request asks for a WebSocket upgrade: the method is `GET`, the
/// version is HTTP/1.1 or later, `Connection` holds the token `upgrade`,
/// `Upgrade` is `websocket`, `Sec-WebSocket-Version` is `13` and
/// `Sec-WebSocket-Key` is present. Of several headers of one name the first
/// counts.
pub open spec fn wants_upgrade(req: RequestView) -> bool {
    &&& req.method == ascii("GET"@)
    &&& req.version.rank() >= Version::Http11.rank()
    &&& header_value(req.headers, ascii("connection"@)) matches Some(connection) && has_token(
        connection,
        ascii("upgrade"@),
    )
    &&& header_value(req.headers, ascii("upgrade"@)) matches Some(upgrade) && eq_ignore_case(
        upgrade,
        ascii("websocket"@),
    )
    &&& header_value(req.headers, ascii("sec-websocket-version"@)) == Some(ascii("13"@))
    &&& header_value(req.headers, ascii("sec-websocket-key"@)) is Some
}

/// The response that switches to the WebSocket protocol: `101`, in the
/// request's version, with the accept value that answers the request's key.
pub open spec fn switching_protocols_view(version: Version, accept: Seq<u8>) -> ResponseView {
    ResponseView {
        status: 101,
        version,
        headers: seq![
            HeaderView { name: ascii("connection"@), value: ascii("Upgrade"@) },
            HeaderView { name: ascii("upgrade"@), value: ascii("websocket"@) },
            HeaderView { name: ascii("sec-websocket-accept"@), value: accept },
        ],
        body: Seq::empty(),
    }
}

/// A response without headers, in HTTP/1.1.
pub open spec fn plain_view(status: u16, body: Seq<u8>) -> ResponseView {
    ResponseView { status, version: Version::Http11, headers: Seq::empty(), body }
}

/// The response to a path that does not start with `/`.
pub open spec fn bad_request_view() -> ResponseView {
    plain_view(400, ascii("Bad request"@))
}

/// The response that carries content.
pub open spec fn ok_view(content: Seq<u8>) -> ResponseView {
    plain_view(200, content)
}

/// The response to a path under which nothing was found; its body names the
/// path.
pub open spec fn not_found_view(name: Seq<u8>) -> ResponseView {
    plain_view(404, ascii("File not found: "@) + name)
}

/// A path without the slashes at its end.
pub open spec fn strip_trailing_slashes(path: Seq<u8>) -> Seq<u8>
    decreases path.len(),
{
    if path.len() > 0 && path.last() == SLASH {
        strip_trailing_slashes(path.drop_last())
    } else {
        path
    }
}

/// The index document of a directory: `index.html` under the directory's
/// path, and `index.html` itself for the root, whose path is empty.
pub open spec fn index_path(directory: Seq<u8>) -> Seq<u8> {
    if directory.len() == 0 {
        ascii("index.html"@)
    } else {
        directory + ascii("/index.html"@)
    }
}

/// Which of a path's two candidates is being resolved.
#[derive(Clone, Copy, Debug, PartialEq, Eq, Structural)]
pub enum Stage {
    /// The requested path as it stands.
    Exact,
    /// The index document of the requested path, taken as a directory.
    Index,
}

/// A response that waits for content: the relative path that was requested,
/// and which of its candidates is to be resolved now.
#[derive(Clone, Debug, PartialEq, Eq)]
pub struct Lookup {
    pub stage: Stage,
    pub relative: Vec<u8>,
}

/// The mathematical content of a [`Lookup`].
pub ghost struct LookupView {
    pub stage: Stage,
    pub relative: Seq<u8>,
}

impl View for Lookup {
    type V = LookupView;

    open spec fn view(&self) -> LookupView {
        LookupView { stage: self.stage, relative: self.relative@ }
    }
}

impl LookupView {
    /// The requested path as a directory.
    pub open spec fn directory(self) -> Seq<u8> {
        strip_trailing_slashes(self.relative)
    }

    /// The path whose content is asked for.
    pub open spec fn path(self) -> Seq<u8> {
        match self.stage {
            Stage::Exact => self.relative,
            Stage::Index => index_path(self.directory()),
        }
    }

    /// What follows once the content under [`LookupView::path`] is known:
    /// content that was found is the response; without it the index document
    /// is tried next, and after that nothing was found.
    pub open spec fn resolved(self, content: Option<Seq<u8>>) -> OutcomeView {
        match content {
            Some(bytes) => OutcomeView::Reply(ok_view(bytes)),
            None => match self.stage {
                Stage::Exact => OutcomeView::Resolve(LookupView { stage: Stage::Index, ..self }),
                Stage::Index => OutcomeView::Reply(not_found_view(self.directory())),
            },
        }
    }
}

/// What the dispatcher has decided.
#[derive(Clone, Debug, PartialEq, Eq)]
pub enum Outcome {
    /// The request is an upgrade: send this response, then bridge the
    /// connection.
    Upgrade(Response),
    /// Send this response.
    Reply(Response),
    /// Resolve the content of the lookup's path and report what was found.
    Resolve(Lookup),
}

/// The mathematical content of an [`Outcome`].
pub ghost enum OutcomeView {
    Upgrade(ResponseView),
    Reply(ResponseView),
    Resolve(LookupView),
}

impl View for Outcome {
    type V = OutcomeView;

    open spec fn view(&self) -> OutcomeView {
        match self {
            Outcome::Upgrade(response) => OutcomeView::Upgrade(response@),
            Outcome::Reply(response) => OutcomeView::Reply(response@),
            Outcome::Resolve(lookup) => OutcomeView::Resolve(lookup@),
        }
    }
}

/// The view of content that may be missing.
pub open spec fn content_view(content: Option<Vec<u8>>) -> Option<Seq<u8>> {
    match content {
        Some(bytes) => Some(bytes@),
        None => None,
    }
}

/// The dispatcher's first decision: an upgrade request is answered with
/// `101`; any other request with `400` unless its path starts with `/`, and
/// otherwise with the content of the path without that slash.
pub open spec fn dispatch(req: RequestView) -> OutcomeView {
    if wants_upgrade(req) {
        OutcomeView::Upgrade(
            switching_protocols_view(
                req.version,
                accept_key(header_value(req.headers, ascii("sec-websocket-key"@))->0),
            ),
        )
    } else if req.path.len() == 0 || req.path[0] != SLASH {
        OutcomeView::Reply(bad_request_view())
    } else {
        OutcomeView::Resolve(LookupView { stage: Stage::Exact, relative: req.path.skip(1) })
    }
}

/// The response to a request, given what content every path has: the whole
/// of the dispatcher's decisions at once.
pub open spec fn serve(req: RequestView, content: spec_fn(Seq<u8>) -> Option<Seq<u8>>)
    -> ResponseView {
    if wants_upgrade(req) {
        switching_protocols_view(
            req.version,
            accept_key(header_value(req.headers, ascii("sec-websocket-key"@))->0),
        )
    } else if req.path.len() == 0 || req.path[0] != SLASH {
        bad_request_view()
    } else {
        let relative = req.path.skip(1);
        let directory = strip_trailing_slashes(relative);
        match content(relative) {
            Some(bytes) => ok_view(bytes),
            None => match content(index_path(directory)) {
                Some(bytes) => ok_view(bytes),
                None => not_found_view(directory),
            },
        }
    }
}

/// The bytes of an ASCII string, owned.
fn literal(text: &str) -> (bytes: Vec<u8>)
    requires
        text.is_ascii(),
    ensures
        bytes@ == ascii(text@),
{
    slice_to_vec(ascii_bytes(text))
}

fn header(name: &str, value: Vec<u8>) -> (header: Header)
    requires
        name.is_ascii(),
    ensures
        header@ == (HeaderView { name: ascii(name@), value: value@ }),
{
    Header { name: literal(name), value }
}

/// Whether a request asks for a WebSocket upgrade.
pub fn is_upgrade(req: &Request) -> (yes: bool)
    ensures
        yes == wants_upgrade(req@),
{
    proof {
        reveal_strlit("GET");
        reveal_strlit("connection");
        reveal_strlit("upgrade");
        reveal_strlit("websocket");
        reveal_strlit("sec-websocket-version");
        reveal_strlit("13");
        reveal_strlit("sec-websocket-key");
    }
    if !bytes_eq(req.method.as_slice(), ascii_bytes("GET")) {
        return false;
    }
    if !req.version.at_least_http11() {
        return false;
    }
    let connection = match find_header(&req.headers, ascii_bytes("connection")) {
        Some(value) => contains_token(value.as_slice(), ascii_bytes("upgrade")),
        None => false,
    };
    if !connection {
        return false;
    }
    let upgrade = match find_header(&req.headers, ascii_bytes("upgrade")) {
        Some(value) => eq_ignore_ascii_case(value.as_slice(), ascii_bytes("websocket")),
        None => false,
    };
    if !upgrade {
        return false;
    }
    let version = match find_header(&req.headers, ascii_bytes("sec-websocket-version")) {
        Some(value) => bytes_eq(value.as_slice(), ascii_bytes("13")),
        None => false,
    };
    if !version {
        return false;
    }
    find_header(&req.headers, ascii_bytes("sec-websocket-key")).is_some()
}

/// The response that switches to the WebSocket protocol, for the accept
/// value that was derived from the request's key.
pub fn switching_protocols(version: Version, accept: Vec<u8>) -> (response: Response)
    ensures
        response@ == switching_protocols_view(version, accept@),
{
    proof {
        reveal_strlit("connection");
        reveal_strlit("Upgrade");
        reveal_strlit("upgrade");
        reveal_strlit("websocket");
        reveal_strlit("sec-websocket-accept");
    }
    let mut headers: Vec<Header> = Vec::new();
    headers.push(header("connection", literal("Upgrade")));
    headers.push(header("upgrade", literal("websocket")));
    headers.push(header("sec-websocket-accept", accept));
    let response = Response { status: 101, version, headers, body: Vec::new() };
    assert(response@.headers =~= switching_protocols_view(version, accept@).headers);
    assert(response@.body =~= Seq::empty());
    response
}

fn plain(status: u16, body: Vec<u8>) -> (response: Response)
    ensures
        response@ == plain_view(status, body@),
{
    let response = Response { status, version: Version::Http11, headers: Vec::new(), body };
    assert(response@.headers =~= Seq::empty());
    response
}

/// The response to a path that does not start with `/`.
pub fn bad_request() -> (response: Response)
    ensures
        response@ == bad_request_view(),
{
    proof {
        reveal_strlit("Bad request");
    }
    plain(400, literal("Bad request"))
}

/// The response that carries `content`.
pub fn ok(content: Vec<u8>) -> (response: Response)
    ensures
        response@ == ok_view(content@),
{
    plain(200, content)
}

/// The response to a path under which nothing was found.
pub fn not_found(name: Vec<u8>) -> (response: Response)
    ensures
        response@ == not_found_view(name@),
{
    proof {
        reveal_strlit("File not found: ");
    }
    let mut name = name;
    let mut body = literal("File not found: ");
    body.append(&mut name);
    plain(404, body)
}

proof fn lemma_strip_take(path: Seq<u8>, keep: int)
    requires
        0 <= keep <= path.len(),
        forall|k: int| keep <= k < path.len() ==> path[k] == SLASH,
    ensures
        strip_trailing_slashes(path) == strip_trailing_slashes(path.take(keep)),
    decreases path.len() - keep,
{
    if keep < path.len() {
        assert(path.drop_last().take(keep) =~= path.take(keep));
        lemma_strip_take(path.drop_last(), keep);
    } else {
        assert(path.take(keep) =~= path);
    }
}

/// `path` without the slashes at its end.
pub fn without_trailing_slashes(path: &[u8]) -> (stripped: Vec<u8>)
    ensures
        stripped@ == strip_trailing_slashes(path@),
{
    let mut keep: usize = path.len();
    while keep > 0 && path[keep - 1] == SLASH
        invariant
            keep <= path.len(),
            forall|k: int| keep <= k < path.len() ==> path@[k] == SLASH,
        decreases keep,
    {
        keep -= 1;
    }
    proof {
        lemma_strip_take(path@, keep as int);
        assert(path@.take(keep as int) =~= path@.subrange(0, keep as int));
    }
    slice_to_vec(slice_subrange(path, 0, keep))
}

/// The index document of `directory`.
pub fn index_of(directory: Vec<u8>) -> (path: Vec<u8>)
    ensures
        path@ == index_path(directory@),
{
    proof {
        reveal_strlit("index.html");
        reveal_strlit("/index.html");
    }
    if directory.len() == 0 {
        literal("index.html")
    } else {
        let mut path = directory;
        let mut name = literal("/index.html");
        path.append(&mut name);
        path
    }
}

impl Lookup {
    /// The path whose content is asked for.
    pub fn path(&self) -> (path: Vec<u8>)
        ensures
            path@ == self@.path(),
    {
        match self.stage {
            Stage::Exact => slice_to_vec(self.relative.as_slice()),
            Stage::Index => index_of(without_trailing_slashes(self.relative.as_slice())),
        }
    }

    /// Takes what was found under [`Lookup::path`], `None` for nothing, and
    /// decides what follows.
    pub fn resolved(self, content: Option<Vec<u8>>) -> (outcome: Outcome)
        ensures
            outcome@ == self@.resolved(content_view(content)),
    {
        match content {
            Some(bytes) => Outcome::Reply(ok(bytes)),
            None => match self.stage {
                Stage::Exact => Outcome::Resolve(
                    Lookup { stage: Stage::Index, relative: self.relative },
                ),
                Stage::Index => Outcome::Reply(
                    not_found(without_trailing_slashes(self.relative.as_slice())),
                ),
            },
        }
    }
}

/// The dispatcher's decision on a request.
pub fn handle_request(req: &Request) -> (outcome: Outcome)
    ensures
        outcome@ == dispatch(req@),
{
    proof {
        reveal_strlit("sec-websocket-key");
    }
    if is_upgrade(req) {
        match find_header(&req.headers, ascii_bytes("sec-websocket-key")) {
            Some(key) => {
                let accept = derive_accept_key(key.as_slice());
                Outcome::Upgrade(switching_protocols(req.version, accept))
            },
            None => Outcome::Reply(bad_request()),
        }
    } else if req.path.len() == 0 || req.path[0] != SLASH {
        Outcome::Reply(bad_request())
    } else {
        let relative = slice_to_vec(slice_subrange(req.path.as_slice(), 1, req.path.len()));
        assert(relative@ =~= req@.path.skip(1));
        Outcome::Resolve(Lookup { stage: Stage::Exact, relative })
    }
}

impl OutcomeView {
    /// The number of lookups that may still follow.
    pub open spec fn lookups_left(self) -> nat {
        match self {
            OutcomeView::Resolve(lookup) => match lookup.stage {
                Stage::Exact => 2,
                Stage::Index => 1,
            },
            _ => 0,
        }
    }

    /// The response that the outcome comes to when every lookup is answered
    /// by `content`.
    pub open spec fn settle(self, content: spec_fn(Seq<u8>) -> Option<Seq<u8>>) -> ResponseView
        decreases self.lookups_left(),
    {
        match self {
            OutcomeView::Upgrade(response) => response,
            OutcomeView::Reply(response) => response,
            OutcomeView::Resolve(lookup) => lookup.resolved(content(lookup.path())).settle(
                content,
            ),
        }
    }
}

/// Answering each lookup that the dispatcher asks for, from its first
/// decision on, ends in the response that [`serve`] gives, after two lookups
/// at most.
pub proof fn law_dispatch_serves(req: RequestView, content: spec_fn(Seq<u8>) -> Option<Seq<u8>>)
    ensures
        dispatch(req).settle(content) == serve(req, content),
        dispatch(req).lookups_left() <= 2,
{
    reveal_with_fuel(OutcomeView::settle, 3);
}

/// A request is answered with `101` exactly when it asks for an upgrade, and
/// the response then carries, as `Sec-WebSocket-Accept`, the accept value
/// that answers the request's key, in the request's version.
pub proof fn law_upgrade_iff_101(req: RequestView, content: spec_fn(Seq<u8>) -> Option<Seq<u8>>)
    ensures
        serve(req, content).status == 101 <==> wants_upgrade(req),
        wants_upgrade(req) ==> {
            let response = serve(req, content);
            let key = header_value(req.headers, ascii("sec-websocket-key"@))->0;
            &&& response.version == req.version
            &&& header_value(response.headers, ascii("sec-websocket-accept"@)) == Some(
                accept_key(key),
            )
            &&& header_value(response.headers, ascii("connection"@)) == Some(ascii("Upgrade"@))
            &&& header_value(response.headers, ascii("upgrade"@)) == Some(ascii("websocket"@))
        },
{
    if wants_upgrade(req) {
        let key = header_value(req.headers, ascii("sec-websocket-key"@))->0;
        let headers = switching_protocols_view(req.version, accept_key(key)).headers;
        lemma_upgrade_header_names();
        reveal_with_fuel(header_value, 4);
        assert(headers.drop_first()[0] == headers[1]);
        assert(headers.drop_first().drop_first()[0] == headers[2]);
    }
}

proof fn lemma_upgrade_header_names()
    ensures
        eq_ignore_case(ascii("connection"@), ascii("connection"@)),
        eq_ignore_case(ascii("upgrade"@), ascii("upgrade"@)),
        eq_ignore_case(ascii("sec-websocket-accept"@), ascii("sec-websocket-accept"@)),
        !eq_ignore_case(ascii("connection"@), ascii("upgrade"@)),
        !eq_ignore_case(ascii("connection"@), ascii("sec-websocket-accept"@)),
        !eq_ignore_case(ascii("upgrade"@), ascii("sec-websocket-accept"@)),
{
    reveal_strlit("connection");
    reveal_strlit("upgrade");
    reveal_strlit("sec-websocket-accept");
}

/// A request that does not ask for an upgrade and whose path does not start
/// with `/` is answered with `400`, whatever content there is.
pub proof fn law_relative_path_is_bad_request(
    req: RequestView,
    content: spec_fn(Seq<u8>) -> Option<Seq<u8>>,
)
    requires
        !wants_upgrade(req),
        req.path.len() == 0 || req.path[0] != SLASH,
    ensures
        serve(req, content) == bad_request_view(),
        serve(req, content).status == 400,
{
}

/// A request for content is answered with `200` and the content of the first
/// of its two candidates that exists, and with `404` when neither does.
pub proof fn law_static_content(req: RequestView, content: spec_fn(Seq<u8>) -> Option<Seq<u8>>)
    requires
        !wants_upgrade(req),
        req.path.len() > 0,
        req.path[0] == SLASH,
    ensures
        ({
            let relative = req.path.skip(1);
            let index = index_path(strip_trailing_slashes(relative));
            let response = serve(req, content);
            &&& response == match (content(relative), content(index)) {
                (Some(bytes), _) => ok_view(bytes),
                (None, Some(bytes)) => ok_view(bytes),
                (None, None) => not_found_view(strip_trailing_slashes(relative)),
            }
            &&& response.status == 200 || response.status == 404
            &&& response.status == 404 <==> content(relative) is None && content(index) is None
        }),
{
}

} // verus!
