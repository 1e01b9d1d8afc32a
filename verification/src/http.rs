//! The HTTP transport: the codec between the wire envelopes and the dispatch
//! table, and the mapping from a dispatch outcome to a status and a body.

use base64::Engine;
use base64::engine::general_purpose::STANDARD;
use crate::error::Error;
use crate::http::protocol::HttpRpcError;
use crate::http::protocol::HttpRpcRequest;
use crate::http::protocol::HttpRpcResponse;
use crate::router::CallKey;
use crate::router::dispatch_result;
use crate::router::DynRpcRegistry;
use crate::router::RpcError;
use crate::router::RpcHandler;
use crate::router::RpcRequest;
use crate::router::RpcResponse;
use crate::transport::Transport;
use crate::types::TransportId;
use vstd::prelude::*;

pub mod protocol;

verus! {

/// The base64 text of `bytes` in the standard alphabet with padding: what
/// `Engine::encode` of the base64 crate returns on its `STANDARD` engine.
pub uninterp spec fn base64_text(bytes: Seq<u8>) -> Seq<char>;

/// What `Engine::decode` of the base64 crate makes of `text` on its
/// `STANDARD` engine: the bytes, or the text of its error.
pub uninterp spec fn base64_bytes(text: Seq<char>) -> Result<Seq<u8>, Seq<char>>;

/// Whether `text` is base64 that stands for `bytes`.
pub open spec fn decodes_to(text: Seq<char>, bytes: Seq<u8>) -> bool {
    base64_bytes(text) matches Ok(decoded) && decoded == bytes
}

/// A decoder's result as plain values.
pub open spec fn decoded(result: Result<Vec<u8>, String>) -> Result<Seq<u8>, Seq<char>> {
    match result {
        Ok(bytes) => Ok(bytes@),
        Err(msg) => Err(msg@),
    }
}

/// The length of the padded base64 text of `n` bytes.
pub open spec fn encoded_len(n: nat) -> nat {
    (n + 2) / 3 * 4
}

/// Whether the base64 text of `n` bytes has a length that `usize` holds.
pub open spec fn encodable(n: nat) -> bool {
    encoded_len(n) <= usize::MAX
}

/// `Engine::encode` of the base64 crate on `STANDARD`. It panics where the
/// length of the text does not fit in `usize`, which `requires` leaves out.
/// The text is named; it has four characters for every three bytes begun,
/// and decoding it gives `bytes` back.
#[verifier::external_body]
fn standard_encode(bytes: &[u8]) -> (text: String)
    requires
        encodable(bytes@.len()),
    ensures
        text@ == base64_text(bytes@),
        text@.len() == encoded_len(bytes@.len()),
        decodes_to(text@, bytes@),
{
    STANDARD.encode(bytes)
}

/// `Engine::decode` of the base64 crate on `STANDARD`, with the error turned
/// into its text. What comes back is named.
#[verifier::external_body]
fn standard_decode(text: &str) -> (result: Result<Vec<u8>, String>)
    ensures
        decoded(result) == base64_bytes(text@),
{
    match STANDARD.decode(text) {
        Ok(bytes) => Ok(bytes),
        Err(err) => Err(err.to_string()),
    }
}

/// The status of every answer but the one to a payload that is not base64.
pub const STATUS_OK: u16 = 200;

/// The status of the answer to a payload that is not base64.
pub const STATUS_BAD_REQUEST: u16 = 400;

/// Why a request did not reach the dispatch table.
#[derive(Debug)]
pub enum HttpHandlerError {
    InvalidBase64(String),
}

/// A status and the body that goes with it.
#[derive(Debug)]
pub struct HttpReply {
    pub status: u16,
    pub body: HttpRpcResponse,
}

/// Whether `body` is the body that tells of the failure `code` with `message`:
/// no payload, and the error.
pub open spec fn is_failure_body(body: HttpRpcResponse, code: Seq<char>, message: Seq<char>) -> bool {
    &&& body.payload_b64@ == Seq::<char>::empty()
    &&& body.error matches Some(error)
    &&& error.code@ == code
    &&& error.message@ == message
}

impl HttpHandlerError {
    /// The answer to a request that could not be decoded: a bad request, with
    /// the decoder's words under the code `decode`.
    pub fn into_response(self) -> (reply: HttpReply)
        ensures
            reply.status == STATUS_BAD_REQUEST,
            self matches HttpHandlerError::InvalidBase64(message) && is_failure_body(
                reply.body,
                "decode"@,
                message@,
            ),
    {
        match self {
            HttpHandlerError::InvalidBase64(message) => HttpReply {
                status: STATUS_BAD_REQUEST,
                body: HttpRpcResponse {
                    payload_b64: String::new(),
                    error: Some(HttpRpcError { code: "decode".to_owned(), message }),
                },
            },
        }
    }
}

/// Decodes the payload of a request.
pub fn decode_payload(encoded: &str) -> (result: Result<Vec<u8>, HttpHandlerError>)
    ensures
        match result {
            Ok(bytes) => decoded(Ok(bytes)) == base64_bytes(encoded@),
            Err(HttpHandlerError::InvalidBase64(msg)) => decoded(Err(msg)) == base64_bytes(encoded@),
        },
{
    match standard_decode(encoded) {
        Ok(bytes) => Ok(bytes),
        Err(msg) => Err(HttpHandlerError::InvalidBase64(msg)),
    }
}

/// Tells whether a payload of `len` bytes can be encoded.
pub fn can_encode(len: usize) -> (fits: bool)
    ensures
        fits == encodable(len as nat),
{
    let quads: usize = if len % 3 == 0 {
        len / 3
    } else {
        len / 3 + 1
    };
    quads <= usize::MAX / 4
}

/// Encodes the payload of a response. Decoding the text gives the payload
/// back, byte for byte; the text of the empty payload is empty.
pub fn encode_payload(payload: &[u8]) -> (text: String)
    requires
        encodable(payload@.len()),
    ensures
        text@ == base64_text(payload@),
        text@.len() == encoded_len(payload@.len()),
        decodes_to(text@, payload@),
{
    standard_encode(payload)
}

/// The code under which a dispatch error goes over the wire.
pub open spec fn error_code(err: RpcError) -> Seq<char> {
    match err {
        RpcError::UnknownMethod => "unknown_method"@,
        RpcError::Decode(_) => "decode"@,
        RpcError::Internal(_) => "internal"@,
    }
}

/// Turns a dispatch error into its wire form: the code of its kind and its
/// text.
pub fn map_rpc_error(err: &RpcError) -> (error: HttpRpcError)
    ensures
        error.code@ == error_code(*err),
        error.message@ == err.message_text(),
{
    let code = match err {
        RpcError::UnknownMethod => "unknown_method",
        RpcError::Decode(_) => "decode",
        RpcError::Internal(_) => "internal",
    };
    HttpRpcError { code: code.to_owned(), message: err.message() }
}

/// What the body says of a payload that is too large to be encoded.
pub const PAYLOAD_TOO_LARGE: &'static str = "response payload is too large to encode";

/// Whether `body` is the body for the dispatch outcome `outcome`: without an
/// error, the base64 text of the payload, from which the payload can be
/// decoded byte for byte; or the error without a payload. A payload whose
/// text no `usize` could measure counts as an internal error of the call.
pub open spec fn is_body_for(outcome: Result<RpcResponse, RpcError>, body: HttpRpcResponse) -> bool {
    match outcome {
        Ok(response) => if encodable(response.payload@.len()) {
            &&& body.error is None
            &&& body.payload_b64@ == base64_text(response.payload@)
            &&& decodes_to(body.payload_b64@, response.payload@)
        } else {
            is_failure_body(body, "internal"@, "internal error: "@ + PAYLOAD_TOO_LARGE@)
        },
        Err(err) => is_failure_body(body, error_code(err), err.message_text()),
    }
}

/// Turns a dispatch outcome into the body of the answer.
pub fn response_body(outcome: Result<RpcResponse, RpcError>) -> (body: HttpRpcResponse)
    ensures
        is_body_for(outcome, body),
{
    match outcome {
        Ok(response) => {
            if can_encode(response.payload.len()) {
                HttpRpcResponse {
                    payload_b64: encode_payload(response.payload.as_slice()),
                    error: None,
                }
            } else {
                let err = RpcError::Internal(PAYLOAD_TOO_LARGE.to_owned());
                HttpRpcResponse { payload_b64: String::new(), error: Some(map_rpc_error(&err)) }
            }
        },
        Err(err) => HttpRpcResponse { payload_b64: String::new(), error: Some(map_rpc_error(&err)) },
    }
}

/// Whether `req` is the call that `request` asks for with the payload `bytes`.
pub open spec fn is_call_of(req: RpcRequest, request: HttpRpcRequest, bytes: Seq<u8>) -> bool {
    &&& req.service@ == request.service@
    &&& req.method@ == request.method@
    &&& req.payload@ == bytes
    &&& req.timeout_ms == request.timeout_ms
}

/// Whether `result` answers `request` against `table`: a payload that is not
/// base64 is refused with the decoder's words, and the table is not
/// consulted; any other request is dispatched with the decoded payload, and
/// the body is the one for the outcome.
pub open spec fn is_answer_in(
    table: Map<CallKey, RpcHandler>,
    request: HttpRpcRequest,
    result: Result<HttpRpcResponse, HttpHandlerError>,
) -> bool {
    match base64_bytes(request.payload_b64@) {
        Err(msg) => result matches Err(HttpHandlerError::InvalidBase64(message)) && message@
            == msg,
        Ok(bytes) => result matches Ok(body) && exists|
            req: RpcRequest,
            outcome: Result<RpcResponse, RpcError>,
        |
            is_call_of(req, request, bytes) && #[trigger] dispatch_result(table, req, outcome)
                && is_body_for(outcome, body),
    }
}

/// Whether `result` answers `request` against the table as it stood when the
/// request was dispatched.
pub open spec fn is_answer_to(
    request: HttpRpcRequest,
    result: Result<HttpRpcResponse, HttpHandlerError>,
) -> bool {
    exists|table: Map<CallKey, RpcHandler>| #[trigger] is_answer_in(table, request, result)
}

/// Whether `handler` echoes: it answers every request with the request's own
/// payload.
pub open spec fn echoes(handler: RpcHandler) -> bool {
    forall|req: RpcRequest, out: Result<RpcResponse, RpcError>| #[trigger]
        handler.answers(req, out) ==> (out matches Ok(response) && response.payload@
            == req.payload@)
}

/// Let a request carry base64 text that stands for `payload`, and let it be
/// answered against a table whose handler for the request's key echoes. Then
/// the answer is a body without an error, and what it carries decodes to
/// `payload` again, byte for byte; the empty payload is no exception. The
/// payload is one that can be encoded, as every payload is that a request
/// could have carried as base64 text.
pub proof fn lemma_echo_is_byte_exact(
    payload: Seq<u8>,
    request: HttpRpcRequest,
    table: Map<CallKey, RpcHandler>,
    result: Result<HttpRpcResponse, HttpHandlerError>,
)
    requires
        decodes_to(request.payload_b64@, payload),
        encodable(payload.len()),
        table.contains_key((request.service@, request.method@)),
        echoes(table[(request.service@, request.method@)]),
        is_answer_in(table, request, result),
    ensures
        result matches Ok(body) && body.error is None && decodes_to(body.payload_b64@, payload),
{
}

/// A request whose payload is not base64 is refused with the decoder's words
/// whatever the table holds: no handler has a say in the answer.
pub proof fn lemma_undecodable_payload_refused(
    table: Map<CallKey, RpcHandler>,
    request: HttpRpcRequest,
    result: Result<HttpRpcResponse, HttpHandlerError>,
)
    requires
        base64_bytes(request.payload_b64@) is Err,
    ensures
        is_answer_in(table, request, result) <==> (result matches Err(
            HttpHandlerError::InvalidBase64(message),
        ) && base64_bytes(request.payload_b64@) matches Err(msg) && msg == message@),
{
}

/// Handles one request of the wire protocol against `registry`.
pub fn handle_rpc(registry: &DynRpcRegistry, request: HttpRpcRequest) -> (result: Result<
    HttpRpcResponse,
    HttpHandlerError,
>)
    ensures
        is_answer_to(request, result),
{
    let payload = match decode_payload(request.payload_b64.as_str()) {
        Ok(payload) => payload,
        Err(err) => {
            assert(is_answer_in(Map::empty(), request, Err(err)));
            return Err(err);
        },
    };
    let rpc_request = RpcRequest::new(
        request.service.as_str(),
        request.method.as_str(),
        payload,
        request.timeout_ms,
    );
    let outcome = registry.dispatch(rpc_request);
    let body = response_body(outcome);
    proof {
        let table = choose|table: Map<CallKey, RpcHandler>| #[trigger]
            dispatch_result(table, rpc_request, outcome);
        assert(is_answer_in(table, request, Ok(body)));
    }
    Ok(body)
}

/// The HTTP transport: it answers the requests of the wire protocol from a
/// shared registry.
pub struct HttpServerTransport {
    registry: DynRpcRegistry,
}

impl HttpServerTransport {
    /// The registry that the transport dispatches to.
    pub closed spec fn registry(&self) -> DynRpcRegistry {
        self.registry
    }

    /// A transport that dispatches to `registry`.
    pub fn new(registry: DynRpcRegistry) -> (transport: Self)
        ensures
            transport.registry() == registry,
    {
        Self { registry }
    }

    /// Answers one request: with the status of a bad request where the
    /// payload is not base64, and with the status of success otherwise,
    /// whatever the dispatch outcome.
    pub fn handle(&self, request: HttpRpcRequest) -> (reply: HttpReply)
        ensures
            match base64_bytes(request.payload_b64@) {
                Err(msg) => reply.status == STATUS_BAD_REQUEST && is_failure_body(
                    reply.body,
                    "decode"@,
                    msg,
                ),
                Ok(bytes) => reply.status == STATUS_OK && is_answer_to(
                    request,
                    Ok(reply.body),
                ),
            },
    {
        match handle_rpc(&self.registry, request) {
            Ok(body) => HttpReply { status: STATUS_OK, body },
            Err(err) => err.into_response(),
        }
    }
}

impl Clone for HttpServerTransport {
    /// Another transport on the same registry.
    fn clone(&self) -> (transport: Self)
        ensures
            transport == *self,
    {
        Self { registry: crate::shared::share(&self.registry) }
    }
}

impl Transport for HttpServerTransport {
    fn id(&self) -> (id: TransportId)
        ensures
            id@ == "http"@,
    {
        "http".to_owned()
    }

    fn start(&self) -> (result: Result<(), Error>)
        ensures
            result is Ok,
    {
        Ok(())
    }
}

} // verus!
