//! Request routing: the call envelopes, the handler type, and the dispatch
//! table that maps a (service, method) pair to its handler.

use crate::shared::share;
use crate::text::is_blank;
use crate::text::str_is_blank;
use std::sync::Arc;
use vstd::prelude::*;
use vstd::rwlock::RwLock;
use vstd::rwlock::RwLockPredicate;

verus! {

/// Request envelope for incoming RPC calls.
#[derive(Debug)]
pub struct RpcRequest {
    pub service: String,
    pub method: String,
    pub payload: Vec<u8>,
    pub timeout_ms: u64,
}

impl RpcRequest {
    /// A request to (`service`, `method`) with the given payload and timeout.
    pub fn new(service: &str, method: &str, payload: Vec<u8>, timeout_ms: u64) -> (req: Self)
        ensures
            req.service@ == service@,
            req.method@ == method@,
            req.payload == payload,
            req.timeout_ms == timeout_ms,
    {
        Self { service: service.to_owned(), method: method.to_owned(), payload, timeout_ms }
    }

    /// The (service, method) pair that this request is addressed to.
    pub open spec fn key(&self) -> CallKey {
        (self.service@, self.method@)
    }
}

impl Clone for RpcRequest {
    fn clone(&self) -> (req: Self)
        ensures
            req.service@ == self.service@,
            req.method@ == self.method@,
            req.payload@ == self.payload@,
            req.timeout_ms == self.timeout_ms,
    {
        Self {
            service: self.service.clone(),
            method: self.method.clone(),
            payload: self.payload.clone(),
            timeout_ms: self.timeout_ms,
        }
    }
}

/// Successful RPC response envelope.
#[derive(Debug)]
pub struct RpcResponse {
    pub payload: Vec<u8>,
}

impl Clone for RpcResponse {
    fn clone(&self) -> (resp: Self)
        ensures
            resp.payload@ == self.payload@,
    {
        Self { payload: self.payload.clone() }
    }
}

/// RPC level errors surfaced to transports.
#[derive(Debug)]
pub enum RpcError {
    Decode(String),
    UnknownMethod,
    Internal(String),
}

impl RpcError {
    /// The text that describes this error.
    pub open spec fn message_text(&self) -> Seq<char> {
        match self {
            RpcError::Decode(msg) => "failed to decode request: "@ + msg@,
            RpcError::UnknownMethod => "unknown service or method"@,
            RpcError::Internal(msg) => "internal error: "@ + msg@,
        }
    }

    /// Renders the error as text.
    pub fn message(&self) -> (text: String)
        ensures
            text@ == self.message_text(),
    {
        match self {
            RpcError::Decode(msg) => "failed to decode request: ".to_owned().concat(msg.as_str()),
            RpcError::UnknownMethod => "unknown service or method".to_owned(),
            RpcError::Internal(msg) => "internal error: ".to_owned().concat(msg.as_str()),
        }
    }
}

impl Clone for RpcError {
    fn clone(&self) -> (err: Self)
        ensures
            err == *self,
    {
        match self {
            RpcError::Decode(msg) => RpcError::Decode(msg.clone()),
            RpcError::UnknownMethod => RpcError::UnknownMethod,
            RpcError::Internal(msg) => RpcError::Internal(msg.clone()),
        }
    }
}

/// Errors emitted by the router during registration.
#[derive(Debug)]
pub enum RouterError {
    DuplicateRegistration { service: String, method: String },
    InvalidName,
}

/// What a refused second registration of (`service`, `method`) says.
pub open spec fn duplicate_text(service: Seq<char>, method: Seq<char>) -> Seq<char> {
    "handler already registered for "@ + service + "."@ + method
}

impl RouterError {
    /// The text that describes this error.
    pub open spec fn message_text(&self) -> Seq<char> {
        match self {
            RouterError::DuplicateRegistration { service, method } => duplicate_text(
                service@,
                method@,
            ),
            RouterError::InvalidName => "invalid service or method name"@,
        }
    }

    /// Renders the error as text.
    pub fn message(&self) -> (text: String)
        ensures
            text@ == self.message_text(),
    {
        match self {
            RouterError::DuplicateRegistration { service, method } => {
                "handler already registered for ".to_owned().concat(service.as_str()).concat(
                    ".",
                ).concat(method.as_str())
            },
            RouterError::InvalidName => "invalid service or method name".to_owned(),
        }
    }
}

impl Clone for RouterError {
    fn clone(&self) -> (err: Self)
        ensures
            err == *self,
    {
        match self {
            RouterError::DuplicateRegistration { service, method } => {
                RouterError::DuplicateRegistration {
                    service: service.clone(),
                    method: method.clone(),
                }
            },
            RouterError::InvalidName => RouterError::InvalidName,
        }
    }
}

/// Identity of a registration: the service name and the method name.
pub type CallKey = (Seq<char>, Seq<char>);

/// A key is valid when neither of its names is blank.
pub open spec fn valid_key(key: CallKey) -> bool {
    !is_blank(key.0) && !is_blank(key.1)
}

/// A remote-callable method: what the dispatch table holds for a key.
pub trait RpcMethod: Send + Sync {
    /// Whether `out` is an outcome that this method may give for `req`. A
    /// method that says nothing of itself may give any outcome.
    open spec fn answers(&self, req: RpcRequest, out: Result<RpcResponse, RpcError>) -> bool {
        true
    }

    /// Handles one request.
    fn call(&self, req: RpcRequest) -> (out: Result<RpcResponse, RpcError>)
        ensures
            self.answers(req, out),
    ;
}

/// A shared handle to a registered method.
pub type RpcHandler = Arc<Box<dyn RpcMethod>>;

/// A method given by a function or closure that accepts every request.
struct FnMethod<F: Fn(RpcRequest) -> Result<RpcResponse, RpcError> + Send + Sync> {
    func: F,
}

impl<F: Fn(RpcRequest) -> Result<RpcResponse, RpcError> + Send + Sync> FnMethod<F> {
    #[verifier::type_invariant]
    spec fn accepts_all(&self) -> bool {
        forall|req: RpcRequest| call_requires(self.func, (req,))
    }
}

impl<F: Fn(RpcRequest) -> Result<RpcResponse, RpcError> + Send + Sync> RpcMethod for FnMethod<F> {
    closed spec fn answers(&self, req: RpcRequest, out: Result<RpcResponse, RpcError>) -> bool {
        call_ensures(self.func, (req,), out)
    }

    fn call(&self, req: RpcRequest) -> (out: Result<RpcResponse, RpcError>) {
        proof {
            use_type_invariant(self);
        }
        (self.func)(req)
    }
}

/// Wraps a function or closure into an [`RpcHandler`].
pub fn rpc_handler<F>(func: F) -> (handler: RpcHandler) where
    F: Fn(RpcRequest) -> Result<RpcResponse, RpcError> + Send + Sync + 'static,

    requires
        forall|req: RpcRequest| call_requires(func, (req,)),
    ensures
        forall|req: RpcRequest, out: Result<RpcResponse, RpcError>| #[trigger]
            handler.answers(req, out) <==> call_ensures(func, (req,), out),
{
    let method: Box<dyn RpcMethod> = Box::new(FnMethod { func });
    let handler = Arc::new(method);
    assert forall|req: RpcRequest, out: Result<RpcResponse, RpcError>| #[trigger]
        handler.answers(req, out) <==> call_ensures(func, (req,), out) by {
        assert(method.answers(req, out) <==> call_ensures(func, (req,), out));
    }
    handler
}

/// The table that registering `key` with `handler` leaves behind: the new
/// entry is added only for a valid key that is not registered yet.
pub open spec fn registered(
    table: Map<CallKey, RpcHandler>,
    key: CallKey,
    handler: RpcHandler,
) -> Map<CallKey, RpcHandler> {
    if valid_key(key) && !table.contains_key(key) {
        table.insert(key, handler)
    } else {
        table
    }
}

/// Whether `result` is what registering `key` in `table` returns: `InvalidName`
/// for a key with a blank name, `DuplicateRegistration` with the two names for
/// a key that is registered already, and success otherwise.
pub open spec fn registration_result(
    table: Map<CallKey, RpcHandler>,
    key: CallKey,
    result: Result<(), RouterError>,
) -> bool {
    if !valid_key(key) {
        result matches Err(RouterError::InvalidName)
    } else if table.contains_key(key) {
        result matches Err(RouterError::DuplicateRegistration { service, method })
            && service@ == key.0 && method@ == key.1
    } else {
        result is Ok
    }
}

/// Whether `out` is what dispatching `req` against `table` may return: the
/// outcome of the handler registered for the request's key, or
/// `UnknownMethod` where there is none.
pub open spec fn dispatch_result(
    table: Map<CallKey, RpcHandler>,
    req: RpcRequest,
    out: Result<RpcResponse, RpcError>,
) -> bool {
    match table.get(req.key()) {
        Some(handler) => handler.answers(req, out),
        None => out matches Err(RpcError::UnknownMethod),
    }
}

/// What every dispatch table is: a finite map in which every key is valid.
pub open spec fn valid_table(table: Map<CallKey, RpcHandler>) -> bool {
    &&& table.dom().finite()
    &&& forall|key: CallKey| #[trigger] table.dom().contains(key) ==> valid_key(key)
}

/// The table after the keys of `keys` were registered in turn, each with the
/// handler that stands at its place in `handlers`.
pub open spec fn registered_all(
    table: Map<CallKey, RpcHandler>,
    keys: Seq<CallKey>,
    handlers: Seq<RpcHandler>,
) -> Map<CallKey, RpcHandler>
    decreases keys.len(),
{
    if keys.len() == 0 || handlers.len() == 0 {
        table
    } else {
        registered(
            registered_all(table, keys.drop_last(), handlers.drop_last()),
            keys.last(),
            handlers.last(),
        )
    }
}

/// A valid key that is registered twice is accepted the first time and
/// refused as a duplicate the second time, whatever the handlers; the table
/// then holds the first handler for it, and a dispatch of the key has exactly
/// the outcomes of the first handler.
pub proof fn lemma_second_registration_refused(
    table: Map<CallKey, RpcHandler>,
    key: CallKey,
    first: RpcHandler,
    second: RpcHandler,
    first_result: Result<(), RouterError>,
    second_result: Result<(), RouterError>,
    req: RpcRequest,
    out: Result<RpcResponse, RpcError>,
)
    requires
        valid_key(key),
        !table.contains_key(key),
        registration_result(table, key, first_result),
        registration_result(registered(table, key, first), key, second_result),
        req.key() == key,
    ensures
        first_result is Ok,
        second_result matches Err(RouterError::DuplicateRegistration { service, method })
            && service@ == key.0 && method@ == key.1,
        registered(registered(table, key, first), key, second) == registered(table, key, first),
        registered(registered(table, key, first), key, second)[key] == first,
        dispatch_result(registered(registered(table, key, first), key, second), req, out)
            <==> first.answers(req, out),
{
}

/// A key with a blank service or method is refused with `InvalidName`,
/// whatever the table holds, and the table stays as it was.
pub proof fn lemma_blank_name_refused(
    table: Map<CallKey, RpcHandler>,
    key: CallKey,
    handler: RpcHandler,
    result: Result<(), RouterError>,
)
    requires
        is_blank(key.0) || is_blank(key.1),
        registration_result(table, key, result),
    ensures
        result matches Err(RouterError::InvalidName),
        registered(table, key, handler) == table,
{
}

/// A request whose key was never registered has the one outcome
/// `UnknownMethod`, whatever its payload and timeout.
pub proof fn lemma_unknown_key_dispatch(
    table: Map<CallKey, RpcHandler>,
    req: RpcRequest,
    out: Result<RpcResponse, RpcError>,
)
    requires
        !table.contains_key(req.key()),
    ensures
        dispatch_result(table, req, out) <==> out matches Err(RpcError::UnknownMethod),
{
}

/// Registrations of distinct keys do not disturb each other. Where valid keys
/// that differ from each other and from those of the table are registered in
/// any order of arrival, each registration succeeds, the table grows by as
/// many entries as there are keys, and each key leads to its own handler.
pub proof fn lemma_distinct_registrations(
    table: Map<CallKey, RpcHandler>,
    keys: Seq<CallKey>,
    handlers: Seq<RpcHandler>,
)
    requires
        table.dom().finite(),
        keys.len() == handlers.len(),
        forall|i: int| 0 <= i < keys.len() ==> valid_key(#[trigger] keys[i]),
        forall|i: int| 0 <= i < keys.len() ==> !table.contains_key(#[trigger] keys[i]),
        forall|i: int, j: int| 0 <= i < j < keys.len() ==> keys[i] != keys[j],
    ensures
        forall|i: int, result: Result<(), RouterError>|
            0 <= i < keys.len() && #[trigger] registration_result(
                registered_all(table, keys.take(i), handlers.take(i)),
                keys[i],
                result,
            ) ==> result is Ok,
        registered_all(table, keys, handlers).dom().finite(),
        registered_all(table, keys, handlers).dom().len() == table.dom().len() + keys.len(),
        forall|k: CallKey|
            table.contains_key(k) ==> #[trigger] registered_all(table, keys, handlers).contains_key(
                k,
            ) && registered_all(table, keys, handlers)[k] == table[k],
        forall|i: int|
            0 <= i < keys.len() ==> registered_all(table, keys, handlers).contains_key(
                #[trigger] keys[i],
            ) && registered_all(table, keys, handlers)[keys[i]] == handlers[i],
        forall|k: CallKey| #[trigger]
            registered_all(table, keys, handlers).contains_key(k) ==> table.contains_key(k)
                || keys.contains(k),
    decreases keys.len(),
{
    if keys.len() > 0 {
        let n = keys.len() - 1;
        let head_keys = keys.drop_last();
        let head_handlers = handlers.drop_last();
        lemma_distinct_registrations(table, head_keys, head_handlers);
        let before = registered_all(table, head_keys, head_handlers);
        let after = registered_all(table, keys, handlers);
        assert(after == before.insert(keys[n], handlers[n]));
        assert forall|i: int, result: Result<(), RouterError>|
            0 <= i < keys.len() && #[trigger] registration_result(
                registered_all(table, keys.take(i), handlers.take(i)),
                keys[i],
                result,
            ) implies result is Ok by {
            if i < n {
                assert(keys.take(i) =~= head_keys.take(i));
                assert(handlers.take(i) =~= head_handlers.take(i));
                assert(registration_result(
                    registered_all(table, head_keys.take(i), head_handlers.take(i)),
                    head_keys[i],
                    result,
                ));
            }
        }
        assert forall|i: int| 0 <= i < keys.len() implies after.contains_key(#[trigger] keys[i])
            && after[keys[i]] == handlers[i] by {
            if i < n {
                assert(before.contains_key(head_keys[i]));
            }
        }
    }
}

/// One registration: a key and the handler it maps to.
struct Route {
    service: String,
    method: String,
    handler: RpcHandler,
}

impl Route {
    spec fn key(&self) -> CallKey {
        (self.service@, self.method@)
    }
}

/// The dispatch table: a mapping from call keys to handlers in which a key,
/// once registered, keeps its handler for the lifetime of the table.
pub struct DispatchTable {
    routes: Vec<Route>,
}

/// The keys of the first `n` routes.
spec fn keys_upto(routes: Seq<Route>, n: int) -> Set<CallKey> {
    Set::new(|k: CallKey| exists|i: int| 0 <= i < n && #[trigger] routes[i].key() == k)
}

proof fn lemma_keys_count(routes: Seq<Route>, n: int)
    requires
        0 <= n <= routes.len(),
        forall|i: int, j: int|
            0 <= i < j < routes.len() ==> #[trigger] routes[i].key() != #[trigger] routes[j].key(),
    ensures
        keys_upto(routes, n).finite(),
        keys_upto(routes, n).len() == n,
    decreases n,
{
    if n == 0 {
        assert(keys_upto(routes, 0) =~= Set::empty());
    } else {
        lemma_keys_count(routes, n - 1);
        assert(keys_upto(routes, n) =~= keys_upto(routes, n - 1).insert(routes[n - 1].key()));
    }
}

impl View for DispatchTable {
    type V = Map<CallKey, RpcHandler>;

    closed spec fn view(&self) -> Map<CallKey, RpcHandler> {
        Map::new(
            |k: CallKey| keys_upto(self.routes@, self.routes@.len() as int).contains(k),
            |k: CallKey| self.routes@[self.position(k)].handler,
        )
    }
}

impl DispatchTable {
    /// The table's invariant: every key is valid and no key occurs twice.
    pub closed spec fn wf(&self) -> bool {
        &&& forall|i: int| 0 <= i < self.routes@.len() ==> valid_key(#[trigger] self.routes@[i].key())
        &&& forall|i: int, j: int|
            0 <= i < j < self.routes@.len() ==> #[trigger] self.routes@[i].key()
                != #[trigger] self.routes@[j].key()
    }

    /// Where the route for `k` stands, if there is one.
    spec fn position(&self, k: CallKey) -> int {
        choose|i: int| 0 <= i < self.routes@.len() && #[trigger] self.routes@[i].key() == k
    }

    /// The view of a table that keeps its invariant is a finite map of valid
    /// keys.
    pub proof fn lemma_valid_view(&self)
        requires
            self.wf(),
        ensures
            valid_table(self@),
    {
        lemma_keys_count(self.routes@, self.routes@.len() as int);
        assert(self@.dom() =~= keys_upto(self.routes@, self.routes@.len() as int));
        assert forall|key: CallKey| self@.contains_key(key) implies valid_key(key) by {
            assert(self.routes@[self.position(key)].key() == key);
        }
    }

    /// An empty table.
    pub fn new() -> (table: Self)
        ensures
            table.wf(),
            table@ == Map::<CallKey, RpcHandler>::empty(),
    {
        DispatchTable { routes: Vec::new() }
    }

    /// Registers `handler` for (`service`, `method`). A blank name or a key
    /// that is registered already is refused and leaves the table as it was.
    pub fn insert(&mut self, service: &str, method: &str, handler: RpcHandler) -> (result: Result<
        (),
        RouterError,
    >)
        requires
            old(self).wf(),
        ensures
            final(self).wf(),
            registration_result(old(self)@, (service@, method@), result),
            final(self)@ == registered(old(self)@, (service@, method@), handler),
    {
        if str_is_blank(service) || str_is_blank(method) {
            return Err(RouterError::InvalidName);
        }
        let service = service.to_owned();
        let method = method.to_owned();
        if self.find(&service, &method).is_some() {
            return Err(RouterError::DuplicateRegistration { service, method });
        }
        let ghost key = (service@, method@);
        let ghost before = *self;
        self.routes.push(Route { service, method, handler });
        proof {
            assert(self.routes@.last().key() == key);
            assert forall|k: CallKey| before@.contains_key(k) implies self@.contains_key(k) by {
                assert(self.routes@[before.position(k)].key() == k);
            }
            assert forall|k: CallKey| self@.contains_key(k) && k != key implies before@.contains_key(
                k,
            ) by {
                assert(before.routes@[self.position(k)].key() == k);
            }
        }
        Ok(())
    }

    /// The handler registered for (`service`, `method`), if there is one.
    pub fn get(&self, service: &str, method: &str) -> (handler: Option<RpcHandler>)
        requires
            self.wf(),
        ensures
            handler == self@.get((service@, method@)),
    {
        let service = service.to_owned();
        let method = method.to_owned();
        match self.find(&service, &method) {
            Some(i) => {
                assert(self.routes@[self.position((service@, method@))].key() == self.routes@[i as int].key());
                Some(share(&self.routes[i].handler))
            },
            None => None,
        }
    }

    /// Calls the handler registered for the request's key and returns its
    /// outcome as it is; without such a handler the call is not made and the
    /// outcome is `UnknownMethod`.
    pub fn dispatch(&self, req: RpcRequest) -> (out: Result<RpcResponse, RpcError>)
        requires
            self.wf(),
        ensures
            dispatch_result(self@, req, out),
    {
        match self.get(req.service.as_str(), req.method.as_str()) {
            Some(handler) => handler.call(req),
            None => Err(RpcError::UnknownMethod),
        }
    }

    /// The number of registered keys.
    pub fn len(&self) -> (n: usize)
        requires
            self.wf(),
        ensures
            self@.dom().finite(),
            n == self@.dom().len(),
    {
        proof {
            lemma_keys_count(self.routes@, self.routes@.len() as int);
            assert(self@.dom() =~= keys_upto(self.routes@, self.routes@.len() as int));
        }
        self.routes.len()
    }

    /// Looks for the route of (`service`, `method`).
    fn find(&self, service: &String, method: &String) -> (found: Option<usize>)
        ensures
            match found {
                Some(i) => i < self.routes@.len() && self.routes@[i as int].key() == (
                    service@,
                    method@,
                ),
                None => !self@.dom().contains((service@, method@)),
            },
    {
        let mut i: usize = 0;
        while i < self.routes.len()
            invariant
                i <= self.routes@.len(),
                forall|j: int| 0 <= j < i ==> #[trigger] self.routes@[j].key() != (service@, method@),
            decreases self.routes@.len() - i,
        {
            let route = &self.routes[i];
            if route.service == *service && route.method == *method {
                return Some(i);
            }
            i = i + 1;
        }
        None
    }
}

/// Abstraction over server-side RPC routing and dispatching. A registry is
/// shared: registrations and dispatches may come from independent callers at
/// once, so each outcome is stated against the table as it stood when the call
/// took effect.
pub trait RpcRegistry: Send + Sync {
    /// Whether `result` is what this registry may answer to the registration
    /// of `handler` for `key`. A registry that says nothing of itself may
    /// answer anything that the contract of `register` admits.
    open spec fn registers(
        &self,
        key: CallKey,
        handler: RpcHandler,
        result: Result<(), RouterError>,
    ) -> bool {
        true
    }

    /// The in-memory router that this registry is a handle of, if it is one.
    open spec fn router(&self) -> Option<InMemoryRouter> {
        None
    }

    /// Registers `handler` for (`service`, `method`).
    fn register(&self, service: &str, method: &str, handler: RpcHandler) -> (result: Result<
        (),
        RouterError,
    >)
        ensures
            self.registers((service@, method@), handler, result),
            exists|table: Map<CallKey, RpcHandler>| #[trigger]
                registration_result(table, (service@, method@), result),
    ;

    /// Routes `req` to the handler registered for its key.
    fn dispatch(&self, req: RpcRequest) -> (out: Result<RpcResponse, RpcError>)
        ensures
            exists|table: Map<CallKey, RpcHandler>| #[trigger] dispatch_result(table, req, out),
    ;
}

/// Shared handle to a registry.
pub type DynRpcRegistry = Arc<Box<dyn RpcRegistry>>;

/// Whether `table` is what a table that started as `origin` may have become:
/// a finite map of valid keys that holds every entry of `origin` as it was.
/// Entries are added and never removed or replaced.
pub open spec fn grown_from(
    table: Map<CallKey, RpcHandler>,
    origin: Map<CallKey, RpcHandler>,
) -> bool {
    &&& valid_table(table)
    &&& forall|key: CallKey|
        #![trigger table.dom().contains(key)]
        #![trigger origin.dom().contains(key)]
        origin.dom().contains(key) ==> table.dom().contains(key) && table[key] == origin[key]
}

/// Registering keeps what a table has grown from.
pub proof fn lemma_registered_grows(
    table: Map<CallKey, RpcHandler>,
    origin: Map<CallKey, RpcHandler>,
    key: CallKey,
    handler: RpcHandler,
)
    requires
        grown_from(table, origin),
    ensures
        grown_from(registered(table, key, handler), origin),
{
}

/// A key that a router started with keeps its handler, whatever was registered
/// since: it is found with that handler, a dispatch to it has exactly that
/// handler's outcomes, and a registration of it is refused as a duplicate.
pub proof fn lemma_origin_is_kept(
    table: Map<CallKey, RpcHandler>,
    origin: Map<CallKey, RpcHandler>,
    req: RpcRequest,
    out: Result<RpcResponse, RpcError>,
    result: Result<(), RouterError>,
)
    requires
        grown_from(table, origin),
        origin.contains_key(req.key()),
    ensures
        table.get(req.key()) == Some(origin[req.key()]),
        dispatch_result(table, req, out) <==> origin[req.key()].answers(req, out),
        registration_result(table, req.key(), result) ==> (result matches Err(
            RouterError::DuplicateRegistration { service, method },
        ) && service@ == req.service@ && method@ == req.method@),
{
}

/// A table is no smaller than the one it has grown from.
pub proof fn lemma_grown_is_no_smaller(
    table: Map<CallKey, RpcHandler>,
    origin: Map<CallKey, RpcHandler>,
)
    requires
        grown_from(table, origin),
    ensures
        origin.dom().finite(),
        origin.dom().len() <= table.dom().len(),
{
    assert(origin.dom().subset_of(table.dom()));
    vstd::set_lib::lemma_len_subset(origin.dom(), table.dom());
}

/// What the router's lock admits: a dispatch table that keeps its invariant
/// and has grown from the table that the router started with.
struct GrowsFrom {
    origin: Map<CallKey, RpcHandler>,
}

impl RwLockPredicate<DispatchTable> for GrowsFrom {
    closed spec fn inv(self, table: DispatchTable) -> bool {
        table.wf() && grown_from(table@, self.origin)
    }
}

/// Simple in-memory router that can be embedded in transports. Its clones
/// share one dispatch table behind a lock, which is held for the lookup or
/// the insertion only and never while a handler runs. The table only grows:
/// at every moment it has grown from the table that the router started with.
pub struct InMemoryRouter {
    handlers: Arc<RwLock<DispatchTable, GrowsFrom>>,
}

impl InMemoryRouter {
    /// The table that the router started with.
    pub closed spec fn origin(&self) -> Map<CallKey, RpcHandler> {
        self.handlers.pred().origin
    }

    /// A router with an empty table.
    pub fn new() -> (router: Self)
        ensures
            router.origin() == Map::<CallKey, RpcHandler>::empty(),
    {
        Self::from_table(DispatchTable::new())
    }

    /// A router that shares `table`: what was registered by the table's one
    /// owner is there for every holder of the router, for good.
    pub fn from_table(table: DispatchTable) -> (router: Self)
        requires
            table.wf(),
        ensures
            router.origin() == table@,
    {
        let ghost origin = table@;
        proof {
            table.lemma_valid_view();
        }
        let lock = RwLock::new(table, Ghost(GrowsFrom { origin }));
        Self { handlers: Arc::new(lock) }
    }

    /// Registers `handler` in the shared table: the check for the key and the
    /// insertion are one step under the lock, so of several callers that
    /// bring the same key exactly one is accepted.
    fn insert(&self, service: &str, method: &str, handler: RpcHandler) -> (result: Result<
        (),
        RouterError,
    >)
        ensures
            exists|table: Map<CallKey, RpcHandler>|
                grown_from(table, self.origin()) && #[trigger] registration_result(
                    table,
                    (service@, method@),
                    result,
                ),
    {
        let (mut table, guard) = self.handlers.acquire_write();
        let ghost before = table@;
        let result = table.insert(service, method, handler);
        proof {
            lemma_registered_grows(before, self.origin(), (service@, method@), handler);
        }
        guard.release_write(table);
        assert(grown_from(before, self.origin()) && registration_result(
            before,
            (service@, method@),
            result,
        ));
        result
    }

    /// The handler registered for (`service`, `method`) at the time of the
    /// call, if there is one: what the table, as it stood then, holds for the
    /// key. A table holds nothing for a key with a blank name, and it holds
    /// what the router started with.
    pub fn get(&self, service: &str, method: &str) -> (handler: Option<RpcHandler>)
        ensures
            exists|table: Map<CallKey, RpcHandler>|
                grown_from(table, self.origin()) && handler == #[trigger] table.get(
                    (service@, method@),
                ),
    {
        let guard = self.handlers.acquire_read();
        let ghost table = guard.view()@;
        let handler = guard.borrow().get(service, method);
        guard.release_read();
        assert(grown_from(table, self.origin()) && handler == table.get((service@, method@)));
        handler
    }

    /// The number of keys registered at the time of the call: the size of the
    /// table as it stood then, which is no less than that of the table that
    /// the router started with.
    pub fn len(&self) -> (n: usize)
        ensures
            exists|table: Map<CallKey, RpcHandler>|
                grown_from(table, self.origin()) && n == #[trigger] table.dom().len(),
    {
        let guard = self.handlers.acquire_read();
        let ghost table = guard.view()@;
        let n = guard.borrow().len();
        guard.release_read();
        assert(grown_from(table, self.origin()) && n == table.dom().len());
        n
    }
}

impl Clone for InMemoryRouter {
    /// Another handle to the same table.
    fn clone(&self) -> (router: Self)
        ensures
            router == *self,
    {
        Self { handlers: share(&self.handlers) }
    }
}

impl Default for InMemoryRouter {
    fn default() -> (router: Self)
        ensures
            router.origin() == Map::<CallKey, RpcHandler>::empty(),
    {
        Self::new()
    }
}

impl RpcRegistry for InMemoryRouter {
    /// The router answers what registering returns in a table that has grown
    /// from the one it started with.
    open spec fn registers(
        &self,
        key: CallKey,
        handler: RpcHandler,
        result: Result<(), RouterError>,
    ) -> bool {
        exists|table: Map<CallKey, RpcHandler>|
            grown_from(table, self.origin()) && #[trigger] registration_result(table, key, result)
    }

    open spec fn router(&self) -> Option<InMemoryRouter> {
        Some(*self)
    }

    fn register(&self, service: &str, method: &str, handler: RpcHandler) -> (result: Result<
        (),
        RouterError,
    >) {
        self.insert(service, method, handler)
    }

    /// Routes `req` to the handler that the table, as it stood at the time of
    /// the call, holds for its key.
    fn dispatch(&self, req: RpcRequest) -> (out: Result<RpcResponse, RpcError>)
        ensures
            exists|table: Map<CallKey, RpcHandler>|
                grown_from(table, self.origin()) && #[trigger] dispatch_result(table, req, out),
    {
        let guard = self.handlers.acquire_read();
        let ghost table = guard.view()@;
        let handler = guard.borrow().get(req.service.as_str(), req.method.as_str());
        guard.release_read();
        let out = match handler {
            Some(handler) => handler.call(req),
            None => Err(RpcError::UnknownMethod),
        };
        assert(grown_from(table, self.origin()) && dispatch_result(table, req, out));
        out
    }
}

} // verus!
