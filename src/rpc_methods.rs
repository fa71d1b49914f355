//! Classification of JSON-RPC method names and the request descriptor.
use vstd::prelude::*;
use crate::text::str_equal;

verus! {

/// Methods that create or depend on server-side session state (filters and
/// subscriptions). Requests that carry one of them go to the primary only.
pub open spec fn stateful_method_names() -> Seq<Seq<char>> {
    seq![
        "eth_newFilter"@,
        "eth_newBlockFilter"@,
        "eth_newPendingTransactionFilter"@,
        "eth_getFilterChanges"@,
        "eth_getFilterLogs"@,
        "eth_uninstallFilter"@,
        "eth_subscribe"@,
        "eth_unsubscribe"@,
        "eth_subscription"@,
    ]
}

/// Tracing and debugging methods that are costly for a node to serve.
pub open spec fn expensive_method_names() -> Seq<Seq<char>> {
    seq![
        "debug_traceBlockByHash"@,
        "debug_traceBlockByNumber"@,
        "debug_traceCall"@,
        "debug_traceTransaction"@,
        "debug_storageRangeAt"@,
        "debug_getModifiedAccountsByHash"@,
        "debug_getModifiedAccountsByNumber"@,
        "trace_block"@,
        "trace_call"@,
        "trace_callMany"@,
        "trace_filter"@,
        "trace_get"@,
        "trace_rawTransaction"@,
        "trace_replayBlockTransactions"@,
        "trace_replayTransaction"@,
        "trace_transaction"@,
        "trace_replayBlockTransactions#vmTrace"@,
        "trace_replayTransaction#vmTrace"@,
    ]
}

pub open spec fn str_views(v: Seq<&'static str>) -> Seq<Seq<char>> {
    v.map_values(|s: &'static str| s@)
}

/// The stateful method names, in a fixed order.
pub fn get_stateful_methods() -> (r: Vec<&'static str>)
    ensures
        str_views(r@) == stateful_method_names(),
{
    let r = vec![
        "eth_newFilter",
        "eth_newBlockFilter",
        "eth_newPendingTransactionFilter",
        "eth_getFilterChanges",
        "eth_getFilterLogs",
        "eth_uninstallFilter",
        "eth_subscribe",
        "eth_unsubscribe",
        "eth_subscription",
    ];
    assert(str_views(r@) =~= stateful_method_names());
    r
}

/// The expensive method names, in a fixed order.
pub fn get_expensive_methods() -> (r: Vec<&'static str>)
    ensures
        str_views(r@) == expensive_method_names(),
{
    let r = vec![
        "debug_traceBlockByHash",
        "debug_traceBlockByNumber",
        "debug_traceCall",
        "debug_traceTransaction",
        "debug_storageRangeAt",
        "debug_getModifiedAccountsByHash",
        "debug_getModifiedAccountsByNumber",
        "trace_block",
        "trace_call",
        "trace_callMany",
        "trace_filter",
        "trace_get",
        "trace_rawTransaction",
        "trace_replayBlockTransactions",
        "trace_replayTransaction",
        "trace_transaction",
        "trace_replayBlockTransactions#vmTrace",
        "trace_replayTransaction#vmTrace",
    ];
    assert(str_views(r@) =~= expensive_method_names());
    r
}

fn listed_in(names: &Vec<&'static str>, method: &str) -> (r: bool)
    ensures
        r == str_views(names@).contains(method@),
{
    let mut i: usize = 0;
    while i < names.len()
        invariant
            i <= names@.len(),
            forall|j: int| 0 <= j < i ==> names@[j]@ != method@,
        decreases names@.len() - i,
    {
        if str_equal(names[i], method) {
            assert(str_views(names@)[i as int] == method@);
            return true;
        }
        i = i + 1;
    }
    assert(!str_views(names@).contains(method@)) by {
        if str_views(names@).contains(method@) {
            let k = choose|k: int| 0 <= k < str_views(names@).len() && str_views(names@)[k] == method@;
            assert(names@[k]@ == method@);
        }
    }
    false
}

/// Whether the method must be confined to the primary.
pub fn is_stateful_method(method: &str) -> (r: bool)
    ensures
        r == stateful_method_names().contains(method@),
{
    listed_in(&get_stateful_methods(), method)
}

/// Whether the method is one of the known costly tracing methods.
pub fn is_expensive_method(method: &str) -> (r: bool)
    ensures
        r == expensive_method_names().contains(method@),
{
    listed_in(&get_expensive_methods(), method)
}

/// What the transport layer recognised in a request body.
pub enum ParsedRequest {
    /// A JSON array of requests, with the method name of each.
    Batch(Vec<String>),
    /// A single request object, with its method name.
    Single(String),
    /// Neither a batch nor a single request.
    Unrecognized,
}

/// Why a request body was rejected before any backend was contacted.
#[derive(PartialEq, Eq, Structural, Clone, Copy, Debug)]
pub enum RequestError {
    EmptyBody,
    EmptyBatch,
    InvalidFormat,
}

impl RequestError {
    pub fn message(&self) -> (r: String) {
        match self {
            RequestError::EmptyBody => String::from_str("Empty request body"),
            RequestError::EmptyBatch => String::from_str("Empty batch request"),
            RequestError::InvalidFormat => String::from_str(
                "Invalid JSON-RPC request format. Not a valid single request or batch.",
            ),
        }
    }
}

/// The request descriptor that dispatch works from.
pub struct BatchInfo {
    pub is_batch: bool,
    pub methods: Vec<String>,
    pub request_count: usize,
    pub has_stateful: bool,
}

/// Whether any of the method names is stateful.
pub open spec fn any_stateful(methods: Seq<String>) -> bool {
    exists|i: int| 0 <= i < methods.len() && stateful_method_names().contains(#[trigger] methods[i]@)
}

/// Whether any method of the list is stateful.
pub fn has_stateful_method(methods: &Vec<String>) -> (r: bool)
    ensures
        r == any_stateful(methods@),
{
    let mut i: usize = 0;
    while i < methods.len()
        invariant
            i <= methods@.len(),
            forall|j: int| 0 <= j < i ==> !stateful_method_names().contains(#[trigger] methods@[j]@),
        decreases methods@.len() - i,
    {
        if is_stateful_method(methods[i].as_str()) {
            return true;
        }
        i = i + 1;
    }
    false
}

/// Builds the request descriptor from a body and what was recognised in it.
pub fn batch_info_from_parsed(body: &[u8], parsed: ParsedRequest) -> (r: Result<BatchInfo, RequestError>)
    ensures
        body@.len() == 0 ==> r == Err::<BatchInfo, RequestError>(RequestError::EmptyBody),
        body@.len() > 0 ==> match parsed {
            ParsedRequest::Batch(ms) => if ms@.len() == 0 {
                r == Err::<BatchInfo, RequestError>(RequestError::EmptyBatch)
            } else {
                &&& r is Ok
                &&& r->Ok_0.is_batch
                &&& r->Ok_0.methods@ == ms@
                &&& r->Ok_0.request_count == ms@.len()
                &&& r->Ok_0.has_stateful == any_stateful(ms@)
            },
            ParsedRequest::Single(m) => {
                &&& r is Ok
                &&& !r->Ok_0.is_batch
                &&& r->Ok_0.methods@ == seq![m]
                &&& r->Ok_0.request_count == 1
                &&& r->Ok_0.has_stateful == stateful_method_names().contains(m@)
            },
            ParsedRequest::Unrecognized => r == Err::<BatchInfo, RequestError>(RequestError::InvalidFormat),
        },
{
    if body.len() == 0 {
        return Err(RequestError::EmptyBody);
    }
    match parsed {
        ParsedRequest::Batch(methods) => {
            if methods.len() == 0 {
                return Err(RequestError::EmptyBatch);
            }
            let has_stateful = has_stateful_method(&methods);
            let request_count = methods.len();
            Ok(BatchInfo { is_batch: true, methods, request_count, has_stateful })
        },
        ParsedRequest::Single(method) => {
            let has_stateful = is_stateful_method(method.as_str());
            let methods = vec![method];
            Ok(BatchInfo { is_batch: false, methods, request_count: 1, has_stateful })
        },
        ParsedRequest::Unrecognized => Err(RequestError::InvalidFormat),
    }
}

} // verus!
