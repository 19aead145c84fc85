//! Finished query results.

use crate::cache_control::CacheControl;
use crate::error::ServerError;
use crate::value::Value;
use vstd::prelude::*;

verus! {

/// A header that a resolver asks to have set on the transport response.
#[derive(Debug, PartialEq, Eq)]
pub struct HeaderOverride {
    /// The name of the header, in any case.
    pub name: Vec<u8>,
    /// The value of the header.
    pub value: Vec<u8>,
}

impl View for HeaderOverride {
    type V = (Seq<u8>, Seq<u8>);

    /// The name and the value.
    open spec fn view(&self) -> (Seq<u8>, Seq<u8>) {
        (self.name@, self.value@)
    }
}

impl HeaderOverride {
    /// A header named `name` with the value `value`.
    pub fn new(name: Vec<u8>, value: Vec<u8>) -> (header: Self)
        ensures
            header@ == (name@, value@),
    {
        HeaderOverride { name, value }
    }
}

/// Which members the structured encoding of a result has.
#[derive(Clone, Copy, Debug, PartialEq, Eq)]
pub struct Members {
    /// Whether the errors are written.
    pub errors: bool,
    /// Whether the data is written.
    pub data: bool,
    /// Whether the extensions are written.
    pub extensions: bool,
}

/// The outcome of one query. It is a success when it holds no error.
#[derive(Debug, PartialEq, Eq)]
pub struct Response {
    /// The data that the query gave.
    pub data: Value,
    /// What extensions added to the result, by name.
    pub extensions: Vec<(String, Value)>,
    /// How the result may be cached.
    pub cache_control: CacheControl,
    /// The errors that the query ended with.
    pub errors: Vec<ServerError>,
    /// The headers that resolvers asked for, in the order in which they did.
    pub http_headers: Vec<HeaderOverride>,
}

impl Response {
    /// Whether the query succeeded.
    pub open spec fn is_ok_spec(self) -> bool {
        self.errors@.len() == 0
    }

    /// The headers that resolvers asked for, each as its name and value.
    pub open spec fn header_overrides(self) -> Seq<(Seq<u8>, Seq<u8>)> {
        Seq::new(self.http_headers@.len(), |i: int| self.http_headers@[i]@)
    }

    /// The members of the structured encoding of the result. A success has
    /// its data; a failure has its errors, and its data unless that is null.
    /// Either has its extensions if there are any.
    pub open spec fn members_spec(self) -> Members {
        Members {
            errors: !self.is_ok_spec(),
            data: self.is_ok_spec() || !(self.data is Null),
            extensions: self.extensions@.len() > 0,
        }
    }

    /// A successful result that holds `data`.
    pub fn new(data: Value) -> (response: Self)
        ensures
            response.data == data,
            response.extensions@.len() == 0,
            response.cache_control == (CacheControl { public: true, max_age: 0 }),
            response.errors@.len() == 0,
            response.http_headers@.len() == 0,
    {
        Response {
            data,
            extensions: Vec::new(),
            cache_control: CacheControl::default(),
            errors: Vec::new(),
            http_headers: Vec::new(),
        }
    }

    /// A failed result that holds `errors` and no data.
    pub fn from_errors(errors: Vec<ServerError>) -> (response: Self)
        ensures
            response.data == Value::Null,
            response.extensions@.len() == 0,
            response.cache_control == (CacheControl { public: true, max_age: 0 }),
            response.errors == errors,
            response.http_headers@.len() == 0,
    {
        Response {
            data: Value::Null,
            extensions: Vec::new(),
            cache_control: CacheControl::default(),
            errors,
            http_headers: Vec::new(),
        }
    }

    /// Whether the query succeeded.
    pub fn is_ok(&self) -> (ok: bool)
        ensures
            ok == self.is_ok_spec(),
    {
        self.errors.len() == 0
    }

    /// Whether the query failed.
    pub fn is_err(&self) -> (err: bool)
        ensures
            err == !self.is_ok_spec(),
    {
        !self.is_ok()
    }

    /// Which members the structured encoding of the result has.
    pub fn members(&self) -> (members: Members)
        ensures
            members == self.members_spec(),
    {
        let ok = self.is_ok();
        let null = match &self.data {
            Value::Null => true,
            _ => false,
        };
        Members { errors: !ok, data: ok || !null, extensions: self.extensions.len() > 0 }
    }
}

/// Whether every one of `responses` is a success.
pub open spec fn all_ok(responses: Seq<Response>) -> bool {
    forall|i: int| 0 <= i < responses.len() ==> (#[trigger] responses[i]).is_ok_spec()
}

/// The directive that `responses` have in common: the most restrictive of
/// theirs.
pub open spec fn merged_cache_control(responses: Seq<Response>) -> CacheControl
    decreases responses.len(),
{
    if responses.len() == 0 {
        CacheControl { public: true, max_age: 0 }
    } else {
        merged_cache_control(responses.drop_last()).merge_spec(responses.last().cache_control)
    }
}

/// The headers that the resolvers of `responses` asked for, result by result,
/// in the order in which they did.
pub open spec fn all_header_overrides(responses: Seq<Response>) -> Seq<(Seq<u8>, Seq<u8>)>
    decreases responses.len(),
{
    if responses.len() == 0 {
        Seq::empty()
    } else {
        all_header_overrides(responses.drop_last()) + responses.last().header_overrides()
    }
}

/// The outcome of one request: of a single query, of a batch of queries, or
/// a body that is serialized already.
#[derive(Debug, PartialEq, Eq)]
pub enum BatchResponse {
    /// The result of a single query.
    Single(Response),
    /// The results of a batch of queries, in the order of the queries.
    Batch(Vec<Response>),
    /// A complete body that is serialized already, with the results that it
    /// stands for.
    Raw {
        /// The body.
        payload: String,
        /// The results that the body stands for.
        responses: Vec<Response>,
    },
}

impl From<Response> for BatchResponse {
    fn from(response: Response) -> (batch: Self) {
        BatchResponse::Single(response)
    }
}

impl vstd::std_specs::convert::FromSpecImpl<Response> for BatchResponse {
    open spec fn obeys_from_spec() -> bool {
        true
    }

    open spec fn from_spec(response: Response) -> Self {
        BatchResponse::Single(response)
    }
}

impl BatchResponse {
    /// The results of the request, in order.
    pub open spec fn results(self) -> Seq<Response> {
        match self {
            BatchResponse::Single(response) => seq![response],
            BatchResponse::Batch(responses) => responses@,
            BatchResponse::Raw { responses, .. } => responses@,
        }
    }

    /// The body that is serialized already, if there is one.
    pub open spec fn raw_data(self) -> Option<Seq<char>> {
        match self {
            BatchResponse::Raw { payload, .. } => Some(payload@),
            _ => None,
        }
    }

    /// Whether every query of the request succeeded.
    pub open spec fn is_ok_spec(self) -> bool {
        all_ok(self.results())
    }

    /// The directive of the request: the most restrictive one of its results.
    pub open spec fn cache_control_spec(self) -> CacheControl {
        merged_cache_control(self.results())
    }

    /// The headers that resolvers asked for, over all results.
    pub open spec fn header_overrides(self) -> Seq<(Seq<u8>, Seq<u8>)> {
        all_header_overrides(self.results())
    }

    /// Whether the structured encoding of the request is an array of
    /// results, as it is for a batch, rather than one result by itself.
    pub fn is_array(&self) -> (array: bool)
        ensures
            array == !(self is Single),
    {
        match self {
            BatchResponse::Single(_) => false,
            _ => true,
        }
    }

    /// Whether the request holds a body that is serialized already.
    pub fn has_raw_data(&self) -> (raw: bool)
        ensures
            raw == (self.raw_data() is Some),
    {
        match self {
            BatchResponse::Raw { .. } => true,
            _ => false,
        }
    }

    /// The body that is serialized already, if there is one.
    pub fn get_raw_data(&self) -> (raw: Option<String>)
        ensures
            raw is Some == self.raw_data() is Some,
            raw matches Some(payload) ==> self.raw_data() == Some(payload@),
    {
        match self {
            BatchResponse::Raw { payload, .. } => Some(payload.clone()),
            _ => None,
        }
    }

    /// Whether every query of the request succeeded.
    pub fn is_ok(&self) -> (ok: bool)
        ensures
            ok == self.is_ok_spec(),
    {
        match self {
            BatchResponse::Single(response) => {
                let ok = response.is_ok();
                assert(self.results()[0] == *response);
                ok
            },
            BatchResponse::Batch(responses) => every_ok(responses),
            BatchResponse::Raw { responses, .. } => every_ok(responses),
        }
    }

    /// The directive of the request: the most restrictive one of its results.
    pub fn cache_control(&self) -> (directive: CacheControl)
        ensures
            directive == self.cache_control_spec(),
    {
        match self {
            BatchResponse::Single(response) => {
                proof {
                    let results = self.results();
                    assert(merged_cache_control(results.drop_last()) == (CacheControl {
                        public: true,
                        max_age: 0,
                    }));
                }
                response.cache_control
            },
            BatchResponse::Batch(responses) => merge_all(responses),
            BatchResponse::Raw { responses, .. } => merge_all(responses),
        }
    }
}

fn every_ok(responses: &Vec<Response>) -> (ok: bool)
    ensures
        ok == all_ok(responses@),
{
    let mut i: usize = 0;
    while i < responses.len()
        invariant
            i <= responses.len(),
            forall|k: int| 0 <= k < i ==> (#[trigger] responses@[k]).is_ok_spec(),
        decreases responses.len() - i,
    {
        if !responses[i].is_ok() {
            return false;
        }
        i += 1;
    }
    true
}

fn merge_all(responses: &Vec<Response>) -> (directive: CacheControl)
    ensures
        directive == merged_cache_control(responses@),
{
    let mut directive = CacheControl::default();
    let mut i: usize = 0;
    while i < responses.len()
        invariant
            i <= responses.len(),
            directive == merged_cache_control(responses@.take(i as int)),
        decreases responses.len() - i,
    {
        assert(responses@.take(i + 1).drop_last() =~= responses@.take(i as int));
        directive = directive.merge(&responses[i].cache_control);
        i += 1;
    }
    assert(responses@.take(i as int) =~= responses@);
    directive
}

} // verus!
