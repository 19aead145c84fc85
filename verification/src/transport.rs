//! Turning finished query results into transport responses.

use crate::cache_control::{is_directive_char, lemma_merge_has_value, lemma_value_is_directive_text};
use crate::header::{
    is_header_name, is_header_value, map_entries, new_header_map, normalized, parse_header_name,
    parse_header_value, try_insert_header, Entries, HEADER_MAP_ROOM,
};
use crate::response::{
    all_header_overrides, merged_cache_control, BatchResponse, HeaderOverride, Response,
};
use http::header::{HeaderMap, HeaderValue};
use vstd::prelude::*;
use vstd::string::*;
use vstd::utf8::*;

verus! {

/// The name of the header that tells the media type of the body.
pub open spec fn content_type_name() -> Seq<u8> {
    encode_utf8("content-type"@)
}

/// The media type of every body: JSON, in UTF-8.
pub open spec fn json_media_type() -> Seq<u8> {
    encode_utf8("application/json; charset=utf-8"@)
}

/// The name of the header that carries the cache directive.
pub open spec fn cache_control_name() -> Seq<u8> {
    encode_utf8("cache-control"@)
}

/// Whether a header override can be taken into a response: its name must be
/// a header name and its value a header value.
pub open spec fn is_acceptable(header: (Seq<u8>, Seq<u8>)) -> bool {
    is_header_name(header.0) && is_header_value(header.1)
}

/// The headers after one override: an acceptable one replaces whatever
/// stood under its name, any other leaves the headers as they are.
pub open spec fn apply_override(headers: Entries, header: (Seq<u8>, Seq<u8>)) -> Entries {
    if is_acceptable(header) {
        headers.insert(normalized(header.0), seq![header.1])
    } else {
        headers
    }
}

/// The headers after all of `overrides`, taken from first to last.
pub open spec fn apply_overrides(headers: Entries, overrides: Seq<(Seq<u8>, Seq<u8>)>) -> Entries
    decreases overrides.len(),
{
    if overrides.len() == 0 {
        headers
    } else {
        apply_override(apply_overrides(headers, overrides.drop_last()), overrides.last())
    }
}

/// The value of the cache header of a response, if it has one: the text of
/// the request's directive, where every query succeeded and the text is not
/// empty and is a header value.
pub open spec fn cache_header(batch: BatchResponse) -> Option<Seq<u8>> {
    match batch.cache_control_spec().value_spec() {
        Some(text) => {
            let value = encode_utf8(text);
            if batch.is_ok_spec() && text.len() > 0 && is_header_value(value) {
                Some(value)
            } else {
                None
            }
        },
        None => None,
    }
}

/// The headers that a response sets itself, before any override: the media
/// type, and the cache header if there is one.
pub open spec fn own_headers(batch: BatchResponse) -> Entries {
    let headers = Entries::empty().insert(content_type_name(), seq![json_media_type()]);
    match cache_header(batch) {
        Some(value) => headers.insert(cache_control_name(), seq![value]),
        None => headers,
    }
}

/// The headers of the response to `batch`.
pub open spec fn response_headers(batch: BatchResponse) -> Entries {
    apply_overrides(own_headers(batch), batch.header_overrides())
}

/// The body of the response to `batch`: the body that is serialized already,
/// where the request holds one, else `structured`.
pub open spec fn response_body(batch: BatchResponse, structured: Seq<u8>) -> Seq<u8> {
    match batch.raw_data() {
        Some(payload) => encode_utf8(payload),
        None => structured,
    }
}

/// Whether `actual` can be what the headers `start` have come to by
/// `overrides`: nothing that was there is lost, and where the headers that
/// the overrides give find room in a header map, `actual` is those headers.
pub open spec fn follows(
    actual: Entries,
    start: Entries,
    overrides: Seq<(Seq<u8>, Seq<u8>)>,
) -> bool {
    &&& actual.dom().finite()
    &&& start.dom().subset_of(actual.dom())
    &&& apply_overrides(start, overrides).dom().len() < HEADER_MAP_ROOM ==> actual
        == apply_overrides(start, overrides)
}

/// The response that goes out over the transport: its headers and its body.
#[derive(Debug)]
pub struct HttpResponse {
    headers: HeaderMap<HeaderValue>,
    body: Vec<u8>,
}

impl HttpResponse {
    /// What the headers hold: each name with the values under it.
    pub closed spec fn entries(self) -> Entries {
        map_entries(self.headers)
    }

    /// The bytes of the body.
    pub closed spec fn body_bytes(self) -> Seq<u8> {
        self.body@
    }

    /// The headers.
    pub fn headers(&self) -> (headers: &HeaderMap<HeaderValue>)
        ensures
            map_entries(*headers) == self.entries(),
    {
        &self.headers
    }

    /// The body.
    pub fn body(&self) -> (body: &Vec<u8>)
        ensures
            body@ == self.body_bytes(),
    {
        &self.body
    }

    /// Takes the response apart into its headers and its body.
    pub fn into_parts(self) -> (parts: (HeaderMap<HeaderValue>, Vec<u8>))
        ensures
            map_entries(parts.0) == self.entries(),
            parts.1@ == self.body_bytes(),
    {
        (self.headers, self.body)
    }
}

/// The response to a single query.
pub struct GraphQLResponse(pub Response);

impl From<Response> for GraphQLResponse {
    fn from(response: Response) -> (wrapped: Self) {
        GraphQLResponse(response)
    }
}

impl vstd::std_specs::convert::FromSpecImpl<Response> for GraphQLResponse {
    open spec fn obeys_from_spec() -> bool {
        true
    }

    open spec fn from_spec(response: Response) -> Self {
        GraphQLResponse(response)
    }
}

impl GraphQLResponse {
    /// The transport response to the query: that of the request that holds
    /// this one result, with `structured` as the body.
    pub fn into_response(self, structured: Vec<u8>) -> (response: HttpResponse)
        ensures
            response.body_bytes() == structured@,
            own_headers(BatchResponse::Single(self.0)).dom().subset_of(response.entries().dom()),
            response_headers(BatchResponse::Single(self.0)).dom().len() < HEADER_MAP_ROOM
                ==> response.entries() == response_headers(BatchResponse::Single(self.0)),
            response_headers(BatchResponse::Single(self.0)) == apply_overrides(
                own_headers(BatchResponse::Single(self.0)),
                self.0.header_overrides(),
            ),
    {
        let batch = BatchResponse::from(self.0);
        proof {
            lemma_single_overrides(self.0);
        }
        GraphQLBatchResponse(batch).into_response(structured)
    }
}

/// The response to a request of one query or of several.
pub struct GraphQLBatchResponse(pub BatchResponse);

impl From<BatchResponse> for GraphQLBatchResponse {
    fn from(batch: BatchResponse) -> (wrapped: Self) {
        GraphQLBatchResponse(batch)
    }
}

impl vstd::std_specs::convert::FromSpecImpl<BatchResponse> for GraphQLBatchResponse {
    open spec fn obeys_from_spec() -> bool {
        true
    }

    open spec fn from_spec(batch: BatchResponse) -> Self {
        GraphQLBatchResponse(batch)
    }
}

impl GraphQLBatchResponse {
    /// The transport response to the request.
    ///
    /// Its body is the body that the request holds serialized already, or
    /// else `structured`, the structured encoding of the results. Its headers
    /// are the JSON media type; the cache directive of the request, where
    /// every query succeeded and there is a directive; and on top of these
    /// each header that a resolver asked for and that the transport accepts,
    /// a later one replacing an earlier one of the same name.
    ///
    /// A header map holds a limited number of names. An override that finds
    /// no room is dropped like one that the transport does not accept; this
    /// cannot happen where the headers come to fewer than `HEADER_MAP_ROOM`
    /// names.
    pub fn into_response(self, structured: Vec<u8>) -> (response: HttpResponse)
        ensures
            response.body_bytes() == response_body(self.0, structured@),
            self.0.raw_data() matches Some(payload) ==> response.body_bytes() == encode_utf8(
                payload,
            ),
            self.0.raw_data() is None ==> response.body_bytes() == structured@,
            own_headers(self.0).dom().subset_of(response.entries().dom()),
            response_headers(self.0).dom().len() < HEADER_MAP_ROOM ==> response.entries()
                == response_headers(self.0),
    {
        let batch = self.0;
        let mut headers = new_header_map();
        proof {
            lemma_own_headers_accepted();
        }
        let name = parse_header_name("content-type".as_bytes());
        let value = parse_header_value("application/json; charset=utf-8".as_bytes());
        try_insert_header(&mut headers, name.unwrap(), value.unwrap());
        if batch.is_ok() {
            if let Some(text) = batch.cache_control().value() {
                if !text.as_str().is_empty() {
                    if let Some(value) = parse_header_value(text.as_str().as_bytes()) {
                        let name = parse_header_name("cache-control".as_bytes());
                        try_insert_header(&mut headers, name.unwrap(), value);
                    }
                }
            }
        }
        assert(map_entries(headers) == own_headers(batch));
        match batch {
            BatchResponse::Single(response) => {
                proof {
                    lemma_single_overrides(response);
                }
                add_overrides(&mut headers, &response.http_headers);
                HttpResponse { headers, body: structured }
            },
            BatchResponse::Batch(responses) => {
                add_all_overrides(&mut headers, &responses);
                HttpResponse { headers, body: structured }
            },
            BatchResponse::Raw { payload, responses } => {
                add_all_overrides(&mut headers, &responses);
                HttpResponse { headers, body: payload.as_str().as_bytes_vec() }
            },
        }
    }
}

fn add_overrides(headers: &mut HeaderMap<HeaderValue>, overrides: &Vec<HeaderOverride>)
    requires
        map_entries(*old(headers)).dom().finite(),
    ensures
        follows(
            map_entries(*final(headers)),
            map_entries(*old(headers)),
            Seq::new(overrides@.len(), |i: int| overrides@[i]@),
        ),
{
    let ghost start = map_entries(*headers);
    let ghost all = Seq::new(overrides@.len(), |i: int| overrides@[i]@);
    let mut i: usize = 0;
    while i < overrides.len()
        invariant
            i <= overrides.len(),
            all == Seq::new(overrides@.len(), |i: int| overrides@[i]@),
            start.dom().finite(),
            follows(map_entries(*headers), start, all.take(i as int)),
        decreases overrides.len() - i,
    {
        proof {
            assert(all.take(i + 1).drop_last() =~= all.take(i as int));
            lemma_apply_overrides_grows(start, all.take(i as int));
            lemma_apply_overrides_grows(apply_overrides(start, all.take(i as int)), seq![all[i as int]]);
            lemma_apply_overrides_concat(start, all.take(i as int), seq![all[i as int]]);
            assert(all.take(i as int) + seq![all[i as int]] =~= all.take(i + 1));
        }
        let header = &overrides[i];
        let name = parse_header_name(header.name.as_slice());
        let value = parse_header_value(header.value.as_slice());
        match (name, value) {
            (Some(name), Some(value)) => {
                try_insert_header(headers, name, value);
            },
            _ => {},
        }
        i += 1;
    }
    assert(all.take(i as int) =~= all);
}

fn add_all_overrides(headers: &mut HeaderMap<HeaderValue>, responses: &Vec<Response>)
    requires
        map_entries(*old(headers)).dom().finite(),
    ensures
        follows(
            map_entries(*final(headers)),
            map_entries(*old(headers)),
            all_header_overrides(responses@),
        ),
{
    let ghost start = map_entries(*headers);
    let mut i: usize = 0;
    while i < responses.len()
        invariant
            i <= responses.len(),
            start.dom().finite(),
            follows(
                map_entries(*headers),
                start,
                all_header_overrides(responses@.take(i as int)),
            ),
        decreases responses.len() - i,
    {
        proof {
            let done = all_header_overrides(responses@.take(i as int));
            let next = responses@[i as int].header_overrides();
            assert(responses@.take(i + 1).drop_last() =~= responses@.take(i as int));
            lemma_apply_overrides_grows(start, done);
            lemma_apply_overrides_grows(apply_overrides(start, done), next);
            lemma_apply_overrides_concat(start, done, next);
        }
        add_overrides(headers, &responses[i].http_headers);
        i += 1;
    }
    assert(responses@.take(i as int) =~= responses@);
}

/// Overrides taken one group after another are the overrides of the groups
/// put together.
pub proof fn lemma_apply_overrides_concat(
    headers: Entries,
    first: Seq<(Seq<u8>, Seq<u8>)>,
    second: Seq<(Seq<u8>, Seq<u8>)>,
)
    ensures
        apply_overrides(headers, first + second) == apply_overrides(
            apply_overrides(headers, first),
            second,
        ),
    decreases second.len(),
{
    if second.len() == 0 {
        assert(first + second =~= first);
    } else {
        assert((first + second).drop_last() =~= first + second.drop_last());
        lemma_apply_overrides_concat(headers, first, second.drop_last());
    }
}

/// Each override adds at most one name to the headers.
pub proof fn lemma_apply_overrides_room(headers: Entries, overrides: Seq<(Seq<u8>, Seq<u8>)>)
    requires
        headers.dom().finite(),
    ensures
        apply_overrides(headers, overrides).dom().finite(),
        apply_overrides(headers, overrides).dom().len() <= headers.dom().len() + overrides.len(),
    decreases overrides.len(),
{
    if overrides.len() > 0 {
        lemma_apply_overrides_room(headers, overrides.drop_last());
    }
}

/// The headers of a response to fewer than `HEADER_MAP_ROOM - 2` overrides
/// find room in a header map, whatever the overrides are.
pub proof fn lemma_few_overrides_find_room(batch: BatchResponse)
    requires
        batch.header_overrides().len() + 2 < HEADER_MAP_ROOM,
    ensures
        response_headers(batch).dom().len() < HEADER_MAP_ROOM,
{
    let media = Entries::empty().insert(content_type_name(), seq![json_media_type()]);
    assert(media.dom() =~= Set::<Seq<u8>>::empty().insert(content_type_name()));
    assert(own_headers(batch).dom().finite());
    assert(own_headers(batch).dom().len() <= 2);
    lemma_apply_overrides_room(own_headers(batch), batch.header_overrides());
}

/// The overrides of a single result are those of the request that holds it.
proof fn lemma_single_overrides(response: Response)
    ensures
        all_header_overrides(seq![response]) == response.header_overrides(),
{
    let results = seq![response];
    assert(results.drop_last() =~= Seq::<Response>::empty());
    assert(all_header_overrides(results.drop_last()) =~= Seq::<(Seq<u8>, Seq<u8>)>::empty());
}

/// Overrides take no name away: the headers keep every name that they
/// had, and so come to no fewer names.
pub proof fn lemma_apply_overrides_grows(headers: Entries, overrides: Seq<(Seq<u8>, Seq<u8>)>)
    requires
        headers.dom().finite(),
    ensures
        apply_overrides(headers, overrides).dom().finite(),
        headers.dom().subset_of(apply_overrides(headers, overrides).dom()),
        headers.dom().len() <= apply_overrides(headers, overrides).dom().len(),
    decreases overrides.len(),
{
    if overrides.len() > 0 {
        lemma_apply_overrides_grows(headers, overrides.drop_last());
    }
    vstd::set_lib::lemma_len_subset(headers.dom(), apply_overrides(headers, overrides).dom());
}

/// The names and the media type that a response sets itself are accepted
/// as they are written.
proof fn lemma_own_headers_accepted()
    ensures
        is_header_name(content_type_name()),
        normalized(content_type_name()) == content_type_name(),
        is_header_name(cache_control_name()),
        normalized(cache_control_name()) == cache_control_name(),
        is_header_value(json_media_type()),
{
    reveal_strlit("content-type");
    reveal_strlit("cache-control");
    reveal_strlit("application/json; charset=utf-8");
    is_ascii_chars_encode_utf8("content-type"@);
    is_ascii_chars_encode_utf8("cache-control"@);
    is_ascii_chars_encode_utf8("application/json; charset=utf-8"@);
}

/// The two names that a response sets itself are not the same.
proof fn lemma_own_names_differ()
    ensures
        content_type_name() != cache_control_name(),
{
    reveal_strlit("content-type");
    reveal_strlit("cache-control");
    is_ascii_chars_encode_utf8("content-type"@);
    is_ascii_chars_encode_utf8("cache-control"@);
}

/// Whether none of `overrides` that the transport accepts is named `name`.
pub open spec fn none_named(overrides: Seq<(Seq<u8>, Seq<u8>)>, name: Seq<u8>) -> bool {
    forall|i: int|
        0 <= i < overrides.len() ==> !(is_acceptable(#[trigger] overrides[i]) && normalized(
            overrides[i].0,
        ) == name)
}

/// Overrides leave alone every name that none of them bears.
pub proof fn lemma_apply_overrides_keeps(
    headers: Entries,
    overrides: Seq<(Seq<u8>, Seq<u8>)>,
    name: Seq<u8>,
)
    requires
        none_named(overrides, name),
    ensures
        apply_overrides(headers, overrides).contains_key(name) == headers.contains_key(name),
        headers.contains_key(name) ==> apply_overrides(headers, overrides)[name] == headers[name],
    decreases overrides.len(),
{
    if overrides.len() > 0 {
        let rest = overrides.drop_last();
        assert(none_named(rest, name));
        lemma_apply_overrides_keeps(headers, rest, name);
        assert(!(is_acceptable(overrides[overrides.len() - 1]) && normalized(
            overrides[overrides.len() - 1].0,
        ) == name));
    }
}

/// An override that the transport does not accept is dropped: the headers
/// are those that the other overrides give by themselves.
pub proof fn lemma_unacceptable_override_dropped(
    headers: Entries,
    overrides: Seq<(Seq<u8>, Seq<u8>)>,
    i: int,
)
    requires
        0 <= i < overrides.len(),
        !is_acceptable(overrides[i]),
    ensures
        apply_overrides(headers, overrides) == apply_overrides(headers, overrides.remove(i)),
    decreases overrides.len(),
{
    if i == overrides.len() - 1 {
        assert(overrides.remove(i) =~= overrides.drop_last());
    } else {
        let rest = overrides.drop_last();
        lemma_unacceptable_override_dropped(headers, rest, i);
        assert(overrides.remove(i).drop_last() =~= rest.remove(i));
    }
}

/// An override that the transport accepts is in the headers, under its name
/// in lower case, whatever the other overrides are.
pub proof fn lemma_acceptable_override_present(
    headers: Entries,
    overrides: Seq<(Seq<u8>, Seq<u8>)>,
    i: int,
)
    requires
        0 <= i < overrides.len(),
        is_acceptable(overrides[i]),
    ensures
        apply_overrides(headers, overrides).contains_key(normalized(overrides[i].0)),
    decreases overrides.len(),
{
    if i < overrides.len() - 1 {
        lemma_acceptable_override_present(headers, overrides.drop_last(), i);
    }
}

/// The value under the name of an override that the transport accepts is
/// the value of that override alone, unless a later one that is accepted
/// too bears the same name: the last one wins.
pub proof fn lemma_last_override_wins(
    headers: Entries,
    overrides: Seq<(Seq<u8>, Seq<u8>)>,
    i: int,
)
    requires
        0 <= i < overrides.len(),
        is_acceptable(overrides[i]),
        forall|j: int|
            i < j < overrides.len() ==> !(is_acceptable(#[trigger] overrides[j]) && normalized(
                overrides[j].0,
            ) == normalized(overrides[i].0)),
    ensures
        apply_overrides(headers, overrides)[normalized(overrides[i].0)] == seq![overrides[i].1],
    decreases overrides.len(),
{
    if i < overrides.len() - 1 {
        let rest = overrides.drop_last();
        lemma_last_override_wins(headers, rest, i);
        assert(!(is_acceptable(overrides[overrides.len() - 1]) && normalized(
            overrides[overrides.len() - 1].0,
        ) == normalized(overrides[i].0)));
    }
}

/// The directive that results have in common has a text exactly when one of
/// theirs has.
pub proof fn lemma_merged_has_value(responses: Seq<Response>)
    ensures
        merged_cache_control(responses).value_spec() is Some <==> exists|i: int|
            0 <= i < responses.len() && (#[trigger] responses[i]).cache_control.value_spec()
                is Some,
    decreases responses.len(),
{
    if responses.len() > 0 {
        let rest = responses.drop_last();
        lemma_merged_has_value(rest);
        lemma_merge_has_value(merged_cache_control(rest), responses.last().cache_control);
        if merged_cache_control(rest).value_spec() is Some {
            // the result that has a text among the rest is one of all
            let i = choose|i: int|
                0 <= i < rest.len() && (#[trigger] rest[i]).cache_control.value_spec() is Some;
            assert(responses[i] == rest[i]);
        }
        if exists|i: int|
            0 <= i < responses.len() && (#[trigger] responses[i]).cache_control.value_spec()
                is Some {
            // the result that has a text is the last one or one of the rest
            let i = choose|i: int|
                0 <= i < responses.len() && (#[trigger] responses[i]).cache_control.value_spec()
                    is Some;
            if i < rest.len() {
                assert(rest[i] == responses[i]);
            }
        }
    }
}

/// A response has a cache header exactly when every query of the request
/// succeeded and the directive of at least one result has a text. The value
/// of the header is then the text of the request's directive.
pub proof fn lemma_cache_header_presence(batch: BatchResponse)
    ensures
        cache_header(batch) is Some <==> batch.is_ok_spec() && exists|i: int|
            0 <= i < batch.results().len() && (
            #[trigger] batch.results()[i]).cache_control.value_spec() is Some,
        cache_header(batch) matches Some(value) ==> batch.cache_control_spec().value_spec()
            is Some && value == encode_utf8(batch.cache_control_spec().value_spec().unwrap()),
{
    lemma_merged_has_value(batch.results());
    let directive = batch.cache_control_spec();
    lemma_value_is_directive_text(directive);
    if directive.value_spec() is Some {
        let text = directive.value_spec().unwrap();
        assert(is_ascii_chars(text));
        is_ascii_chars_encode_utf8(text);
    }
}

/// The cache header is in the response to a request exactly when every
/// query of the request succeeded and the directive of at least one result
/// has a text; this for a request none of whose resolvers asked for a header
/// of that very name.
pub proof fn lemma_cache_control_in_response(batch: BatchResponse)
    requires
        none_named(batch.header_overrides(), cache_control_name()),
    ensures
        response_headers(batch).contains_key(cache_control_name()) <==> batch.is_ok_spec()
            && exists|i: int|
            0 <= i < batch.results().len() && (
            #[trigger] batch.results()[i]).cache_control.value_spec() is Some,
        response_headers(batch).contains_key(cache_control_name()) ==> cache_header(batch)
            == Some(response_headers(batch)[cache_control_name()][0]),
        response_headers(batch).contains_key(cache_control_name()) ==> response_headers(
            batch,
        )[cache_control_name()].len() == 1,
{
    lemma_cache_header_presence(batch);
    lemma_own_names_differ();
    lemma_apply_overrides_keeps(own_headers(batch), batch.header_overrides(), cache_control_name());
}

} // verus!
