//! The request layer: what to send for a read or a write, and what the
//! answer means.

use crate::decimal::{
    decimal_bytes, decimal_text, format_decimal, lemma_decimal_round_trip, parse_decimal,
    read_decimal,
};
use crate::errors::Error;
use crate::params::{pairs_view, with_pair, Pair, Params};
use crate::{Config, QueryMeta, QueryOptions, WriteMeta, WriteOptions};
use std::time::Duration;
use vstd::prelude::*;
use vstd::string::{StrSliceExecFns, StringExecFns};

verus! {

/// The error of `url::Url::parse_with_params`. It is declared so that the
/// result of the call can be handed on; nothing is said of what it holds.
#[verifier::external_type_specification]
#[verifier::external_body]
pub struct ExParseError(url::ParseError);

/// The text of the URL that `url::Url::parse_with_params` makes of `input`
/// and `pairs`, or `None` where it makes none.
pub uninterp spec fn url_text(input: Seq<char>, pairs: Seq<Pair>) -> Option<Seq<char>>;

/// The most characters that a URL is made from: those of the address and
/// the path, and those of the keys and values of the parameters.
pub const MAX_URL_TEXT: usize = 1_000_000;

/// The characters in the keys and values of `pairs`.
pub open spec fn pairs_weight(pairs: Seq<Pair>) -> nat
    decreases pairs.len(),
{
    if pairs.len() == 0 {
        0
    } else {
        pairs_weight(pairs.drop_last()) + pairs.last().0.len() + pairs.last().1.len()
    }
}

/// Whether `target` and `pairs` are few enough characters to make a URL
/// from.
pub open spec fn fits(target: Seq<char>, pairs: Seq<Pair>) -> bool {
    target.len() + pairs_weight(pairs) <= MAX_URL_TEXT
}

/// `url::Url::parse_with_params`, with the URL handed back as its text.
///
/// Trusted: that the outcome is `url_text` of the input and of the pairs in
/// their order. The crate parses `input` as an absolute URL and appends the
/// pairs to its query, form-encoded, behind whatever query `input` has. It
/// keeps its offsets in 32 bits and panics where a URL that it has parsed
/// outgrows them; the bound on the input keeps the URL far below that.
#[verifier::external_body]
fn parse_with_params(input: &str, pairs: &Vec<(String, String)>) -> (parsed: Result<
    String,
    url::ParseError,
>)
    requires
        fits(input@, pairs_view(pairs@)),
    ensures
        match parsed {
            Ok(text) => url_text(input@, pairs_view(pairs@)) == Some(text@),
            Err(_) => url_text(input@, pairs_view(pairs@)) is None,
        },
{
    url::Url::parse_with_params(input, pairs.iter()).map(String::from)
}

/// The whole seconds that `std::time::Duration::as_secs` gives for `d`.
pub uninterp spec fn whole_seconds(d: Duration) -> u64;

/// Trusted: that `as_secs` gives the whole seconds of the duration, a
/// function of the duration alone.
pub assume_specification[ Duration::as_secs ](d: &Duration) -> (secs: u64)
    ensures
        secs == whole_seconds(*d),
;

/// The header of a request that carries the credential.
pub const TOKEN_HEADER: &'static str = "X-Consul-Token";

/// The header of an answer that carries the consistency index.
pub const INDEX_HEADER: &'static str = "X-Consul-Index";

/// The verb of a request.
#[derive(Clone, Copy, Debug, PartialEq, Eq, Structural)]
pub enum Method {
    Get,
    Put,
    Delete,
}

/// A request to send: the verb, the URL in full, the headers in order, and
/// the value to send as a JSON body, if any.
#[derive(Debug)]
pub struct Request<'a, T> {
    pub method: Method,
    pub url: String,
    pub headers: Vec<(String, String)>,
    pub body: Option<&'a T>,
}

/// What came back: the status, the bytes of the consistency-index header
/// where there was one, and the body.
#[derive(Clone, Debug)]
pub struct Response {
    pub status: u16,
    pub index: Option<Vec<u8>>,
    pub body: Vec<u8>,
}

/// What a read found.
#[derive(Clone, Debug, PartialEq, Eq)]
pub enum Payload {
    /// Nothing is there: the value to take is the empty one.
    Empty,
    /// The bytes to decode.
    Body(Vec<u8>),
}

/// The URL that is made of `target` and `pairs`: the one that the parser
/// gives, and none where they are too many characters.
pub open spec fn url_made(target: Seq<char>, pairs: Seq<Pair>) -> Option<Seq<char>> {
    if fits(target, pairs) {
        url_text(target, pairs)
    } else {
        None
    }
}

/// The headers that carry the credential: one, where there is a token.
pub open spec fn token_headers(token: Option<String>) -> Seq<Pair> {
    match token {
        Some(t) => seq![(TOKEN_HEADER@, t@)],
        None => Seq::empty(),
    }
}

/// The datacenter of a call: the call's own, or else the configured one.
pub open spec fn chosen_datacenter(own: Option<String>, config: &Config) -> Option<String> {
    match own {
        Some(dc) => Some(dc),
        None => config.datacenter,
    }
}

/// `pairs` with the datacenter under `dc`, where there is one.
pub open spec fn with_datacenter(pairs: Seq<Pair>, datacenter: Option<String>) -> Seq<Pair> {
    match datacenter {
        Some(dc) => with_pair(pairs, "dc"@, dc@),
        None => pairs,
    }
}

/// `pairs` with the index to wait for under `index`, where there is one.
pub open spec fn with_index(pairs: Seq<Pair>, wait_index: Option<u64>) -> Seq<Pair> {
    match wait_index {
        Some(index) => with_pair(pairs, "index"@, decimal_text(index as nat)),
        None => pairs,
    }
}

/// `pairs` with the time to wait under `wait`, in whole seconds and with
/// the unit `s`, where there is one.
pub open spec fn with_wait(pairs: Seq<Pair>, wait_time: Option<Duration>) -> Seq<Pair> {
    match wait_time {
        Some(wait) => with_pair(pairs, "wait"@, decimal_text(whole_seconds(wait) as nat) + "s"@),
        None => pairs,
    }
}

/// The parameters of a read: the caller's, then the datacenter, the index
/// and the wait, each in the place of a parameter of its name.
pub open spec fn read_pairs(
    config: &Config,
    pairs: Seq<Pair>,
    options: Option<&QueryOptions>,
) -> Seq<Pair> {
    match options {
        Some(o) => with_wait(
            with_index(
                with_datacenter(pairs, chosen_datacenter(o.datacenter, config)),
                o.wait_index,
            ),
            o.wait_time,
        ),
        None => with_datacenter(pairs, config.datacenter),
    }
}

/// The parameters of a write: the caller's, then the datacenter.
pub open spec fn write_pairs(
    config: &Config,
    pairs: Seq<Pair>,
    options: Option<&WriteOptions>,
) -> Seq<Pair> {
    match options {
        Some(o) => with_datacenter(pairs, chosen_datacenter(o.datacenter, config)),
        None => with_datacenter(pairs, config.datacenter),
    }
}

/// Whether `outcome` is what building a request comes to: the request with
/// this verb and body, the URL made of `target` and `pairs`, and the token
/// in its header; or `BadUrl` where these make no URL, as they do where
/// they are more than `MAX_URL_TEXT` characters.
pub open spec fn sends<T>(
    outcome: Result<Request<'_, T>, Error>,
    method: Method,
    target: Seq<char>,
    pairs: Seq<Pair>,
    token: Option<String>,
    body: Option<&T>,
) -> bool {
    match url_made(target, pairs) {
        Some(url) => outcome matches Ok(request) && request.method == method && request.url@
            == url && pairs_view(request.headers@) == token_headers(token) && request.body
            == body,
        None => outcome matches Err(e) && e == Error::BadUrl,
    }
}

/// Puts the configured token into the request's headers.
pub fn add_config_options<'a, T>(request: Request<'a, T>, config: &Config) -> (with_token: Request<
    'a,
    T,
>)
    ensures
        with_token.method == request.method,
        with_token.url == request.url,
        with_token.body == request.body,
        pairs_view(with_token.headers@) == pairs_view(request.headers@) + token_headers(
            config.token,
        ),
{
    let Request { method, url, mut headers, body } = request;
    let ghost before = pairs_view(headers@);
    match &config.token {
        Some(token) => {
            headers.push((String::from_str(TOKEN_HEADER), token.clone()));
            assert(pairs_view(headers@) =~= before + token_headers(config.token));
        },
        None => {
            assert(pairs_view(headers@) =~= before + token_headers(config.token));
        },
    }
    Request { method, url, headers, body }
}

/// Puts the datacenter of the call among the parameters.
fn insert_datacenter(params: &mut Params, own: &Option<String>, config: &Config)
    ensures
        final(params)@ == with_datacenter(old(params)@, chosen_datacenter(*own, config)),
{
    let datacenter: &Option<String> = match own {
        Some(_) => own,
        None => &config.datacenter,
    };
    match datacenter {
        Some(dc) => {
            params.insert(String::from_str("dc"), dc.clone());
        },
        None => {},
    }
}

/// The parameters of a read.
pub fn query_params(
    config: &Config,
    params: Params,
    options: Option<&QueryOptions>,
) -> (merged: Params)
    ensures
        merged@ == read_pairs(config, params@, options),
{
    let mut params = params;
    match options {
        Some(o) => {
            insert_datacenter(&mut params, &o.datacenter, config);
            match o.wait_index {
                Some(index) => {
                    params.insert(String::from_str("index"), format_decimal(index));
                },
                None => {},
            }
            match o.wait_time {
                Some(wait) => {
                    let seconds = format_decimal(wait.as_secs());
                    params.insert(String::from_str("wait"), seconds.concat("s"));
                },
                None => {},
            }
        },
        None => {
            insert_datacenter(&mut params, &None, config);
        },
    }
    params
}

/// The parameters of a write.
pub fn write_params(
    config: &Config,
    params: Params,
    options: Option<&WriteOptions>,
) -> (merged: Params)
    ensures
        merged@ == write_pairs(config, params@, options),
{
    let mut params = params;
    match options {
        Some(o) => {
            insert_datacenter(&mut params, &o.datacenter, config);
        },
        None => {
            insert_datacenter(&mut params, &None, config);
        },
    }
    params
}

/// The request for a URL that was parsed, or `BadUrl` for one that was not.
pub fn prepare<'a, T>(
    method: Method,
    parsed: Result<String, url::ParseError>,
    body: Option<&'a T>,
    config: &Config,
) -> (outcome: Result<Request<'a, T>, Error>)
    ensures
        match parsed {
            Ok(url) => outcome matches Ok(request) && request.method == method && request.url
                == url && pairs_view(request.headers@) == token_headers(config.token)
                && request.body == body,
            Err(_) => outcome matches Err(e) && e == Error::BadUrl,
        },
{
    match parsed {
        Ok(url) => {
            let request = Request { method, url, headers: Vec::new(), body };
            assert(pairs_view(request.headers@) =~= Seq::<Pair>::empty());
            let request = add_config_options(request, config);
            assert(pairs_view(request.headers@) =~= token_headers(config.token));
            Ok(request)
        },
        Err(_) => Err(Error::BadUrl),
    }
}

/// Whether `target` and `pairs` are few enough characters to make a URL
/// from.
pub fn within_limit(target: &str, pairs: &Vec<(String, String)>) -> (within: bool)
    ensures
        within == fits(target@, pairs_view(pairs@)),
{
    let ghost all = pairs_view(pairs@);
    let mut total: usize = target.unicode_len();
    if total > MAX_URL_TEXT {
        return false;
    }
    let mut i: usize = 0;
    while i < pairs.len()
        invariant
            i <= pairs.len(),
            all == pairs_view(pairs@),
            total == target@.len() + pairs_weight(all.take(i as int)),
            total <= MAX_URL_TEXT,
        decreases pairs.len() - i,
    {
        let key: usize = pairs[i].0.as_str().unicode_len();
        let value: usize = pairs[i].1.as_str().unicode_len();
        proof {
            assert(all.take(i + 1).drop_last() =~= all.take(i as int));
            lemma_weight_grows(all, i + 1);
        }
        if key > MAX_URL_TEXT - total {
            return false;
        }
        total = total + key;
        if value > MAX_URL_TEXT - total {
            return false;
        }
        total = total + value;
        i = i + 1;
    }
    assert(all.take(i as int) =~= all);
    true
}

/// The first pairs of a list weigh no more than the list.
proof fn lemma_weight_grows(pairs: Seq<Pair>, n: int)
    requires
        0 <= n <= pairs.len(),
    ensures
        pairs_weight(pairs.take(n)) <= pairs_weight(pairs),
    decreases pairs.len() - n,
{
    if n == pairs.len() {
        assert(pairs.take(n) =~= pairs);
    } else {
        lemma_weight_grows(pairs, n + 1);
        assert(pairs.take(n + 1).drop_last() =~= pairs.take(n));
    }
}

/// The request with this verb for `path` under the configured address.
fn request_to<'a, T>(
    method: Method,
    path: &str,
    body: Option<&'a T>,
    config: &Config,
    params: &Params,
) -> (outcome: Result<Request<'a, T>, Error>)
    ensures
        sends(outcome, method, config.address@ + path@, params@, config.token, body),
{
    let target = config.address.clone().concat(path);
    if !within_limit(target.as_str(), params.pairs()) {
        return Err(Error::BadUrl);
    }
    let parsed = parse_with_params(target.as_str(), params.pairs());
    prepare(method, parsed, body, config)
}

/// The request of a read of one value.
pub fn get(
    path: &str,
    config: &Config,
    params: Params,
    options: Option<&QueryOptions>,
) -> (outcome: Result<Request<'static, ()>, Error>)
    ensures
        sends(
            outcome,
            Method::Get,
            config.address@ + path@,
            read_pairs(config, params@, options),
            config.token,
            None,
        ),
{
    let params = query_params(config, params, options);
    request_to(Method::Get, path, None, config, &params)
}

/// The request of a read of a sequence of values: that of `get`.
pub fn get_vec(
    path: &str,
    config: &Config,
    params: Params,
    options: Option<&QueryOptions>,
) -> (outcome: Result<Request<'static, ()>, Error>)
    ensures
        sends(
            outcome,
            Method::Get,
            config.address@ + path@,
            read_pairs(config, params@, options),
            config.token,
            None,
        ),
{
    get(path, config, params, options)
}

/// The request of a write with the verb `method`.
pub fn write_with_body<'a, T>(
    path: &str,
    body: Option<&'a T>,
    config: &Config,
    params: Params,
    options: Option<&WriteOptions>,
    method: Method,
) -> (outcome: Result<Request<'a, T>, Error>)
    ensures
        sends(
            outcome,
            method,
            config.address@ + path@,
            write_pairs(config, params@, options),
            config.token,
            body,
        ),
{
    let params = write_params(config, params, options);
    request_to(method, path, body, config, &params)
}

/// The request of a write that removes: `DELETE`, without a body.
pub fn delete(
    path: &str,
    config: &Config,
    params: Params,
    options: Option<&WriteOptions>,
) -> (outcome: Result<Request<'static, ()>, Error>)
    ensures
        sends(
            outcome,
            Method::Delete,
            config.address@ + path@,
            write_pairs(config, params@, options),
            config.token,
            None,
        ),
{
    write_with_body(path, None, config, params, options, Method::Delete)
}

/// The request of a write that stores: `PUT`, with `body` as JSON where
/// there is one.
pub fn put<'a, T>(
    path: &str,
    body: Option<&'a T>,
    config: &Config,
    params: Params,
    options: Option<&WriteOptions>,
) -> (outcome: Result<Request<'a, T>, Error>)
    ensures
        sends(
            outcome,
            Method::Put,
            config.address@ + path@,
            write_pairs(config, params@, options),
            config.token,
            body,
        ),
{
    write_with_body(path, body, config, params, options, Method::Put)
}

/// The status with which the agent answers for what it does not hold.
pub const NOT_FOUND: u16 = 404;

/// Whether `status` reports success.
pub open spec fn is_success(status: u16) -> bool {
    200 <= status < 300
}

/// The index that a header reports: none without a header, the number that
/// its bytes write, and an error where they write none.
pub open spec fn index_of(header: Option<Vec<u8>>) -> Result<Option<u64>, Error> {
    match header {
        None => Ok(None),
        Some(bytes) => match parse_decimal(bytes@) {
            Some(index) => Ok(Some(index)),
            None => Err(Error::ParseConsulIndexError),
        },
    }
}

/// What a read comes to. The header is read first, so a header that is no
/// number fails the read whatever the status. Then `NOT_FOUND` is a success
/// with nothing in it, any other status outside `200..300` is the agent's
/// error, and the rest is a success with the body.
pub open spec fn read_result(response: Response, request_time: Duration) -> Result<
    (Payload, QueryMeta),
    Error,
> {
    match index_of(response.index) {
        Err(e) => Err(e),
        Ok(last_index) => {
            let meta = QueryMeta { last_index, request_time };
            if response.status == NOT_FOUND {
                Ok((Payload::Empty, meta))
            } else if is_success(response.status) {
                Ok((Payload::Body(response.body), meta))
            } else {
                Err(Error::ServerError { status: response.status, body: response.body })
            }
        },
    }
}

/// What a write comes to: the body on success, the agent's error on any
/// other status, `404` among them.
pub open spec fn write_result(response: Response, request_time: Duration) -> Result<
    (Vec<u8>, WriteMeta),
    Error,
> {
    if is_success(response.status) {
        Ok((response.body, WriteMeta { request_time }))
    } else {
        Err(Error::ServerError { status: response.status, body: response.body })
    }
}

/// Reads the consistency index from the bytes of its header.
pub fn last_index(header: &Option<Vec<u8>>) -> (index: Result<Option<u64>, Error>)
    ensures
        index == index_of(*header),
{
    match header {
        None => Ok(None),
        Some(bytes) => match read_decimal(bytes.as_slice()) {
            Some(index) => Ok(Some(index)),
            None => Err(Error::ParseConsulIndexError),
        },
    }
}

/// Says what the answer to a read means.
pub fn read_reply(response: Response, request_time: Duration) -> (outcome: Result<
    (Payload, QueryMeta),
    Error,
>)
    ensures
        outcome == read_result(response, request_time),
{
    let last_index = match last_index(&response.index) {
        Ok(index) => index,
        Err(e) => {
            return Err(e);
        },
    };
    let meta = QueryMeta { last_index, request_time };
    if response.status == NOT_FOUND {
        Ok((Payload::Empty, meta))
    } else if 200 <= response.status && response.status < 300 {
        Ok((Payload::Body(response.body), meta))
    } else {
        Err(Error::ServerError { status: response.status, body: response.body })
    }
}

/// Says what the answer to a write means.
pub fn write_reply(response: Response, request_time: Duration) -> (outcome: Result<
    (Vec<u8>, WriteMeta),
    Error,
>)
    ensures
        outcome == write_result(response, request_time),
{
    if 200 <= response.status && response.status < 300 {
        Ok((response.body, WriteMeta { request_time }))
    } else {
        Err(Error::ServerError { status: response.status, body: response.body })
    }
}

/// What the decoding of a body comes to: the value with what the call
/// tells beside it, or `DecodeError` for a body that holds no value of the
/// kind that was expected.
pub open spec fn decoded<R, M>(value: Option<R>, meta: M) -> Result<(R, M), Error> {
    match value {
        Some(v) => Ok((v, meta)),
        None => Err(Error::DecodeError),
    }
}

/// Whether `outcome` is what a read comes to for one who expects a value of
/// the kind `R`: the error of the read; or `empty` where nothing is there;
/// or what `decode` made of the body.
pub open spec fn reads<R, D: FnOnce(&Vec<u8>) -> Option<R>>(
    outcome: Result<(R, QueryMeta), Error>,
    response: Response,
    request_time: Duration,
    decode: D,
    empty: R,
) -> bool {
    match read_result(response, request_time) {
        Err(e) => outcome matches Err(failed) && failed == e,
        Ok((Payload::Empty, meta)) => outcome == Ok::<(R, QueryMeta), Error>((empty, meta)),
        Ok((Payload::Body(bytes), meta)) => exists|value: Option<R>| #[trigger]
            decode.ensures((&bytes,), value) && outcome == decoded(value, meta),
    }
}

/// Whether `outcome` is what a write comes to for one who expects a value
/// of the kind `R`: the error of the write, or what `decode` made of the
/// body.
pub open spec fn writes<R, D: FnOnce(&Vec<u8>) -> Option<R>>(
    outcome: Result<(R, WriteMeta), Error>,
    response: Response,
    request_time: Duration,
    decode: D,
) -> bool {
    match write_result(response, request_time) {
        Err(e) => outcome matches Err(failed) && failed == e,
        Ok((bytes, meta)) => exists|value: Option<R>| #[trigger]
            decode.ensures((&bytes,), value) && outcome == decoded(value, meta),
    }
}

/// Says what the answer to a read of one value means. `decode` gives the
/// value that a body holds, and `None` for a body that holds none;
/// `empty` is the value to take where nothing is there.
pub fn read_value<R, D: FnOnce(&Vec<u8>) -> Option<R>>(
    response: Response,
    request_time: Duration,
    decode: D,
    empty: R,
) -> (outcome: Result<(R, QueryMeta), Error>)
    requires
        forall|bytes: &Vec<u8>| decode.requires((bytes,)),
    ensures
        reads(outcome, response, request_time, decode, empty),
{
    match read_reply(response, request_time) {
        Err(e) => Err(e),
        Ok((Payload::Empty, meta)) => Ok((empty, meta)),
        Ok((Payload::Body(bytes), meta)) => match decode(&bytes) {
            Some(value) => Ok((value, meta)),
            None => Err(Error::DecodeError),
        },
    }
}

/// Says what the answer to a read of a sequence of values means: as
/// `read_value` does, with the empty sequence where nothing is there.
pub fn read_values<R, D: FnOnce(&Vec<u8>) -> Option<Vec<R>>>(
    response: Response,
    request_time: Duration,
    decode: D,
) -> (outcome: Result<(Vec<R>, QueryMeta), Error>)
    requires
        forall|bytes: &Vec<u8>| decode.requires((bytes,)),
    ensures
        exists|empty: Vec<R>|
            empty@ == Seq::<R>::empty() && #[trigger] reads(
                outcome,
                response,
                request_time,
                decode,
                empty,
            ),
{
    let empty: Vec<R> = Vec::new();
    let ghost nothing = empty;
    let outcome = read_value(response, request_time, decode, empty);
    assert(reads(outcome, response, request_time, decode, nothing));
    outcome
}

/// Says what the answer to a write means for one who expects a value.
/// `decode` gives the value that a body holds, and `None` for a body that
/// holds none.
pub fn write_value<R, D: FnOnce(&Vec<u8>) -> Option<R>>(
    response: Response,
    request_time: Duration,
    decode: D,
) -> (outcome: Result<(R, WriteMeta), Error>)
    requires
        forall|bytes: &Vec<u8>| decode.requires((bytes,)),
    ensures
        writes(outcome, response, request_time, decode),
{
    match write_reply(response, request_time) {
        Err(e) => Err(e),
        Ok((bytes, meta)) => match decode(&bytes) {
            Some(value) => Ok((value, meta)),
            None => Err(Error::DecodeError),
        },
    }
}

/// A read of what is not there is no failure of the agent's. With `404`
/// the read is never a `ServerError`; and where the header is absent or
/// writes a number, the read succeeds with nothing in it and reports the
/// index of the header, `None` for an absent one.
pub proof fn lemma_read_of_absent(response: Response, request_time: Duration)
    requires
        response.status == 404,
    ensures
        !(read_result(response, request_time) matches Err(Error::ServerError { .. })),
        index_of(response.index) matches Ok(last_index) ==> read_result(response, request_time)
            == Ok::<(Payload, QueryMeta), Error>(
            (Payload::Empty, QueryMeta { last_index, request_time }),
        ),
        response.index is None ==> index_of(response.index) == Ok::<Option<u64>, Error>(None),
{
}

/// A write to what is not there is the agent's error: with `404`, as with
/// every status outside success, a write fails with that status and the
/// body that came, whatever the header holds. The same answer to a read
/// with such a header is a success.
pub proof fn lemma_write_of_absent(response: Response, request_time: Duration)
    requires
        response.status == 404,
    ensures
        write_result(response, request_time) == Err::<(Vec<u8>, WriteMeta), Error>(
            Error::ServerError { status: 404, body: response.body },
        ),
        index_of(response.index) is Ok ==> read_result(response, request_time) is Ok,
{
}

/// The index that a read waits for comes back as it went out. Where the
/// header of the answer holds the digits that `index` is written with in
/// the request, and the status is a success or `404`, the read reports
/// `index`.
pub proof fn lemma_index_echo(response: Response, request_time: Duration, index: u64)
    requires
        response.index matches Some(bytes) && bytes@ == decimal_bytes(index as nat),
        is_success(response.status) || response.status == 404,
    ensures
        read_result(response, request_time) matches Ok(found) && found.1.last_index == Some(
            index,
        ),
        with_index(Seq::empty(), Some(index)) == seq![("index"@, decimal_text(index as nat))],
{
    lemma_decimal_round_trip(index as nat);
    assert(with_index(Seq::empty(), Some(index)) =~= seq![
        ("index"@, decimal_text(index as nat)),
    ]);
}

/// A call succeeds whole or fails whole: every answer to a read comes to a
/// payload with its index and time or to one error, and what decides is
/// the header first, then the status.
pub proof fn lemma_read_cases(response: Response, request_time: Duration)
    ensures
        read_result(response, request_time) is Err <==> index_of(response.index) is Err || (
        response.status != 404 && !is_success(response.status)),
        read_result(response, request_time) matches Err(Error::ParseConsulIndexError)
            <==> index_of(response.index) is Err,
        read_result(response, request_time) matches Ok(found) ==> found.1.request_time
            == request_time && index_of(response.index) == Ok::<Option<u64>, Error>(
            found.1.last_index,
        ),
{
}

} // verus!
