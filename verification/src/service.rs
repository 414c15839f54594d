//! The request handler: it reads the path of a request, decides what is
//! asked for, and answers from the shuffle cache.

use vstd::prelude::*;
use crate::cache::ShuffleCache;
use crate::cache::ShuffleCoordinate;
use crate::decimal::parse_decimal;
use crate::decimal::parse_unsigned;
use crate::error::error_response;
use crate::error::ErrorView;
use crate::error::ShuffleManagerError;
use crate::response::empty_response;
use crate::response::HttpResponse;
use crate::response::ResponseView;
use crate::response::STATUS_OK;
use crate::text::chars_of;
use crate::text::same_chars;
use crate::text::split;
use crate::text::split_chars;

verus! {

/// The URI of a request: its path, which decides what is served, and its
/// full text, which is reported back when the path is not understood.
#[derive(Debug)]
pub struct RequestUri {
    pub path: String,
    pub text: String,
}

impl RequestUri {
    /// The URI with the given path and full text.
    pub fn new(path: String, text: String) -> (uri: Self)
        ensures
            uri.path@ == path@,
            uri.text@ == text@,
    {
        RequestUri { path, text }
    }
}

/// What a request is answered with when nothing went wrong.
#[derive(Debug, PartialEq, Eq)]
pub enum ShuffleResponse {
    /// A bare status code.
    Status(u16),
    /// The bytes of a cached block.
    CachedData(Vec<u8>),
}

/// A successful answer as contracts speak of it.
pub enum ShuffleResponseView {
    Status(u16),
    CachedData(Seq<u8>),
}

impl View for ShuffleResponse {
    type V = ShuffleResponseView;

    open spec fn view(&self) -> ShuffleResponseView {
        match self {
            ShuffleResponse::Status(code) => ShuffleResponseView::Status(*code),
            ShuffleResponse::CachedData(data) => ShuffleResponseView::CachedData(data@),
        }
    }
}

/// What a path asks for.
pub enum Route {
    /// The liveness probe.
    Status,
    /// The block at a coordinate.
    Block(ShuffleCoordinate),
    /// Nothing that the service offers.
    Invalid,
}

/// The identifier that one segment of a path denotes: an unsigned decimal
/// number, reduced to the width of the platform's word.
pub open spec fn path_part_value(part: Seq<char>) -> Option<usize> {
    match parse_unsigned(part) {
        Some(value) => Some(value as usize),
        None => None,
    }
}

/// The coordinate that three segments of a path denote, if each of them
/// denotes an identifier.
pub open spec fn coordinate_of(
    shuffle_id: Seq<char>,
    input_id: Seq<char>,
    reduce_id: Seq<char>,
) -> Option<ShuffleCoordinate> {
    match (path_part_value(shuffle_id), path_part_value(input_id), path_part_value(reduce_id)) {
        (Some(shuffle), Some(input), Some(reduce)) => Some((shuffle, input, reduce)),
        _ => None,
    }
}

/// What `path` asks for: `/status` is the liveness probe, `/shuffle/`
/// followed by three identifiers with a slash between them is a block, and
/// every other path is invalid.
pub open spec fn route(path: Seq<char>) -> Route {
    let parts = split(path, '/');
    if parts.len() == 2 && parts[0].len() == 0 && parts[1] == "status"@ {
        Route::Status
    } else if parts.len() == 5 && parts[0].len() == 0 && parts[1] == "shuffle"@ {
        match coordinate_of(parts[2], parts[3], parts[4]) {
            Some(key) => Route::Block(key),
            None => Route::Invalid,
        }
    } else {
        Route::Invalid
    }
}

/// What the block at `key` is answered with: its bytes, or the failure that
/// nothing is cached there.
pub open spec fn lookup(cache: Map<ShuffleCoordinate, Seq<u8>>, key: ShuffleCoordinate) -> Result<
    Seq<u8>,
    ErrorView,
> {
    if cache.contains_key(key) {
        Ok(cache[key])
    } else {
        Err(ErrorView::RequestedCacheNotFound)
    }
}

/// The answer to a request with the given path and URI text, before it is
/// turned into a response.
pub open spec fn classify(
    cache: Map<ShuffleCoordinate, Seq<u8>>,
    path: Seq<char>,
    text: Seq<char>,
) -> Result<ShuffleResponseView, ErrorView> {
    match route(path) {
        Route::Status => Ok(ShuffleResponseView::Status(STATUS_OK)),
        Route::Block(key) => match lookup(cache, key) {
            Ok(data) => Ok(ShuffleResponseView::CachedData(data)),
            Err(error) => Err(error),
        },
        Route::Invalid => Err(ErrorView::FailedToParseUri(text)),
    }
}

/// The response to a request with the given path and URI text.
pub open spec fn respond(
    cache: Map<ShuffleCoordinate, Seq<u8>>,
    path: Seq<char>,
    text: Seq<char>,
) -> ResponseView {
    match classify(cache, path, text) {
        Ok(ShuffleResponseView::Status(code)) => empty_response(code),
        Ok(ShuffleResponseView::CachedData(data)) => ResponseView { status: STATUS_OK, body: data },
        Err(error) => error_response(error),
    }
}

/// The request handler. It keeps nothing between requests: one handler
/// serves any number of connections.
#[derive(Debug, Clone, Copy)]
pub struct ShuffleService;

impl ShuffleService {
    /// Reads one identifier of a coordinate from a segment of a path.
    fn parse_segment(part: &Vec<char>) -> (id: Option<usize>)
        ensures
            id == path_part_value(part@),
    {
        match parse_decimal(part) {
            Some(value) => Some(#[verifier::truncate] (value as usize)),
            None => None,
        }
    }

    /// Reads one identifier of a coordinate: an optional plus sign and one
    /// or more decimal digits that denote a number of at most 64 bits.
    /// Anything else is a parse failure, reported without a URI.
    pub fn parse_path_part(part: &str) -> (parsed: Result<usize, ShuffleManagerError>)
        ensures
            match parsed {
                Ok(id) => path_part_value(part@) == Some(id),
                Err(error) => path_part_value(part@) is None && error@
                    == ErrorView::FailedToParseUri(Seq::<char>::empty()),
            },
    {
        let chars = chars_of(part);
        match Self::parse_segment(&chars) {
            Some(id) => Ok(id),
            None => Err(ShuffleManagerError::FailedToParseUri(String::new())),
        }
    }

    /// Looks up the block whose coordinate the three segments denote and
    /// copies its bytes out of the cache. Segments that denote no
    /// coordinate are a parse failure that carries the text of `uri`; a
    /// coordinate with nothing cached under it is reported as not found.
    pub fn get_cached_data(
        &self,
        cache: &ShuffleCache,
        uri: &RequestUri,
        shuffle_id: &Vec<char>,
        input_id: &Vec<char>,
        reduce_id: &Vec<char>,
    ) -> (found: Result<Vec<u8>, ShuffleManagerError>)
        ensures
            match found {
                Ok(data) => match coordinate_of(shuffle_id@, input_id@, reduce_id@) {
                    Some(key) => lookup(cache@, key) == Ok::<Seq<u8>, ErrorView>(data@),
                    None => false,
                },
                Err(error) => match coordinate_of(shuffle_id@, input_id@, reduce_id@) {
                    Some(key) => lookup(cache@, key) == Err::<Seq<u8>, ErrorView>(error@),
                    None => error@ == ErrorView::FailedToParseUri(uri.text@),
                },
            },
    {
        let shuffle = Self::parse_segment(shuffle_id);
        let input = Self::parse_segment(input_id);
        let reduce = Self::parse_segment(reduce_id);
        match (shuffle, input, reduce) {
            (Some(shuffle), Some(input), Some(reduce)) => {
                match cache.get(&(shuffle, input, reduce)) {
                    Some(block) => Ok(block.clone()),
                    None => Err(ShuffleManagerError::RequestedCacheNotFound),
                }
            },
            _ => Err(ShuffleManagerError::FailedToParseUri(uri.text.clone())),
        }
    }

    /// Decides what a request is answered with: the status code 200 for
    /// the liveness probe, the cached bytes for a block, and a failure for
    /// a block that is not cached or a path that names no endpoint.
    pub fn response_type(&self, cache: &ShuffleCache, uri: &RequestUri) -> (answer: Result<
        ShuffleResponse,
        ShuffleManagerError,
    >)
        ensures
            match answer {
                Ok(response) => classify(cache@, uri.path@, uri.text@) == Ok::<
                    ShuffleResponseView,
                    ErrorView,
                >(response@),
                Err(error) => classify(cache@, uri.path@, uri.text@) == Err::<
                    ShuffleResponseView,
                    ErrorView,
                >(error@),
            },
    {
        let path = chars_of(uri.path.as_str());
        let parts = split_chars(&path, '/');
        if parts.len() == 2 && parts[0].len() == 0 && same_chars(&parts[1], &chars_of("status")) {
            Ok(ShuffleResponse::Status(STATUS_OK))
        } else if parts.len() == 5 && parts[0].len() == 0 && same_chars(
            &parts[1],
            &chars_of("shuffle"),
        ) {
            match self.get_cached_data(cache, uri, &parts[2], &parts[3], &parts[4]) {
                Ok(data) => Ok(ShuffleResponse::CachedData(data)),
                Err(error) => Err(error),
            }
        } else {
            Err(ShuffleManagerError::FailedToParseUri(uri.text.clone()))
        }
    }

    /// Answers one request. Every failure becomes a response: this never
    /// fails.
    pub fn call(&self, cache: &ShuffleCache, uri: &RequestUri) -> (response: HttpResponse)
        ensures
            response@ == respond(cache@, uri.path@, uri.text@),
    {
        match self.response_type(cache, uri) {
            Ok(ShuffleResponse::Status(code)) => HttpResponse::empty(code),
            Ok(ShuffleResponse::CachedData(data)) => HttpResponse::new(STATUS_OK, data),
            Err(error) => error.into_response(),
        }
    }
}

} // verus!
