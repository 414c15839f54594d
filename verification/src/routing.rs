//! What holds of the service for every request: which paths reach which
//! endpoint, and what each of them is answered with.

use vstd::prelude::*;
use crate::cache::ShuffleCoordinate;
use crate::decimal::decimal_digits;
use crate::decimal::is_digit;
use crate::decimal::lemma_decimal_digits_value;
use crate::decimal::unsigned_digits;
use crate::error::parse_failure_body;
use crate::response::empty_response;
use crate::response::ResponseView;
use crate::response::STATUS_BAD_REQUEST;
use crate::response::STATUS_NOT_FOUND;
use crate::response::STATUS_OK;
use crate::service::coordinate_of;
use crate::service::path_part_value;
use crate::service::respond;
use crate::service::route;
use crate::service::Route;
use crate::text::join;
use crate::text::lemma_join_of_split;
use crate::text::lemma_split_of_join;
use crate::text::split;

verus! {

/// The path under which three segments are requested as a block.
pub open spec fn block_path_of(
    shuffle_id: Seq<char>,
    input_id: Seq<char>,
    reduce_id: Seq<char>,
) -> Seq<char> {
    "/shuffle/"@ + shuffle_id + "/"@ + input_id + "/"@ + reduce_id
}

/// The path under which the block at `key` is requested, each identifier in
/// decimal notation.
pub open spec fn block_path(key: ShuffleCoordinate) -> Seq<char> {
    block_path_of(
        decimal_digits(key.0 as nat),
        decimal_digits(key.1 as nat),
        decimal_digits(key.2 as nat),
    )
}

/// Whether `path` is `/shuffle/` followed by three identifiers with a
/// slash between them.
pub open spec fn is_block_path(path: Seq<char>) -> bool {
    exists|shuffle_id: Seq<char>, input_id: Seq<char>, reduce_id: Seq<char>|
        path == #[trigger] block_path_of(shuffle_id, input_id, reduce_id) && coordinate_of(
            shuffle_id,
            input_id,
            reduce_id,
        ) is Some
}

/// Five pieces joined by slashes, written out.
proof fn lemma_join_five(
    first: Seq<char>,
    second: Seq<char>,
    third: Seq<char>,
    fourth: Seq<char>,
    fifth: Seq<char>,
)
    ensures
        join(seq![first, second, third, fourth, fifth], '/') == first + seq!['/'] + second
            + seq!['/'] + third + seq!['/'] + fourth + seq!['/'] + fifth,
{
    let one = seq![first];
    let two = seq![first, second];
    let three = seq![first, second, third];
    let four = seq![first, second, third, fourth];
    let five = seq![first, second, third, fourth, fifth];
    assert(two.drop_last() =~= one);
    assert(three.drop_last() =~= two);
    assert(four.drop_last() =~= three);
    assert(five.drop_last() =~= four);
    assert(join(one, '/') == first);
    assert(join(two, '/') =~= first + seq!['/'] + second);
    assert(join(three, '/') =~= first + seq!['/'] + second + seq!['/'] + third);
    assert(join(four, '/') =~= first + seq!['/'] + second + seq!['/'] + third + seq!['/']
        + fourth);
}

/// A segment that denotes an identifier holds no slash.
proof fn lemma_identifier_has_no_slash(part: Seq<char>)
    requires
        path_part_value(part) is Some,
    ensures
        forall|j: int| 0 <= j < part.len() ==> part[j] != '/',
{
    let digits = unsigned_digits(part);
    assert forall|j: int| 0 <= j < part.len() implies part[j] != '/' by {
        if part[0] == '+' && j > 0 {
            assert(is_digit(digits[j - 1]));
        }
    }
}

/// A block path splits into an empty piece, the word `shuffle` and its
/// three segments.
proof fn lemma_block_path_splits(
    shuffle_id: Seq<char>,
    input_id: Seq<char>,
    reduce_id: Seq<char>,
)
    requires
        coordinate_of(shuffle_id, input_id, reduce_id) is Some,
    ensures
        split(block_path_of(shuffle_id, input_id, reduce_id), '/') == seq![
            Seq::<char>::empty(),
            "shuffle"@,
            shuffle_id,
            input_id,
            reduce_id,
        ],
{
    reveal_strlit("/shuffle/");
    reveal_strlit("shuffle");
    reveal_strlit("/");
    let nothing = Seq::<char>::empty();
    let parts = seq![nothing, "shuffle"@, shuffle_id, input_id, reduce_id];
    lemma_join_five(nothing, "shuffle"@, shuffle_id, input_id, reduce_id);
    assert("/shuffle/"@ =~= nothing + seq!['/'] + "shuffle"@ + seq!['/']);
    assert("/"@ =~= seq!['/']);
    lemma_identifier_has_no_slash(shuffle_id);
    lemma_identifier_has_no_slash(input_id);
    lemma_identifier_has_no_slash(reduce_id);
    lemma_split_of_join(parts, '/');
}

/// The liveness probe is reached by the path `/status` and by no other.
pub proof fn lemma_status_route(path: Seq<char>)
    ensures
        route(path) == Route::Status <==> path == "/status"@,
{
    reveal_strlit("/status");
    reveal_strlit("status");
    reveal_strlit("shuffle");
    let nothing = Seq::<char>::empty();
    let parts = seq![nothing, "status"@];
    assert(parts.drop_last() =~= seq![nothing]);
    assert(join(seq![nothing], '/') == nothing);
    assert(join(parts, '/') =~= "/status"@);
    if path == "/status"@ {
        lemma_split_of_join(parts, '/');
    }
    if route(path) == Route::Status {
        let pieces = split(path, '/');
        lemma_join_of_split(path, '/');
        assert(pieces[0] =~= nothing);
        assert(pieces =~= parts);
    }
}

/// Three segments that denote a coordinate, written as a block path, reach
/// the block at that coordinate.
pub proof fn lemma_block_route(shuffle_id: Seq<char>, input_id: Seq<char>, reduce_id: Seq<char>)
    requires
        coordinate_of(shuffle_id, input_id, reduce_id) is Some,
    ensures
        route(block_path_of(shuffle_id, input_id, reduce_id)) == Route::Block(
            coordinate_of(shuffle_id, input_id, reduce_id)->0,
        ),
{
    reveal_strlit("status");
    reveal_strlit("shuffle");
    lemma_block_path_splits(shuffle_id, input_id, reduce_id);
}

/// A block is reached by block paths only.
pub proof fn lemma_block_route_is_block_path(path: Seq<char>)
    ensures
        route(path) is Block <==> is_block_path(path),
{
    reveal_strlit("/shuffle/");
    reveal_strlit("shuffle");
    reveal_strlit("/");
    if route(path) is Block {
        let parts = split(path, '/');
        lemma_join_of_split(path, '/');
        lemma_join_five(parts[0], parts[1], parts[2], parts[3], parts[4]);
        assert(parts =~= seq![parts[0], parts[1], parts[2], parts[3], parts[4]]);
        assert(path =~= block_path_of(parts[2], parts[3], parts[4]));
    }
    if is_block_path(path) {
        let (shuffle_id, input_id, reduce_id) = choose|
            shuffle_id: Seq<char>,
            input_id: Seq<char>,
            reduce_id: Seq<char>,
        |
            path == #[trigger] block_path_of(shuffle_id, input_id, reduce_id) && coordinate_of(
                shuffle_id,
                input_id,
                reduce_id,
            ) is Some;
        lemma_block_route(shuffle_id, input_id, reduce_id);
    }
}

/// The decimal notation of an identifier denotes that identifier.
pub proof fn lemma_identifier_round_trip(id: usize)
    ensures
        path_part_value(decimal_digits(id as nat)) == Some(id),
{
    lemma_decimal_digits_value(id as nat);
}

/// The path written for a coordinate reaches the block at that coordinate.
pub proof fn lemma_block_path_route(key: ShuffleCoordinate)
    ensures
        route(block_path(key)) == Route::Block(key),
{
    lemma_identifier_round_trip(key.0);
    lemma_identifier_round_trip(key.1);
    lemma_identifier_round_trip(key.2);
    lemma_block_route(
        decimal_digits(key.0 as nat),
        decimal_digits(key.1 as nat),
        decimal_digits(key.2 as nat),
    );
}

/// A block that is cached is served whole: a request for the path of its
/// coordinate is answered with status 200 and exactly its bytes.
pub proof fn lemma_cached_block_is_served(
    cache: Map<ShuffleCoordinate, Seq<u8>>,
    key: ShuffleCoordinate,
    text: Seq<char>,
)
    requires
        cache.contains_key(key),
    ensures
        respond(cache, block_path(key), text) == (ResponseView {
            status: STATUS_OK,
            body: cache[key],
        }),
{
    lemma_block_path_route(key);
}

/// A block that was put into the cache is served whole: whatever the cache
/// held before, a request for the path of the block's coordinate is
/// answered with status 200 and exactly the bytes that were put in.
pub proof fn lemma_inserted_block_is_served(
    cache: Map<ShuffleCoordinate, Seq<u8>>,
    key: ShuffleCoordinate,
    data: Seq<u8>,
    text: Seq<char>,
)
    ensures
        respond(cache.insert(key, data), block_path(key), text) == (ResponseView {
            status: STATUS_OK,
            body: data,
        }),
{
    lemma_cached_block_is_served(cache.insert(key, data), key, text);
}

/// A block that is not cached is not found: a request for the path of its
/// coordinate is answered with status 404 and an empty body.
pub proof fn lemma_missing_block_is_not_found(
    cache: Map<ShuffleCoordinate, Seq<u8>>,
    key: ShuffleCoordinate,
    text: Seq<char>,
)
    requires
        !cache.contains_key(key),
    ensures
        respond(cache, block_path(key), text) == empty_response(STATUS_NOT_FOUND),
{
    lemma_block_path_route(key);
}

/// The liveness probe is answered with status 200 and an empty body,
/// whatever the cache holds.
pub proof fn lemma_status_is_ok(cache: Map<ShuffleCoordinate, Seq<u8>>, text: Seq<char>)
    ensures
        respond(cache, "/status"@, text) == empty_response(STATUS_OK),
{
    lemma_status_route("/status"@);
}

/// A path that is neither `/status` nor a block path is rejected: the
/// request is answered with status 400 and a body that names its URI.
pub proof fn lemma_unknown_path_is_rejected(
    cache: Map<ShuffleCoordinate, Seq<u8>>,
    path: Seq<char>,
    text: Seq<char>,
)
    requires
        path != "/status"@,
        !is_block_path(path),
    ensures
        respond(cache, path, text) == (ResponseView {
            status: STATUS_BAD_REQUEST,
            body: parse_failure_body(text),
        }),
{
    lemma_status_route(path);
    lemma_block_route_is_block_path(path);
}

} // verus!
