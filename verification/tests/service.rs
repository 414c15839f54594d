use shuffle_manager::cache::ShuffleCache;
use shuffle_manager::endpoint::get_dynamic_port;
use shuffle_manager::endpoint::server_uri;
use shuffle_manager::endpoint::BindEvent;
use shuffle_manager::endpoint::EndpointBinder;
use shuffle_manager::endpoint::HostAddress;
use shuffle_manager::error::ShuffleManagerError;
use shuffle_manager::response::HttpResponse;
use shuffle_manager::service::RequestUri;
use shuffle_manager::service::ShuffleResponse;
use shuffle_manager::service::ShuffleService;

fn local_ip() -> HostAddress {
    HostAddress::new([127, 0, 0, 1])
}

/// Brings the endpoint up on `port` and returns the URI of the server.
fn start_server(port: u16) -> Result<String, ShuffleManagerError> {
    let binder = EndpointBinder::start(Some(port));
    assert_eq!(binder.pending_port(), Some(port));
    let binder = binder.advance(BindEvent::Started);
    let bound = binder.outcome().expect("binding is over")?;
    Ok(server_uri(&local_ip(), bound))
}

/// Sends a request for `url` to the server at `server`.
fn get(server: &str, cache: &ShuffleCache, url: &str) -> HttpResponse {
    let target = url.strip_prefix(server).expect("the URL lies on the server");
    let uri = RequestUri::new(target.to_string(), target.to_string());
    ShuffleService.call(cache, &uri)
}

fn request(cache: &ShuffleCache, path: &str) -> HttpResponse {
    ShuffleService.call(cache, &RequestUri::new(path.to_string(), path.to_string()))
}

#[test]
fn start_ok() {
    let port = get_dynamic_port();
    let server = start_server(port).unwrap();
    let url = format!("http://{}:{}/status", "127.0.0.1", port);
    let res = get(&server, &ShuffleCache::new(), &url);
    assert_eq!(res.status, 200);
}

#[test]
fn start_failure() {
    let port = get_dynamic_port();
    // the port is taken, so the attempt to start on it fails
    let binder = EndpointBinder::start(Some(port)).advance(BindEvent::Failed);
    assert_eq!(
        binder.outcome().unwrap().unwrap_err(),
        ShuffleManagerError::FailedToStart
    );
}

#[test]
fn cached_data_found() {
    let port = get_dynamic_port();
    let server = start_server(port).unwrap();
    let data = b"some random bytes".iter().copied().collect::<Vec<u8>>();
    let mut cache = ShuffleCache::new();
    cache.insert((2, 1, 0), data.clone());
    let url = format!("http://{}:{}/shuffle/2/1/0", "127.0.0.1", port);
    let res = get(&server, &cache, &url);
    assert_eq!(res.status, 200);
    assert_eq!(res.body, data);
}

#[test]
fn cached_data_not_found() {
    let port = get_dynamic_port();
    let server = start_server(port).unwrap();
    let url = format!("http://{}:{}/shuffle/0/1/2", "127.0.0.1", port);
    let res = get(&server, &ShuffleCache::new(), &url);
    assert_eq!(res.status, 404);
}

#[test]
fn not_valid_endpoint() {
    let port = get_dynamic_port();
    let server = start_server(port).unwrap();
    let url = format!("http://{}:{}/not_valid", "127.0.0.1", port);
    let res = get(&server, &ShuffleCache::new(), &url);
    assert_eq!(res.status, 400);
    assert_eq!(
        String::from_utf8(res.body).unwrap(),
        format!("Failed to parse: /not_valid")
    );
}

#[test]
fn end_to_end_scenario() {
    let mut cache = ShuffleCache::new();
    cache.insert((2, 1, 0), b"some random bytes".to_vec());

    let found = request(&cache, "/shuffle/2/1/0");
    assert_eq!(found, HttpResponse::new(200, b"some random bytes".to_vec()));

    let absent = request(&cache, "/shuffle/0/1/2");
    assert_eq!(absent, HttpResponse::new(404, Vec::new()));

    let invalid = request(&cache, "/not_valid");
    assert_eq!(
        invalid,
        HttpResponse::new(400, b"Failed to parse: /not_valid".to_vec())
    );
}

#[test]
fn status_has_an_empty_body_whatever_is_cached() {
    let mut cache = ShuffleCache::new();
    assert_eq!(request(&cache, "/status"), HttpResponse::empty(200));
    cache.insert((0, 0, 0), vec![1, 2, 3]);
    assert_eq!(request(&cache, "/status"), HttpResponse::new(200, Vec::new()));
}

#[test]
fn cached_block_is_served_byte_for_byte() {
    let mut cache = ShuffleCache::new();
    let block: Vec<u8> = (0..=255).collect();
    cache.insert((18446744073709551615, 0, 7), block.clone());
    cache.insert((3, 4, 5), Vec::new());
    let res = request(&cache, "/shuffle/18446744073709551615/0/7");
    assert_eq!(res.status, 200);
    assert_eq!(res.body, block);
    assert_eq!(request(&cache, "/shuffle/3/4/5"), HttpResponse::new(200, Vec::new()));
}

#[test]
fn missing_block_is_not_found_with_an_empty_body() {
    let mut cache = ShuffleCache::new();
    cache.insert((2, 1, 0), vec![9]);
    for path in ["/shuffle/2/1/1", "/shuffle/2/0/0", "/shuffle/1/1/0", "/shuffle/0/1/2"] {
        assert_eq!(request(&cache, path), HttpResponse::new(404, Vec::new()));
    }
}

#[test]
fn identifiers_may_carry_a_plus_sign_and_leading_zeros() {
    let mut cache = ShuffleCache::new();
    cache.insert((2, 1, 0), vec![42]);
    assert_eq!(request(&cache, "/shuffle/+2/001/0").body, vec![42]);
    assert_eq!(request(&cache, "/shuffle/02/+1/+000").body, vec![42]);
}

#[test]
fn other_paths_are_rejected_with_their_uri() {
    let mut cache = ShuffleCache::new();
    cache.insert((2, 1, 0), vec![42]);
    let paths = [
        "",
        "/",
        "status",
        "/status/",
        "//status",
        "x/status",
        "/Status",
        "/statuses",
        "/shuffle",
        "/shuffle/",
        "/shuffle/2/1",
        "/shuffle/2/1/",
        "/shuffle/2/1/0/",
        "/shuffle/2/1/0/3",
        "shuffle/2/1/0",
        "x/shuffle/2/1/0",
        "/shuffles/2/1/0",
        "/shuffle/a/1/0",
        "/shuffle/2/-1/0",
        "/shuffle/2/1/0x0",
        "/shuffle/2/1/ 0",
        "/shuffle/2//0",
        "/shuffle/+/1/0",
        "/shuffle/++2/1/0",
        "/shuffle/2/1/18446744073709551616",
        "/shuffle/2/1/\u{0661}",
    ];
    for path in paths {
        let res = request(&cache, path);
        assert_eq!(res.status, 400, "{:?}", path);
        assert_eq!(res.body, format!("Failed to parse: {}", path).into_bytes());
    }
}

#[test]
fn rejection_names_the_uri_text_not_the_path() {
    let cache = ShuffleCache::new();
    let uri = RequestUri::new("/not_valid".to_string(), "/not_valid?verbose=1".to_string());
    let res = ShuffleService.call(&cache, &uri);
    assert_eq!(res.status, 400);
    assert_eq!(res.body, b"Failed to parse: /not_valid?verbose=1".to_vec());

    let uri = RequestUri::new("/shuffle/x/1/0".to_string(), "/shuffle/x/1/0?a=b".to_string());
    assert_eq!(
        ShuffleService.response_type(&cache, &uri),
        Err(ShuffleManagerError::FailedToParseUri("/shuffle/x/1/0?a=b".to_string()))
    );
}

#[test]
fn the_query_does_not_decide_what_is_served() {
    let mut cache = ShuffleCache::new();
    cache.insert((2, 1, 0), vec![1]);
    let uri = RequestUri::new("/shuffle/2/1/0".to_string(), "/shuffle/2/1/0?x=y".to_string());
    assert_eq!(ShuffleService.call(&cache, &uri), HttpResponse::new(200, vec![1]));
}

#[test]
fn response_type_tells_status_from_data() {
    let mut cache = ShuffleCache::new();
    cache.insert((2, 1, 0), vec![7, 8]);
    let service = ShuffleService;
    let status = RequestUri::new("/status".to_string(), "/status".to_string());
    assert_eq!(service.response_type(&cache, &status), Ok(ShuffleResponse::Status(200)));
    let block = RequestUri::new("/shuffle/2/1/0".to_string(), "/shuffle/2/1/0".to_string());
    assert_eq!(
        service.response_type(&cache, &block),
        Ok(ShuffleResponse::CachedData(vec![7, 8]))
    );
    let absent = RequestUri::new("/shuffle/2/1/9".to_string(), "/shuffle/2/1/9".to_string());
    assert_eq!(
        service.response_type(&cache, &absent),
        Err(ShuffleManagerError::RequestedCacheNotFound)
    );
}

#[test]
fn get_cached_data_reads_three_segments() {
    let mut cache = ShuffleCache::new();
    cache.insert((12, 0, 3), vec![5]);
    let service = ShuffleService;
    let uri = RequestUri::new("/shuffle/12/0/3".to_string(), "the text".to_string());
    let seg = |s: &str| s.chars().collect::<Vec<char>>();
    assert_eq!(
        service.get_cached_data(&cache, &uri, &seg("12"), &seg("0"), &seg("3")),
        Ok(vec![5])
    );
    assert_eq!(
        service.get_cached_data(&cache, &uri, &seg("12"), &seg("0"), &seg("4")),
        Err(ShuffleManagerError::RequestedCacheNotFound)
    );
    assert_eq!(
        service.get_cached_data(&cache, &uri, &seg("12"), &seg(""), &seg("3")),
        Err(ShuffleManagerError::FailedToParseUri("the text".to_string()))
    );
}

#[test]
fn parse_path_part_reads_unsigned_decimals() {
    assert_eq!(ShuffleService::parse_path_part("0"), Ok(0));
    assert_eq!(ShuffleService::parse_path_part("42"), Ok(42));
    assert_eq!(ShuffleService::parse_path_part("+42"), Ok(42));
    assert_eq!(ShuffleService::parse_path_part("00042"), Ok(42));
    assert_eq!(
        ShuffleService::parse_path_part("18446744073709551615"),
        Ok(18446744073709551615u64 as usize)
    );
}

#[test]
fn parse_path_part_fails_without_a_uri() {
    for part in ["", "+", "-1", "1.0", "1 ", " 1", "one", "1_000", "18446744073709551616", "+-1"] {
        assert_eq!(
            ShuffleService::parse_path_part(part),
            Err(ShuffleManagerError::FailedToParseUri(String::new())),
            "{:?}",
            part
        );
    }
}
