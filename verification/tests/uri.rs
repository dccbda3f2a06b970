use ha_node_agent::error::SvcError;
use ha_node_agent::uri::{parse_uri, ParsedUri, UriParts};

fn parts(host: Option<&str>, port: Option<u16>, path: &str) -> UriParts {
    UriParts { host: host.map(str::to_owned), port, path: path.to_owned() }
}

#[test]
fn parse_uri_reads_host_port_and_target() {
    let parsed = parse_uri("nvmf://10.0.0.5:8420/nqn.2023-01.io.example:vol-1").unwrap();
    assert_eq!(parsed.host(), "10.0.0.5");
    assert_eq!(parsed.port(), 8420);
    assert_eq!(parsed.nqn(), "nqn.2023-01.io.example:vol-1");
}

#[test]
fn parse_uri_reads_a_host_name() {
    let parsed = parse_uri("tcp://storage-node-1:4420/nqn.2019-05.io.openebs:abc").unwrap();
    assert_eq!(parsed.host(), "storage-node-1");
    assert_eq!(parsed.port(), 4420);
    assert_eq!(parsed.nqn(), "nqn.2019-05.io.openebs:abc");
}

#[test]
fn parse_uri_leaves_the_query_out_of_the_target() {
    let parsed = parse_uri("nvmf://10.0.0.5:8420/nqn.a:b?hostnqn=x").unwrap();
    assert_eq!(parsed.nqn(), "nqn.a:b");
}

#[test]
fn parse_uri_strips_one_separator_only() {
    let parsed = parse_uri("nvmf://10.0.0.5:8420//nqn.a").unwrap();
    assert_eq!(parsed.nqn(), "/nqn.a");
}

#[test]
fn parse_uri_rejects_a_missing_port() {
    assert_eq!(parse_uri("nvmf://10.0.0.5/nqn.2023-01.io.example:vol-1"), Err(SvcError::InvalidArguments {}));
}

#[test]
fn parse_uri_rejects_a_missing_host() {
    assert_eq!(parse_uri("/nqn.2023-01.io.example:vol-1"), Err(SvcError::InvalidArguments {}));
}

#[test]
fn parse_uri_rejects_what_is_no_uri() {
    assert_eq!(parse_uri(""), Err(SvcError::InvalidArguments {}));
    assert_eq!(parse_uri("nvmf://10.0.0.5:8420/nqn with spaces"), Err(SvcError::InvalidArguments {}));
    assert_eq!(parse_uri("nvmf://10.0.0.5:port/nqn.a"), Err(SvcError::InvalidArguments {}));
}

#[test]
fn parse_uri_rejects_a_missing_target() {
    assert_eq!(parse_uri("nvmf://10.0.0.5:8420"), Err(SvcError::InvalidArguments {}));
    assert_eq!(parse_uri("nvmf://10.0.0.5:8420/"), Err(SvcError::InvalidArguments {}));
}

#[test]
fn parse_uri_rejects_an_authority_without_scheme_and_path() {
    assert_eq!(parse_uri("10.0.0.5:8420"), Err(SvcError::InvalidArguments {}));
}

#[test]
fn parsed_uri_takes_the_parts_as_they_are() {
    let parsed = ParsedUri::new(parts(Some("host"), Some(1), "/target")).unwrap();
    assert_eq!(parsed.host(), "host");
    assert_eq!(parsed.port(), 1);
    assert_eq!(parsed.nqn(), "target");
}

#[test]
fn parsed_uri_keeps_a_path_without_separator() {
    let parsed = ParsedUri::new(parts(Some("host"), Some(65535), "target")).unwrap();
    assert_eq!(parsed.port(), 65535);
    assert_eq!(parsed.nqn(), "target");
}

#[test]
fn parsed_uri_counts_characters_not_bytes() {
    let parsed = ParsedUri::new(parts(Some("host"), Some(1), "/zi\u{e9}l")).unwrap();
    assert_eq!(parsed.nqn(), "zi\u{e9}l");
    let parsed = ParsedUri::new(parts(Some("host"), Some(1), "\u{e9}")).unwrap();
    assert_eq!(parsed.nqn(), "\u{e9}");
}

#[test]
fn parsed_uri_rejects_missing_parts() {
    assert_eq!(ParsedUri::new(parts(None, Some(1), "/t")), Err(SvcError::InvalidArguments {}));
    assert_eq!(ParsedUri::new(parts(Some("h"), None, "/t")), Err(SvcError::InvalidArguments {}));
    assert_eq!(ParsedUri::new(parts(Some("h"), Some(1), "/")), Err(SvcError::InvalidArguments {}));
    assert_eq!(ParsedUri::new(parts(Some("h"), Some(1), "")), Err(SvcError::InvalidArguments {}));
}

#[test]
fn parsed_uri_accepts_an_empty_host() {
    let parsed = ParsedUri::new(parts(Some(""), Some(1), "/t")).unwrap();
    assert_eq!(parsed.host(), "");
}

#[test]
fn parsed_uri_clone_is_equal() {
    let parsed = parse_uri("nvmf://10.0.0.5:8420/nqn.a").unwrap();
    assert_eq!(parsed.clone(), parsed);
}
