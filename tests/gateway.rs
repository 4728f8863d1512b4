use snarkos_node_rest::error::{error_response, ApiError};
use snarkos_node_rest::handlers::{
    admit_broadcast, check_upstream, needs_consensus, peers_count, records_filter, respond,
    runs_on_blocking_pool, target_of, RecordsFilter, Reply, Target,
};
use snarkos_node_rest::ident::{is_block_hash, parse_block_id, parse_height, BlockId};
use snarkos_node_rest::lifecycle::{step, LifecycleAction, LifecycleEvent, ServerState};
use snarkos_node_rest::pipeline::{
    check_body_size, cors_policy, middleware_stack, Header, Layer, MAX_BODY_BYTES,
};
use snarkos_node_rest::query::{parse_block_range, BlockRange};
use snarkos_node_rest::registry::TaskRegistry;
use snarkos_node_rest::routes::{
    check_routes, route, route_table, routes_compatible, Endpoint, HttpMethod, Param, Route,
    Segment, Word, ROUTE_COUNT,
};

fn pattern(r: &Route) -> String {
    let mut s = String::new();
    for seg in &r.path {
        s.push('/');
        match seg {
            Segment::Lit(w) => s.push_str(w.text()),
            Segment::Dyn(p) => {
                s.push(':');
                s.push_str(p.name());
            }
        }
    }
    s
}

const HASH: &str = "ab1qqqqqqqqqqqqqqqqqqqqqqqqqqqqqqqqqqqqqqqqqqqqqqqqqqqqqqqqqq";

#[test]
fn route_table_is_conflict_free() {
    let t = route_table();
    assert_eq!(t.len(), ROUTE_COUNT);
    assert_eq!(t.len(), 28);
    assert!(check_routes(&t));
}

#[test]
fn route_table_patterns() {
    let t = route_table();
    assert_eq!(pattern(&t[0]), "/testnet3/latest/height");
    assert_eq!(pattern(&route(Endpoint::Block)), "/testnet3/block/:height_or_hash");
    assert_eq!(
        pattern(&route(Endpoint::BlockTransactions)),
        "/testnet3/block/:height_or_hash/transactions"
    );
    assert_eq!(
        pattern(&route(Endpoint::MappingValue)),
        "/testnet3/program/:id/mapping/:name/:key"
    );
    let b = route(Endpoint::TransactionBroadcast);
    assert_eq!(b.method, HttpMethod::Post);
    assert_eq!(pattern(&b), "/testnet3/transaction/broadcast");
    for r in &t {
        assert!(matches!(r.path[0], Segment::Lit(Word::Testnet3)));
        if r.endpoint != Endpoint::TransactionBroadcast {
            assert_eq!(r.method, HttpMethod::Get);
        }
    }
}

#[test]
fn conflicting_param_names_are_detected() {
    let a = Route {
        method: HttpMethod::Get,
        path: vec![Segment::Lit(Word::Block), Segment::Dyn(Param::HeightOrHash)],
        endpoint: Endpoint::Block,
    };
    let b = Route {
        method: HttpMethod::Get,
        path: vec![
            Segment::Lit(Word::Block),
            Segment::Dyn(Param::Id),
            Segment::Lit(Word::Transactions),
        ],
        endpoint: Endpoint::BlockTransactions,
    };
    assert!(!routes_compatible(&a, &b));
    assert!(!check_routes(&vec![a, b]));
}

#[test]
fn duplicate_pattern_same_method_is_detected() {
    let a = route(Endpoint::PeersCount);
    let mut b = route(Endpoint::PeersCount);
    b.endpoint = Endpoint::PeersAll;
    assert!(!routes_compatible(&a, &b));
    b.method = HttpMethod::Post;
    assert!(routes_compatible(&a, &b));
}

#[test]
fn static_and_dynamic_siblings_are_compatible() {
    assert!(routes_compatible(
        &route(Endpoint::Transaction),
        &route(Endpoint::TransactionBroadcast)
    ));
}

#[test]
fn heights_parse() {
    assert_eq!(parse_height("0"), Some(0));
    assert_eq!(parse_height("42"), Some(42));
    assert_eq!(parse_height("+7"), Some(7));
    assert_eq!(parse_height("007"), Some(7));
    assert_eq!(parse_height("4294967295"), Some(u32::MAX));
    assert_eq!(parse_height("4294967296"), None);
    assert_eq!(parse_height("99999999999999999999"), None);
    assert_eq!(parse_height(""), None);
    assert_eq!(parse_height("+"), None);
    assert_eq!(parse_height("-1"), None);
    assert_eq!(parse_height("12a"), None);
    for s in ["0", "1", "+3", "4294967295", "4294967296", "", "x", " 1"] {
        assert_eq!(parse_height(s), s.parse::<u32>().ok());
    }
}

#[test]
fn block_id_height_or_hash() {
    assert_eq!(parse_block_id("5"), Ok(BlockId::Height(5)));
    assert_eq!(HASH.len(), 61);
    assert!(is_block_hash(HASH));
    assert_eq!(parse_block_id(HASH), Ok(BlockId::Hash(HASH.to_string())));
    assert_eq!(parse_block_id("ab1short"), Err(ApiError::ClientInput));
    let bad = HASH.replace("qqq", "bqq");
    assert!(!is_block_hash(&bad));
    assert_eq!(parse_block_id(&bad), Err(ApiError::ClientInput));
    assert_eq!(parse_block_id("4294967296"), Err(ApiError::ClientInput));
}

#[test]
fn same_height_by_decimal_form() {
    for h in [0u32, 9, 10, 12345, u32::MAX] {
        assert_eq!(parse_block_id(&h.to_string()), Ok(BlockId::Height(h)));
    }
}

#[test]
fn block_ranges() {
    assert_eq!(parse_block_range("0", "50"), Ok(BlockRange { start: 0, end: 50 }));
    assert_eq!(parse_block_range("7", "7"), Ok(BlockRange { start: 7, end: 7 }));
    assert_eq!(parse_block_range("0", "51"), Err(ApiError::ClientInput));
    assert_eq!(parse_block_range("5", "3"), Err(ApiError::ClientInput));
    assert_eq!(parse_block_range("x", "3"), Err(ApiError::ClientInput));
    assert_eq!(BlockRange { start: 3, end: 6 }.heights(), vec![3, 4, 5]);
    assert!(BlockRange { start: 4, end: 4 }.heights().is_empty());
}

#[test]
fn status_codes() {
    assert_eq!(ApiError::ClientInput.status_code(), 400);
    assert_eq!(ApiError::NotFound.status_code(), 404);
    assert_eq!(ApiError::PayloadTooLarge.status_code(), 413);
    assert_eq!(ApiError::UpstreamUnavailable.status_code(), 500);
    let r = error_response(ApiError::NotFound, String::from("missing"));
    assert_eq!(r.status, 404);
    assert_eq!(r.message, "missing");
}

#[test]
fn body_cap() {
    assert_eq!(MAX_BODY_BYTES, 10 * 1024 * 1024);
    assert_eq!(check_body_size(0), Ok(()));
    assert_eq!(check_body_size(MAX_BODY_BYTES), Ok(()));
    assert_eq!(check_body_size(MAX_BODY_BYTES + 1), Err(ApiError::PayloadTooLarge));
}

#[test]
fn oversized_submission_is_413() {
    for parsed in [false, true] {
        for consensus in [false, true] {
            let r = admit_broadcast(MAX_BODY_BYTES + 1, parsed, consensus);
            assert_eq!(r, Err(ApiError::PayloadTooLarge));
            assert_eq!(r.unwrap_err().status_code(), 413);
        }
    }
    assert_eq!(admit_broadcast(10, false, true), Err(ApiError::ClientInput));
    assert_eq!(admit_broadcast(10, true, false), Err(ApiError::UpstreamUnavailable));
    assert_eq!(admit_broadcast(10, true, true), Ok(()));
}

#[test]
fn cors_allows_get_post_options() {
    let p = cors_policy();
    assert!(p.any_origin);
    assert_eq!(p.methods, vec![HttpMethod::Get, HttpMethod::Post, HttpMethod::Options]);
    assert_eq!(p.headers, vec![Header::ContentType]);
    assert!(p.allows_method(HttpMethod::Options));
    assert!(p.allows_method(HttpMethod::Get));
    assert!(p.allows_method(HttpMethod::Post));
}

#[test]
fn pipeline_order() {
    let s = middleware_stack();
    let layers: Vec<Layer> = s.iter().map(|l| l.layer).collect();
    assert_eq!(
        layers,
        vec![Layer::Trace, Layer::AccessLog, Layer::Cors, Layer::BodyLimit, Layer::Auth]
    );
    assert!(s[..4].iter().all(|l| l.active));
    assert!(!s[4].active);
}

#[test]
fn registry_appends_and_drains() {
    let mut r: TaskRegistry<u32> = TaskRegistry::new();
    assert!(r.is_empty());
    r.register(1);
    r.register(2);
    r.register(3);
    assert_eq!(r.len(), 3);
    assert_eq!(r.handles(), &vec![1, 2, 3]);
    assert_eq!(r.drain(), vec![1, 2, 3]);
    assert!(r.is_empty());
    assert!(r.drain().is_empty());
}

#[test]
fn lifecycle_steps() {
    assert_eq!(
        step(ServerState::Unbound, LifecycleEvent::BindSucceeded),
        (ServerState::Listening, LifecycleAction::SpawnServer)
    );
    assert_eq!(
        step(ServerState::Unbound, LifecycleEvent::BindFailed),
        (ServerState::Stopped, LifecycleAction::ReportBindFailure)
    );
    assert_eq!(
        step(ServerState::Listening, LifecycleEvent::TaskSpawned),
        (ServerState::Running, LifecycleAction::Idle)
    );
    assert_eq!(
        step(ServerState::Running, LifecycleEvent::Cancelled),
        (ServerState::Stopped, LifecycleAction::Idle)
    );
    assert_eq!(
        step(ServerState::Stopped, LifecycleEvent::BindSucceeded),
        (ServerState::Stopped, LifecycleAction::Idle)
    );
    assert_eq!(
        step(ServerState::Unbound, LifecycleEvent::TaskSpawned),
        (ServerState::Unbound, LifecycleAction::Idle)
    );
}

#[test]
fn unknown_transaction_is_404() {
    let r: Result<u8, ApiError> = respond(Reply::Absent);
    assert_eq!(r, Err(ApiError::NotFound));
    assert_eq!(r.unwrap_err().status_code(), 404);
    assert_eq!(respond(Reply::Found(9u8)), Ok(9));
    assert_eq!(respond::<u8>(Reply::Failed), Err(ApiError::UpstreamUnavailable));
    assert_eq!(respond::<u8>(Reply::Malformed), Err(ApiError::ClientInput));
}

#[test]
fn mappings_of_missing_program_is_404_with_body() {
    let r: Result<Vec<String>, ApiError> = respond(Reply::Absent);
    let e = r.unwrap_err();
    let body = error_response(e, String::from(e.message()));
    assert_eq!(body.status, 404);
    assert!(!body.message.is_empty());
}

#[test]
fn peers_count_examples() {
    let none: Vec<u16> = vec![];
    assert_eq!(peers_count(&none), 0);
    assert_eq!(peers_count(&vec![4130u16, 4131, 4132]), 3);
}

#[test]
fn consensus_only_endpoints() {
    assert!(needs_consensus(Endpoint::TransactionBroadcast));
    assert!(needs_consensus(Endpoint::MemoryPoolTransactions));
    assert!(!needs_consensus(Endpoint::LatestHeight));
    assert_eq!(
        check_upstream(Endpoint::MemoryPoolTransactions, false),
        Err(ApiError::UpstreamUnavailable)
    );
    assert_eq!(check_upstream(Endpoint::MemoryPoolTransactions, true), Ok(()));
    assert_eq!(check_upstream(Endpoint::LatestHeight, false), Ok(()));
}

#[test]
fn record_scans_run_off_the_accept_tasks() {
    assert!(runs_on_blocking_pool(Endpoint::RecordsAll));
    assert!(runs_on_blocking_pool(Endpoint::RecordsUnspent));
    assert!(!runs_on_blocking_pool(Endpoint::LatestHeight));
    assert_eq!(records_filter(Endpoint::RecordsSpent), Some(RecordsFilter::Spent));
    assert_eq!(records_filter(Endpoint::RecordsAll), Some(RecordsFilter::All));
    assert_eq!(records_filter(Endpoint::Beacons), None);
}

#[test]
fn patterns_are_distinct() {
    let t = route_table();
    let patterns: Vec<String> = t.iter().map(pattern).collect();
    for i in 0..patterns.len() {
        for j in 0..patterns.len() {
            if i != j {
                assert_ne!(patterns[i], patterns[j]);
            }
        }
    }
}

#[test]
fn error_messages_are_short_and_present() {
    for e in [
        ApiError::ClientInput,
        ApiError::NotFound,
        ApiError::PayloadTooLarge,
        ApiError::UpstreamUnavailable,
    ] {
        assert!(!e.message().is_empty());
    }
    assert_eq!(ApiError::NotFound.message(), "not found");
}

#[test]
fn request_targets() {
    assert!(matches!(
        target_of(Endpoint::Block, "12", "", ""),
        Ok(Target::Block(BlockId::Height(12)))
    ));
    match target_of(Endpoint::Block, HASH, "", "") {
        Ok(Target::Block(BlockId::Hash(h))) => assert_eq!(h, HASH),
        _ => panic!("a hash-shaped segment names a block by hash"),
    }
    assert!(matches!(target_of(Endpoint::Block, "nope", "", ""), Err(ApiError::ClientInput)));
    assert!(matches!(
        target_of(Endpoint::BlockTransactions, "3", "", ""),
        Ok(Target::Block(BlockId::Height(3)))
    ));
    assert!(matches!(
        target_of(Endpoint::BlockTransactions, HASH, "", ""),
        Err(ApiError::ClientInput)
    ));
    match target_of(Endpoint::Blocks, "", "10", "13") {
        Ok(Target::Heights(v)) => assert_eq!(v, vec![10, 11, 12]),
        _ => panic!("a valid range yields its heights"),
    }
    assert!(matches!(target_of(Endpoint::Blocks, "", "13", "10"), Err(ApiError::ClientInput)));
    assert!(matches!(target_of(Endpoint::Blocks, "", "", "10"), Err(ApiError::ClientInput)));
    assert!(matches!(target_of(Endpoint::LatestHeight, "x", "y", "z"), Ok(Target::Raw)));
}
