//! The route table: which (method, path pattern) pairs the gateway serves,
//! and the rule that keeps the table free of routing conflicts.
use vstd::prelude::*;

verus! {

/// The HTTP methods the gateway deals in.
#[derive(Clone, Copy, Debug, PartialEq, Eq, Structural)]
pub enum HttpMethod {
    Get,
    Post,
    Options,
}

/// A fixed word of a path.
#[derive(Clone, Copy, Debug, PartialEq, Eq, Structural)]
pub enum Word {
    Testnet3,
    Latest,
    Height,
    Hash,
    Block,
    StateRoot,
    Transactions,
    Transaction,
    Broadcast,
    Find,
    BlockHash,
    TransactionID,
    Deployment,
    TransitionID,
    Peers,
    Count,
    All,
    Metrics,
    Program,
    Mappings,
    Mapping,
    Blocks,
    MemoryPool,
    StatePath,
    Beacons,
    Node,
    Address,
    Env,
    Records,
    Spent,
    Unspent,
}

/// A named dynamic segment of a path.
#[derive(Clone, Copy, Debug, PartialEq, Eq, Structural)]
pub enum Param {
    HeightOrHash,
    Id,
    TxId,
    ProgramId,
    TransitionId,
    InputOrOutputId,
    Name,
    Key,
    Hash,
    Commitment,
    ViewKey,
}

/// One segment of a path pattern.
#[derive(Clone, Copy, Debug, PartialEq, Eq, Structural)]
pub enum Segment {
    Lit(Word),
    Dyn(Param),
}

/// How each word is written.
pub open spec fn word_text(x: Word) -> Seq<char> {
    match x {
        Word::Testnet3 => "testnet3"@,
        Word::Latest => "latest"@,
        Word::Height => "height"@,
        Word::Hash => "hash"@,
        Word::Block => "block"@,
        Word::StateRoot => "stateRoot"@,
        Word::Transactions => "transactions"@,
        Word::Transaction => "transaction"@,
        Word::Broadcast => "broadcast"@,
        Word::Find => "find"@,
        Word::BlockHash => "blockHash"@,
        Word::TransactionID => "transactionID"@,
        Word::Deployment => "deployment"@,
        Word::TransitionID => "transitionID"@,
        Word::Peers => "peers"@,
        Word::Count => "count"@,
        Word::All => "all"@,
        Word::Metrics => "metrics"@,
        Word::Program => "program"@,
        Word::Mappings => "mappings"@,
        Word::Mapping => "mapping"@,
        Word::Blocks => "blocks"@,
        Word::MemoryPool => "memoryPool"@,
        Word::StatePath => "statePath"@,
        Word::Beacons => "beacons"@,
        Word::Node => "node"@,
        Word::Address => "address"@,
        Word::Env => "env"@,
        Word::Records => "records"@,
        Word::Spent => "spent"@,
        Word::Unspent => "unspent"@,
    }
}

impl Word {
    /// The word as it is written in a path.
    pub fn text(&self) -> (r: &'static str)
        ensures
            r@ == word_text(*self),
    {
        match self {
            Word::Testnet3 => "testnet3",
            Word::Latest => "latest",
            Word::Height => "height",
            Word::Hash => "hash",
            Word::Block => "block",
            Word::StateRoot => "stateRoot",
            Word::Transactions => "transactions",
            Word::Transaction => "transaction",
            Word::Broadcast => "broadcast",
            Word::Find => "find",
            Word::BlockHash => "blockHash",
            Word::TransactionID => "transactionID",
            Word::Deployment => "deployment",
            Word::TransitionID => "transitionID",
            Word::Peers => "peers",
            Word::Count => "count",
            Word::All => "all",
            Word::Metrics => "metrics",
            Word::Program => "program",
            Word::Mappings => "mappings",
            Word::Mapping => "mapping",
            Word::Blocks => "blocks",
            Word::MemoryPool => "memoryPool",
            Word::StatePath => "statePath",
            Word::Beacons => "beacons",
            Word::Node => "node",
            Word::Address => "address",
            Word::Env => "env",
            Word::Records => "records",
            Word::Spent => "spent",
            Word::Unspent => "unspent",
        }
    }
}

/// The name of each dynamic segment.
pub open spec fn param_name(x: Param) -> Seq<char> {
    match x {
        Param::HeightOrHash => "height_or_hash"@,
        Param::Id => "id"@,
        Param::TxId => "tx_id"@,
        Param::ProgramId => "program_id"@,
        Param::TransitionId => "transition_id"@,
        Param::InputOrOutputId => "input_or_output_id"@,
        Param::Name => "name"@,
        Param::Key => "key"@,
        Param::Hash => "hash"@,
        Param::Commitment => "commitment"@,
        Param::ViewKey => "view_key"@,
    }
}

impl Param {
    /// The parameter's name, under which its value is handed to the handler.
    pub fn name(&self) -> (r: &'static str)
        ensures
            r@ == param_name(*self),
    {
        match self {
            Param::HeightOrHash => "height_or_hash",
            Param::Id => "id",
            Param::TxId => "tx_id",
            Param::ProgramId => "program_id",
            Param::TransitionId => "transition_id",
            Param::InputOrOutputId => "input_or_output_id",
            Param::Name => "name",
            Param::Key => "key",
            Param::Hash => "hash",
            Param::Commitment => "commitment",
            Param::ViewKey => "view_key",
        }
    }
}

/// Two segments occupy the same place in the routing tree: the same word,
/// or a dynamic segment on both sides.
pub open spec fn same_shape(a: Segment, b: Segment) -> bool {
    match (a, b) {
        (Segment::Lit(x), Segment::Lit(y)) => x == y,
        (Segment::Dyn(_), Segment::Dyn(_)) => true,
        _ => false,
    }
}

/// The first `k` segments of `p` and `q` have the same shape.
pub open spec fn shared_prefix(p: Seq<Segment>, q: Seq<Segment>, k: int) -> bool {
    &&& 0 <= k <= p.len()
    &&& k <= q.len()
    &&& forall|m: int| 0 <= m < k ==> #[trigger] same_shape(p[m], q[m])
}

/// `p` and `q` match exactly the same concrete paths.
pub open spec fn same_pattern(p: Seq<Segment>, q: Seq<Segment>) -> bool {
    p.len() == q.len() && shared_prefix(p, q, p.len() as int)
}

pub open spec fn is_dyn(s: Segment) -> bool {
    s is Dyn
}

/// The model of a route.
pub struct RouteSpec {
    pub method: HttpMethod,
    pub path: Seq<Segment>,
    pub endpoint: Endpoint,
}

/// Two routes can stand in one table: they are not the same pattern under
/// the same method, and wherever both have a dynamic segment after a common
/// prefix, the two segments carry the same name.
pub open spec fn compatible(a: RouteSpec, b: RouteSpec) -> bool {
    &&& !(a.method == b.method && same_pattern(a.path, b.path))
    &&& forall|k: int|
        #![trigger a.path[k], b.path[k]]
        shared_prefix(a.path, b.path, k) && k < a.path.len() && k < b.path.len() && is_dyn(
            a.path[k],
        ) && is_dyn(b.path[k]) ==> a.path[k] == b.path[k]
}

/// A table without routing conflicts: every two of its routes are compatible.
pub open spec fn routes_wf(t: Seq<RouteSpec>) -> bool {
    forall|i: int, j: int|
        0 <= i < t.len() && 0 <= j < t.len() && i != j ==> #[trigger] compatible(t[i], t[j])
}

/// The handler that a route leads to.
#[derive(Clone, Copy, Debug, PartialEq, Eq, Structural)]
pub enum Endpoint {
    LatestHeight,
    LatestHash,
    LatestBlock,
    LatestStateRoot,
    Block,
    BlockTransactions,
    Transaction,
    TransactionBroadcast,
    FindBlockHash,
    FindTransactionIdFromProgramId,
    FindTransactionIdFromTransitionId,
    FindTransitionId,
    PeersCount,
    PeersAll,
    PeersAllMetrics,
    Program,
    MappingNames,
    MappingValue,
    Blocks,
    HeightByHash,
    MemoryPoolTransactions,
    StatePath,
    Beacons,
    NodeAddress,
    NodeEnv,
    RecordsAll,
    RecordsSpent,
    RecordsUnspent,
}

/// A route: a method and a path pattern, and the handler they lead to.
pub struct Route {
    pub method: HttpMethod,
    pub path: Vec<Segment>,
    pub endpoint: Endpoint,
}

impl View for Route {
    type V = RouteSpec;

    open spec fn view(&self) -> RouteSpec {
        RouteSpec { method: self.method, path: self.path@, endpoint: self.endpoint }
    }
}

pub open spec fn table_view(t: Seq<Route>) -> Seq<RouteSpec> {
    t.map_values(|r: Route| r@)
}

fn seg_same_shape(a: Segment, b: Segment) -> (r: bool)
    ensures
        r == same_shape(a, b),
{
    match (a, b) {
        (Segment::Lit(x), Segment::Lit(y)) => x == y,
        (Segment::Dyn(_), Segment::Dyn(_)) => true,
        _ => false,
    }
}

/// Decides whether two routes can stand in one table.
pub fn routes_compatible(a: &Route, b: &Route) -> (r: bool)
    ensures
        r == compatible(a@, b@),
{
    let p = &a.path;
    let q = &b.path;
    let mut k: usize = 0;
    while k < p.len() && k < q.len() && seg_same_shape(p[k], q[k])
        invariant
            p@ == a@.path,
            q@ == b@.path,
            shared_prefix(p@, q@, k as int),
            forall|m: int|
                0 <= m < k && is_dyn(p@[m]) && is_dyn(q@[m]) ==> p@[m] == q@[m],
        decreases p.len() - k,
    {
        if p[k] != q[k] && matches!(p[k], Segment::Dyn(_)) && matches!(q[k], Segment::Dyn(_)) {
            assert(a@.path == p@ && b@.path == q@);
            assert(a@.path[k as int] != b@.path[k as int]);
            return false;
        }
        k = k + 1;
    }
    // Past the common prefix no two dynamic segments line up.
    assert forall|j: int|
        #![trigger a@.path[j], b@.path[j]]
        shared_prefix(a@.path, b@.path, j) && j < a@.path.len() && j < b@.path.len() && is_dyn(
            a@.path[j],
        ) && is_dyn(b@.path[j]) implies a@.path[j] == b@.path[j] by {
        if j > k {
            assert(same_shape(p@[k as int], q@[k as int]));
        }
    }
    let same = k == p.len() && k == q.len();
    if same {
        assert(same_pattern(p@, q@));
    } else if k < p.len() && k < q.len() {
        assert(!same_shape(p@[k as int], q@[k as int]));
    }
    !(a.method == b.method && same)
}

/// Decides whether a table is free of routing conflicts.
pub fn check_routes(t: &Vec<Route>) -> (r: bool)
    ensures
        r == routes_wf(table_view(t@)),
{
    let ghost tv = table_view(t@);
    let mut i: usize = 0;
    while i < t.len()
        invariant
            tv == table_view(t@),
            tv.len() == t@.len(),
            forall|x: int, y: int|
                0 <= x < i && 0 <= y < tv.len() && x != y ==> #[trigger] compatible(tv[x], tv[y]),
        decreases t.len() - i,
    {
        let mut j: usize = 0;
        while j < t.len()
            invariant
                tv == table_view(t@),
                tv.len() == t@.len(),
                i < t.len(),
                forall|x: int, y: int|
                    0 <= x < i && 0 <= y < tv.len() && x != y ==> #[trigger] compatible(
                        tv[x],
                        tv[y],
                    ),
                forall|y: int| 0 <= y < j && i != y ==> #[trigger] compatible(tv[i as int], tv[y]),
            decreases t.len() - j,
        {
            if i != j && !routes_compatible(&t[i], &t[j]) {
                assert(!compatible(tv[i as int], tv[j as int]));
                return false;
            }
            j = j + 1;
        }
        i = i + 1;
    }
    true
}

/// The number of routes the gateway serves.
pub const ROUTE_COUNT: usize = 28;

/// The method and path pattern of each endpoint. Every path begins with the
/// network's segment.
pub open spec fn pattern_of(e: Endpoint) -> (HttpMethod, Seq<Segment>) {
    match e {
        Endpoint::LatestHeight => (HttpMethod::Get, seq![Segment::Lit(Word::Testnet3), Segment::Lit(Word::Latest), Segment::Lit(Word::Height)]),
        Endpoint::LatestHash => (HttpMethod::Get, seq![Segment::Lit(Word::Testnet3), Segment::Lit(Word::Latest), Segment::Lit(Word::Hash)]),
        Endpoint::LatestBlock => (HttpMethod::Get, seq![Segment::Lit(Word::Testnet3), Segment::Lit(Word::Latest), Segment::Lit(Word::Block)]),
        Endpoint::LatestStateRoot => (HttpMethod::Get, seq![Segment::Lit(Word::Testnet3), Segment::Lit(Word::Latest), Segment::Lit(Word::StateRoot)]),
        Endpoint::Block => (HttpMethod::Get, seq![Segment::Lit(Word::Testnet3), Segment::Lit(Word::Block), Segment::Dyn(Param::HeightOrHash)]),
        Endpoint::BlockTransactions => (HttpMethod::Get, seq![Segment::Lit(Word::Testnet3), Segment::Lit(Word::Block), Segment::Dyn(Param::HeightOrHash), Segment::Lit(Word::Transactions)]),
        Endpoint::Transaction => (HttpMethod::Get, seq![Segment::Lit(Word::Testnet3), Segment::Lit(Word::Transaction), Segment::Dyn(Param::Id)]),
        Endpoint::TransactionBroadcast => (HttpMethod::Post, seq![Segment::Lit(Word::Testnet3), Segment::Lit(Word::Transaction), Segment::Lit(Word::Broadcast)]),
        Endpoint::FindBlockHash => (HttpMethod::Get, seq![Segment::Lit(Word::Testnet3), Segment::Lit(Word::Find), Segment::Lit(Word::BlockHash), Segment::Dyn(Param::TxId)]),
        Endpoint::FindTransactionIdFromProgramId => (HttpMethod::Get, seq![Segment::Lit(Word::Testnet3), Segment::Lit(Word::Find), Segment::Lit(Word::TransactionID), Segment::Lit(Word::Deployment), Segment::Dyn(Param::ProgramId)]),
        Endpoint::FindTransactionIdFromTransitionId => (HttpMethod::Get, seq![Segment::Lit(Word::Testnet3), Segment::Lit(Word::Find), Segment::Lit(Word::TransactionID), Segment::Dyn(Param::TransitionId)]),
        Endpoint::FindTransitionId => (HttpMethod::Get, seq![Segment::Lit(Word::Testnet3), Segment::Lit(Word::Find), Segment::Lit(Word::TransitionID), Segment::Dyn(Param::InputOrOutputId)]),
        Endpoint::PeersCount => (HttpMethod::Get, seq![Segment::Lit(Word::Testnet3), Segment::Lit(Word::Peers), Segment::Lit(Word::Count)]),
        Endpoint::PeersAll => (HttpMethod::Get, seq![Segment::Lit(Word::Testnet3), Segment::Lit(Word::Peers), Segment::Lit(Word::All)]),
        Endpoint::PeersAllMetrics => (HttpMethod::Get, seq![Segment::Lit(Word::Testnet3), Segment::Lit(Word::Peers), Segment::Lit(Word::All), Segment::Lit(Word::Metrics)]),
        Endpoint::Program => (HttpMethod::Get, seq![Segment::Lit(Word::Testnet3), Segment::Lit(Word::Program), Segment::Dyn(Param::Id)]),
        Endpoint::MappingNames => (HttpMethod::Get, seq![Segment::Lit(Word::Testnet3), Segment::Lit(Word::Program), Segment::Dyn(Param::Id), Segment::Lit(Word::Mappings)]),
        Endpoint::MappingValue => (HttpMethod::Get, seq![Segment::Lit(Word::Testnet3), Segment::Lit(Word::Program), Segment::Dyn(Param::Id), Segment::Lit(Word::Mapping), Segment::Dyn(Param::Name), Segment::Dyn(Param::Key)]),
        Endpoint::Blocks => (HttpMethod::Get, seq![Segment::Lit(Word::Testnet3), Segment::Lit(Word::Blocks)]),
        Endpoint::HeightByHash => (HttpMethod::Get, seq![Segment::Lit(Word::Testnet3), Segment::Lit(Word::Height), Segment::Dyn(Param::Hash)]),
        Endpoint::MemoryPoolTransactions => (HttpMethod::Get, seq![Segment::Lit(Word::Testnet3), Segment::Lit(Word::MemoryPool), Segment::Lit(Word::Transactions)]),
        Endpoint::StatePath => (HttpMethod::Get, seq![Segment::Lit(Word::Testnet3), Segment::Lit(Word::StatePath), Segment::Dyn(Param::Commitment)]),
        Endpoint::Beacons => (HttpMethod::Get, seq![Segment::Lit(Word::Testnet3), Segment::Lit(Word::Beacons)]),
        Endpoint::NodeAddress => (HttpMethod::Get, seq![Segment::Lit(Word::Testnet3), Segment::Lit(Word::Node), Segment::Lit(Word::Address)]),
        Endpoint::NodeEnv => (HttpMethod::Get, seq![Segment::Lit(Word::Testnet3), Segment::Lit(Word::Node), Segment::Lit(Word::Env)]),
        Endpoint::RecordsAll => (HttpMethod::Get, seq![Segment::Lit(Word::Testnet3), Segment::Lit(Word::Records), Segment::Lit(Word::All), Segment::Dyn(Param::ViewKey)]),
        Endpoint::RecordsSpent => (HttpMethod::Get, seq![Segment::Lit(Word::Testnet3), Segment::Lit(Word::Records), Segment::Lit(Word::Spent), Segment::Dyn(Param::ViewKey)]),
        Endpoint::RecordsUnspent => (HttpMethod::Get, seq![Segment::Lit(Word::Testnet3), Segment::Lit(Word::Records), Segment::Lit(Word::Unspent), Segment::Dyn(Param::ViewKey)]),
    }
}

pub open spec fn route_of(e: Endpoint) -> RouteSpec {
    RouteSpec { method: pattern_of(e).0, path: pattern_of(e).1, endpoint: e }
}

/// The endpoint whose route stands at place `i` of the table.
pub open spec fn endpoint_at(i: int) -> Endpoint {
    if i == 0 {
        Endpoint::LatestHeight
    } else if i == 1 {
        Endpoint::LatestHash
    } else if i == 2 {
        Endpoint::LatestBlock
    } else if i == 3 {
        Endpoint::LatestStateRoot
    } else if i == 4 {
        Endpoint::Block
    } else if i == 5 {
        Endpoint::BlockTransactions
    } else if i == 6 {
        Endpoint::Transaction
    } else if i == 7 {
        Endpoint::TransactionBroadcast
    } else if i == 8 {
        Endpoint::FindBlockHash
    } else if i == 9 {
        Endpoint::FindTransactionIdFromProgramId
    } else if i == 10 {
        Endpoint::FindTransactionIdFromTransitionId
    } else if i == 11 {
        Endpoint::FindTransitionId
    } else if i == 12 {
        Endpoint::PeersCount
    } else if i == 13 {
        Endpoint::PeersAll
    } else if i == 14 {
        Endpoint::PeersAllMetrics
    } else if i == 15 {
        Endpoint::Program
    } else if i == 16 {
        Endpoint::MappingNames
    } else if i == 17 {
        Endpoint::MappingValue
    } else if i == 18 {
        Endpoint::Blocks
    } else if i == 19 {
        Endpoint::HeightByHash
    } else if i == 20 {
        Endpoint::MemoryPoolTransactions
    } else if i == 21 {
        Endpoint::StatePath
    } else if i == 22 {
        Endpoint::Beacons
    } else if i == 23 {
        Endpoint::NodeAddress
    } else if i == 24 {
        Endpoint::NodeEnv
    } else if i == 25 {
        Endpoint::RecordsAll
    } else if i == 26 {
        Endpoint::RecordsSpent
    } else {
        Endpoint::RecordsUnspent
    }
}

/// The gateway's route table, as a model.
pub open spec fn gateway_routes() -> Seq<RouteSpec> {
    Seq::new(ROUTE_COUNT as nat, |i: int| route_of(endpoint_at(i)))
}

/// The route that leads to `e`.
pub fn route(e: Endpoint) -> (r: Route)
    ensures
        r@ == route_of(e),
{
    let (method, path) = match e {
        Endpoint::LatestHeight => (HttpMethod::Get, vec![Segment::Lit(Word::Testnet3), Segment::Lit(Word::Latest), Segment::Lit(Word::Height)]),
        Endpoint::LatestHash => (HttpMethod::Get, vec![Segment::Lit(Word::Testnet3), Segment::Lit(Word::Latest), Segment::Lit(Word::Hash)]),
        Endpoint::LatestBlock => (HttpMethod::Get, vec![Segment::Lit(Word::Testnet3), Segment::Lit(Word::Latest), Segment::Lit(Word::Block)]),
        Endpoint::LatestStateRoot => (HttpMethod::Get, vec![Segment::Lit(Word::Testnet3), Segment::Lit(Word::Latest), Segment::Lit(Word::StateRoot)]),
        Endpoint::Block => (HttpMethod::Get, vec![Segment::Lit(Word::Testnet3), Segment::Lit(Word::Block), Segment::Dyn(Param::HeightOrHash)]),
        Endpoint::BlockTransactions => (HttpMethod::Get, vec![Segment::Lit(Word::Testnet3), Segment::Lit(Word::Block), Segment::Dyn(Param::HeightOrHash), Segment::Lit(Word::Transactions)]),
        Endpoint::Transaction => (HttpMethod::Get, vec![Segment::Lit(Word::Testnet3), Segment::Lit(Word::Transaction), Segment::Dyn(Param::Id)]),
        Endpoint::TransactionBroadcast => (HttpMethod::Post, vec![Segment::Lit(Word::Testnet3), Segment::Lit(Word::Transaction), Segment::Lit(Word::Broadcast)]),
        Endpoint::FindBlockHash => (HttpMethod::Get, vec![Segment::Lit(Word::Testnet3), Segment::Lit(Word::Find), Segment::Lit(Word::BlockHash), Segment::Dyn(Param::TxId)]),
        Endpoint::FindTransactionIdFromProgramId => (HttpMethod::Get, vec![Segment::Lit(Word::Testnet3), Segment::Lit(Word::Find), Segment::Lit(Word::TransactionID), Segment::Lit(Word::Deployment), Segment::Dyn(Param::ProgramId)]),
        Endpoint::FindTransactionIdFromTransitionId => (HttpMethod::Get, vec![Segment::Lit(Word::Testnet3), Segment::Lit(Word::Find), Segment::Lit(Word::TransactionID), Segment::Dyn(Param::TransitionId)]),
        Endpoint::FindTransitionId => (HttpMethod::Get, vec![Segment::Lit(Word::Testnet3), Segment::Lit(Word::Find), Segment::Lit(Word::TransitionID), Segment::Dyn(Param::InputOrOutputId)]),
        Endpoint::PeersCount => (HttpMethod::Get, vec![Segment::Lit(Word::Testnet3), Segment::Lit(Word::Peers), Segment::Lit(Word::Count)]),
        Endpoint::PeersAll => (HttpMethod::Get, vec![Segment::Lit(Word::Testnet3), Segment::Lit(Word::Peers), Segment::Lit(Word::All)]),
        Endpoint::PeersAllMetrics => (HttpMethod::Get, vec![Segment::Lit(Word::Testnet3), Segment::Lit(Word::Peers), Segment::Lit(Word::All), Segment::Lit(Word::Metrics)]),
        Endpoint::Program => (HttpMethod::Get, vec![Segment::Lit(Word::Testnet3), Segment::Lit(Word::Program), Segment::Dyn(Param::Id)]),
        Endpoint::MappingNames => (HttpMethod::Get, vec![Segment::Lit(Word::Testnet3), Segment::Lit(Word::Program), Segment::Dyn(Param::Id), Segment::Lit(Word::Mappings)]),
        Endpoint::MappingValue => (HttpMethod::Get, vec![Segment::Lit(Word::Testnet3), Segment::Lit(Word::Program), Segment::Dyn(Param::Id), Segment::Lit(Word::Mapping), Segment::Dyn(Param::Name), Segment::Dyn(Param::Key)]),
        Endpoint::Blocks => (HttpMethod::Get, vec![Segment::Lit(Word::Testnet3), Segment::Lit(Word::Blocks)]),
        Endpoint::HeightByHash => (HttpMethod::Get, vec![Segment::Lit(Word::Testnet3), Segment::Lit(Word::Height), Segment::Dyn(Param::Hash)]),
        Endpoint::MemoryPoolTransactions => (HttpMethod::Get, vec![Segment::Lit(Word::Testnet3), Segment::Lit(Word::MemoryPool), Segment::Lit(Word::Transactions)]),
        Endpoint::StatePath => (HttpMethod::Get, vec![Segment::Lit(Word::Testnet3), Segment::Lit(Word::StatePath), Segment::Dyn(Param::Commitment)]),
        Endpoint::Beacons => (HttpMethod::Get, vec![Segment::Lit(Word::Testnet3), Segment::Lit(Word::Beacons)]),
        Endpoint::NodeAddress => (HttpMethod::Get, vec![Segment::Lit(Word::Testnet3), Segment::Lit(Word::Node), Segment::Lit(Word::Address)]),
        Endpoint::NodeEnv => (HttpMethod::Get, vec![Segment::Lit(Word::Testnet3), Segment::Lit(Word::Node), Segment::Lit(Word::Env)]),
        Endpoint::RecordsAll => (HttpMethod::Get, vec![Segment::Lit(Word::Testnet3), Segment::Lit(Word::Records), Segment::Lit(Word::All), Segment::Dyn(Param::ViewKey)]),
        Endpoint::RecordsSpent => (HttpMethod::Get, vec![Segment::Lit(Word::Testnet3), Segment::Lit(Word::Records), Segment::Lit(Word::Spent), Segment::Dyn(Param::ViewKey)]),
        Endpoint::RecordsUnspent => (HttpMethod::Get, vec![Segment::Lit(Word::Testnet3), Segment::Lit(Word::Records), Segment::Lit(Word::Unspent), Segment::Dyn(Param::ViewKey)]),
    };
    Route { method, path, endpoint: e }
}

/// The gateway's route table: one route for each endpoint.
pub fn route_table() -> (t: Vec<Route>)
    ensures
        table_view(t@) == gateway_routes(),
{
    let mut t: Vec<Route> = Vec::new();
    t.push(route(Endpoint::LatestHeight));
    t.push(route(Endpoint::LatestHash));
    t.push(route(Endpoint::LatestBlock));
    t.push(route(Endpoint::LatestStateRoot));
    t.push(route(Endpoint::Block));
    t.push(route(Endpoint::BlockTransactions));
    t.push(route(Endpoint::Transaction));
    t.push(route(Endpoint::TransactionBroadcast));
    t.push(route(Endpoint::FindBlockHash));
    t.push(route(Endpoint::FindTransactionIdFromProgramId));
    t.push(route(Endpoint::FindTransactionIdFromTransitionId));
    t.push(route(Endpoint::FindTransitionId));
    t.push(route(Endpoint::PeersCount));
    t.push(route(Endpoint::PeersAll));
    t.push(route(Endpoint::PeersAllMetrics));
    t.push(route(Endpoint::Program));
    t.push(route(Endpoint::MappingNames));
    t.push(route(Endpoint::MappingValue));
    t.push(route(Endpoint::Blocks));
    t.push(route(Endpoint::HeightByHash));
    t.push(route(Endpoint::MemoryPoolTransactions));
    t.push(route(Endpoint::StatePath));
    t.push(route(Endpoint::Beacons));
    t.push(route(Endpoint::NodeAddress));
    t.push(route(Endpoint::NodeEnv));
    t.push(route(Endpoint::RecordsAll));
    t.push(route(Endpoint::RecordsSpent));
    t.push(route(Endpoint::RecordsUnspent));
    assert(table_view(t@) =~= gateway_routes());
    t
}

/// The routes of two distinct endpoints never conflict.
#[verifier::rlimit(100)]
pub proof fn lemma_endpoint_routes_compatible(a: Endpoint, b: Endpoint)
    requires
        a != b,
    ensures
        compatible(route_of(a), route_of(b)),
{
    let p = route_of(a).path;
    let q = route_of(b).path;
    assert forall|k: int|
        #![trigger p[k], q[k]]
        shared_prefix(p, q, k) && k < p.len() && k < q.len() && is_dyn(p[k]) && is_dyn(q[k]) implies p[k] == q[k] by {
        if k >= 2 { assert(same_shape(p[1], q[1])); }
        if k >= 3 { assert(same_shape(p[2], q[2])); }
        if k >= 4 { assert(same_shape(p[3], q[3])); }
        if k >= 5 { assert(same_shape(p[4], q[4])); }
    }
    if p.len() == q.len() && shared_prefix(p, q, p.len() as int) {
        assert(same_shape(p[1], q[1]));
        if p.len() >= 3 { assert(same_shape(p[2], q[2])); }
        if p.len() >= 4 { assert(same_shape(p[3], q[3])); }
        if p.len() >= 5 { assert(same_shape(p[4], q[4])); }
        if p.len() >= 6 { assert(same_shape(p[5], q[5])); }
        assert(route_of(a).method != route_of(b).method);
    }
}

/// Every endpoint has its route in the gateway's table, and the table is free
/// of routing conflicts.
pub proof fn lemma_gateway_routes_wf()
    ensures
        routes_wf(gateway_routes()),
        forall|e: Endpoint| #[trigger] gateway_routes().contains(route_of(e)),
{
    let t = gateway_routes();
    assert forall|i: int, j: int|
        0 <= i < t.len() && 0 <= j < t.len() && i != j implies #[trigger] compatible(t[i], t[j]) by {
        assert(endpoint_at(i) != endpoint_at(j));
        lemma_endpoint_routes_compatible(endpoint_at(i), endpoint_at(j));
    }
    assert forall|e: Endpoint| #[trigger] t.contains(route_of(e)) by {
        let i: int = match e {
            Endpoint::LatestHeight => 0,
            Endpoint::LatestHash => 1,
            Endpoint::LatestBlock => 2,
            Endpoint::LatestStateRoot => 3,
            Endpoint::Block => 4,
            Endpoint::BlockTransactions => 5,
            Endpoint::Transaction => 6,
            Endpoint::TransactionBroadcast => 7,
            Endpoint::FindBlockHash => 8,
            Endpoint::FindTransactionIdFromProgramId => 9,
            Endpoint::FindTransactionIdFromTransitionId => 10,
            Endpoint::FindTransitionId => 11,
            Endpoint::PeersCount => 12,
            Endpoint::PeersAll => 13,
            Endpoint::PeersAllMetrics => 14,
            Endpoint::Program => 15,
            Endpoint::MappingNames => 16,
            Endpoint::MappingValue => 17,
            Endpoint::Blocks => 18,
            Endpoint::HeightByHash => 19,
            Endpoint::MemoryPoolTransactions => 20,
            Endpoint::StatePath => 21,
            Endpoint::Beacons => 22,
            Endpoint::NodeAddress => 23,
            Endpoint::NodeEnv => 24,
            Endpoint::RecordsAll => 25,
            Endpoint::RecordsSpent => 26,
            Endpoint::RecordsUnspent => 27,
        };
        assert(t[i] == route_of(e));
    }
}

/// Distinct words are written differently.
pub proof fn lemma_word_text_injective(a: Word, b: Word)
    requires
        a != b,
    ensures
        word_text(a) != word_text(b),
{
    reveal_strlit("testnet3");
    reveal_strlit("latest");
    reveal_strlit("height");
    reveal_strlit("hash");
    reveal_strlit("block");
    reveal_strlit("stateRoot");
    reveal_strlit("transactions");
    reveal_strlit("transaction");
    reveal_strlit("broadcast");
    reveal_strlit("find");
    reveal_strlit("blockHash");
    reveal_strlit("transactionID");
    reveal_strlit("deployment");
    reveal_strlit("transitionID");
    reveal_strlit("peers");
    reveal_strlit("count");
    reveal_strlit("all");
    reveal_strlit("metrics");
    reveal_strlit("program");
    reveal_strlit("mappings");
    reveal_strlit("mapping");
    reveal_strlit("blocks");
    reveal_strlit("memoryPool");
    reveal_strlit("statePath");
    reveal_strlit("beacons");
    reveal_strlit("node");
    reveal_strlit("address");
    reveal_strlit("env");
    reveal_strlit("records");
    reveal_strlit("spent");
    reveal_strlit("unspent");
    let (x, y) = (word_text(a), word_text(b));
    // Equal texts would agree in length and at every place; for any two
    // distinct values one of these facts fails.
    if x == y {
        assert(x.len() == y.len());
        if 0 < x.len() {
            assert(x[0] == y[0]);
        }
        if 1 < x.len() {
            assert(x[1] == y[1]);
        }
        if 2 < x.len() {
            assert(x[2] == y[2]);
        }
        if 3 < x.len() {
            assert(x[3] == y[3]);
        }
        if 4 < x.len() {
            assert(x[4] == y[4]);
        }
        if 5 < x.len() {
            assert(x[5] == y[5]);
        }
        if 6 < x.len() {
            assert(x[6] == y[6]);
        }
        if 7 < x.len() {
            assert(x[7] == y[7]);
        }
        if 8 < x.len() {
            assert(x[8] == y[8]);
        }
        if 9 < x.len() {
            assert(x[9] == y[9]);
        }
        if 10 < x.len() {
            assert(x[10] == y[10]);
        }
        if 11 < x.len() {
            assert(x[11] == y[11]);
        }
        if 12 < x.len() {
            assert(x[12] == y[12]);
        }
        if 13 < x.len() {
            assert(x[13] == y[13]);
        }
        if 14 < x.len() {
            assert(x[14] == y[14]);
        }
        if 15 < x.len() {
            assert(x[15] == y[15]);
        }
        if 16 < x.len() {
            assert(x[16] == y[16]);
        }
        if 17 < x.len() {
            assert(x[17] == y[17]);
        }
        assert(false);
    }
}

/// Distinct dynamic segments carry distinct names.
pub proof fn lemma_param_name_injective(a: Param, b: Param)
    requires
        a != b,
    ensures
        param_name(a) != param_name(b),
{
    reveal_strlit("height_or_hash");
    reveal_strlit("id");
    reveal_strlit("tx_id");
    reveal_strlit("program_id");
    reveal_strlit("transition_id");
    reveal_strlit("input_or_output_id");
    reveal_strlit("name");
    reveal_strlit("key");
    reveal_strlit("hash");
    reveal_strlit("commitment");
    reveal_strlit("view_key");
    let (x, y) = (param_name(a), param_name(b));
    // Equal texts would agree in length and at every place; for any two
    // distinct values one of these facts fails.
    if x == y {
        assert(x.len() == y.len());
        if 0 < x.len() {
            assert(x[0] == y[0]);
        }
        if 1 < x.len() {
            assert(x[1] == y[1]);
        }
        if 2 < x.len() {
            assert(x[2] == y[2]);
        }
        if 3 < x.len() {
            assert(x[3] == y[3]);
        }
        if 4 < x.len() {
            assert(x[4] == y[4]);
        }
        if 5 < x.len() {
            assert(x[5] == y[5]);
        }
        if 6 < x.len() {
            assert(x[6] == y[6]);
        }
        if 7 < x.len() {
            assert(x[7] == y[7]);
        }
        if 8 < x.len() {
            assert(x[8] == y[8]);
        }
        if 9 < x.len() {
            assert(x[9] == y[9]);
        }
        if 10 < x.len() {
            assert(x[10] == y[10]);
        }
        if 11 < x.len() {
            assert(x[11] == y[11]);
        }
        if 12 < x.len() {
            assert(x[12] == y[12]);
        }
        if 13 < x.len() {
            assert(x[13] == y[13]);
        }
        if 14 < x.len() {
            assert(x[14] == y[14]);
        }
        if 15 < x.len() {
            assert(x[15] == y[15]);
        }
        if 16 < x.len() {
            assert(x[16] == y[16]);
        }
        if 17 < x.len() {
            assert(x[17] == y[17]);
        }
        assert(false);
    }
}

} // verus!
