//! The middleware pipeline: its layers in order, the cross-origin policy and
//! the cap on request bodies.
use vstd::prelude::*;
use crate::error::ApiError;
use crate::routes::HttpMethod;

verus! {

/// The largest request body accepted, in bytes (10 MiB).
pub const MAX_BODY_BYTES: u64 = 10 * 1024 * 1024;

/// Admits a body of `len` bytes, or refuses it as too large.
pub fn check_body_size(len: u64) -> (r: Result<(), ApiError>)
    ensures
        r is Ok <==> len <= MAX_BODY_BYTES,
        r is Err ==> r == Err::<(), ApiError>(ApiError::PayloadTooLarge),
{
    if len > MAX_BODY_BYTES {
        Err(ApiError::PayloadTooLarge)
    } else {
        Ok(())
    }
}

/// The request headers that cross-origin callers may send.
#[derive(Clone, Copy, Debug, PartialEq, Eq, Structural)]
pub enum Header {
    ContentType,
}

/// The cross-origin policy.
pub struct CorsPolicy {
    pub any_origin: bool,
    pub methods: Vec<HttpMethod>,
    pub headers: Vec<Header>,
}

/// The methods a cross-origin caller may use.
pub open spec fn cors_methods() -> Seq<HttpMethod> {
    seq![HttpMethod::Get, HttpMethod::Post, HttpMethod::Options]
}

/// The gateway's cross-origin policy: any origin, the methods GET, POST and
/// OPTIONS, and the content-type header.
pub fn cors_policy() -> (p: CorsPolicy)
    ensures
        p.any_origin,
        p.methods@ == cors_methods(),
        p.headers@ == seq![Header::ContentType],
{
    CorsPolicy {
        any_origin: true,
        methods: vec![HttpMethod::Get, HttpMethod::Post, HttpMethod::Options],
        headers: vec![Header::ContentType],
    }
}

impl CorsPolicy {
    /// Whether the policy lets a cross-origin caller use `m`.
    pub fn allows_method(&self, m: HttpMethod) -> (r: bool)
        ensures
            r == self.methods@.contains(m),
    {
        let mut i: usize = 0;
        while i < self.methods.len()
            invariant
                forall|j: int| 0 <= j < i ==> self.methods@[j] != m,
            decreases self.methods.len() - i,
        {
            if self.methods[i] == m {
                assert(self.methods@[i as int] == m);
                return true;
            }
            i = i + 1;
        }
        false
    }
}

/// A layer of the pipeline.
#[derive(Clone, Copy, Debug, PartialEq, Eq, Structural)]
pub enum Layer {
    /// A span for each request: method, path, status, latency.
    Trace,
    /// One informational line for each request before dispatch.
    AccessLog,
    /// The cross-origin policy; answers preflight requests itself.
    Cors,
    /// The cap on request bodies.
    BodyLimit,
    /// Authentication: a slot kept on purpose, and left inactive.
    Auth,
}

/// A layer and whether it is in force.
#[derive(Clone, Copy, Debug, PartialEq, Eq, Structural)]
pub struct LayerSlot {
    pub layer: Layer,
    pub active: bool,
}

/// The pipeline, outermost layer first.
pub open spec fn pipeline_spec() -> Seq<LayerSlot> {
    seq![
        LayerSlot { layer: Layer::Trace, active: true },
        LayerSlot { layer: Layer::AccessLog, active: true },
        LayerSlot { layer: Layer::Cors, active: true },
        LayerSlot { layer: Layer::BodyLimit, active: true },
        LayerSlot { layer: Layer::Auth, active: false },
    ]
}

/// The gateway's pipeline, outermost layer first: tracing, access logging,
/// the cross-origin policy, the body cap, and the inactive authentication slot.
pub fn middleware_stack() -> (r: Vec<LayerSlot>)
    ensures
        r@ == pipeline_spec(),
{
    let r = vec![
        LayerSlot { layer: Layer::Trace, active: true },
        LayerSlot { layer: Layer::AccessLog, active: true },
        LayerSlot { layer: Layer::Cors, active: true },
        LayerSlot { layer: Layer::BodyLimit, active: true },
        LayerSlot { layer: Layer::Auth, active: false },
    ];
    assert(r@ =~= pipeline_spec());
    r
}

/// A preflight request to any route meets the cross-origin layer, which is
/// in force and stands outside route dispatch, and is answered with exactly
/// the methods GET, POST and OPTIONS.
pub proof fn lemma_preflight_methods(m: HttpMethod)
    ensures
        pipeline_spec().contains(LayerSlot { layer: Layer::Cors, active: true }),
        cors_methods().contains(m) <==> (m == HttpMethod::Get || m == HttpMethod::Post || m
            == HttpMethod::Options),
{
    let s = cors_methods();
    assert(s[0] == HttpMethod::Get && s[1] == HttpMethod::Post && s[2] == HttpMethod::Options);
    assert(pipeline_spec()[2] == LayerSlot { layer: Layer::Cors, active: true });
}

} // verus!
