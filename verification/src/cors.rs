//! The cross-origin layer: a policy handed to `tower_http`, which answers
//! preflight requests and annotates responses by it.
//!
//! A preflight answer announces the full lists of methods and headers that
//! the policy admits, not the part of them that the request asked about.
//! Whether an origin may send credentials is asked of the policy request by
//! request, so that no answer to an origin outside the policy carries them.

use crate::policy::{standard_policy, AllowedOrigins, CorsPolicy, OriginRule, PolicyView};
use crate::token::{all_conform, byte_strings, lower_cases, Grammar};
use http::header::{HeaderName, HeaderValue};
use http::request::Parts;
use http::Method;
use tower_http::cors::{AllowCredentials, Any, CorsLayer};
use vstd::prelude::*;

verus! {

/// `tower_http::cors::CorsLayer`: the rules by which cross-origin requests
/// are answered.
#[verifier::external_type_specification]
#[verifier::external_body]
pub struct ExCorsLayer(CorsLayer);

/// The rules that a layer holds. `origins` are the origins whose requests
/// are answered with `Access-Control-Allow-Origin` (their own origin; `*`
/// where every origin is admitted). `methods` and `headers` are the lists
/// announced in answer to a preflight request. `allow_credentials` says
/// whether `Access-Control-Allow-Credentials: true` goes with the answer to
/// an admitted origin; it goes with no other answer.
pub uninterp spec fn layer_rules(layer: CorsLayer) -> PolicyView;

/// `CorsLayer::new`: a layer that admits nothing and announces nothing.
#[verifier::external_body]
fn new_layer() -> (layer: CorsLayer)
    ensures
        layer_rules(layer) == (PolicyView {
            origins: OriginRule::Exact(Seq::empty()),
            methods: Seq::empty(),
            headers: Seq::empty(),
            allow_credentials: false,
        }),
{
    CorsLayer::new()
}

/// `CorsLayer::allow_origin` with a list of origins, each made by
/// `HeaderValue::from_bytes`. The outside functions panic on a byte string
/// that is no field value and on the wildcard marker.
#[verifier::external_body]
fn with_exact_origins(layer: CorsLayer, origins: &Vec<Vec<u8>>) -> (changed: CorsLayer)
    requires
        all_conform(Grammar::Origin, byte_strings(origins@)),
    ensures
        layer_rules(changed) == (PolicyView {
            origins: OriginRule::Exact(byte_strings(origins@)),
            ..layer_rules(layer)
        }),
{
    layer.allow_origin(
        origins.iter().map(|o| HeaderValue::from_bytes(o).unwrap()).collect::<Vec<HeaderValue>>(),
    )
}

/// `CorsLayer::allow_origin` with `Any`: every origin is admitted.
#[verifier::external_body]
fn with_any_origin(layer: CorsLayer) -> (changed: CorsLayer)
    ensures
        layer_rules(changed) == (PolicyView { origins: OriginRule::Any, ..layer_rules(layer) }),
{
    layer.allow_origin(Any)
}

/// `CorsLayer::allow_methods` with a list of methods, each made by
/// `Method::from_bytes`, which panics on a byte string that is no method
/// token.
#[verifier::external_body]
fn with_methods(layer: CorsLayer, methods: &Vec<Vec<u8>>) -> (changed: CorsLayer)
    requires
        all_conform(Grammar::MethodToken, byte_strings(methods@)),
    ensures
        layer_rules(changed) == (PolicyView {
            methods: byte_strings(methods@),
            ..layer_rules(layer)
        }),
{
    layer.allow_methods(
        methods.iter().map(|m| Method::from_bytes(m).unwrap()).collect::<Vec<Method>>(),
    )
}

/// `CorsLayer::allow_headers` with a list of field names, each made by
/// `HeaderName::from_bytes`, which panics on a byte string that is no field
/// name and puts the others in lower case.
#[verifier::external_body]
fn with_headers(layer: CorsLayer, headers: &Vec<Vec<u8>>) -> (changed: CorsLayer)
    requires
        all_conform(Grammar::FieldName, byte_strings(headers@)),
    ensures
        layer_rules(changed) == (PolicyView {
            headers: lower_cases(byte_strings(headers@)),
            ..layer_rules(layer)
        }),
{
    layer.allow_headers(
        headers.iter().map(|h| HeaderName::from_bytes(h).unwrap()).collect::<Vec<HeaderName>>(),
    )
}

/// `CorsLayer::allow_credentials` with `AllowCredentials::predicate`: the
/// layer asks the policy, request by request, whether the origin may send
/// credentials. The layer must admit the origins that the policy admits.
#[verifier::external_body]
fn with_credentials(layer: CorsLayer, policy: CorsPolicy) -> (changed: CorsLayer)
    requires
        layer_rules(layer).origins == policy@.origins,
    ensures
        layer_rules(changed) == (PolicyView {
            allow_credentials: policy@.allow_credentials,
            ..layer_rules(layer)
        }),
{
    layer.allow_credentials(
        AllowCredentials::predicate(
            move |origin: &HeaderValue, _: &Parts| policy.grants_credentials(origin.as_bytes()),
        ),
    )
}

/// The layer that enforces a policy.
pub fn cors_layer_for(policy: &CorsPolicy) -> (layer: CorsLayer)
    ensures
        layer_rules(layer) == policy@.normalized(),
{
    let layer = new_layer();
    let layer = match policy.origins() {
        AllowedOrigins::Any => with_any_origin(layer),
        AllowedOrigins::Exact(list) => with_exact_origins(layer, list),
    };
    let layer = with_methods(layer, policy.methods());
    let layer = with_headers(layer, policy.headers());
    let layer = with_credentials(layer, policy.clone());
    layer
}

/// The layer that enforces the standard policy.
pub fn cors_layer() -> (layer: CorsLayer)
    ensures
        layer_rules(layer) == standard_policy().normalized(),
{
    cors_layer_for(&CorsPolicy::standard())
}

} // verus!
