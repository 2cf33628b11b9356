//! The telemetry SDK's resource type and level type, and the few of its
//! operations that this library calls, with what the library relies on.

use opentelemetry::sdk::resource::{OsResourceDetector, ResourceDetector};
use opentelemetry::sdk::Resource;
use opentelemetry::KeyValue;
use opentelemetry_semantic_conventions as semcov;
use std::time::Duration;
use vstd::prelude::*;

verus! {

/// The SDK's resource: a map from attribute keys to values.
#[verifier::external_type_specification]
#[verifier::external_body]
pub struct ExResource(Resource);

/// The log crate's level, as re-exported by tracing.
#[verifier::external_type_specification]
pub struct ExLevel(tracing::log::Level);

/// The attributes of a resource, each value in its string form.
pub uninterp spec fn resource_attributes(r: Resource) -> Map<Seq<char>, Seq<char>>;

/// The map that inserting `attrs` in order into an empty map gives: a later
/// pair with the same key replaces an earlier one.
pub open spec fn attribute_map(attrs: Seq<(String, String)>) -> Map<Seq<char>, Seq<char>>
    decreases attrs.len(),
{
    if attrs.len() == 0 {
        Map::empty()
    } else {
        attribute_map(attrs.drop_last()).insert(attrs.last().0@, attrs.last().1@)
    }
}

/// Relies on `Resource::new`: it inserts each key-value pair in turn into an
/// empty map, and a string value keeps its text.
#[verifier::external_body]
pub(crate) fn resource_new(attrs: Vec<(String, String)>) -> (r: Resource)
    ensures
        resource_attributes(r) == attribute_map(attrs@),
{
    Resource::new(attrs.into_iter().map(|(k, v)| KeyValue::new(k, v)))
}

/// Relies on `Resource::merge`: the keys of `high` take priority over those of
/// `low`; the other keys of either are kept.
#[verifier::external_body]
pub(crate) fn resource_merge(low: &Resource, high: &Resource) -> (r: Resource)
    ensures
        resource_attributes(r) == resource_attributes(*low).union_prefer_right(
            resource_attributes(*high),
        ),
{
    low.merge(high)
}

/// Relies on `Resource::default`: the SDK-provided resource, which depends on
/// the environment but always holds `service.name`.
#[verifier::external_body]
pub(crate) fn sdk_default_resource() -> (r: Resource)
    ensures
        resource_attributes(r).contains_key("service.name"@),
{
    Resource::default()
}

/// Relies on `OsResourceDetector::detect`: a resource with the single
/// attribute `os.type`, whose value depends on the platform.
#[verifier::external_body]
pub(crate) fn detect_os() -> (r: Resource)
    ensures
        resource_attributes(r).dom() == set!["os.type"@],
{
    OsResourceDetector.detect(Duration::from_secs(0))
}

/// Relies on the semantic conventions' `SERVICE_NAME` key, `service.name`.
#[verifier::external_body]
pub(crate) fn service_name_key() -> (r: String)
    ensures
        r@ == "service.name"@,
{
    semcov::resource::SERVICE_NAME.as_str().to_string()
}

/// Relies on the semantic conventions' `SERVICE_VERSION` key, `service.version`.
#[verifier::external_body]
pub(crate) fn service_version_key() -> (r: String)
    ensures
        r@ == "service.version"@,
{
    semcov::resource::SERVICE_VERSION.as_str().to_string()
}

} // verus!
