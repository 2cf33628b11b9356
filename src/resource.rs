//! The resource builder: fallbacks for the service name and version, the
//! level at which the result is logged, and the merge that yields the
//! resource.

use crate::env::{
    opt_str_view, opt_view, resolve_service_name, resolve_service_version,
    resolved_service_name, resolved_service_version,
};
use crate::otel::{
    attribute_map, detect_os, resource_attributes, resource_merge, resource_new,
    sdk_default_resource, service_name_key, service_version_key,
};
use opentelemetry::sdk::Resource;
use tracing::log::Level;
use vstd::prelude::*;

verus! {

/// The attributes that the service detector contributes: `service.name` and
/// `service.version`, each only where it is known.
pub open spec fn service_attributes(
    name: Option<Seq<char>>,
    version: Option<Seq<char>>,
) -> Map<Seq<char>, Seq<char>> {
    let with_name = match name {
        Some(n) => Map::empty().insert("service.name"@, n),
        None => Map::empty(),
    };
    match version {
        Some(v) => with_name.insert("service.version"@, v),
        None => with_name,
    }
}

/// A resource holding `service.name` and `service.version` with the given
/// values.
pub fn make_resource(service_name: &str, service_version: &str) -> (r: Resource)
    ensures
        resource_attributes(r) == Map::<Seq<char>, Seq<char>>::empty().insert(
            "service.name"@,
            service_name@,
        ).insert("service.version"@, service_version@),
{
    let attrs = vec![
        (service_name_key(), String::from_str(service_name)),
        (service_version_key(), String::from_str(service_version)),
    ];
    proof {
        assert(attrs@.drop_last().drop_last() =~= Seq::<(String, String)>::empty());
        assert(attribute_map(attrs@.drop_last().drop_last()) == Map::<Seq<char>, Seq<char>>::empty());
        assert(attribute_map(attrs@.drop_last()) == Map::<Seq<char>, Seq<char>>::empty().insert(
            "service.name"@,
            service_name@,
        ));
    }
    resource_new(attrs)
}

/// Resource built from the service detector, the SDK's defaults and the
/// detected operating system; `base` has the lowest priority, `os` the
/// highest.
pub fn merge_detected(base: &Resource, service: &Resource, os: &Resource) -> (r: Resource)
    ensures
        resource_attributes(r) == resource_attributes(*base).union_prefer_right(
            resource_attributes(*service).union_prefer_right(resource_attributes(*os)),
        ),
{
    let detected = resource_merge(service, os);
    resource_merge(base, &detected)
}

/// Builder of the service's resource.
#[derive(Debug)]
pub struct DetectResource {
    fallback_service_name: Option<&'static str>,
    fallback_service_version: Option<&'static str>,
    log_of_resources: Level,
}

impl Default for DetectResource {
    fn default() -> (r: Self)
        ensures
            r.spec_fallback_service_name() == None::<Seq<char>>,
            r.spec_fallback_service_version() == None::<Seq<char>>,
            r.spec_log_of_resources() == Level::Debug,
    {
        DetectResource {
            fallback_service_name: None,
            fallback_service_version: None,
            log_of_resources: Level::Debug,
        }
    }
}

impl DetectResource {
    /// The service name used when no environment variable gives one.
    pub closed spec fn spec_fallback_service_name(&self) -> Option<Seq<char>> {
        opt_str_view(self.fallback_service_name)
    }

    /// The service version used when no environment variable gives one.
    pub closed spec fn spec_fallback_service_version(&self) -> Option<Seq<char>> {
        opt_str_view(self.fallback_service_version)
    }

    /// The level at which each attribute of the built resource is logged.
    pub closed spec fn spec_log_of_resources(&self) -> Level {
        self.log_of_resources
    }

    /// `service.name` is first taken from the environment variables
    /// `OTEL_SERVICE_NAME`, `SERVICE_NAME`, `APP_NAME`, in this order; this
    /// value is used when none of them is set.
    pub fn with_fallback_service_name(self, fallback_service_name: &'static str) -> (r: Self)
        ensures
            r.spec_fallback_service_name() == Some(fallback_service_name@),
            r.spec_fallback_service_version() == self.spec_fallback_service_version(),
            r.spec_log_of_resources() == self.spec_log_of_resources(),
    {
        DetectResource { fallback_service_name: Some(fallback_service_name), ..self }
    }

    /// `service.version` is first taken from the environment variables
    /// `SERVICE_VERSION`, `APP_VERSION`, in this order; this value is used
    /// when neither is set.
    pub fn with_fallback_service_version(self, fallback_service_version: &'static str) -> (r: Self)
        ensures
            r.spec_fallback_service_name() == self.spec_fallback_service_name(),
            r.spec_fallback_service_version() == Some(fallback_service_version@),
            r.spec_log_of_resources() == self.spec_log_of_resources(),
    {
        DetectResource { fallback_service_version: Some(fallback_service_version), ..self }
    }

    /// The level at which every key and value of the resource is logged.
    pub fn with_log_of_resources(self, level: Level) -> (r: Self)
        ensures
            r.spec_fallback_service_name() == self.spec_fallback_service_name(),
            r.spec_fallback_service_version() == self.spec_fallback_service_version(),
            r.spec_log_of_resources() == level,
    {
        DetectResource { log_of_resources: level, ..self }
    }

    /// The level at which the built resource is to be logged.
    pub fn log_of_resources(&self) -> (r: Level)
        ensures
            r == self.spec_log_of_resources(),
    {
        self.log_of_resources
    }

    /// Builds the resource, given `env`, the process environment as (name,
    /// value) pairs. The SDK's defaults have the lowest priority; the service
    /// name and version resolved from `env` and the fallbacks, and the
    /// operating system type, override them.
    pub fn build(self, env: &Vec<(String, String)>) -> (r: Resource)
        ensures
            resource_attributes(r).contains_key("service.name"@),
            resource_attributes(r).contains_key("os.type"@),
            resolved_service_name(env@, self.spec_fallback_service_name()) matches Some(n)
                ==> resource_attributes(r)["service.name"@] == n,
            resolved_service_version(env@, self.spec_fallback_service_version()) matches Some(v)
                ==> resource_attributes(r)["service.version"@] == v,
    {
        let base = sdk_default_resource();
        let detector = ServiceInfoDetector::new(
            self.fallback_service_name,
            self.fallback_service_version,
        );
        let service = detector.detect(env);
        let os = detect_os();
        proof {
            reveal_strlit("service.name");
            reveal_strlit("service.version");
            reveal_strlit("os.type");
            assert("service.name"@.len() == 12 && "os.type"@.len() == 7);
            assert("service.version"@.len() == 15);
            assert("service.name"@ != "os.type"@);
            assert("service.version"@ != "os.type"@);
        }
        merge_detected(&base, &service, &os)
    }
}

/// Detector of the service's name and version.
#[derive(Debug)]
pub struct ServiceInfoDetector {
    fallback_service_name: Option<&'static str>,
    fallback_service_version: Option<&'static str>,
}

impl ServiceInfoDetector {
    /// The service name used when no environment variable gives one.
    pub closed spec fn spec_fallback_service_name(&self) -> Option<Seq<char>> {
        opt_str_view(self.fallback_service_name)
    }

    /// The service version used when no environment variable gives one.
    pub closed spec fn spec_fallback_service_version(&self) -> Option<Seq<char>> {
        opt_str_view(self.fallback_service_version)
    }

    /// A detector with the given fallbacks.
    pub fn new(
        fallback_service_name: Option<&'static str>,
        fallback_service_version: Option<&'static str>,
    ) -> (r: Self)
        ensures
            r.spec_fallback_service_name() == opt_str_view(fallback_service_name),
            r.spec_fallback_service_version() == opt_str_view(fallback_service_version),
    {
        ServiceInfoDetector { fallback_service_name, fallback_service_version }
    }

    /// The resource holding the service name and version resolved from `env`,
    /// the process environment as (name, value) pairs, and the fallbacks; an
    /// attribute that neither gives is left out.
    pub fn detect(&self, env: &Vec<(String, String)>) -> (r: Resource)
        ensures
            resource_attributes(r) == service_attributes(
                resolved_service_name(env@, self.spec_fallback_service_name()),
                resolved_service_version(env@, self.spec_fallback_service_version()),
            ),
    {
        let name = resolve_service_name(env, self.fallback_service_name);
        let version = resolve_service_version(env, self.fallback_service_version);
        let mut attrs: Vec<(String, String)> = Vec::new();
        match name {
            Some(n) => attrs.push((service_name_key(), n)),
            None => {},
        }
        let ghost after_name = attrs@;
        match version {
            Some(v) => attrs.push((service_version_key(), v)),
            None => {},
        }
        proof {
            let with_name = match opt_view(name) {
                Some(n) => Map::empty().insert("service.name"@, n),
                None => Map::<Seq<char>, Seq<char>>::empty(),
            };
            if after_name.len() == 1 {
                assert(after_name.drop_last() =~= Seq::<(String, String)>::empty());
                assert(attribute_map(after_name.drop_last()) == Map::<Seq<char>, Seq<char>>::empty());
            } else {
                assert(after_name =~= Seq::<(String, String)>::empty());
            }
            assert(attribute_map(after_name) =~= with_name);
            if opt_view(version) is Some {
                assert(attrs@.drop_last() =~= after_name);
            } else {
                assert(attrs@ =~= after_name);
            }
        }
        resource_new(attrs)
    }
}

} // verus!
