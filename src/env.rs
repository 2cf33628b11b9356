//! Lookup in a snapshot of the process environment, and the precedence rules
//! for the service name and version.

use vstd::prelude::*;

verus! {

/// Variables consulted for `service.name`, in order of precedence.
pub const OTEL_SERVICE_NAME: &'static str = "OTEL_SERVICE_NAME";

pub const SERVICE_NAME: &'static str = "SERVICE_NAME";

pub const APP_NAME: &'static str = "APP_NAME";

/// Variables consulted for `service.version`, in order of precedence.
pub const SERVICE_VERSION: &'static str = "SERVICE_VERSION";

pub const APP_VERSION: &'static str = "APP_VERSION";

/// Value of the first entry of `env` named `name`, if any.
pub open spec fn env_value(env: Seq<(String, String)>, name: Seq<char>) -> Option<Seq<char>>
    decreases env.len(),
{
    if env.len() == 0 {
        None
    } else if env[0].0@ == name {
        Some(env[0].1@)
    } else {
        env_value(env.drop_first(), name)
    }
}

/// `first` when it is present, else `second`.
pub open spec fn or_else(first: Option<Seq<char>>, second: Option<Seq<char>>) -> Option<Seq<char>> {
    match first {
        Some(v) => Some(v),
        None => second,
    }
}

/// The service name: the first of `OTEL_SERVICE_NAME`, `SERVICE_NAME`,
/// `APP_NAME` that is set, else the fallback, else nothing.
pub open spec fn resolved_service_name(
    env: Seq<(String, String)>,
    fallback: Option<Seq<char>>,
) -> Option<Seq<char>> {
    or_else(
        env_value(env, OTEL_SERVICE_NAME@),
        or_else(env_value(env, SERVICE_NAME@), or_else(env_value(env, APP_NAME@), fallback)),
    )
}

/// The service version: the first of `SERVICE_VERSION`, `APP_VERSION` that is
/// set, else the fallback, else nothing.
pub open spec fn resolved_service_version(
    env: Seq<(String, String)>,
    fallback: Option<Seq<char>>,
) -> Option<Seq<char>> {
    or_else(env_value(env, SERVICE_VERSION@), or_else(env_value(env, APP_VERSION@), fallback))
}

/// View of an optional string.
pub open spec fn opt_view(o: Option<String>) -> Option<Seq<char>> {
    match o {
        Some(s) => Some(s@),
        None => None,
    }
}

/// View of an optional string slice.
pub open spec fn opt_str_view(o: Option<&str>) -> Option<Seq<char>> {
    match o {
        Some(s) => Some(s@),
        None => None,
    }
}

proof fn lemma_env_value_step(env: Seq<(String, String)>, name: Seq<char>, i: int)
    requires
        0 <= i < env.len(),
    ensures
        env_value(env.subrange(i, env.len() as int), name) == if env[i].0@ == name {
            Some(env[i].1@)
        } else {
            env_value(env.subrange(i + 1, env.len() as int), name)
        },
{
    let tail = env.subrange(i, env.len() as int);
    assert(tail.drop_first() =~= env.subrange(i + 1, env.len() as int));
}

/// Looks `name` up in `env`, a snapshot of the environment as (name, value)
/// pairs; the first pair with that name gives the value.
pub fn env_var(env: &Vec<(String, String)>, name: &str) -> (r: Option<String>)
    ensures
        opt_view(r) == env_value(env@, name@),
{
    let key = String::from_str(name);
    let mut i: usize = 0;
    proof {
        assert(env@.subrange(0, env@.len() as int) =~= env@);
    }
    while i < env.len()
        invariant
            0 <= i <= env@.len(),
            key@ == name@,
            env_value(env@, name@) == env_value(env@.subrange(i as int, env@.len() as int), name@),
        decreases env.len() - i,
    {
        proof {
            lemma_env_value_step(env@, name@, i as int);
        }
        if env[i].0 == key {
            return Some(env[i].1.clone());
        }
        i = i + 1;
    }
    None
}

/// `first` when it is present, else `second`.
fn first_of(first: Option<String>, second: Option<String>) -> (r: Option<String>)
    ensures
        opt_view(r) == or_else(opt_view(first), opt_view(second)),
{
    match first {
        Some(v) => Some(v),
        None => second,
    }
}

/// Optional owned copy of an optional string slice.
fn owned(o: Option<&str>) -> (r: Option<String>)
    ensures
        opt_view(r) == opt_str_view(o),
{
    match o {
        Some(s) => Some(String::from_str(s)),
        None => None,
    }
}

/// Resolves `service.name` from `env`, then from `fallback`.
pub fn resolve_service_name(env: &Vec<(String, String)>, fallback: Option<&str>) -> (r: Option<String>)
    ensures
        opt_view(r) == resolved_service_name(env@, opt_str_view(fallback)),
{
    first_of(
        env_var(env, OTEL_SERVICE_NAME),
        first_of(env_var(env, SERVICE_NAME), first_of(env_var(env, APP_NAME), owned(fallback))),
    )
}

/// Resolves `service.version` from `env`, then from `fallback`.
pub fn resolve_service_version(env: &Vec<(String, String)>, fallback: Option<&str>) -> (r: Option<String>)
    ensures
        opt_view(r) == resolved_service_version(env@, opt_str_view(fallback)),
{
    first_of(env_var(env, SERVICE_VERSION), first_of(env_var(env, APP_VERSION), owned(fallback)))
}

} // verus!
