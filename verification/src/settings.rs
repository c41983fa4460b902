//! Resolution of extension-scoped configuration values.
//!
//! The host owns the settings store; the adapter receives the values as plain
//! `(key, value)` pairs and performs read-only point lookups on them.

use vstd::prelude::*;

use crate::model::{AdapterError, Setting};
use crate::text::str_eq;

verus! {

/// The first value stored under `key`, scanning front to back.
pub open spec fn lookup(s: Seq<Setting>, key: Seq<char>) -> Option<Seq<char>>
    decreases s.len(),
{
    if s.len() == 0 {
        None
    } else if s[0].key@ == key {
        Some(s[0].value@)
    } else {
        lookup(s.subrange(1, s.len() as int), key)
    }
}

/// Looks `key` up in the resolved settings; absent keys are refused with
/// `MissingSetting` rather than a fallback, so callers must decide what a
/// missing value means.
pub fn resolve_setting(settings: &Vec<Setting>, key: &str) -> (r: Result<String, AdapterError>)
    ensures
        match r {
            Ok(v) => lookup(settings@, key@) == Some(v@),
            Err(e) => e == AdapterError::MissingSetting && lookup(settings@, key@) is None,
        },
{
    let n = settings.len();
    let mut i: usize = 0;
    proof {
        assert(settings@.subrange(0, n as int) =~= settings@);
    }
    while i < n
        invariant
            n == settings@.len(),
            0 <= i <= n,
            lookup(settings@, key@) == lookup(settings@.subrange(i as int, n as int), key@),
        decreases n - i,
    {
        proof {
            let tail = settings@.subrange(i as int, n as int);
            assert(tail[0] == settings@[i as int]);
            assert(tail.subrange(1, tail.len() as int) =~= settings@.subrange(
                i as int + 1,
                n as int,
            ));
        }
        if str_eq(settings[i].key.as_str(), key) {
            return Ok(settings[i].value.clone());
        }
        i = i + 1;
    }
    proof {
        assert(settings@.subrange(n as int, n as int) =~= Seq::<Setting>::empty());
    }
    Err(AdapterError::MissingSetting)
}

/// The display name of the configured starter: the value of `starter`, unless
/// that value is `other`, in which case the value of `other-pokemon`; `None`
/// when the needed value is absent.
pub open spec fn starter_of(s: Seq<Setting>) -> Option<Seq<char>> {
    match lookup(s, "starter"@) {
        None => None,
        Some(v) => if v == "other"@ {
            lookup(s, "other-pokemon"@)
        } else {
            Some(v)
        },
    }
}

/// Resolves the starter's display name from the settings, refusing with
/// `MissingSetting` exactly when `starter_of` has no value.
pub fn starter_name(settings: &Vec<Setting>) -> (r: Result<String, AdapterError>)
    ensures
        match r {
            Ok(v) => starter_of(settings@) == Some(v@),
            Err(e) => e == AdapterError::MissingSetting && starter_of(settings@) is None,
        },
{
    let starter = match resolve_setting(settings, "starter") {
        Ok(v) => v,
        Err(e) => {
            return Err(e);
        },
    };
    if str_eq(starter.as_str(), "other") {
        resolve_setting(settings, "other-pokemon")
    } else {
        Ok(starter)
    }
}

} // verus!
