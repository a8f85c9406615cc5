//! Naming the cache entries of the cache-aside store.

use vstd::prelude::*;

verus! {

/// What every cache key starts with.
pub open spec fn key_prefix() -> Seq<char> {
    "health-data:"@
}

/// The cache key of the container `name`.
pub open spec fn key_of(name: Seq<char>) -> Seq<char> {
    key_prefix() + name
}

/// Two containers share a cache key only if they share their name.
pub proof fn lemma_key_names_one_container(a: Seq<char>, b: Seq<char>)
    requires
        key_of(a) == key_of(b),
    ensures
        a == b,
{
    let n = key_prefix().len() as int;
    assert(key_of(a).subrange(n, key_of(a).len() as int) =~= a);
    assert(key_of(b).subrange(n, key_of(b).len() as int) =~= b);
}

/// The cache key of the container `name`: `health-data:` and the name.
pub fn cache_key(name: &str) -> (key: String)
    ensures
        key@ == key_of(name@),
{
    let mut key = String::from_str("health-data:");
    key.append(name);
    key
}

} // verus!
