//! Cache keys: a namespace, a resource identifier and an optional variant.

use vstd::prelude::*;

verus! {

/// Namespace of the aggregated league leaderboard.
pub const LEADERBOARD_NAMESPACE: &'static str = "leaderboard";

/// Namespace of rendered profile cards.
pub const TETO_NAMESPACE: &'static str = "teto_image_cache";

/// The text an optional string holds.
pub open spec fn option_view<S: View<V = Seq<char>>>(o: Option<S>) -> Option<Seq<char>> {
    match o {
        None => None,
        Some(s) => Some(s@),
    }
}

/// `namespace/id`, followed by `?variant` when there is one.
pub open spec fn key_of(namespace: Seq<char>, id: Seq<char>, variant: Option<Seq<char>>) -> Seq<
    char,
> {
    match variant {
        None => namespace + "/"@ + id,
        Some(v) => namespace + "/"@ + id + "?"@ + v,
    }
}

/// The cache key for `id` under `namespace`, narrowed by `variant`.
pub fn cache_key(namespace: &str, id: &str, variant: Option<&str>) -> (r: String)
    ensures
        r@ == key_of(namespace@, id@, option_view(variant)),
{
    let mut key = String::from_str(namespace);
    key.append("/");
    key.append(id);
    match variant {
        None => {},
        Some(v) => {
            key.append("?");
            key.append(v);
        },
    }
    key
}

/// The variant of the leaderboard key for a country filter.
pub open spec fn country_variant(country: Option<Seq<char>>) -> Option<Seq<char>> {
    match country {
        None => None,
        Some(c) => Some("country="@ + c),
    }
}

/// The key of the whole league leaderboard, narrowed to `country` when given.
pub fn leaderboard_key(country: &Option<String>) -> (r: String)
    ensures
        r@ == key_of(
            LEADERBOARD_NAMESPACE@,
            "global"@,
            country_variant(option_view(*country)),
        ),
{
    match country {
        None => cache_key(LEADERBOARD_NAMESPACE, "global", None),
        Some(c) => {
            let mut variant = String::from_str("country=");
            variant.append(c.as_str());
            cache_key(LEADERBOARD_NAMESPACE, "global", Some(variant.as_str()))
        },
    }
}

/// The key of the rendered profile card of `user`.
pub fn teto_key(user: &str) -> (r: String)
    ensures
        r@ == key_of(TETO_NAMESPACE@, user@, None),
{
    cache_key(TETO_NAMESPACE, user, None)
}

/// Two country filters that differ give two leaderboard keys that differ, so
/// the aggregates of different countries never share an entry.
pub proof fn lemma_leaderboard_keys_distinct(a: Option<Seq<char>>, b: Option<Seq<char>>)
    requires
        a != b,
    ensures
        key_of(LEADERBOARD_NAMESPACE@, "global"@, country_variant(a)) != key_of(
            LEADERBOARD_NAMESPACE@,
            "global"@,
            country_variant(b),
        ),
{
    let base = LEADERBOARD_NAMESPACE@ + "/"@ + "global"@;
    let tag = "?"@ + "country="@;
    match (a, b) {
        (Some(x), Some(y)) => {
            let kx = key_of(LEADERBOARD_NAMESPACE@, "global"@, country_variant(a));
            let ky = key_of(LEADERBOARD_NAMESPACE@, "global"@, country_variant(b));
            assert(kx =~= base + tag + x);
            assert(ky =~= base + tag + y);
            let n = (base + tag).len();
            if kx == ky {
                assert(x =~= kx.subrange(n as int, kx.len() as int));
                assert(y =~= ky.subrange(n as int, ky.len() as int));
            }
        },
        (None, Some(y)) => {
            reveal_strlit("?");
            assert(key_of(LEADERBOARD_NAMESPACE@, "global"@, country_variant(b)).len() > base.len());
        },
        (Some(x), None) => {
            reveal_strlit("?");
            assert(key_of(LEADERBOARD_NAMESPACE@, "global"@, country_variant(a)).len() > base.len());
        },
        (None, None) => {},
    }
}

} // verus!
