//! The quote cache in Redis: under which key a quote is kept, and for how
//! long.

use vstd::prelude::*;

verus! {

/// How long a stored quote stays in the cache: one week, in seconds.
pub const QUOTE_TTL_SECONDS: i64 = 3600 * 24 * 7;

/// How many connections the Redis pool holds at most.
pub const REDIS_POOL_SIZE: usize = 16;

/// The cache key of the quote of `base` in `quote` on `date`:
/// `<date>_<base>_<quote>`.
pub open spec fn key_of(date: Seq<char>, base: Seq<char>, quote: Seq<char>) -> Seq<char> {
    date + seq!['_'] + base + seq!['_'] + quote
}

/// `s` holds no `_`.
pub open spec fn no_underscore(s: Seq<char>) -> bool {
    forall|i: int| 0 <= i < s.len() ==> #[trigger] s[i] != '_'
}

/// The number of seconds that Redis is told to keep an entry for a time to
/// live of `ttl`: the bits of `ttl` read as unsigned, so a negative `ttl`
/// becomes `ttl + 2^64`.
pub open spec fn expiry_of(ttl: int) -> int {
    if ttl >= 0 {
        ttl
    } else {
        ttl + 0x1_0000_0000_0000_0000
    }
}

/// The cache key of the quote of `base` in `quote` on `date`.
pub fn cache_key(date: &str, base: &str, quote: &str) -> (res: String)
    ensures
        res@ == key_of(date@, base@, quote@),
        res@ == date@ + seq!['_'] + base@ + seq!['_'] + quote@,
{
    proof {
        reveal_strlit("_");
    }
    let mut key = String::from_str(date);
    key.append("_");
    key.append(base);
    key.append("_");
    key.append(quote);
    key
}

/// The expiry, in seconds, that goes with a time to live of `ttl` seconds.
pub fn expiry_seconds(ttl: i64) -> (res: u64)
    ensures
        res as int == expiry_of(ttl as int),
{
    let res = ttl as u64;
    assert(ttl >= 0 ==> res == ttl) by (bit_vector)
        requires
            res == ttl as u64,
    ;
    assert(ttl < 0 ==> res as int == ttl as int + 0x1_0000_0000_0000_0000) by (bit_vector)
        requires
            res == ttl as u64,
    ;
    res
}

/// One write to the cache: store `value` under `key` for `seconds`.
pub struct CacheWrite {
    pub key: String,
    pub value: String,
    pub seconds: u64,
}

/// The write that stores `value`, the serialised quote of `base` in `quote`
/// on `date`, for a time to live of `ttl` seconds.
pub fn cache_write(date: &str, base: &str, quote: &str, value: String, ttl: i64) -> (res: CacheWrite)
    ensures
        res.key@ == key_of(date@, base@, quote@),
        res.key@ == date@ + seq!['_'] + base@ + seq!['_'] + quote@,
        res.value@ == value@,
        res.seconds as int == expiry_of(ttl as int),
{
    CacheWrite { key: cache_key(date, base, quote), value, seconds: expiry_seconds(ttl) }
}

/// The layout of a key: the date, a `_`, the base currency, a `_`, the quote
/// currency, and nothing else.
pub proof fn lemma_key_layout(date: Seq<char>, base: Seq<char>, quote: Seq<char>)
    ensures
        key_of(date, base, quote).len() == date.len() + base.len() + quote.len() + 2,
        key_of(date, base, quote).subrange(0, date.len() as int) == date,
        key_of(date, base, quote)[date.len() as int] == '_',
        key_of(date, base, quote).subrange(date.len() as int + 1, date.len() as int + 1 + base.len()) == base,
        key_of(date, base, quote)[date.len() as int + 1 + base.len()] == '_',
        key_of(date, base, quote).subrange(
            date.len() as int + base.len() + 2,
            date.len() as int + base.len() + quote.len() + 2,
        ) == quote,
{
    let k = key_of(date, base, quote);
    assert(k.subrange(0, date.len() as int) =~= date);
    assert(k.subrange(date.len() as int + 1, date.len() as int + 1 + base.len()) =~= base);
    assert(k.subrange(date.len() as int + base.len() + 2, date.len() as int + base.len() + quote.len() + 2) =~= quote);
}

/// Keys tell quotes apart: when neither date nor base currency holds a `_`,
/// two quotes with the same cache key have the same date, base and quote
/// currency.
pub proof fn lemma_key_injective(
    d1: Seq<char>,
    b1: Seq<char>,
    q1: Seq<char>,
    d2: Seq<char>,
    b2: Seq<char>,
    q2: Seq<char>,
)
    requires
        no_underscore(d1),
        no_underscore(b1),
        no_underscore(d2),
        no_underscore(b2),
        key_of(d1, b1, q1) == key_of(d2, b2, q2),
    ensures
        d1 == d2,
        b1 == b2,
        q1 == q2,
{
    let k = key_of(d1, b1, q1);
    assert(k == key_of(d2, b2, q2));
    // the first `_` of the key ends the date
    if d1.len() < d2.len() {
        assert(k[d1.len() as int] == '_');
        assert(k[d1.len() as int] == d2[d1.len() as int]);
        assert(false);
    }
    if d2.len() < d1.len() {
        assert(k[d2.len() as int] == '_');
        assert(k[d2.len() as int] == d1[d2.len() as int]);
        assert(false);
    }
    assert(d1 =~= k.subrange(0, d1.len() as int));
    assert(d2 =~= k.subrange(0, d2.len() as int));
    let o: int = d1.len() as int + 1;
    // the next `_` ends the base currency
    if b1.len() < b2.len() {
        assert(k[o + b1.len()] == '_');
        assert(k[o + b1.len()] == b2[b1.len() as int]);
        assert(false);
    }
    if b2.len() < b1.len() {
        assert(k[o + b2.len()] == '_');
        assert(k[o + b2.len()] == b1[b2.len() as int]);
        assert(false);
    }
    assert(b1 =~= k.subrange(o, o + b1.len()));
    assert(b2 =~= k.subrange(o, o + b2.len()));
    let r: int = o + b1.len() + 1;
    assert(q1 =~= k.subrange(r, k.len() as int));
    assert(q2 =~= k.subrange(r, k.len() as int));
}

} // verus!
