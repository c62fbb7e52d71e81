//! The two caches: what is kept in them, under which key and for how long.
//!
//! The status cache and the image store are services of their own; the
//! crate decides what they are asked and told. Both keep an entry for a
//! fixed number of seconds from the moment it was stored, each on its own:
//! the end of one entry's time says nothing of another's. The store model
//! here states that rule, so that what follows from the crate's decisions
//! can be proved.

use crate::text::{decimal, decimal_digits, lemma_decimal_digits_injective};
use vstd::prelude::*;
use vstd::string::StringExecFns;

verus! {

/// The seconds for which a stored status response counts as fresh.
pub const STATUS_MAX_AGE: u16 = 300;

/// The seconds for which a stored image is kept.
pub const IMAGE_TTL: u64 = 300;

/// The address of the upstream status feed, which is also the key of the
/// status cache.
pub open spec fn status_url_text() -> Seq<char> {
    "https://gamemakerserver.com/dynamic/status.php"@
}

/// The cache directive that a stored status response carries.
pub open spec fn status_cache_control_text() -> Seq<char> {
    "public, max-age="@ + decimal_digits(STATUS_MAX_AGE as nat)
}

/// The key of a game's image in the image store: the game's number in
/// decimal.
pub open spec fn image_key_text(game_id: u16) -> Seq<char> {
    decimal_digits(game_id as nat)
}

/// The address of the upstream status feed.
pub fn status_url() -> (url: String)
    ensures
        url@ == status_url_text(),
{
    "https://gamemakerserver.com/dynamic/status.php".to_owned()
}

/// The cache directive that a stored status response carries.
pub fn status_cache_control() -> (directive: String)
    ensures
        directive@ == status_cache_control_text(),
{
    let mut directive = "public, max-age=".to_owned();
    let seconds = decimal(STATUS_MAX_AGE);
    directive.append(seconds.as_str());
    directive
}

/// The key of a game's image in the image store.
pub fn image_key(game_id: u16) -> (key: String)
    ensures
        key@ == image_key_text(game_id),
{
    decimal(game_id)
}

/// No two games share a key.
pub proof fn lemma_image_key_injective(a: u16, b: u16)
    requires
        image_key_text(a) == image_key_text(b),
    ensures
        a == b,
{
    lemma_decimal_digits_injective(a as nat, b as nat);
}

/// An image as it is handed to the image store.
#[derive(Debug)]
pub struct CachedImageEntry {
    pub key: String,
    pub value: Vec<u8>,
    pub ttl: u64,
}

/// The mathematical content of an image entry.
pub struct ImageEntry {
    pub key: Seq<char>,
    pub value: Seq<u8>,
    pub ttl: nat,
}

impl View for CachedImageEntry {
    type V = ImageEntry;

    open spec fn view(&self) -> ImageEntry {
        ImageEntry { key: self.key@, value: self.value@, ttl: self.ttl as nat }
    }
}

/// What a store holds under one key: a value, the second at which it was
/// stored, and the seconds it is kept for.
pub struct Kept<V> {
    pub value: V,
    pub stored_at: nat,
    pub ttl: nat,
}

/// Whether an entry is still served at the second `now`.
pub open spec fn fresh<V>(kept: Kept<V>, now: nat) -> bool {
    kept.stored_at <= now <= kept.stored_at + kept.ttl
}

/// What a store answers when asked for `key` at the second `now`.
pub open spec fn lookup<V>(store: Map<Seq<char>, Kept<V>>, key: Seq<char>, now: nat) -> Option<V> {
    if store.contains_key(key) && fresh(store[key], now) {
        Some(store[key].value)
    } else {
        None
    }
}

/// The store after `value` was stored under `key` at the second `now`, to
/// be kept for `ttl` seconds. What was there under that key is replaced.
pub open spec fn put<V>(
    store: Map<Seq<char>, Kept<V>>,
    key: Seq<char>,
    value: V,
    ttl: nat,
    now: nat,
) -> Map<Seq<char>, Kept<V>> {
    store.insert(key, Kept { value, stored_at: now, ttl })
}

/// A stored entry is served until its time is over, and not after.
pub proof fn lemma_put_then_lookup<V>(
    store: Map<Seq<char>, Kept<V>>,
    key: Seq<char>,
    value: V,
    ttl: nat,
    stored_at: nat,
    now: nat,
)
    requires
        stored_at <= now,
    ensures
        now <= stored_at + ttl ==> lookup(put(store, key, value, ttl, stored_at), key, now)
            == Some(value),
        now > stored_at + ttl ==> lookup(put(store, key, value, ttl, stored_at), key, now)
            is None,
{
}

/// Storing under one key leaves what is served under every other key as it
/// was: an entry's time does not depend on another's.
pub proof fn lemma_put_leaves_others<V>(
    store: Map<Seq<char>, Kept<V>>,
    key: Seq<char>,
    value: V,
    ttl: nat,
    stored_at: nat,
    other: Seq<char>,
    now: nat,
)
    requires
        other != key,
    ensures
        lookup(put(store, key, value, ttl, stored_at), other, now) == lookup(store, other, now),
{
}

} // verus!
