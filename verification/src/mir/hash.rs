//! The 64-bit hash that scope salts and mangled identifiers are made with.
//!
//! The digests come from `rustc_hash::FxHasher`. Nothing is proved of their
//! values: each digest is named, and the library's contracts say which digest
//! of which inputs a salt or an identifier is. FxHasher is not seeded, so one
//! build of the library gives the same digest for the same inputs in every
//! run; it reads its input in machine words, so builds for another pointer
//! width or byte order give other digests.
use rustc_hash::FxHasher;
use std::hash::Hasher;
use vstd::prelude::*;

verus! {

/// The byte that closes every piece of text fed to the hasher. It cannot
/// occur in UTF-8, so two texts in a row never read like two others.
pub const SENTINEL: u8 = 0xFF;

/// What a fresh `FxHasher` returns from `finish` after `write` of the UTF-8
/// bytes of `text` and `write_u8` of `mark`.
pub uninterp spec fn text_digest(text: Seq<char>, mark: u8) -> u64;

/// What a fresh `FxHasher` returns from `finish` after `write_u64` of `seed`,
/// `write` of the UTF-8 bytes of `text` and `write_u8` of `mark`.
pub uninterp spec fn seeded_text_digest(seed: u64, text: Seq<char>, mark: u8) -> u64;

/// What a fresh `FxHasher` returns from `finish` after `write_u64` of `seed`
/// and `write_usize` of `index`.
pub uninterp spec fn seeded_index_digest(seed: u64, index: usize) -> u64;

/// Runs `FxHasher::default`, `write`, `write_u8` and `finish`. The hasher
/// starts from a fixed state and mixes in only what is written to it, so the
/// digest depends on `text` and `mark` alone.
#[verifier::external_body]
pub(crate) fn fx_text(text: &str, mark: u8) -> (digest: u64)
    ensures
        digest == text_digest(text@, mark),
{
    let mut hasher = FxHasher::default();
    hasher.write(text.as_bytes());
    hasher.write_u8(mark);
    hasher.finish()
}

/// Runs `FxHasher::default`, `write_u64`, `write`, `write_u8` and `finish`.
/// The digest depends on `seed`, `text` and `mark` alone.
#[verifier::external_body]
pub(crate) fn fx_seeded_text(seed: u64, text: &str, mark: u8) -> (digest: u64)
    ensures
        digest == seeded_text_digest(seed, text@, mark),
{
    let mut hasher = FxHasher::default();
    hasher.write_u64(seed);
    hasher.write(text.as_bytes());
    hasher.write_u8(mark);
    hasher.finish()
}

/// Runs `FxHasher::default`, `write_u64`, `write_usize` and `finish`. The
/// digest depends on `seed` and `index` alone.
#[verifier::external_body]
pub(crate) fn fx_seeded_index(seed: u64, index: usize) -> (digest: u64)
    ensures
        digest == seeded_index_digest(seed, index),
{
    let mut hasher = FxHasher::default();
    hasher.write_u64(seed);
    hasher.write_usize(index);
    hasher.finish()
}

/// The salt of the root scope of a package.
pub open spec fn root_salt(package: Seq<char>) -> u64 {
    text_digest(package, SENTINEL)
}

/// The salt of the scope named `name` under the scope with salt `parent`;
/// also the identifier of a name declared in that parent scope.
pub open spec fn named_salt(parent: u64, name: Seq<char>) -> u64 {
    seeded_text_digest(parent, name, SENTINEL)
}

/// The salt of the anonymous scope that is child number `index` of the scope
/// with salt `parent`.
pub open spec fn anonymous_salt(parent: u64, index: usize) -> u64 {
    seeded_index_digest(parent, index)
}

} // verus!
