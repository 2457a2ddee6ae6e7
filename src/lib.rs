use vstd::prelude::*;
use rand::RngCore;

mod dirs;

pub use dirs::{git_dir_path, git_walk_step, lemma_git_dir_trailing_slash, Walk, lemma_missing_home, lemma_override_joins_segment, lemma_override_precedence, config_dir, data_dir, get_current_dir, home_dir, in_git_repo, path_join, DirError};

verus! {

/// Relies on rand's thread_rng and RngCore::fill_bytes: the buffer keeps its size.
#[verifier::external_body]
fn fill_random<const N: usize>(buf: &mut [u8; N]) {
    rand::thread_rng().fill_bytes(buf);
}

/// A 128-bit identifier, read as a big-endian number, that carries version 7
/// and the RFC 4122 variant.
pub open spec fn is_v7_rfc4122(r: u128) -> bool {
    &&& (r >> 76u128) & 0xfu128 == 7u128
    &&& (r >> 62u128) & 0x3u128 == 2u128
}

/// Relies on uuid::Uuid::now_v7 and Uuid::as_u128: a fresh time-ordered identifier, whose
/// version field now_v7 sets to 7 and whose variant bits it sets to `10`.
#[verifier::external_body]
fn new_uuid_v7() -> (r: u128)
    ensures
        is_v7_rfc4122(r),
{
    uuid::Uuid::now_v7().as_u128()
}

/// A lowercase hexadecimal digit.
pub open spec fn is_lower_hex(c: char) -> bool {
    ('0' <= c && c <= '9') || ('a' <= c && c <= 'f')
}

/// Relies on uuid::Uuid::new_v4 and the Display of its simple form: 32 lowercase hex digits,
/// with the version digit `4` and a variant digit of `8`, `9`, `a` or `b`, which new_v4's mask fixes.
#[verifier::external_body]
fn new_uuid_v4_simple() -> (r: String)
    ensures
        r@.len() == 32,
        forall|i: int| 0 <= i < 32 ==> is_lower_hex(#[trigger] r@[i]),
        r@[12] == '4',
        r@[16] == '8' || r@[16] == '9' || r@[16] == 'a' || r@[16] == 'b',
{
    uuid::Uuid::new_v4().as_simple().to_string()
}

/// Fills an array of `N` bytes from the thread's random generator.
pub fn random_bytes<const N: usize>() -> (r: [u8; N])
    ensures
        r@.len() == N,
{
    let mut ret: [u8; N] = vstd::array::array_fill_for_copy_types(0u8);
    fill_random(&mut ret);
    ret
}

/// A new time-ordered identifier (version 7, RFC 4122 variant), as a big-endian 128-bit number.
pub fn uuid_v7() -> (r: u128)
    ensures
        is_v7_rfc4122(r),
{
    new_uuid_v7()
}

/// A new random identifier, in its 32-digit form without hyphens.
pub fn uuid_v4() -> (r: String)
    ensures
        r@.len() == 32,
        forall|i: int| 0 <= i < 32 ==> is_lower_hex(#[trigger] r@[i]),
        r@[12] == '4',
        r@[16] == '8' || r@[16] == '9' || r@[16] == 'a' || r@[16] == 'b',
{
    new_uuid_v4_simple()
}

} // verus!
