//! Webhook-driven deployment pipeline engine.
//!
//! An inbound trigger event is matched against per-repository deployment
//! plans; a matching plan's ordered step list is executed, locally or over a
//! secure shell, with layered environment composition, short-circuit on
//! failure, and log persistence feeding a notification step.
//!
//! This crate holds the verified engine: plan and step data model, trigger
//! matching, environment composition, step launch planning, pipeline
//! short-circuit semantics, log persistence planning, and webhook signature
//! verification.  Process spawning, the secure-shell transport, the HTTP
//! listener and the notification backends are thin unverified shells around
//! these functions.

pub mod config;
pub mod executor;
pub mod gitea;
pub mod logs;
pub mod pipeline;
pub mod ssh;
pub mod environment;
pub mod text;
pub mod trigger;

use rand::Rng;
use vstd::prelude::*;

verus! {

/// True of a byte that is an ASCII letter or digit.
pub open spec fn is_alphanumeric_byte(b: u8) -> bool {
    (0x30 <= b <= 0x39) || (0x41 <= b <= 0x5a) || (0x61 <= b <= 0x7a)
}

/// True of a character that is an ASCII letter or digit.
pub open spec fn is_alphanumeric_char(c: char) -> bool {
    ('0' <= c && c <= '9') || ('A' <= c && c <= 'Z') || ('a' <= c && c <= 'z')
}

/// Relies on rand: sampling the `Alphanumeric` distribution returns one byte
/// drawn from `A-Z`, `a-z`, `0-9`.
#[verifier::external_body]
fn sample_alphanumeric() -> (b: u8)
    ensures
        is_alphanumeric_byte(b),
{
    rand::thread_rng().sample(rand::distributions::Alphanumeric)
}

/// A randomized file-name fragment: `len` ASCII letters and digits.
///
/// Used for per-run log directories and remote temporary script names; the
/// result never contains a path separator.
pub fn tmp_filename(len: usize) -> (r: String)
    ensures
        r@.len() == len,
        forall|i: int| 0 <= i < r@.len() ==> is_alphanumeric_char(#[trigger] r@[i]),
        text::slash_free(r@),
{
    let mut r = String::new();
    let mut i: usize = 0;
    while i < len
        invariant
            i <= len,
            r@.len() == i,
            forall|j: int| 0 <= j < r@.len() ==> is_alphanumeric_char(#[trigger] r@[j]),
        decreases len - i,
    {
        let b = sample_alphanumeric();
        text::push_char(&mut r, b as char);
        i = i + 1;
    }
    r
}

} // verus!
