//! The outside types and calls that the verified code rests on. Nothing here
//! is proved: each item states what the outside source shows of the call.

use rand::Rng;
use tokio::sync::mpsc::Sender;
use tokio_util::sync::CancellationToken;
use vstd::prelude::*;
use vstd::utf8::{decode_utf8, valid_utf8};

verus! {

/// tokio's bounded channel sender, carried through the verified code as an
/// opaque value.
#[verifier::external_type_specification]
#[verifier::external_body]
#[verifier::reject_recursive_types(T)]
pub struct ExSender<T>(tokio::sync::mpsc::Sender<T>);

/// tokio-util's cancellation token, carried through the verified code as an
/// opaque value.
#[verifier::external_type_specification]
#[verifier::external_body]
pub struct ExCancellationToken(tokio_util::sync::CancellationToken);

/// Calls tokio's `Sender::clone`. The source builds the clone from a clone of
/// the one `Arc` that the sender holds, the channel itself (and counts one
/// sender more in the channel's shared state), so the clone sends into the
/// same channel and `same_channel` holds of the two; the clone is stated equal
/// to the original, which is all an opaque sender shows of it.
#[verifier::external_body]
pub(crate) fn clone_sender<T>(tx: &Sender<T>) -> (clone: Sender<T>)
    ensures
        clone == *tx,
{
    tx.clone()
}

/// Calls tokio-util's `CancellationToken::new`, which makes a fresh token that
/// is not cancelled. The token is opaque here, so nothing is stated of it.
#[verifier::external_body]
pub(crate) fn new_cancellation_token() -> CancellationToken {
    CancellationToken::new()
}

/// Calls tokio-util's `CancellationToken::clone`. The source builds the clone
/// from a clone of the token's one `Arc` (and counts one handle more in the
/// shared state), so the two are cancelled together and compare equal with
/// `==`; the clone is stated equal to the original, which is all an opaque
/// token shows of it.
#[verifier::external_body]
pub(crate) fn clone_cancellation_token(token: &CancellationToken) -> (clone: CancellationToken)
    ensures
        clone == *token,
{
    token.clone()
}

/// Calls rand's `Rng::random_range` on the thread-local generator with the
/// inclusive range `low..=high`. The source asserts that the range is not
/// empty (so `low <= high` is required) and returns a value inside it; which
/// value comes out is chance, and only the bounds are stated.
#[verifier::external_body]
pub(crate) fn random_in_range(low: u32, high: u32) -> (r: u32)
    requires
        low <= high,
    ensures
        low <= r <= high,
{
    rand::rng().random_range(low..=high)
}

/// What std's `String::from_utf8_lossy` makes of a byte sequence.
pub uninterp spec fn utf8_lossy(bytes: Seq<u8>) -> Seq<char>;

/// Calls std's `String::from_utf8_lossy` and takes the text as an owned
/// `String`. Its result is named by `utf8_lossy`; the one fact stated beside
/// the name is the documented one, that valid UTF-8 is decoded unchanged.
/// How invalid sequences are replaced by U+FFFD is left unsaid.
#[verifier::external_body]
pub(crate) fn string_from_utf8_lossy(bytes: &[u8]) -> (text: String)
    ensures
        text@ == utf8_lossy(bytes@),
        valid_utf8(bytes@) ==> text@ == decode_utf8(bytes@),
{
    String::from_utf8_lossy(bytes).into_owned()
}

} // verus!
