//! The shared handles through which a server and its running spam tasks talk:
//! the live priority ratio and the stop signal.
use tokio::sync::watch;
use tokio_util::sync::CancellationToken;
use vstd::prelude::*;

verus! {

/// Declares the writing end of the live priority ratio.
#[verifier::external_type_specification]
#[verifier::external_body]
#[verifier::reject_recursive_types(T)]
pub struct ExWatchSender<T>(watch::Sender<T>);

/// Declares the reading end of the live priority ratio.
#[verifier::external_type_specification]
#[verifier::external_body]
#[verifier::reject_recursive_types(T)]
pub struct ExWatchReceiver<T>(watch::Receiver<T>);

/// Declares the stop signal.
#[verifier::external_type_specification]
#[verifier::external_body]
pub struct ExCancellationToken(CancellationToken);

/// The value that was put into the channel last through `sender`; at first, the
/// value that the channel was made with.
pub uninterp spec fn sent_pct(sender: watch::Sender<u8>) -> u8;

/// Whether `sender` and `receiver` are the ends of one channel.
pub uninterp spec fn feeds(sender: watch::Sender<u8>, receiver: watch::Receiver<u8>) -> bool;

/// Whether the channel of `receiver` holds `pct` at some time.
pub uninterp spec fn held_pct(receiver: watch::Receiver<u8>, pct: u8) -> bool;

/// Whether the token was cancelled through this handle, or through the handle
/// that this one was cloned from before it was cloned.
pub uninterp spec fn cancelled_through(token: CancellationToken) -> bool;

/// Whether the token of this handle is cancelled at some time, through whichever
/// handle.
pub uninterp spec fn ever_cancelled(token: CancellationToken) -> bool;

/// Whether two handles stand for one token, as `CancellationToken::eq` tells:
/// cancelling one always cancels the other.
pub uninterp spec fn same_token(a: CancellationToken, b: CancellationToken) -> bool;

/// `watch::channel`: the two ends of a new channel that holds `pct`.
#[verifier::external_body]
pub(crate) fn ratio_channel(pct: u8) -> (ends: (watch::Sender<u8>, watch::Receiver<u8>))
    ensures
        sent_pct(ends.0) == pct,
        feeds(ends.0, ends.1),
        held_pct(ends.1, pct),
{
    watch::channel(pct)
}

/// `watch::Sender::send_replace`: puts `pct` into the channel, also when nobody
/// reads it. The sender keeps feeding the receivers that it fed, and their
/// channel now holds `pct`.
#[verifier::external_body]
pub(crate) fn replace_pct(sender: &mut watch::Sender<u8>, pct: u8)
    ensures
        sent_pct(*final(sender)) == pct,
        forall|receiver: watch::Receiver<u8>|
            #![trigger feeds(*final(sender), receiver)]
            {
                &&& feeds(*final(sender), receiver) == feeds(*old(sender), receiver)
                &&& feeds(*final(sender), receiver) ==> held_pct(receiver, pct)
            },
{
    sender.send_replace(pct);
}

/// `watch::Receiver::borrow`: the value that the channel holds at the moment.
/// Which of the values that were sent this is, is not claimed, because another
/// task may send at any moment.
#[verifier::external_body]
pub(crate) fn current_pct(ratio: &watch::Receiver<u8>) -> (pct: u8)
    ensures
        held_pct(*ratio, pct),
{
    *ratio.borrow()
}

/// `CancellationToken::new`: a token that nobody has cancelled.
#[verifier::external_body]
pub(crate) fn new_token() -> (token: CancellationToken)
    ensures
        !cancelled_through(token),
{
    CancellationToken::new()
}

/// `CancellationToken::clone`: another handle of the same token.
#[verifier::external_body]
pub(crate) fn clone_token(token: &CancellationToken) -> (handle: CancellationToken)
    ensures
        same_token(*token, handle),
        cancelled_through(handle) == cancelled_through(*token),
        ever_cancelled(handle) == ever_cancelled(*token),
{
    token.clone()
}

/// `CancellationToken::cancel`: cancels the token, for all of its handles. The
/// handle stays a handle of the same token.
#[verifier::external_body]
pub(crate) fn cancel_token(token: &mut CancellationToken)
    ensures
        cancelled_through(*final(token)),
        ever_cancelled(*final(token)),
        forall|other: CancellationToken|
            #![trigger same_token(*final(token), other)]
            {
                &&& same_token(*final(token), other) == same_token(*old(token), other)
                &&& same_token(*final(token), other) ==> ever_cancelled(other)
            },
{
    token.cancel();
}

/// `CancellationToken::is_cancelled`. A token that was cancelled stays so, and a
/// token that nobody ever cancels is not cancelled. When a cancellation through
/// another handle is seen is not claimed, because another task may cancel the
/// token at any moment.
#[verifier::external_body]
pub(crate) fn token_is_cancelled(token: &CancellationToken) -> (cancelled: bool)
    ensures
        cancelled_through(*token) ==> cancelled,
        cancelled ==> ever_cancelled(*token),
{
    token.is_cancelled()
}

} // verus!
