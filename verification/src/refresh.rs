//! The handoff between the worker that fetches everything anew and the session
//! that waits for it.

use crate::repository_list::{RepositoryList, RepositoryListView};
use std::sync::mpsc::{Receiver, TryRecvError};
use vstd::prelude::*;

verus! {

/// `std::sync::mpsc::Receiver`, the receiving end of a channel.
#[verifier::external_type_specification]
#[verifier::external_body]
#[verifier::reject_recursive_types(T)]
pub struct ExReceiver<T>(Receiver<T>);

/// What the worker sends when it is done: the new list, or the message of the
/// error that stopped it.
pub type RefreshResult = Result<RepositoryList, String>;

/// The pause between two looks into the channel, in milliseconds.
pub const POLL_INTERVAL_MS: u64 = 200;

/// What a look into the channel finds.
pub enum RefreshPoll {
    /// The worker has sent its result.
    Ready(RefreshResult),
    /// The worker is still at work.
    Pending,
    /// The worker is gone and has sent nothing.
    Lost,
}

/// What a look into the channel finds, with the list and the message as values.
pub enum PollView {
    Loaded(RepositoryListView),
    Failed(Seq<char>),
    Pending,
    Lost,
}

impl View for RefreshPoll {
    type V = PollView;

    open spec fn view(&self) -> PollView {
        match self {
            RefreshPoll::Ready(Ok(list)) => PollView::Loaded(list@),
            RefreshPoll::Ready(Err(message)) => PollView::Failed(message@),
            RefreshPoll::Pending => PollView::Pending,
            RefreshPoll::Lost => PollView::Lost,
        }
    }
}

/// What the session did with a look into the channel.
#[derive(Debug, Clone, Copy, PartialEq, Eq, Structural)]
pub enum RefreshStep {
    /// No refresh is under way: nothing was done.
    Idle,
    /// The worker is still at work: the busy indicator moved on. Draw, pause, look again.
    Waiting,
    /// The new list was taken over.
    Adopted,
    /// The refresh failed; the session goes on with the list it had.
    Failed,
    /// The worker was lost: the session cannot go on.
    Lost,
}

/// `Receiver::try_recv` looks into the channel without waiting. What it finds
/// depends on how far the worker has come, so nothing is said of the outcome.
#[verifier::external_body]
pub(crate) fn poll_channel(receiver: &Receiver<RefreshResult>) -> (outcome: RefreshPoll) {
    match receiver.try_recv() {
        Ok(result) => RefreshPoll::Ready(result),
        Err(TryRecvError::Empty) => RefreshPoll::Pending,
        Err(TryRecvError::Disconnected) => RefreshPoll::Lost,
    }
}

} // verus!
