//! The course of a tool call: what is to be done next, and with what the call
//! goes on.
use vstd::prelude::*;

use crate::operations::radio::{
    DirectoryRequest, DirectoryRequestView, PlayerCommand, PlayerCommandView,
};
use crate::playback::{StreamTarget, StreamTargetView};

verus! {

/// What a call that waits for the directory wants from it.
#[derive(Debug)]
pub enum Pending {
    /// The stations that match a query, at most `limit` of them.
    Search { query: String, limit: u32 },
    /// The station with a UUID, to play it.
    Lookup { uuid: String },
}

/// The contents of a [`Pending`].
pub enum PendingView {
    Search { query: Seq<char>, limit: nat },
    Lookup { uuid: Seq<char> },
}

impl View for Pending {
    type V = PendingView;

    open spec fn view(&self) -> PendingView {
        match *self {
            Pending::Search { query, limit } => PendingView::Search {
                query: query@,
                limit: limit as nat,
            },
            Pending::Lookup { uuid } => PendingView::Lookup { uuid: uuid@ },
        }
    }
}

/// What a call does with what is playing. All of it happens under one lock.
#[derive(Debug)]
pub enum Playback {
    /// Play a stream in place of what is playing.
    Play(StreamTarget),
    /// Stop what is playing.
    Stop,
    /// Say what is playing.
    Report,
}

/// The contents of a [`Playback`].
pub enum PlaybackView {
    Play(StreamTargetView),
    Stop,
    Report,
}

impl View for Playback {
    type V = PlaybackView;

    open spec fn view(&self) -> PlaybackView {
        match *self {
            Playback::Play(target) => PlaybackView::Play(target@),
            Playback::Stop => PlaybackView::Stop,
            Playback::Report => PlaybackView::Report,
        }
    }
}

/// The next step of a call that ends with a `T` or an `E`.
#[derive(Debug)]
pub enum Step<T, E> {
    /// Send a request to the directory.
    Fetch { request: DirectoryRequest, pending: Pending },
    /// Read and decode the body of the directory's answer.
    ReadBody { pending: Pending },
    /// Take the lock on what is playing and go on there.
    Playback(Playback),
    /// The call is over.
    Finished(Result<T, E>),
}

/// The contents of a [`Step`].
pub enum StepView<T, E> {
    Fetch { request: DirectoryRequestView, pending: PendingView },
    ReadBody { pending: PendingView },
    Playback(PlaybackView),
    Finished(Result<T, E>),
}

impl<T: View, E: View> View for Step<T, E> {
    type V = StepView<T::V, E::V>;

    open spec fn view(&self) -> StepView<T::V, E::V> {
        match *self {
            Step::Fetch { request, pending } => StepView::Fetch {
                request: request@,
                pending: pending@,
            },
            Step::ReadBody { pending } => StepView::ReadBody { pending: pending@ },
            Step::Playback(playback) => StepView::Playback(playback@),
            Step::Finished(Ok(value)) => StepView::Finished(Ok(value@)),
            Step::Finished(Err(e)) => StepView::Finished(Err(e@)),
        }
    }
}

/// The next step of a call under the lock on what is playing, `C` being the
/// handle of a player process.
#[derive(Debug)]
pub enum PlaybackStep<C, T, E> {
    /// Stop the player that was tracked so far, with whatever result, then go on
    /// to play.
    StopPrior { child: C, target: StreamTarget },
    /// Start the player.
    Spawn { command: PlayerCommand, target: StreamTarget },
    /// Stop the player that was tracked so far; the call ends with the result.
    StopTracked { child: C },
    /// The call is over.
    Finished(Result<T, E>),
}

/// The contents of a [`PlaybackStep`].
pub enum PlaybackStepView<C, T, E> {
    StopPrior { child: C, target: StreamTargetView },
    Spawn { command: PlayerCommandView, target: StreamTargetView },
    StopTracked { child: C },
    Finished(Result<T, E>),
}

impl<C, T: View, E: View> View for PlaybackStep<C, T, E> {
    type V = PlaybackStepView<C, T::V, E::V>;

    open spec fn view(&self) -> PlaybackStepView<C, T::V, E::V> {
        match *self {
            PlaybackStep::StopPrior { child, target } => PlaybackStepView::StopPrior {
                child,
                target: target@,
            },
            PlaybackStep::Spawn { command, target } => PlaybackStepView::Spawn {
                command: command@,
                target: target@,
            },
            PlaybackStep::StopTracked { child } => PlaybackStepView::StopTracked { child },
            PlaybackStep::Finished(Ok(value)) => PlaybackStepView::Finished(Ok(value@)),
            PlaybackStep::Finished(Err(e)) => PlaybackStepView::Finished(Err(e@)),
        }
    }
}

// ── what the steps keep to ───────────────────────────────────────────────────

/// The contents of what a call waits for, and of what it does with what is playing,
/// are what they hold.
pub proof fn law_contents_of_what_is_wanted(pending: Pending, playback: Playback)
    ensures
        match pending {
            Pending::Search { query, limit } => pending@ == (PendingView::Search {
                query: query@,
                limit: limit as nat,
            }),
            Pending::Lookup { uuid } => pending@ == (PendingView::Lookup { uuid: uuid@ }),
        },
        match playback {
            Playback::Play(target) => playback@ == PlaybackView::Play(target@),
            Playback::Stop => playback@ == PlaybackView::Stop,
            Playback::Report => playback@ == PlaybackView::Report,
        },
{
}

/// The contents of a step are its kind and what it holds.
pub proof fn law_contents_of_a_step<T: View, E: View>(step: Step<T, E>)
    ensures
        match step {
            Step::Fetch { request, pending } => step@ == (StepView::<T::V, E::V>::Fetch {
                request: request@,
                pending: pending@,
            }),
            Step::ReadBody { pending } => step@ == (StepView::<T::V, E::V>::ReadBody {
                pending: pending@,
            }),
            Step::Playback(playback) => step@ == StepView::<T::V, E::V>::Playback(playback@),
            Step::Finished(Ok(value)) => step@ == StepView::<T::V, E::V>::Finished(Ok(value@)),
            Step::Finished(Err(e)) => step@ == StepView::<T::V, E::V>::Finished(Err(e@)),
        },
{
}

/// The contents of a step under the lock are its kind and what it holds. The player it
/// concerns is the very one.
pub proof fn law_contents_of_a_playback_step<C, T: View, E: View>(step: PlaybackStep<C, T, E>)
    ensures
        match step {
            PlaybackStep::StopPrior { child, target } => step@ == (PlaybackStepView::<
                C,
                T::V,
                E::V,
            >::StopPrior { child, target: target@ }),
            PlaybackStep::Spawn { command, target } => step@ == (PlaybackStepView::<
                C,
                T::V,
                E::V,
            >::Spawn { command: command@, target: target@ }),
            PlaybackStep::StopTracked { child } => step@ == (PlaybackStepView::<
                C,
                T::V,
                E::V,
            >::StopTracked { child }),
            PlaybackStep::Finished(Ok(value)) => step@ == PlaybackStepView::<
                C,
                T::V,
                E::V,
            >::Finished(Ok(value@)),
            PlaybackStep::Finished(Err(e)) => step@ == PlaybackStepView::<C, T::V, E::V>::Finished(
                Err(e@),
            ),
        },
{
}

} // verus!
