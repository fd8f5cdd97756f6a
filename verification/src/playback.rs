//! What is playing, and the sequences that replace it and stop it.
//!
//! A sequence runs under one lock on the [`NowPlaying`] it works on, from its
//! first step to its last, so that no two of them interleave.
use vstd::prelude::*;

use crate::error::{
    InternetRadioMcpError, InternetRadioMcpErrorView, RadioErrorView, Result,
};
use crate::models::{Station, StationView};
use crate::operations::radio;
use crate::operations::radio::{PlayerCommand, PlayerCommandView};
use crate::text::join;

verus! {

/// State for the currently-playing station (if any).
///
/// Holds the handle `C` of the player process rather than a process number, so
/// that no zombie is left and no reused number is signalled.
#[derive(Debug)]
pub struct NowPlaying<C> {
    pub child: Option<C>,
    pub station: Option<Station>,
}

/// The contents of a [`NowPlaying`].
pub struct NowPlayingView<C> {
    pub child: Option<C>,
    pub station: Option<StationView>,
}

impl<C> View for NowPlaying<C> {
    type V = NowPlayingView<C>;

    open spec fn view(&self) -> NowPlayingView<C> {
        NowPlayingView {
            child: self.child,
            station: match self.station {
                Some(station) => Some(station@),
                None => None,
            },
        }
    }
}

impl<C> NowPlayingView<C> {
    /// A station is recorded exactly while a player is tracked. This holds between
    /// any two calls, except after a stop that failed: its player is not tracked any
    /// more, but may still be playing the station.
    pub open spec fn well_formed(self) -> bool {
        self.child is Some <==> self.station is Some
    }
}

/// Nothing is playing and nothing is tracked.
pub open spec fn idle<C>() -> NowPlayingView<C> {
    NowPlayingView { child: None, station: None }
}

impl<C> Default for NowPlaying<C> {
    fn default() -> (np: NowPlaying<C>)
        ensures
            np@ == idle::<C>(),
            np@.well_formed(),
    {
        NowPlaying { child: None, station: None }
    }
}

/// A stream to play, and what is known of its station.
#[derive(Debug)]
pub struct StreamTarget {
    /// The stream address.
    pub url: String,
    /// The name to show.
    pub name: String,
    /// The UUID that was asked for; empty where none was.
    pub uuid: String,
}

/// The contents of a [`StreamTarget`].
pub struct StreamTargetView {
    pub url: Seq<char>,
    pub name: Seq<char>,
    pub uuid: Seq<char>,
}

impl View for StreamTarget {
    type V = StreamTargetView;

    open spec fn view(&self) -> StreamTargetView {
        StreamTargetView { url: self.url@, name: self.name@, uuid: self.uuid@ }
    }
}

/// The station recorded for a stream that plays.
pub open spec fn playing_station(target: StreamTargetView) -> StationView {
    StationView {
        uuid: target.uuid,
        name: target.name,
        url_resolved: target.url,
        country: Seq::empty(),
        tags: Seq::empty(),
        bitrate: 0,
        codec: Seq::empty(),
        votes: 0,
    }
}

/// What is said when a stream starts.
pub open spec fn started_text(target: StreamTargetView) -> Seq<char> {
    "▶ Now playing: "@ + target.name + " ("@ + target.url + ")"@
}

/// What is said when playback was stopped.
pub open spec fn stopped_text() -> Seq<char> {
    "⏹ Playback stopped."@
}

/// What is said of the station that is playing, if there is one.
pub open spec fn report_text(station: Option<StationView>) -> Seq<char> {
    match station {
        Some(s) => "▶ Now playing: "@ + s.name + " — "@ + s.url_resolved,
        None => "⏹ Nothing is currently playing."@,
    }
}

/// What to do next to play a stream.
#[derive(Debug)]
pub enum PlayStep<C> {
    /// Stop the player that was tracked so far, with whatever result, and go on
    /// with [`start_play`].
    StopPrior { child: C, target: StreamTarget },
    /// Start the player and go on with [`NowPlaying::finish_play`].
    Spawn { command: PlayerCommand, target: StreamTarget },
    /// The stream may not be played.
    Failed(InternetRadioMcpError),
}

/// The contents of a [`PlayStep`].
pub enum PlayStepView<C> {
    StopPrior { child: C, target: StreamTargetView },
    Spawn { command: PlayerCommandView, target: StreamTargetView },
    Failed(InternetRadioMcpErrorView),
}

impl<C> View for PlayStep<C> {
    type V = PlayStepView<C>;

    open spec fn view(&self) -> PlayStepView<C> {
        match *self {
            PlayStep::StopPrior { child, target } => PlayStepView::StopPrior {
                child,
                target: target@,
            },
            PlayStep::Spawn { command, target } => PlayStepView::Spawn {
                command: command@,
                target: target@,
            },
            PlayStep::Failed(e) => PlayStepView::Failed(e@),
        }
    }
}

/// The step that starts a stream once no player is tracked.
pub open spec fn start_step<C>(target: StreamTargetView) -> PlayStepView<C> {
    if radio::is_stream_url(target.url) {
        PlayStepView::Spawn { command: radio::player_command(target.url), target }
    } else {
        PlayStepView::Failed(radio::stream_url_fault(target.url))
    }
}

/// The first step of playing a stream: what is tracked is stopped first.
pub open spec fn first_step<C>(np: NowPlayingView<C>, target: StreamTargetView) -> PlayStepView<C> {
    match np.child {
        Some(child) => PlayStepView::StopPrior { child, target },
        None => start_step(target),
    }
}

/// The state while its player is being stopped: it is not tracked any more, and the
/// station stays until the player is known to be stopped.
pub open spec fn untracked<C>(np: NowPlayingView<C>) -> NowPlayingView<C> {
    NowPlayingView { child: None, station: np.station }
}

/// The state once the player was started, or could not be.
pub open spec fn after_spawn<C>(
    np: NowPlayingView<C>,
    target: StreamTargetView,
    outcome: std::result::Result<C, Seq<char>>,
) -> NowPlayingView<C> {
    match outcome {
        Ok(child) => NowPlayingView {
            child: Some(child),
            station: Some(playing_station(target)),
        },
        Err(_) => np,
    }
}

/// What is replied once the player was started, or could not be.
pub open spec fn play_reply<C>(
    target: StreamTargetView,
    outcome: std::result::Result<C, Seq<char>>,
) -> std::result::Result<Seq<char>, InternetRadioMcpErrorView> {
    match outcome {
        Ok(_) => Ok(started_text(target)),
        Err(message) => Err(radio::player_error("Failed to spawn mpv: "@ + message)),
    }
}

/// The state once playback was stopped: no station is playing.
pub open spec fn after_stop<C>(np: NowPlayingView<C>) -> NowPlayingView<C> {
    NowPlayingView { child: np.child, station: None }
}

/// A text or an error, by its contents.
pub open spec fn said(reply: Result<String>) -> std::result::Result<
    Seq<char>,
    InternetRadioMcpErrorView,
> {
    match reply {
        Ok(text) => Ok(text@),
        Err(e) => Err(e@),
    }
}

/// Start a stream, no player being tracked any more.
pub fn start_play<C>(target: StreamTarget) -> (step: PlayStep<C>)
    ensures
        step@ == start_step::<C>(target@),
        step matches PlayStep::Spawn { command, target: same } ==> command.program@ == "mpv"@
            && command.args@.len() == 3 && command.args@.last()@ == target.url@ && same == target,
{
    match radio::play_station(&target.url) {
        Ok(command) => PlayStep::Spawn { command, target },
        Err(e) => PlayStep::Failed(e),
    }
}

impl<C> NowPlaying<C> {
    /// Begin to play a stream. The player that is tracked, if there is one, is
    /// stopped before the stream's address is even looked at, and its station is
    /// forgotten with it: nothing plays until the new player has started.
    pub fn begin_play(&mut self, target: StreamTarget) -> (step: PlayStep<C>)
        ensures
            final(self)@ == idle::<C>(),
            final(self)@.well_formed(),
            step@ == first_step(old(self)@, target@),
    {
        self.station = None;
        match self.child.take() {
            Some(child) => PlayStep::StopPrior { child, target },
            None => start_play(target),
        }
    }

    /// The player was started, or could not be for the given reason.
    pub fn finish_play(
        &mut self,
        target: StreamTarget,
        outcome: std::result::Result<C, String>,
    ) -> (reply: Result<String>)
        ensures
            final(self)@ == after_spawn(old(self)@, target@, radio::told(outcome)),
            old(self)@.well_formed() ==> final(self)@.well_formed(),
            said(reply) == play_reply(target@, radio::told(outcome)),
    {
        let child: C = match radio::player_spawned(outcome) {
            Ok(child) => child,
            Err(e) => return Err(e),
        };
        let mut text: String = join("▶ Now playing: ", &target.name);
        text.append(" (");
        text.append(&target.url);
        text.append(")");
        self.child = Some(child);
        self.station = Some(
            Station {
                uuid: target.uuid,
                name: target.name,
                url_resolved: target.url,
                country: String::new(),
                tags: String::new(),
                bitrate: 0,
                codec: String::new(),
                votes: 0,
            },
        );
        Ok(text)
    }

    /// Begin to stop playback: the player to stop, if one is tracked.
    pub fn begin_stop(&mut self) -> (child: Option<C>)
        ensures
            final(self)@ == untracked(old(self)@),
            child == old(self).child,
    {
        self.child.take()
    }

    /// The player was stopped, or there was none. A failure leaves the station in
    /// place: its player may still be playing it.
    pub fn finish_stop(&mut self, stopped: Result<()>) -> (reply: Result<String>)
        ensures
            match stopped {
                Ok(()) => final(self)@ == after_stop(old(self)@) && (reply matches Ok(text) && text@
                    == stopped_text()),
                Err(e) => *final(self) == *old(self) && reply == Err::<
                    String,
                    InternetRadioMcpError,
                >(e),
            },
            old(self).child is None && stopped is Ok ==> final(self)@.well_formed(),
    {
        match stopped {
            Ok(()) => {
                self.station = None;
                Ok("⏹ Playback stopped.".to_owned())
            },
            Err(e) => Err(e),
        }
    }

    /// The name and address of the station that is playing. The player process is
    /// not mentioned.
    pub fn report(&self) -> (text: String)
        ensures
            text@ == report_text(self@.station),
    {
        match &self.station {
            Some(station) => {
                let mut text: String = join("▶ Now playing: ", &station.name);
                text.append(" — ");
                text.append(&station.url_resolved);
                text
            },
            None => "⏹ Nothing is currently playing.".to_owned(),
        }
    }
}

// ── what the sequences keep to ───────────────────────────────────────────────

/// The whole course of playing a stream: the steps in order, what is playing in
/// the end and what is replied. `outcome` is what comes of starting the player.
pub struct PlayCourse<C> {
    pub steps: Seq<PlayStepView<C>>,
    pub np: NowPlayingView<C>,
    pub reply: std::result::Result<Seq<char>, InternetRadioMcpErrorView>,
}

/// The whole course of playing a stream.
pub open spec fn play_course<C>(
    np: NowPlayingView<C>,
    target: StreamTargetView,
    outcome: std::result::Result<C, Seq<char>>,
) -> PlayCourse<C> {
    let first = first_step(np, target);
    let start = start_step::<C>(target);
    PlayCourse {
        steps: if first is StopPrior {
            seq![first, start]
        } else {
            seq![first]
        },
        np: if start is Spawn {
            after_spawn(idle(), target, outcome)
        } else {
            idle()
        },
        reply: match start {
            PlayStepView::Failed(e) => Err(e),
            _ => play_reply(target, outcome),
        },
    }
}

/// Only `http://` and `https://` addresses are ever handed to the player, and
/// nothing but the address asked for.
pub proof fn law_only_http_streams_are_played<C>(
    np: NowPlayingView<C>,
    target: StreamTargetView,
    outcome: std::result::Result<C, Seq<char>>,
    i: int,
)
    requires
        0 <= i < play_course(np, target, outcome).steps.len(),
        play_course(np, target, outcome).steps[i] is Spawn,
    ensures
        radio::is_stream_url(target.url),
        play_course(np, target, outcome).steps[i] == (PlayStepView::<C>::Spawn {
            command: radio::player_command(target.url),
            target,
        }),
{
}

/// The player that was tracked, and no other, is stopped before a new one is
/// started, and at most one is started.
pub proof fn law_prior_player_is_stopped_first<C>(
    np: NowPlayingView<C>,
    target: StreamTargetView,
    outcome: std::result::Result<C, Seq<char>>,
    i: int,
)
    requires
        0 <= i < play_course(np, target, outcome).steps.len(),
    ensures
        ({
            let steps = play_course(np, target, outcome).steps;
            &&& np.child matches Some(child) ==> steps[0] == (PlayStepView::StopPrior {
                child,
                target,
            })
            &&& steps[i] is StopPrior ==> i == 0 && np.child == Some(steps[i]->StopPrior_child)
            &&& steps[i] is Spawn ==> i == steps.len() - 1 && (np.child is Some ==> i == 1)
        }),
{
}

/// Playing a stream succeeds exactly where its address may be played and the
/// player starts. It is then tracked, and the report names the stream.
pub proof fn law_report_names_what_was_played<C>(
    np: NowPlayingView<C>,
    target: StreamTargetView,
    outcome: std::result::Result<C, Seq<char>>,
)
    ensures
        ({
            let course = play_course(np, target, outcome);
            &&& course.reply is Ok <==> radio::is_stream_url(target.url) && outcome is Ok
            &&& course.reply is Ok ==> course.reply == Ok::<Seq<char>, InternetRadioMcpErrorView>(
                started_text(target),
            )
            &&& course.reply is Ok ==> course.np.child == Some(outcome->Ok_0)
            &&& course.reply is Ok ==> report_text(course.np.station) == "▶ Now playing: "@
                + target.name + " — "@ + target.url
        }),
{
}

/// A stream that could not be played leaves no player tracked and no station
/// recorded, whatever was playing before: the report then says that nothing is.
pub proof fn law_failed_play_leaves_no_player<C>(
    np: NowPlayingView<C>,
    target: StreamTargetView,
    outcome: std::result::Result<C, Seq<char>>,
)
    requires
        play_course(np, target, outcome).reply is Err,
    ensures
        play_course(np, target, outcome).np == idle::<C>(),
        report_text(play_course(np, target, outcome).np.station)
            == "⏹ Nothing is currently playing."@,
{
}

/// A station is recorded exactly while a player is tracked. Playing keeps to this
/// whatever comes of it, and so does stopping where it succeeds.
pub proof fn law_station_is_recorded_while_tracked<C>(
    np: NowPlayingView<C>,
    target: StreamTargetView,
    outcome: std::result::Result<C, Seq<char>>,
)
    ensures
        play_course(np, target, outcome).np.well_formed(),
        after_stop(untracked(np)).well_formed(),
{
}

/// Something that was done with what is playing, and what came of it.
pub enum Deed<C> {
    /// A stream was asked for; starting the player had the given outcome, if it
    /// came to that.
    Played { target: StreamTargetView, outcome: std::result::Result<C, Seq<char>> },
    /// Playback was stopped; stopping the player, if there was one, succeeded or
    /// did not.
    Stopped { succeeded: bool },
}

/// What is playing after one more deed.
pub open spec fn after_deed<C>(np: NowPlayingView<C>, deed: Deed<C>) -> NowPlayingView<C> {
    match deed {
        Deed::Played { target, outcome } => play_course(np, target, outcome).np,
        Deed::Stopped { succeeded } => if np.child is None || succeeded {
            after_stop(untracked(np))
        } else {
            untracked(np)
        },
    }
}

/// What is playing after a history of deeds, nothing playing at first.
pub open spec fn state_after<C>(history: Seq<Deed<C>>) -> NowPlayingView<C>
    decreases history.len(),
{
    if history.len() == 0 {
        idle()
    } else {
        after_deed(state_after(history.drop_last()), history.last())
    }
}

/// The last thing that was done was to stop a player, and that failed.
pub open spec fn ends_with_failed_stop<C>(history: Seq<Deed<C>>) -> bool {
    &&& history.len() > 0
    &&& history.last() == Deed::<C>::Stopped { succeeded: false }
    &&& state_after(history.drop_last()).child is Some
}

/// Whatever was done, a tracked player has a station, and a station that is
/// recorded has a tracked player unless the last thing done was a stop that failed.
pub proof fn law_tracked_player_has_a_station<C>(history: Seq<Deed<C>>)
    ensures
        state_after(history).child is Some ==> state_after(history).station is Some,
        state_after(history).well_formed() <==> !ends_with_failed_stop(history),
    decreases history.len(),
{
    if history.len() > 0 {
        law_tracked_player_has_a_station(history.drop_last());
    }
}

/// The player that is tracked, if there is one.
pub open spec fn tracked_in<C>(child: Option<C>) -> Seq<C> {
    match child {
        Some(c) => seq![c],
        None => Seq::empty(),
    }
}

/// The players that one deed hands to the stop.
pub open spec fn handed_to_stop_by<C>(np: NowPlayingView<C>, deed: Deed<C>) -> Seq<C> {
    match deed {
        Deed::Played { target, outcome } => match play_course(np, target, outcome).steps[0] {
            PlayStepView::StopPrior { child, .. } => seq![child],
            _ => Seq::empty(),
        },
        Deed::Stopped { .. } => tracked_in(np.child),
    }
}

/// The players that one deed starts.
pub open spec fn started_by<C>(np: NowPlayingView<C>, deed: Deed<C>) -> Seq<C> {
    match deed {
        Deed::Played { target, outcome } => match (
            play_course(np, target, outcome).steps.last(),
            outcome,
        ) {
            (PlayStepView::Spawn { .. }, Ok(child)) => seq![child],
            _ => Seq::empty(),
        },
        Deed::Stopped { .. } => Seq::empty(),
    }
}

/// The players that were started in a history, one after the other.
pub open spec fn players_started<C>(history: Seq<Deed<C>>) -> Seq<C>
    decreases history.len(),
{
    if history.len() == 0 {
        Seq::empty()
    } else {
        players_started(history.drop_last()) + started_by(
            state_after(history.drop_last()),
            history.last(),
        )
    }
}

/// The players that were handed to the stop in a history, one after the other.
pub open spec fn players_handed_to_stop<C>(history: Seq<Deed<C>>) -> Seq<C>
    decreases history.len(),
{
    if history.len() == 0 {
        Seq::empty()
    } else {
        players_handed_to_stop(history.drop_last()) + handed_to_stop_by(
            state_after(history.drop_last()),
            history.last(),
        )
    }
}

/// No player is lost: whatever was done, every player that was ever started was
/// handed to the stop, in the order they were started, but for the last one where
/// that is still tracked. The station that is then recorded is that of its stream.
///
/// Calls that run at the same time take the lock one after the other, so that their
/// history is the order in which they took it.
pub proof fn law_every_player_but_the_tracked_one_was_handed_to_stop<C>(history: Seq<Deed<C>>)
    ensures
        players_started(history) == players_handed_to_stop(history) + tracked_in(
            state_after(history).child,
        ),
        players_started(history).len() == players_handed_to_stop(history).len() + tracked_in(
            state_after(history).child,
        ).len(),
        tracked_in(state_after(history).child).len() <= 1,
        state_after(history).child matches Some(child) ==> ({
            &&& players_started(history).last() == child
            &&& state_after(history).station == Some(
                playing_station(history.last()->Played_target),
            )
        }),
    decreases history.len(),
{
    law_last_play_is_what_is_tracked(history);
    if history.len() > 0 {
        let before = history.drop_last();
        let np = state_after(before);
        law_every_player_but_the_tracked_one_was_handed_to_stop(before);
        assert(handed_to_stop_by(np, history.last()) =~= tracked_in(np.child));
        assert(started_by(np, history.last()) =~= tracked_in(state_after(history).child));
    }
}

/// A play that succeeds: its address may be played and the player starts.
pub open spec fn is_successful_play<C>(deed: Deed<C>) -> bool {
    deed matches Deed::Played { target, outcome } && radio::is_stream_url(target.url)
        && outcome is Ok
}

/// Whatever was done, a player is tracked exactly where the last deed was a play
/// that succeeded. It is the player started then, and the report names its
/// stream.
pub proof fn law_last_play_is_what_is_tracked<C>(history: Seq<Deed<C>>)
    ensures
        state_after(history).child is Some <==> history.len() > 0 && is_successful_play(
            history.last(),
        ),
        history.len() > 0 && is_successful_play(history.last()) ==> ({
            let target = history.last()->Played_target;
            &&& state_after(history).child == Some(history.last()->Played_outcome->Ok_0)
            &&& state_after(history).station == Some(playing_station(target))
            &&& report_text(state_after(history).station) == "▶ Now playing: "@ + target.name
                + " — "@ + target.url
        }),
{
}

/// Whatever was done, a stop that succeeds, or finds nothing to stop, leaves
/// nothing playing and nothing tracked.
pub proof fn law_stop_leaves_nothing_playing<C>(history: Seq<Deed<C>>, succeeded: bool)
    requires
        succeeded || state_after(history).child is None,
    ensures
        state_after(history.push(Deed::Stopped { succeeded })) == idle::<C>(),
        report_text(state_after(history.push(Deed::<C>::Stopped { succeeded })).station)
            == "⏹ Nothing is currently playing."@,
{
    assert(history.push(Deed::Stopped { succeeded }).drop_last() =~= history);
}

// ── what is started, recorded and said ───────────────────────────────────────

/// The contents of what is playing, and of what is to be played, are their own fields.
pub proof fn law_contents_of_what_is_playing<C>(np: NowPlaying<C>, target: StreamTarget)
    ensures
        np@.child == np.child,
        np@.station is Some <==> np.station is Some,
        np.station matches Some(station) ==> np@.station == Some(station@),
        target@.url == target.url@,
        target@.name == target.name@,
        target@.uuid == target.uuid@,
{
}

/// The contents of a step of playing, and of what is said in the end, are their kind
/// and what they hold.
pub proof fn law_contents_of_a_play_step<C>(step: PlayStep<C>, reply: Result<String>)
    ensures
        match step {
            PlayStep::StopPrior { child, target } => step@ == (PlayStepView::StopPrior {
                child,
                target: target@,
            }),
            PlayStep::Spawn { command, target } => step@ == (PlayStepView::<C>::Spawn {
                command: command@,
                target: target@,
            }),
            PlayStep::Failed(e) => step@ == PlayStepView::<C>::Failed(e@),
        },
        match reply {
            Ok(text) => said(reply) == Ok::<Seq<char>, InternetRadioMcpErrorView>(text@),
            Err(e) => said(reply) == Err::<Seq<char>, InternetRadioMcpErrorView>(e@),
        },
{
}

/// The player is started exactly for an address that may be played, once what was
/// tracked is stopped. It is `mpv`, and the last of its three arguments is, character
/// for character, the address that was asked for. The stream that then counts as
/// playing is the one that was asked for too.
pub proof fn law_player_is_started_on_the_address_asked_for<C>(
    np: NowPlayingView<C>,
    target: StreamTargetView,
    outcome: std::result::Result<C, Seq<char>>,
)
    ensures
        ({
            let last = play_course(np, target, outcome).steps.last();
            &&& last is Spawn <==> radio::is_stream_url(target.url)
            &&& last matches PlayStepView::Spawn { command, target: same } ==> {
                &&& command.program == "mpv"@
                &&& command.args.len() == 3
                &&& command.args[0] == "--no-video"@
                &&& command.args[1] == "--really-quiet"@
                &&& command.args[2] == target.url
                &&& command.stdin is Null && command.stdout is Null && command.stderr is Null
                &&& same == target
            }
            &&& last is Failed <==> !radio::is_stream_url(target.url)
            &&& last matches PlayStepView::Failed(e) ==> e == radio::stream_url_fault(target.url)
        }),
{
}

/// The first step stops the player that is tracked; where there is none, it is the
/// step that starts the stream.
pub proof fn law_first_step_of_playing<C>(np: NowPlayingView<C>, target: StreamTargetView)
    ensures
        np.child matches Some(child) ==> first_step(np, target) == (PlayStepView::StopPrior {
            child,
            target,
        }),
        np.child is None ==> first_step(np, target) == start_step::<C>(target),
        start_step::<C>(target) is Spawn || start_step::<C>(target) is Failed,
        start_step::<C>(target) matches PlayStepView::Spawn { command, target: same }
            ==> command.program == "mpv"@ && command.args.len() == 3 && command.args[2]
            == target.url && same == target,
{
}

/// Whenever the player starts, the reply gives the name and the address of the stream,
/// whether that was given by its address or found by its UUID. A player that does not
/// start is a player error that says why.
pub proof fn law_reply_gives_name_and_address<C>(
    target: StreamTargetView,
    child: C,
    message: Seq<char>,
)
    ensures
        play_reply(target, Ok::<C, Seq<char>>(child)) == Ok::<
            Seq<char>,
            InternetRadioMcpErrorView,
        >("▶ Now playing: "@ + target.name + " ("@ + target.url + ")"@),
        play_reply(target, Err::<C, Seq<char>>(message)) == Err::<
            Seq<char>,
            InternetRadioMcpErrorView,
        >(
            InternetRadioMcpErrorView::Radio(
                RadioErrorView::PlayerError("Failed to spawn mpv: "@ + message),
            ),
        ),
{
}

/// Once the player has started it is tracked, and the station that is recorded has the
/// name, the address and the UUID of the stream and nothing else. A player that does
/// not start leaves everything as it was.
pub proof fn law_started_stream_is_recorded<C>(
    np: NowPlayingView<C>,
    target: StreamTargetView,
    child: C,
    message: Seq<char>,
)
    ensures
        ({
            let after = after_spawn(np, target, Ok(child));
            &&& after.child == Some(child)
            &&& after.station matches Some(station) && {
                &&& station.name == target.name
                &&& station.url_resolved == target.url
                &&& station.uuid == target.uuid
                &&& station.country.len() == 0
                &&& station.tags.len() == 0
                &&& station.codec.len() == 0
                &&& station.bitrate == 0
                &&& station.votes == 0
            }
        }),
        after_spawn(np, target, Err(message)) == np,
{
}

/// The report names the station that is recorded and gives its address, and says that
/// nothing is playing where none is recorded.
pub proof fn law_report_names_the_recorded_station(station: StationView)
    ensures
        report_text(Some(station)) == "▶ Now playing: "@ + station.name + " — "@
            + station.url_resolved,
        report_text(None) == "⏹ Nothing is currently playing."@,
{
}

/// To stop is to track no player and, once it is stopped, to record no station, and to
/// say so. Nothing else changes.
pub proof fn law_stop_changes_nothing_else<C>(np: NowPlayingView<C>)
    ensures
        untracked(np).child is None,
        untracked(np).station == np.station,
        after_stop(np).child == np.child,
        after_stop(np).station is None,
        idle::<C>().child is None,
        idle::<C>().station is None,
        stopped_text() == "⏹ Playback stopped."@,
{
}

} // verus!
