//! One cycle of fetching a listing, choosing a stream and loading its
//! thumbnail, as a machine that is told what happened and says what to do
//! next. Whoever drives it sends the requests and reports the replies.
use crate::error::ErrorKind;
use crate::request::{get_streams, plain_get, streams_request, Credentials, Request};
use crate::select::choose_stream;
use crate::stream::{ResponseStreams, ResponseStreamsData, StreamView};
use crate::thumbnail::{is_image, thumbnail_request, thumbnail_url_of, with_thumbnail};
use vstd::prelude::*;

verus! {

/// Where a cycle stands.
pub enum Phase {
    /// Nothing is under way.
    Idle,
    /// The listing has been asked for.
    Listing,
    /// A stream has been chosen and its thumbnail asked for.
    Loading(ResponseStreamsData),
}

/// What is reported to a cycle.
pub enum Event {
    /// A fresh stream was asked for, with the credentials at hand.
    Triggered(Credentials),
    /// The listing arrived, or asking for it failed.
    Listed(Result<ResponseStreams, ErrorKind>),
    /// The thumbnail's bytes arrived, or asking for them failed.
    Loaded(Result<Vec<u8>, ErrorKind>),
}

/// What a cycle asks of its driver.
pub enum Action {
    /// Send this request and report the reply.
    Send(Request),
    /// The cycle is over, with this outcome.
    Finish(Result<ResponseStreamsData, ErrorKind>),
    /// The event did not belong to the phase; nothing is to be done.
    Ignore,
}

/// The phase after an event, and what is to be done.
pub struct Step {
    pub phase: Phase,
    pub action: Action,
}

/// The step that ends a cycle in failure.
pub open spec fn fails(step: Step, error: ErrorKind) -> bool {
    step.phase is Idle && step.action == Action::Finish(
        Err::<ResponseStreamsData, ErrorKind>(error),
    )
}

/// The step that goes on to load the thumbnail of `stream`.
pub open spec fn loads(step: Step, stream: StreamView) -> bool {
    &&& step.phase matches Phase::Loading(chosen) && chosen@ == stream
    &&& step.action matches Action::Send(request) && request@ == plain_get(
        thumbnail_url_of(stream.thumbnail_url),
    )
}

/// The step that ends a cycle with `stream`, carrying what `bytes` decode to.
pub open spec fn shows(step: Step, stream: StreamView, bytes: Seq<u8>) -> bool {
    &&& step.phase is Idle
    &&& step.action matches Action::Finish(Ok(shown)) && shown@.without_image()
        == stream.without_image() && (shown@.image is Some <==> is_image(bytes))
}

/// Whether `step` is what follows `event` in `phase`.
///
/// A trigger in the idle phase asks for the listing, or fails at once where a
/// credential is missing. The listing's arrival picks one of its streams and
/// asks for that stream's thumbnail; an empty listing fails. The thumbnail's
/// arrival ends the cycle with the chosen stream. A reported failure ends the
/// cycle with that failure. An event that does not belong to the phase
/// changes nothing.
pub open spec fn follows(phase: Phase, event: Event, step: Step) -> bool {
    match (phase, event) {
        (Phase::Idle, Event::Triggered(credentials)) => match (
            credentials.access_token,
            credentials.client_id,
        ) {
            (Some(access_token), Some(client_id)) => {
                &&& step.phase is Listing
                &&& step.action matches Action::Send(request) && request@ == streams_request(
                    access_token@,
                    client_id@,
                )
            },
            _ => fails(step, ErrorKind::MissingCredential),
        },
        (Phase::Listing, Event::Listed(Ok(listing))) => {
            if listing.data@.len() == 0 {
                fails(step, ErrorKind::EmptyInput)
            } else {
                exists|i: int|
                    0 <= i < listing.data@.len() && loads(
                        step,
                        (#[trigger] listing.data@[i])@.without_image(),
                    )
            }
        },
        (Phase::Listing, Event::Listed(Err(error))) => fails(step, error),
        (Phase::Loading(stream), Event::Loaded(Ok(bytes))) => shows(step, stream@, bytes@),
        (Phase::Loading(stream), Event::Loaded(Err(error))) => fails(step, error),
        _ => step.phase == phase && step.action is Ignore,
    }
}

/// Whatever a cycle ends with was in the listing: when the listing's arrival
/// leads to `after_listing` and the arrival of the thumbnail's bytes then
/// leads to `after_loading`, the cycle is over and its outcome is one of the
/// listing's streams, unchanged but for the thumbnail.
pub proof fn shown_stream_was_listed(
    listing: ResponseStreams,
    after_listing: Step,
    bytes: Vec<u8>,
    after_loading: Step,
)
    requires
        listing.data@.len() > 0,
        follows(Phase::Listing, Event::Listed(Ok(listing)), after_listing),
        follows(after_listing.phase, Event::Loaded(Ok(bytes)), after_loading),
    ensures
        after_loading.phase is Idle,
        after_loading.action matches Action::Finish(Ok(shown)) && exists|i: int|
            0 <= i < listing.data@.len() && shown@.without_image() == (
            #[trigger] listing.data@[i])@.without_image(),
{
}

/// The streams of a listing that arrived; a failure is handed on as it is.
pub fn listed(
    reply: Result<ResponseStreams, ErrorKind>,
) -> (streams: Result<Vec<ResponseStreamsData>, ErrorKind>)
    ensures
        match reply {
            Ok(listing) => streams == Ok::<Vec<ResponseStreamsData>, ErrorKind>(listing.data),
            Err(error) => streams == Err::<Vec<ResponseStreamsData>, ErrorKind>(error),
        },
{
    match reply {
        Ok(listing) => Ok(listing.data),
        Err(error) => Err(error),
    }
}

/// Takes one step of the cycle.
pub fn run(phase: Phase, event: Event) -> (step: Step)
    ensures
        follows(phase, event, step),
{
    match (phase, event) {
        (Phase::Idle, Event::Triggered(credentials)) => match get_streams(&credentials) {
            Ok(request) => Step { phase: Phase::Listing, action: Action::Send(request) },
            Err(error) => Step { phase: Phase::Idle, action: Action::Finish(Err(error)) },
        },
        (Phase::Listing, Event::Listed(reply)) => match listed(reply) {
            Ok(streams) => match choose_stream(streams) {
                Ok(chosen) => {
                    let request = thumbnail_request(&chosen);
                    Step { phase: Phase::Loading(chosen), action: Action::Send(request) }
                },
                Err(error) => Step { phase: Phase::Idle, action: Action::Finish(Err(error)) },
            },
            Err(error) => Step { phase: Phase::Idle, action: Action::Finish(Err(error)) },
        },
        (Phase::Loading(stream), Event::Loaded(reply)) => match reply {
            Ok(bytes) => {
                let shown = with_thumbnail(&stream, &bytes);
                Step { phase: Phase::Idle, action: Action::Finish(Ok(shown)) }
            },
            Err(error) => Step { phase: Phase::Idle, action: Action::Finish(Err(error)) },
        },
        (phase, _) => Step { phase, action: Action::Ignore },
    }
}

} // verus!
