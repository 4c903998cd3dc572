//! What the window shows: at most one stream at a time.
use crate::error::ErrorKind;
use crate::stream::{ResponseStreamsData, StreamView};
use crate::text::decimal;
use vstd::prelude::*;

verus! {

/// The state of the window: the stream on display, if any. A new stream takes
/// the place of the one before it, which is dropped together with its
/// thumbnail.
pub struct TemplateApp {
    pub stream: Option<ResponseStreamsData>,
}

impl View for TemplateApp {
    type V = Option<StreamView>;

    open spec fn view(&self) -> Option<StreamView> {
        match self.stream {
            Some(stream) => Some(stream@),
            None => None,
        }
    }
}

/// What the window shows of a stream, ready to be drawn.
pub struct Display {
    /// The display name, shown as a link.
    pub name: String,
    /// Where the link leads: the stream's page on the platform.
    pub link: String,
    pub title: String,
    /// The number of viewers as a decimal numeral.
    pub viewers: String,
    /// Whether there is a thumbnail to draw.
    pub has_thumbnail: bool,
}

/// What a display holds, as mathematical values.
pub struct DisplayView {
    pub name: Seq<char>,
    pub link: Seq<char>,
    pub title: Seq<char>,
    pub viewers: Seq<char>,
    pub has_thumbnail: bool,
}

impl View for Display {
    type V = DisplayView;

    open spec fn view(&self) -> DisplayView {
        DisplayView {
            name: self.name@,
            link: self.link@,
            title: self.title@,
            viewers: self.viewers@,
            has_thumbnail: self.has_thumbnail,
        }
    }
}

/// What the window shows of `stream`.
pub open spec fn display_of(stream: StreamView) -> DisplayView {
    DisplayView {
        name: stream.user_name,
        link: stream.page_url(),
        title: stream.title,
        viewers: decimal(stream.viewer_count),
        has_thumbnail: stream.image is Some,
    }
}

/// What is kept of a state from one run to the next: the stream without its
/// thumbnail.
pub open spec fn stored(state: Option<StreamView>) -> Option<StreamView> {
    match state {
        Some(stream) => Some(stream.without_image()),
        None => None,
    }
}

impl Default for TemplateApp {
    /// The state before any stream has been fetched.
    fn default() -> (app: TemplateApp)
        ensures
            app.stream is None,
    {
        TemplateApp { stream: None }
    }
}

impl TemplateApp {
    /// The state at startup: what was kept from the run before, or the empty
    /// state where nothing was kept.
    pub fn new(restored: Option<TemplateApp>) -> (app: TemplateApp)
        ensures
            match restored {
                Some(state) => app == state,
                None => app.stream is None,
            },
    {
        match restored {
            Some(state) => state,
            None => TemplateApp { stream: None },
        }
    }

    /// The state to keep for the next run: the stream on display without its
    /// thumbnail.
    pub fn save(&self) -> (kept: TemplateApp)
        ensures
            kept@ == stored(self@),
    {
        match &self.stream {
            Some(stream) => TemplateApp { stream: Some(stream.without_image()) },
            None => TemplateApp { stream: None },
        }
    }

    /// What the window is to show: nothing before the first stream, and
    /// afterwards the name, link, title and viewer count of the stream on
    /// display, with its thumbnail where it has one.
    pub fn display(&self) -> (shown: Option<Display>)
        ensures
            self@ is None <==> shown is None,
            shown is Some ==> shown.unwrap()@ == display_of(self@.unwrap()),
    {
        match &self.stream {
            Some(stream) => Some(
                Display {
                    name: stream.user_name.clone(),
                    link: stream.page_url(),
                    title: stream.title.clone(),
                    viewers: stream.viewer_count_text(),
                    has_thumbnail: stream.image.is_some(),
                },
            ),
            None => None,
        }
    }

    /// Takes in the outcome of a cycle: a stream replaces what was on display,
    /// a failure leaves the display as it was.
    pub fn update(&mut self, outcome: Result<ResponseStreamsData, ErrorKind>)
        ensures
            match outcome {
                Ok(stream) => final(self).stream == Some(stream),
                Err(_) => *final(self) == *old(self),
            },
    {
        match outcome {
            Ok(stream) => {
                self.stream = Some(stream);
            },
            Err(_) => {},
        }
    }
}

/// What is kept of a state is kept of it whole: keeping it a second time
/// drops nothing more.
pub proof fn stored_is_idempotent(state: Option<StreamView>)
    ensures
        stored(stored(state)) == stored(state),
{
}

} // verus!
