//! The records of a listing of live streams.
use crate::text::{decimal, decimal_string};
use egui_extras::RetainedImage;
use vstd::prelude::*;
use vstd::string::StringExecFns;

verus! {

/// A decoded image that a window can show. Nothing here looks inside it.
#[verifier::external_type_specification]
#[verifier::external_body]
pub struct ExRetainedImage(egui_extras::RetainedImage);

/// The continuation token that comes with a page of records. It is kept as
/// received and never followed.
#[derive(Debug, Clone)]
pub struct Pagination {
    pub cursor: String,
}

/// One live stream of a listing.
pub struct ResponseStreamsData {
    pub id: String,
    pub user_id: String,
    pub user_login: String,
    pub user_name: String,
    pub game_id: String,
    pub game_name: String,
    pub title: String,
    pub viewer_count: u32,
    pub started_at: String,
    pub language: String,
    /// Address of the thumbnail, with placeholders for its width and height.
    pub thumbnail_url: String,
    pub tag_ids: Vec<String>,
    pub is_mature: bool,
    pub stream_type: String,
    /// The decoded thumbnail; absent until it has been loaded.
    pub image: Option<RetainedImage>,
}

/// One page of a listing.
pub struct ResponseStreams {
    pub data: Vec<ResponseStreamsData>,
    pub pagination: Pagination,
}

/// What a stream record holds, as mathematical values.
pub struct StreamView {
    pub id: Seq<char>,
    pub user_id: Seq<char>,
    pub user_login: Seq<char>,
    pub user_name: Seq<char>,
    pub game_id: Seq<char>,
    pub game_name: Seq<char>,
    pub title: Seq<char>,
    pub viewer_count: nat,
    pub started_at: Seq<char>,
    pub language: Seq<char>,
    pub thumbnail_url: Seq<char>,
    pub tag_ids: Seq<Seq<char>>,
    pub is_mature: bool,
    pub stream_type: Seq<char>,
    pub image: Option<RetainedImage>,
}

impl StreamView {
    /// The same record with the given thumbnail in place of its own.
    pub open spec fn with_image(self, image: Option<RetainedImage>) -> StreamView {
        StreamView { image, ..self }
    }

    /// The same record with no thumbnail.
    pub open spec fn without_image(self) -> StreamView {
        self.with_image(None)
    }

    /// The address of the stream's page.
    pub open spec fn page_url(self) -> Seq<char> {
        "https://www.twitch.tv/"@ + self.user_name
    }
}

impl View for ResponseStreamsData {
    type V = StreamView;

    open spec fn view(&self) -> StreamView {
        StreamView {
            id: self.id@,
            user_id: self.user_id@,
            user_login: self.user_login@,
            user_name: self.user_name@,
            game_id: self.game_id@,
            game_name: self.game_name@,
            title: self.title@,
            viewer_count: self.viewer_count as nat,
            started_at: self.started_at@,
            language: self.language@,
            thumbnail_url: self.thumbnail_url@,
            tag_ids: self.tag_ids@.map_values(|tag: String| tag@),
            is_mature: self.is_mature,
            stream_type: self.stream_type@,
            image: self.image,
        }
    }
}

/// The records of a vector, each as mathematical values.
pub open spec fn views(streams: Seq<ResponseStreamsData>) -> Seq<StreamView> {
    streams.map_values(|stream: ResponseStreamsData| stream@)
}

impl ResponseStreamsData {
    /// A copy of the record that carries `image` as its thumbnail.
    pub fn with_image(&self, image: Option<RetainedImage>) -> (copy: ResponseStreamsData)
        ensures
            copy@ == self@.with_image(image),
    {
        let tag_ids = self.tag_ids.clone();
        assert(tag_ids@ =~= self.tag_ids@);
        ResponseStreamsData {
            id: self.id.clone(),
            user_id: self.user_id.clone(),
            user_login: self.user_login.clone(),
            user_name: self.user_name.clone(),
            game_id: self.game_id.clone(),
            game_name: self.game_name.clone(),
            title: self.title.clone(),
            viewer_count: self.viewer_count,
            started_at: self.started_at.clone(),
            language: self.language.clone(),
            thumbnail_url: self.thumbnail_url.clone(),
            tag_ids,
            is_mature: self.is_mature,
            stream_type: self.stream_type.clone(),
            image,
        }
    }

    /// A copy of the record without its thumbnail.
    pub fn without_image(&self) -> (copy: ResponseStreamsData)
        ensures
            copy@ == self@.without_image(),
    {
        self.with_image(None)
    }

    /// The address of the stream's page on the platform.
    pub fn page_url(&self) -> (url: String)
        ensures
            url@ == self@.page_url(),
    {
        String::from_str("https://www.twitch.tv/").concat(self.user_name.as_str())
    }

    /// The number of viewers as a decimal numeral.
    pub fn viewer_count_text(&self) -> (text: String)
        ensures
            text@ == decimal(self@.viewer_count),
    {
        decimal_string(self.viewer_count)
    }
}

} // verus!
