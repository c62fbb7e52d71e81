//! How a request ends.

use crate::error::{RequestError, RequestErrorView};
use vstd::prelude::*;

verus! {

/// The answer to a request.
#[derive(Debug)]
pub enum Reply {
    /// The image of the game, in the delivery format.
    Image(Vec<u8>),
    /// The path is not the one that is served.
    UnknownPath,
    /// The request names no game, or not by a number.
    InvalidArguments,
    /// The feed lists no game with the requested number.
    GameNotFound,
    /// A cache, the upstream site or the render failed.
    Failed(RequestError),
}

/// The mathematical content of a reply.
pub enum ReplyView {
    Image(Seq<u8>),
    UnknownPath,
    InvalidArguments,
    GameNotFound,
    Failed(RequestErrorView),
}

impl View for Reply {
    type V = ReplyView;

    open spec fn view(&self) -> ReplyView {
        match self {
            Reply::Image(bytes) => ReplyView::Image(bytes@),
            Reply::UnknownPath => ReplyView::UnknownPath,
            Reply::InvalidArguments => ReplyView::InvalidArguments,
            Reply::GameNotFound => ReplyView::GameNotFound,
            Reply::Failed(failure) => ReplyView::Failed(failure@),
        }
    }
}

impl ReplyView {
    /// The HTTP status of the reply.
    pub open spec fn status(self) -> u16 {
        match self {
            ReplyView::Image(_) => 200,
            ReplyView::UnknownPath => 404,
            ReplyView::InvalidArguments => 400,
            ReplyView::GameNotFound => 404,
            ReplyView::Failed(_) => 500,
        }
    }

    /// The text that a reply without an image carries; none for an image.
    pub open spec fn text(self) -> Seq<char> {
        match self {
            ReplyView::Image(_) => Seq::empty(),
            ReplyView::UnknownPath => "Not found"@,
            ReplyView::InvalidArguments => "Invalid arguments!"@,
            ReplyView::GameNotFound => "Game not found or has no players"@,
            ReplyView::Failed(failure) => failure.message(),
        }
    }
}

/// The media type of the delivery format.
pub open spec fn image_content_type() -> Seq<char> {
    "image/webp"@
}

impl Reply {
    /// The HTTP status of the reply.
    pub fn status(&self) -> (code: u16)
        ensures
            code == self@.status(),
    {
        match self {
            Reply::Image(_) => 200,
            Reply::UnknownPath => 404,
            Reply::InvalidArguments => 400,
            Reply::GameNotFound => 404,
            Reply::Failed(_) => 500,
        }
    }

    /// The text that a reply without an image carries; none for an image.
    pub fn text(&self) -> (text: String)
        ensures
            text@ == self@.text(),
    {
        match self {
            Reply::Image(_) => String::new(),
            Reply::UnknownPath => "Not found".to_owned(),
            Reply::InvalidArguments => "Invalid arguments!".to_owned(),
            Reply::GameNotFound => "Game not found or has no players".to_owned(),
            Reply::Failed(failure) => failure.message(),
        }
    }

    /// The media type of the body: that of the delivery format for an
    /// image, none otherwise.
    pub fn content_type(&self) -> (media: Option<String>)
        ensures
            match media {
                Some(name) => self@ is Image && name@ == image_content_type(),
                None => !(self@ is Image),
            },
    {
        match self {
            Reply::Image(_) => Some("image/webp".to_owned()),
            _ => None,
        }
    }
}

} // verus!
