//! Why a render or a request fails.

use vstd::prelude::*;

verus! {

/// A failure of the render pipeline. None of them leaves anything behind:
/// an image is stored only after it was encoded.
#[derive(Debug)]
pub enum RenderError {
    /// The scene text is no scene; the text says why.
    Parse(String),
    /// No pixel buffer of the canvas's size can be made.
    Canvas,
    /// The encoder refused the buffer; the text says why.
    Encode(String),
}

/// The mathematical content of a render failure.
pub enum RenderErrorView {
    Parse(Seq<char>),
    Canvas,
    Encode(Seq<char>),
}

impl View for RenderError {
    type V = RenderErrorView;

    open spec fn view(&self) -> RenderErrorView {
        match self {
            RenderError::Parse(why) => RenderErrorView::Parse(why@),
            RenderError::Canvas => RenderErrorView::Canvas,
            RenderError::Encode(why) => RenderErrorView::Encode(why@),
        }
    }
}

impl RenderErrorView {
    /// The text of the failure.
    pub open spec fn message(self) -> Seq<char> {
        match self {
            RenderErrorView::Parse(why) => why,
            RenderErrorView::Canvas => "couldn't create pixmap"@,
            RenderErrorView::Encode(why) => why,
        }
    }
}

impl RenderError {
    /// The text of the failure.
    pub fn message(&self) -> (text: String)
        ensures
            text@ == self@.message(),
    {
        match self {
            RenderError::Parse(why) => why.clone(),
            RenderError::Canvas => "couldn't create pixmap".to_owned(),
            RenderError::Encode(why) => why.clone(),
        }
    }
}

/// A failure that ends a request with a server error.
#[derive(Debug)]
pub enum RequestError {
    /// A cache, a store or the upstream site failed, or sent what could not
    /// be read; the text is the caller's account of it.
    Upstream(String),
    /// The image could not be rendered.
    Render(RenderError),
    /// An answer arrived that the request was not waiting for.
    OutOfOrder,
}

/// The mathematical content of a failure.
pub enum RequestErrorView {
    Upstream(Seq<char>),
    Render(RenderErrorView),
    OutOfOrder,
}

impl View for RequestError {
    type V = RequestErrorView;

    open spec fn view(&self) -> RequestErrorView {
        match self {
            RequestError::Upstream(why) => RequestErrorView::Upstream(why@),
            RequestError::Render(e) => RequestErrorView::Render(e@),
            RequestError::OutOfOrder => RequestErrorView::OutOfOrder,
        }
    }
}

impl RequestErrorView {
    /// The text of the failure.
    pub open spec fn message(self) -> Seq<char> {
        match self {
            RequestErrorView::Upstream(why) => why,
            RequestErrorView::Render(e) => e.message(),
            RequestErrorView::OutOfOrder => "unexpected answer"@,
        }
    }
}

impl RequestError {
    /// The text of the failure.
    pub fn message(&self) -> (text: String)
        ensures
            text@ == self@.message(),
    {
        match self {
            RequestError::Upstream(why) => why.clone(),
            RequestError::Render(e) => e.message(),
            RequestError::OutOfOrder => "unexpected answer".to_owned(),
        }
    }
}

} // verus!
