//! One request, step by step.
//!
//! A request is served by a short conversation with the outside: the status
//! cache, the upstream site and the image store. The crate says what to ask
//! next; the caller asks and hands the answer back. `fetch` opens the
//! conversation, `step` carries it on, and it is over when the action is
//! `Action::Respond`.

use crate::cache::{
    image_key, image_key_text, status_cache_control, status_cache_control_text, status_url,
    status_url_text, CachedImageEntry, ImageEntry, IMAGE_TTL,
};
use crate::error::{RequestError, RequestErrorView, RenderError, RenderErrorView};
use crate::feed::{find_game, game_of, GMSGameStatus, GMSStatusResponse, Game};
use crate::render::{generate_image, is_image, outcome_view};
use crate::reply::{Reply, ReplyView};
use crate::screenshot::{
    data_uri, data_uri_text, detail_page_url, detail_page_url_text, find_screenshot_id,
    fits_data_uri, screenshot_id, thumbnail_fits, thumbnail_url, thumbnail_url_text,
};
use vstd::prelude::*;

verus! {

/// What a request is waiting for.
#[derive(Debug)]
pub enum State {
    /// The answer of the status cache.
    StatusLookup { game_id: u16 },
    /// The status feed from upstream.
    StatusFetch { game_id: u16 },
    /// The answer of the image store.
    ImageLookup { game: GMSGameStatus },
    /// The game's detail page.
    DetailPage { game: GMSGameStatus },
    /// The game's thumbnail.
    Thumbnail { game: GMSGameStatus },
    /// The image store's word that it holds the new image.
    ImageStore { image: Vec<u8> },
    /// Nothing: the request is answered.
    Done,
}

/// An answer from outside.
#[derive(Debug)]
pub enum Event {
    /// The status cache held a fresh feed, or held none.
    StatusCached(Option<GMSStatusResponse>),
    /// Upstream sent the feed.
    StatusFetched(GMSStatusResponse),
    /// The image store held the game's image, or held none.
    ImageCached(Option<Vec<u8>>),
    /// Upstream sent the game's detail page.
    DetailPage(String),
    /// Upstream sent the thumbnail.
    Thumbnail(Vec<u8>),
    /// The image store holds the new image.
    ImageStored,
    /// What was asked for could not be had, or could not be read.
    Failed(String),
}

/// What the caller is to do next.
#[derive(Debug)]
pub enum Action {
    /// Ask the status cache for the entry under `key`.
    LookupStatus { key: String },
    /// Get the feed from `url`. A copy of the response goes to the status
    /// cache under `cache_key`, marked with `cache_control`; the request
    /// does not wait for that, nor learn whether it succeeded.
    FetchStatus { url: String, cache_key: String, cache_control: String },
    /// Ask the image store for the entry under `key`.
    LookupImage { key: String },
    /// Get the detail page from `url`.
    FetchDetailPage { url: String },
    /// Get the thumbnail from `url`.
    FetchThumbnail { url: String },
    /// Hand the entry to the image store, and wait until it is stored.
    StoreImage { entry: CachedImageEntry },
    /// Answer the request.
    Respond(Reply),
}

/// What a step comes to before anything is rendered.
#[derive(Debug)]
pub enum Decision {
    /// The next state and action are settled.
    Settled(State, Action),
    /// The image of `game` is to be rendered, with the thumbnail if there
    /// is one.
    Render { game: GMSGameStatus, screenshot: Option<String> },
}

/// The mathematical content of a state.
pub enum StateView {
    StatusLookup { game_id: u16 },
    StatusFetch { game_id: u16 },
    ImageLookup { game: Game },
    DetailPage { game: Game },
    Thumbnail { game: Game },
    ImageStore { image: Seq<u8> },
    Done,
}

/// The mathematical content of an event.
pub enum EventView {
    StatusCached(Option<Seq<Seq<Game>>>),
    StatusFetched(Seq<Seq<Game>>),
    ImageCached(Option<Seq<u8>>),
    DetailPage(Seq<char>),
    Thumbnail(Seq<u8>),
    ImageStored,
    Failed(Seq<char>),
}

/// The mathematical content of an action.
pub enum ActionView {
    LookupStatus { key: Seq<char> },
    FetchStatus { url: Seq<char>, cache_key: Seq<char>, cache_control: Seq<char> },
    LookupImage { key: Seq<char> },
    FetchDetailPage { url: Seq<char> },
    FetchThumbnail { url: Seq<char> },
    StoreImage { entry: ImageEntry },
    Respond(ReplyView),
}

/// The mathematical content of a decision.
pub enum DecisionView {
    Settled(StateView, ActionView),
    Render { game: Game, screenshot: Option<Seq<char>> },
}

impl View for State {
    type V = StateView;

    open spec fn view(&self) -> StateView {
        match self {
            State::StatusLookup { game_id } => StateView::StatusLookup { game_id: *game_id },
            State::StatusFetch { game_id } => StateView::StatusFetch { game_id: *game_id },
            State::ImageLookup { game } => StateView::ImageLookup { game: game@ },
            State::DetailPage { game } => StateView::DetailPage { game: game@ },
            State::Thumbnail { game } => StateView::Thumbnail { game: game@ },
            State::ImageStore { image } => StateView::ImageStore { image: image@ },
            State::Done => StateView::Done,
        }
    }
}

impl View for Event {
    type V = EventView;

    open spec fn view(&self) -> EventView {
        match self {
            Event::StatusCached(Some(feed)) => EventView::StatusCached(Some(feed@)),
            Event::StatusCached(None) => EventView::StatusCached(None),
            Event::StatusFetched(feed) => EventView::StatusFetched(feed@),
            Event::ImageCached(Some(image)) => EventView::ImageCached(Some(image@)),
            Event::ImageCached(None) => EventView::ImageCached(None),
            Event::DetailPage(html) => EventView::DetailPage(html@),
            Event::Thumbnail(image) => EventView::Thumbnail(image@),
            Event::ImageStored => EventView::ImageStored,
            Event::Failed(why) => EventView::Failed(why@),
        }
    }
}

impl View for Action {
    type V = ActionView;

    open spec fn view(&self) -> ActionView {
        match self {
            Action::LookupStatus { key } => ActionView::LookupStatus { key: key@ },
            Action::FetchStatus { url, cache_key, cache_control } => ActionView::FetchStatus {
                url: url@,
                cache_key: cache_key@,
                cache_control: cache_control@,
            },
            Action::LookupImage { key } => ActionView::LookupImage { key: key@ },
            Action::FetchDetailPage { url } => ActionView::FetchDetailPage { url: url@ },
            Action::FetchThumbnail { url } => ActionView::FetchThumbnail { url: url@ },
            Action::StoreImage { entry } => ActionView::StoreImage { entry: entry@ },
            Action::Respond(reply) => ActionView::Respond(reply@),
        }
    }
}

impl View for Decision {
    type V = DecisionView;

    open spec fn view(&self) -> DecisionView {
        match self {
            Decision::Settled(state, action) => DecisionView::Settled(state@, action@),
            Decision::Render { game, screenshot: Some(uri) } => DecisionView::Render {
                game: game@,
                screenshot: Some(uri@),
            },
            Decision::Render { game, screenshot: None } => DecisionView::Render {
                game: game@,
                screenshot: None,
            },
        }
    }
}

/// The path that is served.
pub open spec fn served_path() -> Seq<char> {
    "/count"@
}

/// The end of a request with the given answer.
pub open spec fn respond(reply: ReplyView) -> (StateView, ActionView) {
    (StateView::Done, ActionView::Respond(reply))
}

/// How a request opens: an unknown path and a missing game number are
/// answered at once; otherwise the status cache is asked first.
pub open spec fn fetch_spec(path: Seq<char>, game_id: Option<u16>) -> (StateView, ActionView) {
    if path != served_path() {
        respond(ReplyView::UnknownPath)
    } else {
        match game_id {
            None => respond(ReplyView::InvalidArguments),
            Some(id) => (
                StateView::StatusLookup { game_id: id },
                ActionView::LookupStatus { key: status_url_text() },
            ),
        }
    }
}

/// What follows once the feed is at hand: the image store is asked for the
/// image of the game that the request is about, or the request ends with
/// "not found".
pub open spec fn select_game(feed: Seq<Seq<Game>>, game_id: u16) -> (StateView, ActionView) {
    match game_of(feed, game_id) {
        Some(game) => (
            StateView::ImageLookup { game },
            ActionView::LookupImage { key: image_key_text(game.id) },
        ),
        None => respond(ReplyView::GameNotFound),
    }
}

/// What a step comes to, for every state and event.
pub open spec fn decide_spec(state: StateView, event: EventView) -> DecisionView {
    match (state, event) {
        (StateView::Done, _) => {
            let (next, action) = respond(ReplyView::Failed(RequestErrorView::OutOfOrder));
            DecisionView::Settled(next, action)
        },
        (_, EventView::Failed(why)) => {
            let (next, action) = respond(ReplyView::Failed(RequestErrorView::Upstream(why)));
            DecisionView::Settled(next, action)
        },
        (StateView::StatusLookup { game_id }, EventView::StatusCached(Some(feed))) => {
            let (next, action) = select_game(feed, game_id);
            DecisionView::Settled(next, action)
        },
        (StateView::StatusLookup { game_id }, EventView::StatusCached(None)) => {
            DecisionView::Settled(
                StateView::StatusFetch { game_id },
                ActionView::FetchStatus {
                    url: status_url_text(),
                    cache_key: status_url_text(),
                    cache_control: status_cache_control_text(),
                },
            )
        },
        (StateView::StatusFetch { game_id }, EventView::StatusFetched(feed)) => {
            let (next, action) = select_game(feed, game_id);
            DecisionView::Settled(next, action)
        },
        (StateView::ImageLookup { game }, EventView::ImageCached(Some(image))) => {
            let (next, action) = respond(ReplyView::Image(image));
            DecisionView::Settled(next, action)
        },
        (StateView::ImageLookup { game }, EventView::ImageCached(None)) => {
            DecisionView::Settled(
                StateView::DetailPage { game },
                ActionView::FetchDetailPage { url: detail_page_url_text(game.id) },
            )
        },
        (StateView::DetailPage { game }, EventView::DetailPage(html)) => {
            match screenshot_id(html) {
                Some(id) => DecisionView::Settled(
                    StateView::Thumbnail { game },
                    ActionView::FetchThumbnail { url: thumbnail_url_text(id) },
                ),
                None => DecisionView::Render { game, screenshot: None },
            }
        },
        (StateView::Thumbnail { game }, EventView::Thumbnail(image)) => {
            DecisionView::Render { game, screenshot: Some(data_uri_text(image)) }
        },
        (StateView::ImageStore { image }, EventView::ImageStored) => {
            let (next, action) = respond(ReplyView::Image(image));
            DecisionView::Settled(next, action)
        },
        _ => {
            let (next, action) = respond(ReplyView::Failed(RequestErrorView::OutOfOrder));
            DecisionView::Settled(next, action)
        },
    }
}

/// What follows a render: a new image goes to the image store under the
/// game's key, to be kept for `IMAGE_TTL` seconds, and the request waits
/// for the store; a failed render ends the request, and nothing is stored.
pub open spec fn conclude_spec(game: Game, rendered: Result<Seq<u8>, RenderErrorView>) -> (
    StateView,
    ActionView,
) {
    match rendered {
        Ok(image) => (
            StateView::ImageStore { image },
            ActionView::StoreImage {
                entry: ImageEntry {
                    key: image_key_text(game.id),
                    value: image,
                    ttl: IMAGE_TTL as nat,
                },
            },
        ),
        Err(e) => respond(ReplyView::Failed(RequestErrorView::Render(e))),
    }
}

/// Whether a step can take the event in that state: a thumbnail must be of
/// a size whose inline form this machine can hold.
pub open spec fn takes(state: StateView, event: EventView) -> bool {
    state is Thumbnail ==> (event matches EventView::Thumbnail(image) ==> thumbnail_fits(
        image.len(),
    ))
}

/// How far a request is from its answer, in steps at most.
pub open spec fn steps_left(state: StateView) -> nat {
    match state {
        StateView::StatusLookup { .. } => 6,
        StateView::StatusFetch { .. } => 5,
        StateView::ImageLookup { .. } => 4,
        StateView::DetailPage { .. } => 3,
        StateView::Thumbnail { .. } => 2,
        StateView::ImageStore { .. } => 1,
        StateView::Done => 0,
    }
}

/// The state and action that a step ends in, given the outcome of the
/// render for the steps that call for one.
pub open spec fn step_spec(
    state: StateView,
    event: EventView,
    rendered: Result<Seq<u8>, RenderErrorView>,
) -> (StateView, ActionView) {
    match decide_spec(state, event) {
        DecisionView::Settled(next, action) => (next, action),
        DecisionView::Render { game, .. } => conclude_spec(game, rendered),
    }
}

impl State {
    /// Whether a step can take the event in this state.
    pub fn takes(&self, event: &Event) -> (ok: bool)
        ensures
            ok == takes(self@, event@),
    {
        match self {
            State::Thumbnail { .. } => match event {
                Event::Thumbnail(image) => fits_data_uri(image.len()),
                _ => true,
            },
            _ => true,
        }
    }

    /// Whether the request is answered.
    pub fn is_done(&self) -> (done: bool)
        ensures
            done == (self@ is Done),
    {
        match self {
            State::Done => true,
            _ => false,
        }
    }
}

fn end(reply: Reply) -> (r: (State, Action))
    ensures
        (r.0@, r.1@) == respond(reply@),
{
    (State::Done, Action::Respond(reply))
}

/// Opens a request for `path` with the game number that was read from the
/// query, if one could be read.
pub fn fetch(path: &str, game_id: Option<u16>) -> (r: (State, Action))
    ensures
        (r.0@, r.1@) == fetch_spec(path@, game_id),
{
    let served = "/count".to_owned();
    let asked = path.to_owned();
    if asked != served {
        return end(Reply::UnknownPath);
    }
    match game_id {
        None => end(Reply::InvalidArguments),
        Some(id) => {
            let key = status_url();
            (State::StatusLookup { game_id: id }, Action::LookupStatus { key })
        },
    }
}

fn select(feed: &GMSStatusResponse, game_id: u16) -> (r: (State, Action))
    ensures
        (r.0@, r.1@) == select_game(feed@, game_id),
{
    match find_game(feed, game_id) {
        Some(found) => {
            let game = found.clone();
            let key = image_key(game.id);
            (State::ImageLookup { game }, Action::LookupImage { key })
        },
        None => end(Reply::GameNotFound),
    }
}

fn out_of_order() -> (d: Decision)
    ensures
        d@ == DecisionView::Settled(
            StateView::Done,
            ActionView::Respond(ReplyView::Failed(RequestErrorView::OutOfOrder)),
        ),
{
    Decision::Settled(State::Done, Action::Respond(Reply::Failed(RequestError::OutOfOrder)))
}

fn settled(pair: (State, Action)) -> (d: Decision)
    ensures
        d@ == DecisionView::Settled(pair.0@, pair.1@),
{
    Decision::Settled(pair.0, pair.1)
}

/// Decides what follows an event, up to the point where an image must be
/// rendered.
pub fn decide(state: State, event: Event) -> (d: Decision)
    requires
        takes(state@, event@),
    ensures
        d@ == decide_spec(state@, event@),
{
    match state {
        State::Done => out_of_order(),
        State::StatusLookup { game_id } => match event {
            Event::Failed(why) => settled(end(Reply::Failed(RequestError::Upstream(why)))),
            Event::StatusCached(Some(feed)) => settled(select(&feed, game_id)),
            Event::StatusCached(None) => Decision::Settled(
                State::StatusFetch { game_id },
                Action::FetchStatus {
                    url: status_url(),
                    cache_key: status_url(),
                    cache_control: status_cache_control(),
                },
            ),
            _ => out_of_order(),
        },
        State::StatusFetch { game_id } => match event {
            Event::Failed(why) => settled(end(Reply::Failed(RequestError::Upstream(why)))),
            Event::StatusFetched(feed) => settled(select(&feed, game_id)),
            _ => out_of_order(),
        },
        State::ImageLookup { game } => match event {
            Event::Failed(why) => settled(end(Reply::Failed(RequestError::Upstream(why)))),
            Event::ImageCached(Some(image)) => settled(end(Reply::Image(image))),
            Event::ImageCached(None) => {
                let url = detail_page_url(game.id);
                Decision::Settled(State::DetailPage { game }, Action::FetchDetailPage { url })
            },
            _ => out_of_order(),
        },
        State::DetailPage { game } => match event {
            Event::Failed(why) => settled(end(Reply::Failed(RequestError::Upstream(why)))),
            Event::DetailPage(html) => match find_screenshot_id(html.as_str()) {
                Some(id) => {
                    let url = thumbnail_url(id.as_str());
                    Decision::Settled(State::Thumbnail { game }, Action::FetchThumbnail { url })
                },
                None => Decision::Render { game, screenshot: None },
            },
            _ => out_of_order(),
        },
        State::Thumbnail { game } => match event {
            Event::Failed(why) => settled(end(Reply::Failed(RequestError::Upstream(why)))),
            Event::Thumbnail(image) => {
                let uri = data_uri(image.as_slice());
                Decision::Render { game, screenshot: Some(uri) }
            },
            _ => out_of_order(),
        },
        State::ImageStore { image } => match event {
            Event::Failed(why) => settled(end(Reply::Failed(RequestError::Upstream(why)))),
            Event::ImageStored => settled(end(Reply::Image(image))),
            _ => out_of_order(),
        },
    }
}

/// Decides what follows a render of the image of `game`.
pub fn conclude(game: &GMSGameStatus, rendered: Result<Vec<u8>, RenderError>) -> (r: (
    State,
    Action,
))
    ensures
        (r.0@, r.1@) == conclude_spec(game@, outcome_view(rendered)),
{
    match rendered {
        Ok(image) => {
            let value = image.clone();
            let entry = CachedImageEntry { key: image_key(game.id), value, ttl: IMAGE_TTL };
            (State::ImageStore { image }, Action::StoreImage { entry })
        },
        Err(e) => end(Reply::Failed(RequestError::Render(e))),
    }
}

/// Carries a request on by one event. Where the event calls for a render,
/// the image is rendered from `template` with `options`, and the step ends
/// as `conclude_spec` says of the render's outcome; every other step is as
/// `decide_spec` says. What goes to the image store is an image of the
/// delivery format: a render that failed stores nothing.
pub fn step(
    state: State,
    event: Event,
    template: &str,
    options: &resvg::usvg::Options<'static>,
) -> (r: (State, Action))
    requires
        takes(state@, event@),
    ensures
        exists|rendered: Result<Seq<u8>, RenderErrorView>|
            {
                &&& (r.0@, r.1@) == #[trigger] step_spec(state@, event@, rendered)
                &&& rendered matches Ok(image) ==> is_image(image)
            },
        r.1@ matches ActionView::StoreImage { entry } ==> is_image(entry.value),
{
    match decide(state, event) {
        Decision::Settled(next, action) => {
            assert((next@, action@) == step_spec(state@, event@, Err(RenderErrorView::Canvas)));
            (next, action)
        },
        Decision::Render { game, screenshot } => {
            let rendered = match &screenshot {
                Some(uri) => generate_image(&game, Some(uri.as_str()), template, options),
                None => generate_image(&game, None, template, options),
            };
            let ghost outcome = outcome_view(rendered);
            assert(decide_spec(state@, event@) matches DecisionView::Render { game: g, .. } && g
                == game@);
            let r = conclude(&game, rendered);
            assert((r.0@, r.1@) == step_spec(state@, event@, outcome));
            r
        },
    }
}

} // verus!
