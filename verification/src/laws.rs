//! What holds of every request, and of requests that follow each other.
//!
//! The caches are stated by the store model of `cache`: an entry is served
//! from the second it was stored until its time is over.

use crate::cache::{
    image_key_text, lemma_image_key_injective, lemma_put_leaves_others, lemma_put_then_lookup,
    lookup, put, status_url_text, ImageEntry, Kept, IMAGE_TTL, STATUS_MAX_AGE,
};
use crate::error::{RenderErrorView, RequestErrorView};
use crate::feed::{game_of, lemma_game_of_none_iff_absent, lemma_game_of_present, Game};
use crate::render::{scene_of, slots_of};
use crate::reply::ReplyView;
use crate::request::{
    conclude_spec, decide_spec, fetch_spec, respond, select_game, served_path, step_spec,
    steps_left, ActionView, DecisionView, EventView, StateView,
};
use crate::screenshot::{
    data_uri_text, detail_page_url_text, marker, screenshot_id, thumbnail_url_text,
};
use crate::template::{fill, Slots};
use crate::text::{decimal_digits, lemma_no_match_none, no_match};
use vstd::prelude::*;

verus! {

/// A request moves forward only: every step of an unanswered request
/// brings it nearer to its answer, and it is answered, once, exactly when
/// it reaches `Done`. So a request takes six events at most and gets one
/// reply.
pub proof fn lemma_step_advances(
    state: StateView,
    event: EventView,
    rendered: Result<Seq<u8>, RenderErrorView>,
)
    ensures
        ({
            let (next, action) = step_spec(state, event, rendered);
            &&& next is Done <==> action is Respond
            &&& !(state is Done) ==> steps_left(next) < steps_left(state)
            &&& state is Done ==> next is Done
        }),
{
    match (state, event) {
        (StateView::StatusLookup { game_id }, EventView::StatusCached(Some(feed))) => {
            assert(select_game(feed, game_id).0 is Done || select_game(feed, game_id).0
                is ImageLookup);
        },
        (StateView::StatusFetch { game_id }, EventView::StatusFetched(feed)) => {
            assert(select_game(feed, game_id).0 is Done || select_game(feed, game_id).0
                is ImageLookup);
        },
        _ => {},
    }
}

/// For a game that some node of the feed lists, the feed is followed by a
/// question to the image store about a game of that number, under that
/// number's key: such a request is never answered with "not found".
pub proof fn lemma_listed_game_goes_on(feed: Seq<Seq<Game>>, game_id: u16, i: int, j: int)
    requires
        0 <= i < feed.len(),
        0 <= j < feed[i].len(),
        feed[i][j].id == game_id,
    ensures
        select_game(feed, game_id).0 is ImageLookup,
        select_game(feed, game_id).0->ImageLookup_game.id == game_id,
        select_game(feed, game_id).1 == (ActionView::LookupImage {
            key: image_key_text(game_id),
        }),
        decide_spec(StateView::StatusLookup { game_id }, EventView::StatusCached(Some(feed)))
            == DecisionView::Settled(select_game(feed, game_id).0, select_game(feed, game_id).1),
        decide_spec(StateView::StatusFetch { game_id }, EventView::StatusFetched(feed))
            == DecisionView::Settled(select_game(feed, game_id).0, select_game(feed, game_id).1),
{
    lemma_game_of_present(feed, game_id, i, j);
}

/// Once the image store was asked, the request ends with an image or with
/// a failure, whatever comes back: "not found" and the replies to a bad
/// request are behind it.
pub proof fn lemma_reply_after_lookup(
    state: StateView,
    event: EventView,
    rendered: Result<Seq<u8>, RenderErrorView>,
)
    requires
        steps_left(state) <= 4,
    ensures
        step_spec(state, event, rendered).1 matches ActionView::Respond(reply) ==> (reply
            is Image || reply is Failed),
{
}

/// A request for a number that no game of any node has is answered with
/// "not found", status 404, and with nothing else: no image, no failure.
pub proof fn lemma_unlisted_game_not_found(feed: Seq<Seq<Game>>, game_id: u16)
    requires
        forall|i: int, j: int|
            0 <= i < feed.len() && 0 <= j < feed[i].len() ==> (#[trigger] feed[i][j]).id
                != game_id,
    ensures
        select_game(feed, game_id) == respond(ReplyView::GameNotFound),
        ReplyView::GameNotFound.status() == 404,
        decide_spec(StateView::StatusLookup { game_id }, EventView::StatusCached(Some(feed)))
            == DecisionView::Settled(
            StateView::Done,
            ActionView::Respond(ReplyView::GameNotFound),
        ),
        decide_spec(StateView::StatusFetch { game_id }, EventView::StatusFetched(feed))
            == DecisionView::Settled(
            StateView::Done,
            ActionView::Respond(ReplyView::GameNotFound),
        ),
{
    lemma_game_of_none_iff_absent(feed, game_id);
}

/// A detail page without the marker is no failure: the image is rendered
/// with nothing in the thumbnail's slot.
pub proof fn lemma_page_without_marker(game: Game, html: Seq<char>, template: Seq<char>)
    requires
        no_match(html, marker(), 0),
    ensures
        decide_spec(StateView::DetailPage { game }, EventView::DetailPage(html))
            == (DecisionView::Render { game, screenshot: None }),
        slots_of(game, None).screenshot == Seq::<char>::empty(),
        scene_of(template, game, None) == fill(
            template,
            Slots {
                count: decimal_digits(game.connected as nat),
                title: game.title,
                screenshot: Seq::empty(),
            },
        ),
{
    lemma_no_match_none(html, marker(), 0);
}

/// A request for a listed game whose image the store does not hold, and
/// whose detail page names no thumbnail, from its opening to its reply:
/// the status cache is asked, then the image store, then the detail page
/// is fetched, the image is rendered without a thumbnail and stored under
/// the game's key, and the reply carries the very bytes that were stored.
/// Where the status cache holds no feed, one call upstream comes between.
pub proof fn lemma_request_without_thumbnail(
    feed: Seq<Seq<Game>>,
    game: Game,
    cached: bool,
    html: Seq<char>,
    image: Seq<u8>,
)
    requires
        game_of(feed, game.id) == Some(game),
        screenshot_id(html) is None,
    ensures
        ({
            let any = Err::<Seq<u8>, RenderErrorView>(RenderErrorView::Canvas);
            let opened = fetch_spec(served_path(), Some(game.id));
            let with_feed = if cached {
                step_spec(opened.0, EventView::StatusCached(Some(feed)), any)
            } else {
                step_spec(
                    step_spec(opened.0, EventView::StatusCached(None), any).0,
                    EventView::StatusFetched(feed),
                    any,
                )
            };
            let missed = step_spec(with_feed.0, EventView::ImageCached(None), any);
            let rendered = step_spec(missed.0, EventView::DetailPage(html), Ok(image));
            let replied = step_spec(rendered.0, EventView::ImageStored, any);
            &&& opened.1 is LookupStatus
            &&& with_feed.1 == (ActionView::LookupImage { key: image_key_text(game.id) })
            &&& missed.1 == (ActionView::FetchDetailPage { url: detail_page_url_text(game.id) })
            &&& decide_spec(missed.0, EventView::DetailPage(html)) == (DecisionView::Render {
                game,
                screenshot: None,
            })
            &&& rendered.1 == (ActionView::StoreImage {
                entry: ImageEntry {
                    key: image_key_text(game.id),
                    value: image,
                    ttl: IMAGE_TTL as nat,
                },
            })
            &&& replied == respond(ReplyView::Image(image))
        }),
{
}

/// The same for a detail page that names a thumbnail: the thumbnail is
/// fetched from the address that the page's identifier gives, and goes
/// into the render as an inline image.
pub proof fn lemma_request_with_thumbnail(
    game: Game,
    html: Seq<char>,
    id: Seq<char>,
    thumbnail: Seq<u8>,
    image: Seq<u8>,
)
    requires
        screenshot_id(html) == Some(id),
    ensures
        ({
            let any = Err::<Seq<u8>, RenderErrorView>(RenderErrorView::Canvas);
            let missed = step_spec(
                StateView::ImageLookup { game },
                EventView::ImageCached(None),
                any,
            );
            let paged = step_spec(missed.0, EventView::DetailPage(html), any);
            let rendered = step_spec(paged.0, EventView::Thumbnail(thumbnail), Ok(image));
            let replied = step_spec(rendered.0, EventView::ImageStored, any);
            &&& paged.1 == (ActionView::FetchThumbnail { url: thumbnail_url_text(id) })
            &&& decide_spec(paged.0, EventView::Thumbnail(thumbnail)) == (DecisionView::Render {
                game,
                screenshot: Some(data_uri_text(thumbnail)),
            })
            &&& rendered.1 == (ActionView::StoreImage {
                entry: ImageEntry {
                    key: image_key_text(game.id),
                    value: image,
                    ttl: IMAGE_TTL as nat,
                },
            })
            &&& replied == respond(ReplyView::Image(image))
        }),
{
}

/// A render that fails ends the request with that failure, and nothing
/// goes to the image store.
pub proof fn lemma_failed_render_stores_nothing(
    state: StateView,
    event: EventView,
    error: RenderErrorView,
)
    requires
        decide_spec(state, event) is Render,
    ensures
        step_spec(state, event, Err(error)) == respond(
            ReplyView::Failed(RequestErrorView::Render(error)),
        ),
{
}

/// Two requests for one game, the second no later than `IMAGE_TTL` seconds
/// after the image of the first was stored: the store then answers the
/// second with the stored image, the second request replies with it at
/// once, without asking for the detail page or the thumbnail, and both
/// replies carry the same bytes.
pub proof fn lemma_second_request_served_from_store(
    store: Map<Seq<char>, Kept<Seq<u8>>>,
    game: Game,
    image: Seq<u8>,
    stored_at: nat,
    now: nat,
)
    requires
        stored_at <= now <= stored_at + IMAGE_TTL,
    ensures
        ({
            let (waiting, storing) = conclude_spec(game, Ok(image));
            let first = decide_spec(waiting, EventView::ImageStored);
            let entry = storing->StoreImage_entry;
            let after = put(store, entry.key, entry.value, entry.ttl, stored_at);
            let answer = lookup(after, image_key_text(game.id), now);
            let second = decide_spec(
                StateView::ImageLookup { game },
                EventView::ImageCached(answer),
            );
            &&& storing is StoreImage
            &&& answer == Some(image)
            &&& first == DecisionView::Settled(
                StateView::Done,
                ActionView::Respond(ReplyView::Image(image)),
            )
            &&& second == first
        }),
{
    lemma_put_then_lookup(
        store,
        image_key_text(game.id),
        image,
        IMAGE_TTL as nat,
        stored_at,
        now,
    );
}

/// Once a stored image's time is over, the store holds none for the game,
/// and the next request renders anew: it asks for the detail page.
pub proof fn lemma_expired_image_rendered_anew(
    store: Map<Seq<char>, Kept<Seq<u8>>>,
    game: Game,
    image: Seq<u8>,
    stored_at: nat,
    now: nat,
)
    requires
        now > stored_at + IMAGE_TTL,
    ensures
        ({
            let entry = conclude_spec(game, Ok(image)).1->StoreImage_entry;
            let after = put(store, entry.key, entry.value, entry.ttl, stored_at);
            let answer = lookup(after, image_key_text(game.id), now);
            &&& answer is None
            &&& decide_spec(
                StateView::ImageLookup { game },
                EventView::ImageCached(answer),
            ) is Settled
            &&& decide_spec(
                StateView::ImageLookup { game },
                EventView::ImageCached(answer),
            )->Settled_1 is FetchDetailPage
        }),
{
}

/// A status response that was fetched and kept as `Action::FetchStatus`
/// says is fresh for `STATUS_MAX_AGE` seconds. A request within that time
/// finds it in the cache and makes no call upstream; a request after that
/// time finds nothing and fetches the feed again.
pub proof fn lemma_status_fresh_for_max_age(
    cache: Map<Seq<char>, Kept<Seq<Seq<Game>>>>,
    feed: Seq<Seq<Game>>,
    earlier_id: u16,
    game_id: u16,
    fetched_at: nat,
    now: nat,
)
    requires
        fetched_at <= now,
    ensures
        ({
            let fetching = decide_spec(
                StateView::StatusLookup { game_id: earlier_id },
                EventView::StatusCached(None),
            )->Settled_1;
            let after = put(
                cache,
                fetching->FetchStatus_cache_key,
                feed,
                STATUS_MAX_AGE as nat,
                fetched_at,
            );
            let asked = fetch_spec(served_path(), Some(game_id)).1;
            let answer = lookup(after, asked->LookupStatus_key, now);
            let next = decide_spec(
                StateView::StatusLookup { game_id },
                EventView::StatusCached(answer),
            );
            &&& fetching is FetchStatus
            &&& asked is LookupStatus
            &&& fetching->FetchStatus_cache_control == "public, max-age="@ + decimal_digits(
                STATUS_MAX_AGE as nat,
            )
            &&& now <= fetched_at + STATUS_MAX_AGE ==> next == DecisionView::Settled(
                select_game(feed, game_id).0,
                select_game(feed, game_id).1,
            ) && !(next->Settled_1 is FetchStatus)
            &&& now > fetched_at + STATUS_MAX_AGE ==> next is Settled && next->Settled_1
                is FetchStatus
        }),
{
}

/// Storing the image of one game changes nothing in what the store gives
/// for another game.
pub proof fn lemma_image_entries_independent(
    store: Map<Seq<char>, Kept<Seq<u8>>>,
    game: Game,
    image: Seq<u8>,
    stored_at: nat,
    other: u16,
    now: nat,
)
    requires
        other != game.id,
    ensures
        ({
            let entry = conclude_spec(game, Ok(image)).1->StoreImage_entry;
            let after = put(store, entry.key, entry.value, entry.ttl, stored_at);
            lookup(after, image_key_text(other), now) == lookup(store, image_key_text(other), now)
        }),
{
    if image_key_text(other) == image_key_text(game.id) {
        lemma_image_key_injective(other, game.id);
    }
    lemma_put_leaves_others(
        store,
        image_key_text(game.id),
        image,
        IMAGE_TTL as nat,
        stored_at,
        image_key_text(other),
        now,
    );
}

/// The two caches keep time apart. Whether the status cache still serves
/// the feed depends on when the feed was stored and on nothing else, and so
/// for the image: the end of the one's time leaves the other served.
pub proof fn lemma_each_cache_keeps_its_own_time(
    cache: Map<Seq<char>, Kept<Seq<Seq<Game>>>>,
    store: Map<Seq<char>, Kept<Seq<u8>>>,
    feed: Seq<Seq<Game>>,
    game: Game,
    image: Seq<u8>,
    feed_stored_at: nat,
    image_stored_at: nat,
    now: nat,
)
    ensures
        ({
            let entry = conclude_spec(game, Ok(image)).1->StoreImage_entry;
            let cache_after = put(
                cache,
                status_url_text(),
                feed,
                STATUS_MAX_AGE as nat,
                feed_stored_at,
            );
            let store_after = put(store, entry.key, entry.value, entry.ttl, image_stored_at);
            &&& lookup(cache_after, status_url_text(), now) is Some <==> feed_stored_at <= now
                <= feed_stored_at + STATUS_MAX_AGE
            &&& lookup(store_after, image_key_text(game.id), now) is Some <==> image_stored_at
                <= now <= image_stored_at + IMAGE_TTL
        }),
{
}

} // verus!
