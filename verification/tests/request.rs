use std::collections::HashMap;

use gms_counter::encode::declared_size;
use gms_counter::error::{RequestError, RenderError};
use gms_counter::feed::{GMSGameStatus, GMSNodeStatus, GMSStatusResponse};
use gms_counter::raster::get_usvg_options;
use gms_counter::reply::Reply;
use gms_counter::request::{conclude, decide, fetch, step, Action, Decision, Event, State};

const TEMPLATE: &str = "<svg xmlns=\"http://www.w3.org/2000/svg\" \
xmlns:xlink=\"http://www.w3.org/1999/xlink\" width=\"320\" height=\"80\">\
<rect width=\"320\" height=\"80\" fill=\"#20232a\"/>\
<image x=\"8\" y=\"8\" width=\"64\" height=\"64\" xlink:href=\"{screenshot}\"/>\
<text x=\"84\" y=\"34\" font-size=\"20\">{title}</text>\
<text x=\"84\" y=\"62\" font-size=\"16\">{count}</text>\
</svg>";

const STATUS_URL: &str = "https://gamemakerserver.com/dynamic/status.php";

fn game(id: u16, title: &str, connected: u16) -> GMSGameStatus {
    GMSGameStatus { title: title.to_string(), connected, id }
}

fn feed(nodes: Vec<Vec<GMSGameStatus>>) -> GMSStatusResponse {
    GMSStatusResponse { status: nodes.into_iter().map(|games| GMSNodeStatus { games }).collect() }
}

fn arena_feed() -> GMSStatusResponse {
    feed(vec![vec![game(7, "Arena", 42)]])
}

struct Kept<V> {
    value: V,
    stored_at: u64,
    ttl: u64,
}

/// The outside of a request: a clock, the upstream site, and the two
/// stores, each keeping an entry for its own number of seconds.
struct World {
    now: u64,
    feed: GMSStatusResponse,
    pages: HashMap<String, String>,
    thumbnails: HashMap<String, Vec<u8>>,
    status_cache: HashMap<String, Kept<GMSStatusResponse>>,
    images: HashMap<String, Kept<Vec<u8>>>,
    status_calls: u32,
    page_calls: u32,
    thumbnail_calls: u32,
    image_puts: u32,
    asked: Vec<String>,
}

fn world(feed: GMSStatusResponse) -> World {
    World {
        now: 1_000,
        feed,
        pages: HashMap::new(),
        thumbnails: HashMap::new(),
        status_cache: HashMap::new(),
        images: HashMap::new(),
        status_calls: 0,
        page_calls: 0,
        thumbnail_calls: 0,
        image_puts: 0,
        asked: Vec::new(),
    }
}

fn served<V: Clone>(store: &HashMap<String, Kept<V>>, key: &str, now: u64) -> Option<V> {
    store
        .get(key)
        .filter(|kept| kept.stored_at <= now && now <= kept.stored_at + kept.ttl)
        .map(|kept| kept.value.clone())
}

fn max_age(cache_control: &str) -> u64 {
    let (_, seconds) = cache_control.split_once("max-age=").expect("a max-age directive");
    seconds.parse().expect("a number of seconds")
}

fn answer(world: &mut World, action: Action) -> Result<Event, Reply> {
    Ok(match action {
        Action::Respond(reply) => return Err(reply),
        Action::LookupStatus { key } => {
            world.asked.push(format!("status? {key}"));
            Event::StatusCached(served(&world.status_cache, &key, world.now))
        }
        Action::FetchStatus { url, cache_key, cache_control } => {
            world.asked.push(format!("GET {url}"));
            assert_eq!(url, STATUS_URL);
            world.status_calls += 1;
            let kept = Kept { value: world.feed.clone(), stored_at: world.now, ttl: max_age(&cache_control) };
            world.status_cache.insert(cache_key, kept);
            Event::StatusFetched(world.feed.clone())
        }
        Action::LookupImage { key } => {
            world.asked.push(format!("image? {key}"));
            Event::ImageCached(served(&world.images, &key, world.now))
        }
        Action::FetchDetailPage { url } => {
            world.asked.push(format!("GET {url}"));
            world.page_calls += 1;
            match world.pages.get(&url) {
                Some(html) => Event::DetailPage(html.clone()),
                None => Event::Failed(format!("no page at {url}")),
            }
        }
        Action::FetchThumbnail { url } => {
            world.asked.push(format!("GET {url}"));
            world.thumbnail_calls += 1;
            match world.thumbnails.get(&url) {
                Some(bytes) => Event::Thumbnail(bytes.clone()),
                None => Event::Failed(format!("no thumbnail at {url}")),
            }
        }
        Action::StoreImage { entry } => {
            world.asked.push(format!("put {}", entry.key));
            world.image_puts += 1;
            let kept = Kept { value: entry.value, stored_at: world.now, ttl: entry.ttl };
            world.images.insert(entry.key, kept);
            Event::ImageStored
        }
    })
}

fn serve(world: &mut World, path: &str, game_id: Option<u16>) -> Reply {
    let options = get_usvg_options(Vec::new());
    let (mut state, mut action) = fetch(path, game_id);
    let mut steps = 0;
    loop {
        let event = match answer(world, action) {
            Ok(event) => event,
            Err(reply) => {
                assert!(state.is_done());
                return reply;
            }
        };
        assert!(!state.is_done());
        assert!(state.takes(&event));
        (state, action) = step(state, event, TEMPLATE, &options);
        steps += 1;
        assert!(steps <= 6);
    }
}

fn image_of(reply: Reply) -> Vec<u8> {
    match reply {
        Reply::Image(bytes) => bytes,
        other => panic!("expected an image, got {other:?}"),
    }
}

#[test]
fn request_for_a_listed_game_gets_its_image() {
    let mut world = world(arena_feed());
    world.pages.insert("https://gamemakerserver.com/en/games/7".to_string(), "<p>no shots</p>".to_string());
    let reply = serve(&mut world, "/count", Some(7));
    assert_eq!(reply.status(), 200);
    assert_eq!(reply.content_type(), Some("image/webp".to_string()));
    let bytes = image_of(reply);
    assert_eq!(declared_size(&bytes), Some((320, 80)));
    let decoder = image_webp::WebPDecoder::new(std::io::Cursor::new(bytes)).expect("a WebP file");
    assert_eq!(decoder.dimensions(), (320, 80));
    assert_eq!(
        world.asked,
        vec![
            "status? https://gamemakerserver.com/dynamic/status.php",
            "GET https://gamemakerserver.com/dynamic/status.php",
            "image? 7",
            "GET https://gamemakerserver.com/en/games/7",
            "put 7",
        ]
    );
}

#[test]
fn request_for_a_game_that_is_not_listed_gets_not_found() {
    let mut world = world(arena_feed());
    let reply = serve(&mut world, "/count", Some(99));
    assert!(matches!(reply, Reply::GameNotFound));
    assert_eq!(reply.status(), 404);
    assert_eq!(reply.text(), "Game not found or has no players");
    assert_eq!(world.page_calls, 0);
    assert_eq!(world.image_puts, 0);
    assert!(world.images.is_empty());
}

#[test]
fn request_on_another_path_gets_not_found_at_once() {
    let mut world = world(arena_feed());
    for path in ["/", "", "/count/", "/Count", "/counts", "count"] {
        let reply = serve(&mut world, path, Some(7));
        assert!(matches!(reply, Reply::UnknownPath), "path {path:?}");
        assert_eq!(reply.status(), 404);
        assert_eq!(reply.text(), "Not found");
    }
    assert!(world.asked.is_empty());
}

#[test]
fn request_without_a_game_number_is_a_bad_request() {
    let mut world = world(arena_feed());
    let reply = serve(&mut world, "/count", None);
    assert!(matches!(reply, Reply::InvalidArguments));
    assert_eq!(reply.status(), 400);
    assert_eq!(reply.text(), "Invalid arguments!");
    assert!(world.asked.is_empty());
    assert!(matches!(serve(&mut world, "/other", None), Reply::UnknownPath));
}

#[test]
fn every_listed_game_gets_one_image_of_the_canvas_size() {
    let listed = feed(vec![
        vec![game(1, "One", 0), game(2, "Two", 2)],
        vec![],
        vec![game(300, "Three hundred", 65535)],
    ]);
    let mut world = world(listed);
    for id in [1u16, 2, 300] {
        world.pages.insert(format!("https://gamemakerserver.com/en/games/{id}"), String::new());
        let bytes = image_of(serve(&mut world, "/count", Some(id)));
        assert_eq!(declared_size(&bytes), Some((320, 80)));
    }
    assert_eq!(world.image_puts, 3);
    assert_eq!(world.images.len(), 3);
}

#[test]
fn second_request_within_the_time_is_served_from_the_store() {
    let mut world = world(arena_feed());
    world.pages.insert(
        "https://gamemakerserver.com/en/games/7".to_string(),
        "<img src=\"/thumb-screenshots/55/a.jpg\">".to_string(),
    );
    world.thumbnails.insert("https://gamemakerserver.com/thumb-screenshots/55/".to_string(), vec![1, 2, 3]);
    let first = image_of(serve(&mut world, "/count", Some(7)));
    assert_eq!((world.page_calls, world.thumbnail_calls, world.image_puts), (1, 1, 1));

    world.now += 300;
    world.pages.clear();
    world.thumbnails.clear();
    let second = image_of(serve(&mut world, "/count", Some(7)));
    assert_eq!(first, second);
    assert_eq!((world.page_calls, world.thumbnail_calls, world.image_puts), (1, 1, 1));
}

#[test]
fn request_after_the_time_renders_anew() {
    let mut world = world(arena_feed());
    world.pages.insert("https://gamemakerserver.com/en/games/7".to_string(), String::new());
    image_of(serve(&mut world, "/count", Some(7)));
    world.now += 301;
    image_of(serve(&mut world, "/count", Some(7)));
    assert_eq!(world.page_calls, 2);
    assert_eq!(world.image_puts, 2);
}

#[test]
fn stored_image_is_served_whatever_the_feed_says_now() {
    let mut world = world(arena_feed());
    world.pages.insert("https://gamemakerserver.com/en/games/7".to_string(), String::new());
    let first = image_of(serve(&mut world, "/count", Some(7)));
    world.now += 10;
    world.status_cache.clear();
    world.feed = feed(vec![vec![game(7, "Renamed", 1)]]);
    let second = image_of(serve(&mut world, "/count", Some(7)));
    assert_eq!(first, second);
    assert_eq!(world.status_calls, 2);
    assert_eq!(world.page_calls, 1);
}

#[test]
fn status_is_fetched_again_only_after_its_time() {
    let mut world = world(arena_feed());
    assert!(matches!(serve(&mut world, "/count", Some(99)), Reply::GameNotFound));
    assert_eq!(world.status_calls, 1);

    world.now += 1;
    assert!(matches!(serve(&mut world, "/count", Some(98)), Reply::GameNotFound));
    assert_eq!(world.status_calls, 1);

    world.now += 299;
    assert!(matches!(serve(&mut world, "/count", Some(99)), Reply::GameNotFound));
    assert_eq!(world.status_calls, 1);

    world.now += 1;
    assert!(matches!(serve(&mut world, "/count", Some(99)), Reply::GameNotFound));
    assert_eq!(world.status_calls, 2);

    world.now += 300;
    assert!(matches!(serve(&mut world, "/count", Some(99)), Reply::GameNotFound));
    assert_eq!(world.status_calls, 2);
}

#[test]
fn status_and_image_keep_time_apart() {
    let mut world = world(arena_feed());
    world.pages.insert("https://gamemakerserver.com/en/games/7".to_string(), String::new());
    image_of(serve(&mut world, "/count", Some(7)));
    assert_eq!((world.status_calls, world.image_puts), (1, 1));

    world.now += 200;
    world.images.clear();
    image_of(serve(&mut world, "/count", Some(7)));
    assert_eq!((world.status_calls, world.image_puts), (1, 2));

    world.now += 150;
    image_of(serve(&mut world, "/count", Some(7)));
    assert_eq!((world.status_calls, world.image_puts), (2, 2));
}

#[test]
fn page_without_marker_is_rendered_without_thumbnail() {
    let mut world = world(arena_feed());
    world.pages.insert("https://gamemakerserver.com/en/games/7".to_string(), "<html>plain</html>".to_string());
    let bytes = image_of(serve(&mut world, "/count", Some(7)));
    assert_eq!(world.thumbnail_calls, 0);
    assert_eq!(declared_size(&bytes), Some((320, 80)));

    let options = get_usvg_options(Vec::new());
    let expected = gms_counter::render::generate_image(&game(7, "Arena", 42), None, TEMPLATE, &options)
        .expect("the render succeeds");
    assert_eq!(bytes, expected);
}

#[test]
fn page_with_marker_is_rendered_with_the_thumbnail() {
    let mut world = world(arena_feed());
    world.pages.insert(
        "https://gamemakerserver.com/en/games/7".to_string(),
        "<img src=\"/thumb-screenshots/55/a.jpg\">".to_string(),
    );
    world.thumbnails.insert("https://gamemakerserver.com/thumb-screenshots/55/".to_string(), b"hello".to_vec());
    let bytes = image_of(serve(&mut world, "/count", Some(7)));
    assert_eq!(world.thumbnail_calls, 1);
    let options = get_usvg_options(Vec::new());
    let expected = gms_counter::render::generate_image(
        &game(7, "Arena", 42),
        Some("data:image/jpeg;base64,aGVsbG8="),
        TEMPLATE,
        &options,
    )
    .expect("the render succeeds");
    assert_eq!(bytes, expected);
}

#[test]
fn failure_upstream_ends_the_request_and_stores_nothing() {
    let mut world = world(arena_feed());
    let reply = serve(&mut world, "/count", Some(7));
    match &reply {
        Reply::Failed(RequestError::Upstream(why)) => {
            assert_eq!(why, "no page at https://gamemakerserver.com/en/games/7")
        }
        other => panic!("expected an upstream failure, got {other:?}"),
    }
    assert_eq!(reply.status(), 500);
    assert!(world.images.is_empty());

    world.pages.insert(
        "https://gamemakerserver.com/en/games/7".to_string(),
        "/thumb-screenshots/55/".to_string(),
    );
    let reply = serve(&mut world, "/count", Some(7));
    assert!(matches!(reply, Reply::Failed(RequestError::Upstream(_))));
    assert!(world.images.is_empty());
}

#[test]
fn failed_render_ends_the_request_and_stores_nothing() {
    let mut world = world(feed(vec![vec![game(7, "</text", 42)]]));
    world.pages.insert("https://gamemakerserver.com/en/games/7".to_string(), String::new());
    let reply = serve(&mut world, "/count", Some(7));
    assert!(matches!(reply, Reply::Failed(RequestError::Render(RenderError::Parse(_)))));
    assert_eq!(reply.status(), 500);
    assert_eq!(world.image_puts, 0);
    assert!(world.images.is_empty());
}

#[test]
fn fetch_opens_with_a_question_to_the_status_cache() {
    match fetch("/count", Some(7)) {
        (State::StatusLookup { game_id: 7 }, Action::LookupStatus { key }) => assert_eq!(key, STATUS_URL),
        other => panic!("unexpected opening {other:?}"),
    }
    assert!(matches!(fetch("/count", None), (State::Done, Action::Respond(Reply::InvalidArguments))));
    assert!(matches!(fetch("/nowhere", Some(7)), (State::Done, Action::Respond(Reply::UnknownPath))));
    assert!(matches!(fetch("/nowhere", None), (State::Done, Action::Respond(Reply::UnknownPath))));
}

#[test]
fn decide_after_a_status_miss_fetches_and_keeps_the_feed() {
    match decide(State::StatusLookup { game_id: 7 }, Event::StatusCached(None)) {
        Decision::Settled(
            State::StatusFetch { game_id: 7 },
            Action::FetchStatus { url, cache_key, cache_control },
        ) => {
            assert_eq!(url, STATUS_URL);
            assert_eq!(cache_key, STATUS_URL);
            assert_eq!(cache_control, "public, max-age=300");
        }
        other => panic!("unexpected decision {other:?}"),
    }
}

#[test]
fn decide_after_the_feed_asks_the_image_store() {
    for (state, event) in [
        (State::StatusLookup { game_id: 7 }, Event::StatusCached(Some(arena_feed()))),
        (State::StatusFetch { game_id: 7 }, Event::StatusFetched(arena_feed())),
    ] {
        match decide(state, event) {
            Decision::Settled(State::ImageLookup { game }, Action::LookupImage { key }) => {
                assert_eq!((game.id, game.connected), (7, 42));
                assert_eq!(game.title, "Arena");
                assert_eq!(key, "7");
            }
            other => panic!("unexpected decision {other:?}"),
        }
    }
    assert!(matches!(
        decide(State::StatusFetch { game_id: 8 }, Event::StatusFetched(arena_feed())),
        Decision::Settled(State::Done, Action::Respond(Reply::GameNotFound))
    ));
}

#[test]
fn decide_after_an_image_hit_replies_with_the_stored_bytes() {
    match decide(State::ImageLookup { game: game(7, "Arena", 42) }, Event::ImageCached(Some(vec![9, 8, 7]))) {
        Decision::Settled(State::Done, Action::Respond(Reply::Image(bytes))) => assert_eq!(bytes, vec![9, 8, 7]),
        other => panic!("unexpected decision {other:?}"),
    }
}

#[test]
fn decide_after_an_image_miss_asks_for_the_detail_page() {
    match decide(State::ImageLookup { game: game(7, "Arena", 42) }, Event::ImageCached(None)) {
        Decision::Settled(State::DetailPage { game }, Action::FetchDetailPage { url }) => {
            assert_eq!(game.id, 7);
            assert_eq!(url, "https://gamemakerserver.com/en/games/7");
        }
        other => panic!("unexpected decision {other:?}"),
    }
}

#[test]
fn decide_after_the_detail_page() {
    let page = "x /thumb-screenshots/abc/ y".to_string();
    match decide(State::DetailPage { game: game(7, "Arena", 42) }, Event::DetailPage(page)) {
        Decision::Settled(State::Thumbnail { game }, Action::FetchThumbnail { url }) => {
            assert_eq!(game.id, 7);
            assert_eq!(url, "https://gamemakerserver.com/thumb-screenshots/abc/");
        }
        other => panic!("unexpected decision {other:?}"),
    }
    match decide(State::DetailPage { game: game(7, "Arena", 42) }, Event::DetailPage("none".to_string())) {
        Decision::Render { game, screenshot: None } => assert_eq!(game.id, 7),
        other => panic!("unexpected decision {other:?}"),
    }
}

#[test]
fn decide_after_the_thumbnail_renders_with_its_inline_form() {
    match decide(State::Thumbnail { game: game(7, "Arena", 42) }, Event::Thumbnail(b"hello".to_vec())) {
        Decision::Render { game, screenshot: Some(uri) } => {
            assert_eq!(game.id, 7);
            assert_eq!(uri, "data:image/jpeg;base64,aGVsbG8=");
        }
        other => panic!("unexpected decision {other:?}"),
    }
}

#[test]
fn conclude_stores_a_new_image_for_three_hundred_seconds() {
    match conclude(&game(7, "Arena", 42), Ok(vec![1, 2, 3])) {
        (State::ImageStore { image }, Action::StoreImage { entry }) => {
            assert_eq!(image, vec![1, 2, 3]);
            assert_eq!(entry.key, "7");
            assert_eq!(entry.value, vec![1, 2, 3]);
            assert_eq!(entry.ttl, 300);
        }
        other => panic!("unexpected end {other:?}"),
    }
    match decide(State::ImageStore { image: vec![1, 2, 3] }, Event::ImageStored) {
        Decision::Settled(State::Done, Action::Respond(Reply::Image(bytes))) => assert_eq!(bytes, vec![1, 2, 3]),
        other => panic!("unexpected decision {other:?}"),
    }
}

#[test]
fn conclude_after_a_failed_render_stores_nothing() {
    match conclude(&game(7, "Arena", 42), Err(RenderError::Canvas)) {
        (State::Done, Action::Respond(Reply::Failed(RequestError::Render(RenderError::Canvas)))) => {}
        other => panic!("unexpected end {other:?}"),
    }
}

#[test]
fn failure_in_any_open_state_ends_the_request() {
    let states = [
        State::StatusLookup { game_id: 1 },
        State::StatusFetch { game_id: 1 },
        State::ImageLookup { game: game(1, "a", 1) },
        State::DetailPage { game: game(1, "a", 1) },
        State::Thumbnail { game: game(1, "a", 1) },
        State::ImageStore { image: vec![1] },
    ];
    for state in states {
        match decide(state, Event::Failed("down".to_string())) {
            Decision::Settled(State::Done, Action::Respond(Reply::Failed(RequestError::Upstream(why)))) => {
                assert_eq!(why, "down")
            }
            other => panic!("unexpected decision {other:?}"),
        }
    }
}

#[test]
fn answer_that_was_not_awaited_ends_the_request() {
    let strays = [
        (State::StatusLookup { game_id: 1 }, Event::ImageStored),
        (State::StatusLookup { game_id: 1 }, Event::StatusFetched(arena_feed())),
        (State::StatusFetch { game_id: 1 }, Event::StatusCached(None)),
        (State::ImageLookup { game: game(1, "a", 1) }, Event::DetailPage(String::new())),
        (State::DetailPage { game: game(1, "a", 1) }, Event::Thumbnail(Vec::new())),
        (State::Thumbnail { game: game(1, "a", 1) }, Event::ImageCached(None)),
        (State::ImageStore { image: vec![1] }, Event::ImageCached(Some(vec![2]))),
        (State::Done, Event::ImageStored),
        (State::Done, Event::Failed("late".to_string())),
    ];
    for (state, event) in strays {
        assert!(state.takes(&event));
        assert!(matches!(
            decide(state, event),
            Decision::Settled(State::Done, Action::Respond(Reply::Failed(RequestError::OutOfOrder)))
        ));
    }
}
