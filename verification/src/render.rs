//! The render pipeline: fill the template, rasterize the scene, encode the
//! pixels.

use crate::encode::{declared_size_spec, encodable, encode, webp_image};
use crate::error::{RenderError, RenderErrorView};
use crate::feed::{GMSGameStatus, Game};
use crate::raster::{canvas_fits, is_raster, parse_scene, rasterize, Scene};
use crate::template::{compose, fill, Slots};
use crate::text::{decimal, decimal_digits};
use vstd::prelude::*;

verus! {

/// What goes into the slots for a game: its player count in decimal, its
/// title as it is, and the thumbnail, or nothing where the game has none.
pub open spec fn slots_of(game: Game, screenshot: Option<Seq<char>>) -> Slots {
    Slots {
        count: decimal_digits(game.connected as nat),
        title: game.title,
        screenshot: match screenshot {
            Some(uri) => uri,
            None => Seq::empty(),
        },
    }
}

/// The scene text of a game.
pub open spec fn scene_of(template: Seq<char>, game: Game, screenshot: Option<Seq<char>>) -> Seq<
    char,
> {
    fill(template, slots_of(game, screenshot))
}

/// Whether `bytes` is the encoded image of some raster of the given size,
/// and declares that size.
pub open spec fn is_image_of_size(bytes: Seq<u8>, width: nat, height: nat) -> bool {
    &&& encodable(width, height)
    &&& declared_size_spec(bytes) == Some((width, height))
    &&& exists|pixels: Seq<u8>|
        is_raster(width, height, pixels.len()) && bytes == #[trigger] webp_image(
            pixels,
            width as u32,
            height as u32,
        )
}

/// Whether `bytes` is the encoded image of some raster.
pub open spec fn is_image(bytes: Seq<u8>) -> bool {
    exists|width: nat, height: nat| is_image_of_size(bytes, width, height)
}

/// The mathematical content of a render's outcome.
pub open spec fn outcome_view(rendered: Result<Vec<u8>, RenderError>) -> Result<
    Seq<u8>,
    RenderErrorView,
> {
    match rendered {
        Ok(image) => Ok(image@),
        Err(e) => Err(e@),
    }
}

/// What rendering a scene with a canvas of the given size comes to: an
/// image of that size where the delivery format holds the size; the
/// encoder's refusal where it does not, though a pixel buffer could be
/// made; and `Canvas` where not even that could be.
pub open spec fn is_render_outcome(
    width: nat,
    height: nat,
    outcome: Result<Seq<u8>, RenderErrorView>,
) -> bool {
    match outcome {
        Ok(bytes) => is_image_of_size(bytes, width, height),
        Err(e) => !encodable(width, height) && if canvas_fits(width, height) {
            e is Encode
        } else {
            e == RenderErrorView::Canvas
        },
    }
}

/// An encodable canvas is one that a pixel buffer can be made for.
pub proof fn lemma_encodable_fits(width: nat, height: nat)
    requires
        encodable(width, height),
    ensures
        canvas_fits(width, height),
{
    assert(width * height <= 16384 * 16384) by (nonlinear_arith)
        requires
            0 <= width <= 16384,
            0 <= height <= 16384,
    ;
}

/// Fills the template for a game.
pub fn scene_text(template: &str, game: &GMSGameStatus, screenshot: Option<&str>) -> (scene:
    String)
    ensures
        scene@ == scene_of(
            template@,
            game@,
            match screenshot {
                Some(uri) => Some(uri@),
                None => None,
            },
        ),
{
    let count = decimal(game.connected);
    let thumbnail = match screenshot {
        Some(uri) => uri,
        None => "",
    };
    proof {
        reveal_strlit("");
        assert(""@ =~= Seq::<char>::empty());
    }
    compose(template, count.as_str(), game.title.as_str(), thumbnail)
}

/// Rasterizes a scene and encodes the pixels. The image has the size of
/// the scene's canvas; the render succeeds exactly when the delivery format
/// holds that size.
pub fn render_scene(scene: &Scene) -> (r: Result<Vec<u8>, RenderError>)
    ensures
        is_render_outcome(scene.width() as nat, scene.height() as nat, outcome_view(r)),
{
    proof {
        if encodable(scene.width() as nat, scene.height() as nat) {
            lemma_encodable_fits(scene.width() as nat, scene.height() as nat);
        }
    }
    match rasterize(scene) {
        Err(e) => Err(e),
        Ok(buffer) => {
            let ghost pixels = buffer@.pixels;
            match encode(&buffer) {
                Ok(bytes) => {
                    assert(bytes@ == webp_image(
                        pixels,
                        scene.width() as nat as u32,
                        scene.height() as nat as u32,
                    ));
                    Ok(bytes)
                },
                Err(e) => Err(e),
            }
        },
    }
}

/// Renders the image of a game: fills the template with the game's player
/// count, title and thumbnail, parses the scene, rasterizes it and encodes
/// the pixels. Whether the filled template is a scene, and of what size
/// its canvas is, is for the parser to say. What it refuses comes back as
/// `RenderError::Parse`; for what it accepts, the outcome is the one that
/// `is_render_outcome` gives for the canvas: an image of the canvas's size,
/// or the failure of the stage that could not take that size.
pub fn generate_image(
    game: &GMSGameStatus,
    screenshot: Option<&str>,
    template: &str,
    options: &resvg::usvg::Options<'static>,
) -> (r: Result<Vec<u8>, RenderError>)
    ensures
        (r matches Err(e) && e@ is Parse) || exists|width: nat, height: nat|
            width >= 1 && height >= 1 && #[trigger] is_render_outcome(
                width,
                height,
                outcome_view(r),
            ),
        r matches Ok(bytes) ==> is_image(bytes@),
{
    let text = scene_text(template, game, screenshot);
    match parse_scene(text.as_str(), options) {
        Err(e) => Err(e),
        Ok(scene) => {
            let r = render_scene(&scene);
            assert(is_render_outcome(
                scene.width() as nat,
                scene.height() as nat,
                outcome_view(r),
            ));
            r
        },
    }
}

} // verus!
