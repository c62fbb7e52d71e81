//! The thumbnail of a game: where its page is, how the page names the
//! thumbnail, and how the thumbnail is embedded in a scene.

use crate::text::{
    chars_of, decimal, decimal_digits, find, first_match, lemma_first_match_unique,
    lemma_no_match_none,
};
use vstd::prelude::*;
use vstd::string::{StrSliceExecFns, StringExecFns};

verus! {

/// The text that introduces the thumbnail's identifier in a detail page.
pub open spec fn marker() -> Seq<char> {
    "/thumb-screenshots/"@
}

/// The character that ends the identifier.
pub open spec fn separator() -> Seq<char> {
    seq!['/']
}

/// What precedes the game's number in the address of its detail page.
pub open spec fn detail_page_prefix() -> Seq<char> {
    "https://gamemakerserver.com/en/games/"@
}

/// What precedes the identifier in the address of a thumbnail.
pub open spec fn thumbnail_prefix() -> Seq<char> {
    "https://gamemakerserver.com/thumb-screenshots/"@
}

/// What precedes the payload of an inline JPEG image.
pub open spec fn data_uri_prefix() -> Seq<char> {
    "data:image/jpeg;base64,"@
}

/// The address of the detail page of a game.
pub open spec fn detail_page_url_text(game_id: u16) -> Seq<char> {
    detail_page_prefix() + decimal_digits(game_id as nat)
}

/// The address of the thumbnail with the given identifier.
pub open spec fn thumbnail_url_text(id: Seq<char>) -> Seq<char> {
    thumbnail_prefix() + id + separator()
}

/// The identifier of the thumbnail that a detail page names: the text
/// between the first marker and the next separator. A page without a
/// marker, or without a separator after it, names none.
pub open spec fn screenshot_id(html: Seq<char>) -> Option<Seq<char>> {
    match first_match(html, marker(), 0) {
        None => None,
        Some(at) => {
            let start = at + marker().len();
            match first_match(html, separator(), start) {
                None => None,
                Some(end) => Some(html.subrange(start, end)),
            }
        },
    }
}

/// The standard Base64 text, padded, of a byte string, as the `base64`
/// crate's `STANDARD` engine writes it.
pub uninterp spec fn base64_standard(bytes: Seq<u8>) -> Seq<char>;

/// A thumbnail as an inline JPEG image.
pub open spec fn data_uri_text(image: Seq<u8>) -> Seq<char> {
    data_uri_prefix() + base64_standard(image)
}

/// The length of the padded Base64 text of `len` bytes: four characters
/// for every three bytes or part of three.
pub open spec fn base64_len(len: nat) -> nat {
    4 * ((len + 2) / 3)
}

/// Whether the Base64 text of `len` bytes, behind the prefix of an inline
/// image, is a text that this machine can hold.
pub open spec fn thumbnail_fits(len: nat) -> bool {
    base64_len(len) + 32 <= isize::MAX
}

/// `base64::Engine::encode` of the `STANDARD` engine. It panics where the
/// length of its output overflows, so such inputs are left out. The text
/// has four characters for every three bytes or part of three.
#[verifier::external_body]
fn base64_encode(bytes: &[u8]) -> (text: String)
    requires
        thumbnail_fits(bytes@.len()),
    ensures
        text@ == base64_standard(bytes@),
        text@.len() == base64_len(bytes@.len()),
{
    base64::Engine::encode(&base64::engine::general_purpose::STANDARD, bytes)
}

/// The address of the detail page of a game.
pub fn detail_page_url(game_id: u16) -> (url: String)
    ensures
        url@ == detail_page_url_text(game_id),
{
    let mut url = "https://gamemakerserver.com/en/games/".to_owned();
    let number = decimal(game_id);
    url.append(number.as_str());
    url
}

/// The identifier of the thumbnail that a detail page names, if it names
/// one.
pub fn find_screenshot_id(html: &str) -> (id: Option<String>)
    ensures
        match id {
            Some(text) => screenshot_id(html@) == Some(text@),
            None => screenshot_id(html@) is None,
        },
{
    proof {
        reveal_strlit("/thumb-screenshots/");
        reveal_strlit("/");
    }
    let page = chars_of(html);
    let mark = chars_of("/thumb-screenshots/");
    let slash = chars_of("/");
    assert(slash@ =~= separator());
    match find(page.as_slice(), mark.as_slice(), 0) {
        None => {
            proof {
                lemma_no_match_none(page@, mark@, 0);
            }
            None
        },
        Some(at) => {
            proof {
                lemma_first_match_unique(page@, mark@, 0, at as int);
            }
            assert(page@.len() == page.len());
            let start = at + mark.len();
            match find(page.as_slice(), slash.as_slice(), start) {
                None => {
                    proof {
                        lemma_no_match_none(page@, slash@, start as int);
                    }
                    None
                },
                Some(end) => {
                    proof {
                        lemma_first_match_unique(page@, slash@, start as int, end as int);
                    }
                    Some(html.substring_char(start, end).to_owned())
                },
            }
        },
    }
}

/// The address of the thumbnail with the given identifier.
pub fn thumbnail_url(screenshot_id: &str) -> (url: String)
    ensures
        url@ == thumbnail_url_text(screenshot_id@),
{
    proof {
        reveal_strlit("/");
    }
    let mut url = "https://gamemakerserver.com/thumb-screenshots/".to_owned();
    url.append(screenshot_id);
    url.append("/");
    url
}

/// The thumbnail as an inline JPEG image.
pub fn data_uri(image: &[u8]) -> (uri: String)
    requires
        thumbnail_fits(image@.len()),
    ensures
        uri@ == data_uri_text(image@),
        base64_standard(image@).len() == base64_len(image@.len()),
{
    let mut uri = "data:image/jpeg;base64,".to_owned();
    let payload = base64_encode(image);
    uri.append(payload.as_str());
    uri
}

/// Whether `data_uri` takes a thumbnail of `len` bytes.
pub fn fits_data_uri(len: usize) -> (fits: bool)
    ensures
        fits == thumbnail_fits(len as nat),
{
    let groups: usize = len / 3 + (if len % 3 == 0 {
        0
    } else {
        1
    });
    groups <= ((isize::MAX as usize) - 32) / 4
}

} // verus!
