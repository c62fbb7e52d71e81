//! The head of font data: how many faces it declares, and whether that is
//! a number the font loader can take.
//!
//! Font data is either one face or a collection of faces. A collection
//! opens with the tag `ttcf`, a version, and the number of its faces, each
//! in four bytes with the highest byte first; an offset of four bytes for
//! each face follows. The loader sets room aside for as many faces as the
//! head declares before it reads any of them, so a head that declares more
//! than the data can hold must not reach it.

use vstd::prelude::*;

verus! {

/// `ttcf`, which opens a collection.
pub open spec fn collection_tag() -> Seq<u8> {
    seq![0x74u8, 0x74u8, 0x63u8, 0x66u8]
}

/// The length of a collection's head: tag, version and number of faces.
pub const COLLECTION_HEAD_LEN: usize = 12;

/// The number of faces that the loader keeps track of without asking for
/// memory.
pub const INLINE_FACES: u32 = 8;

/// The four bytes from index `at` on, read as a number with the highest
/// byte first.
pub open spec fn be_u32_at(bytes: Seq<u8>, at: int) -> nat {
    (0x100_0000 * bytes[at] + 0x1_0000 * bytes[at + 1] + 0x100 * bytes[at + 2] + bytes[at
        + 3]) as nat
}

/// Whether font data opens as a collection with its whole head.
pub open spec fn is_collection(font: Seq<u8>) -> bool {
    font.len() >= COLLECTION_HEAD_LEN && font.subrange(0, 4) == collection_tag()
}

/// The number of faces that font data declares: what the head of a
/// collection says, and one for anything else.
pub open spec fn declared_faces_spec(font: Seq<u8>) -> nat {
    if is_collection(font) {
        be_u32_at(font, 8)
    } else {
        1
    }
}

/// Whether the loader can take the font data: it declares no more faces
/// than are kept track of without memory, or no more than it has offsets
/// for, and then no more than this machine can set room aside for.
pub open spec fn font_fits(font: Seq<u8>) -> bool {
    let faces = declared_faces_spec(font);
    faces <= INLINE_FACES || (COLLECTION_HEAD_LEN + 4 * faces <= font.len() && 8 * faces
        <= isize::MAX)
}

/// The number of faces that font data declares.
pub fn declared_faces(font: &[u8]) -> (faces: u32)
    ensures
        faces == declared_faces_spec(font@),
{
    if font.len() < COLLECTION_HEAD_LEN {
        return 1;
    }
    let tagged = font[0] == 0x74 && font[1] == 0x74 && font[2] == 0x63 && font[3] == 0x66;
    proof {
        let head = font@.subrange(0, 4);
        if tagged {
            assert(head =~= collection_tag());
        } else {
            assert(head[0] != 0x74 || head[1] != 0x74 || head[2] != 0x63 || head[3] != 0x66);
        }
    }
    if !tagged {
        return 1;
    }
    0x100_0000 * (font[8] as u32) + 0x1_0000 * (font[9] as u32) + 0x100 * (font[10] as u32) + (
    font[11] as u32)
}

/// Whether the loader can take the font data.
pub fn fits_font(font: &[u8]) -> (fits: bool)
    ensures
        fits == font_fits(font@),
{
    let faces = declared_faces(font);
    if faces <= INLINE_FACES {
        return true;
    }
    let faces = faces as u64;
    let len = font.len() as u64;
    12 + 4 * faces <= len && 8 * faces <= isize::MAX as u64
}

} // verus!
