use gms_counter::font::{declared_faces, fits_font};
use gms_counter::raster::get_usvg_options;

fn collection(faces: u32, len: usize) -> Vec<u8> {
    let mut font = b"ttcf".to_vec();
    font.extend_from_slice(&[0, 1, 0, 0]);
    font.extend_from_slice(&faces.to_be_bytes());
    font.resize(len, 0);
    font
}

#[test]
fn declared_faces_of_a_collection_is_the_count_in_its_head() {
    assert_eq!(declared_faces(&collection(0, 12)), 0);
    assert_eq!(declared_faces(&collection(2, 12)), 2);
    assert_eq!(declared_faces(&collection(2, 100)), 2);
    assert_eq!(declared_faces(&collection(0x0102_0304, 12)), 0x0102_0304);
    assert_eq!(declared_faces(&collection(u32::MAX, 12)), u32::MAX);
}

#[test]
fn declared_faces_of_anything_else_is_one() {
    assert_eq!(declared_faces(b""), 1);
    assert_eq!(declared_faces(b"ttcf"), 1);
    assert_eq!(declared_faces(&collection(7, 12)[..11]), 1);
    assert_eq!(declared_faces(&[0, 1, 0, 0, 0, 9, 0, 0, 0, 0, 0, 9, 0, 0]), 1);
    assert_eq!(declared_faces(b"OTTO\0\0\0\0\0\0\0\x05"), 1);
    assert_eq!(declared_faces(b"ttcg\0\0\0\0\0\0\0\x05"), 1);
}

#[test]
fn font_that_is_no_collection_fits() {
    assert!(fits_font(b""));
    assert!(fits_font(b"not a font"));
    assert!(fits_font(&[0, 1, 0, 0, 0xff, 0xff, 0xff, 0xff, 0xff, 0xff, 0xff, 0xff]));
}

#[test]
fn collection_fits_up_to_eight_faces_whatever_its_length() {
    for faces in 0..=8 {
        assert!(fits_font(&collection(faces, 12)));
    }
    assert!(!fits_font(&collection(9, 12)));
}

#[test]
fn larger_collection_fits_where_it_has_an_offset_for_each_face() {
    assert!(fits_font(&collection(9, 12 + 4 * 9)));
    assert!(!fits_font(&collection(9, 12 + 4 * 9 - 1)));
    assert!(fits_font(&collection(1000, 12 + 4 * 1000)));
    assert!(fits_font(&collection(1000, 12 + 4 * 1000 + 5)));
    assert!(!fits_font(&collection(1000, 4000)));
}

#[test]
fn collection_out_of_all_proportion_does_not_fit() {
    assert!(!fits_font(&collection(u32::MAX, 12)));
    assert!(!fits_font(&collection(0x8000_0000, 4096)));
}

#[test]
fn fonts_that_fit_are_loaded_without_harm() {
    for font in [
        collection(0, 12),
        collection(2, 12),
        collection(8, 12),
        collection(9, 48),
        collection(100, 500),
    ] {
        assert!(fits_font(&font));
        assert_eq!(get_usvg_options(font).fontdb.len(), 0);
    }
}

#[test]
fn collection_of_one_face_is_loaded() {
    let mut font = b"ttcf".to_vec();
    font.extend_from_slice(&[0, 1, 0, 0, 0, 0, 0, 1, 0, 0, 0, 16]);
    font.extend_from_slice(&[0x00, 0x01, 0x00, 0x00, 0x00, 0x01, 0x00, 0x10, 0, 0, 0, 0]);
    font.extend_from_slice(b"name");
    font.extend_from_slice(&[0, 0, 0, 0, 0, 0, 0, 44, 0, 0, 0, 32]);
    font.extend_from_slice(&[0, 0, 0, 2, 0, 30]);
    font.extend_from_slice(&[0, 3, 0, 1, 0x04, 0x09, 0, 1, 0, 2, 0, 0]);
    font.extend_from_slice(&[0, 3, 0, 1, 0x04, 0x09, 0, 6, 0, 2, 0, 0]);
    font.extend_from_slice(&[0x00, 0x42]);
    assert_eq!(declared_faces(&font), 1);
    assert!(fits_font(&font));
    let options = get_usvg_options(font);
    assert_eq!(options.fontdb.len(), 1);
    for face in options.fontdb.faces() {
        assert_eq!(face.families[0].0, "B");
    }
}
