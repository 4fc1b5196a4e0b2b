use base64::Engine;
use demo_bot::{
    check_edge, classify_pixel, decode_board, ingest, parse_color, BlockusMap, Case, Color,
    GameError, Move, Orientation, ResponsePiece,
};
use std::io::Cursor;

const RED: [u8; 4] = [255, 0, 0, 255];
const BLUE: [u8; 4] = [0, 0, 255, 255];
const BLACK: [u8; 4] = [0, 0, 0, 255];

fn piece(id: u32, count: u32, shape: Vec<Vec<u32>>) -> ResponsePiece {
    ResponsePiece { id, count, shape }
}

fn session(pieces: Vec<ResponsePiece>) -> BlockusMap {
    BlockusMap::new(&"#ff0000".to_string(), &pieces).unwrap()
}

/// A rendered 400 by 400 board: black, with the given cells painted.
fn rgba_board(cells: &[(usize, usize, [u8; 4])]) -> Vec<u8> {
    let mut px = Vec::with_capacity(640000);
    for _ in 0..160000 {
        px.extend_from_slice(&BLACK);
    }
    for &(cx, cy, color) in cells {
        for dy in 0..20 {
            for dx in 0..20 {
                let o = ((cy * 20 + dy) * 400 + cx * 20 + dx) * 4;
                px[o..o + 4].copy_from_slice(&color);
            }
        }
    }
    px
}

fn png_of(width: u32, height: u32, px: Vec<u8>) -> Vec<u8> {
    let img = image::RgbaImage::from_raw(width, height, px).unwrap();
    let mut bytes = Vec::new();
    image::DynamicImage::ImageRgba8(img)
        .write_to(&mut Cursor::new(&mut bytes), image::ImageFormat::Png)
        .unwrap();
    bytes
}

fn load(map: &mut BlockusMap, cells: &[(usize, usize, [u8; 4])]) {
    let bytes = png_of(400, 400, rgba_board(cells));
    let text = base64::engine::general_purpose::STANDARD.encode(&bytes);
    assert_eq!(map.update(&text), Ok(()));
}

fn mv(x: usize, y: usize, piece_id: usize) -> Move {
    Move { x, y, orientation: Orientation::UP, piece_id }
}

#[test]
fn first_move_of_single_square_then_exhausted() {
    let mut map = session(vec![piece(0, 1, vec![vec![1]])]);
    assert!(map.is_first_move());
    let first = map.try_position();
    assert_eq!(first, Some(Move { x: 0, y: 19, orientation: Orientation::UP, piece_id: 0 }));
    assert_eq!(map.used_count(0), 1);
    assert!(!map.is_first_move());
    assert_eq!(map.try_position(), None);
    assert_eq!(map.used_count(0), 1);
}

#[test]
fn overlap_with_any_piece_is_illegal() {
    let mut map = session(vec![piece(0, 1, vec![vec![1, 1], vec![1, 1]])]);
    load(&mut map, &[(18, 19, BLUE)]);
    assert_eq!(map.cell(18, 19), Case::Opponent);
    assert!(!map.check_move_validity(&mv(18, 18, 0), true));
    assert!(map.check_move_validity(&mv(16, 18, 0), true));
    load(&mut map, &[(5, 5, RED), (6, 6, BLUE)]);
    assert!(!map.check_move_validity(&mv(6, 6, 0), false));
}

#[test]
fn edge_contact_with_own_piece_is_illegal() {
    let mut map = session(vec![piece(0, 2, vec![vec![1]])]);
    load(&mut map, &[(5, 5, RED), (7, 7, RED)]);
    // diagonal to (5, 5) but edge to edge with (7, 7)
    assert!(!map.check_move_validity(&mv(6, 7, 0), false));
    assert!(map.check_move_validity(&mv(6, 4, 0), false));
}

#[test]
fn first_move_needs_no_corner_later_moves_do() {
    let map = session(vec![piece(0, 2, vec![vec![1]])]);
    assert!(map.check_move_validity(&mv(19, 3, 0), true));
    assert!(!map.check_move_validity(&mv(19, 3, 0), false));
}

#[test]
fn first_move_must_touch_high_border() {
    let map = session(vec![piece(0, 2, vec![vec![1]])]);
    assert!(!map.check_move_validity(&mv(0, 0, 0), true));
    assert!(!map.check_move_validity(&mv(10, 10, 0), true));
    assert!(map.check_move_validity(&mv(19, 0, 0), true));
    let mut later = session(vec![piece(0, 2, vec![vec![1]])]);
    load(&mut later, &[(1, 1, RED)]);
    assert!(later.check_move_validity(&mv(0, 0, 0), false));
}

#[test]
fn exhausted_piece_is_never_chosen() {
    let mut map = session(vec![piece(0, 0, vec![vec![1]]), piece(1, 1, vec![vec![1]])]);
    assert!(!map.check_move_validity(&mv(0, 19, 0), true));
    assert_eq!(map.try_position(), Some(mv(0, 19, 1)));
    assert_eq!(map.try_position(), None);
}

#[test]
fn search_is_deterministic() {
    let pieces = vec![
        piece(0, 1, vec![vec![1, 0], vec![1, 1]]),
        piece(1, 1, vec![vec![0, 1], vec![1, 1]]),
    ];
    let mut a = session(pieces.clone());
    let mut b = session(pieces);
    load(&mut a, &[(3, 4, BLUE)]);
    load(&mut b, &[(3, 4, BLUE)]);
    assert_eq!(a.try_position(), b.try_position());
    assert_eq!(a.try_position(), b.try_position());
}

#[test]
fn larger_piece_is_tried_first() {
    let three = piece(0, 1, vec![vec![1, 1, 1], vec![0, 0, 0], vec![0, 0, 0]]);
    let five = piece(1, 1, vec![vec![1, 1, 1], vec![1, 0, 0], vec![1, 0, 0]]);
    let mut map = session(vec![three, five]);
    assert_eq!(map.pieces().get_order_priority(), vec![1, 0]);
    let first = map.try_position().unwrap();
    assert_eq!(first.piece_id, 1);
    assert_eq!((first.x, first.y), (0, 17));
}

#[test]
fn priority_breaks_ties_by_size_then_id() {
    let map = session(vec![
        piece(0, 1, vec![vec![1]]),
        piece(1, 1, vec![vec![1, 0], vec![0, 0]]),
        piece(2, 1, vec![vec![1, 1], vec![0, 0]]),
        piece(3, 1, vec![vec![1]]),
        piece(4, 1, vec![vec![1, 1, 0], vec![0, 0, 0], vec![0, 0, 0]]),
    ]);
    assert_eq!(map.pieces().get_order_priority(), vec![4, 2, 1, 0, 3]);
    assert_eq!(map.pieces().pieces[4].new_cell_count(), 2);
}

#[test]
fn second_move_touches_first_at_a_corner() {
    let mut map = session(vec![piece(0, 2, vec![vec![1]])]);
    assert_eq!(map.try_position(), Some(mv(0, 19, 0)));
    load(&mut map, &[(0, 19, RED)]);
    assert_eq!(map.try_position(), Some(mv(1, 18, 0)));
    assert_eq!(map.try_position(), None);
}

#[test]
fn new_rejects_bad_color() {
    let pieces = vec![piece(0, 1, vec![vec![1]])];
    assert_eq!(BlockusMap::new(&"ff0000".to_string(), &pieces).err(), Some(GameError::InvalidColor));
    assert_eq!(BlockusMap::new(&"#ff00zz".to_string(), &pieces).err(), Some(GameError::InvalidColor));
    assert_eq!(BlockusMap::new(&"#ff00000".to_string(), &pieces).err(), Some(GameError::InvalidColor));
}

#[test]
fn new_rejects_bad_shapes() {
    let empty = vec![piece(0, 1, vec![])];
    assert_eq!(BlockusMap::new(&"#ff0000".to_string(), &empty).err(), Some(GameError::InvalidShape));
    let ragged = vec![piece(0, 1, vec![vec![1, 1], vec![1]])];
    assert_eq!(BlockusMap::new(&"#ff0000".to_string(), &ragged).err(), Some(GameError::InvalidShape));
    let huge = vec![piece(0, 1, vec![vec![1; 21]; 21])];
    assert_eq!(BlockusMap::new(&"#ff0000".to_string(), &huge).err(), Some(GameError::InvalidShape));
    let full = vec![piece(0, 1, vec![vec![1; 20]; 20])];
    assert!(BlockusMap::new(&"#ff0000".to_string(), &full).is_ok());
}

#[test]
fn new_session_is_empty() {
    let map = BlockusMap::new(&"#0A1b2C".to_string(), &vec![piece(7, 3, vec![vec![0, 2], vec![1, 0]])]).unwrap();
    assert_eq!(map.color(), Color { r: 10, g: 27, b: 44 });
    assert_eq!(map.cell(4, 9), Case::Void);
    let p = &map.pieces().pieces[0];
    assert_eq!((p.size, p.count), (2, 3));
    assert_eq!(p.grid, vec![vec![Case::Void, Case::New], vec![Case::New, Case::Void]]);
}

#[test]
fn color_parsing() {
    assert_eq!(parse_color("#00ff7F"), Some(Color { r: 0, g: 255, b: 127 }));
    assert_eq!(parse_color("#00ff7"), None);
    assert_eq!(parse_color("000ff7F"), None);
}

#[test]
fn pixel_classification() {
    let c = Color { r: 1, g: 2, b: 3 };
    assert_eq!(classify_pixel((0, 0, 0, 255), c), Case::Void);
    assert_eq!(classify_pixel((1, 2, 3, 255), c), Case::Player);
    assert_eq!(classify_pixel((1, 2, 3, 0), c), Case::Opponent);
    assert_eq!(classify_pixel((9, 9, 9, 255), c), Case::Opponent);
}

#[test]
fn ingest_samples_top_left_pixel() {
    let c = Color { r: 255, g: 0, b: 0 };
    let mut px = rgba_board(&[(2, 3, RED), (19, 0, BLUE)]);
    // only the top-left pixel of a block counts
    let o = ((5 * 20 + 1) * 400 + 5 * 20 + 1) * 4;
    px[o..o + 4].copy_from_slice(&RED);
    let g = ingest(400, 400, &px, c).unwrap();
    assert_eq!(g[2][3], Case::Player);
    assert_eq!(g[19][0], Case::Opponent);
    assert_eq!(g[5][5], Case::Void);
    assert_eq!(g[3][2], Case::Void);
    assert_eq!(ingest(399, 400, &px, c), None);
    assert_eq!(ingest(400, 400, &px[4..].to_vec(), c), None);
}

#[test]
fn update_reports_each_failure() {
    let mut map = session(vec![piece(0, 1, vec![vec![1]])]);
    load(&mut map, &[(1, 2, RED)]);
    assert_eq!(map.update("not base64!"), Err(GameError::InvalidEncoding));
    let junk = base64::engine::general_purpose::STANDARD.encode([1u8, 2, 3, 4]);
    assert_eq!(map.update(&junk), Err(GameError::InvalidImage));
    let small = png_of(20, 20, vec![255; 1600]);
    let text = base64::engine::general_purpose::STANDARD.encode(&small);
    assert_eq!(map.update(&text), Err(GameError::InvalidImageSize));
    assert_eq!(map.cell(1, 2), Case::Player);
    load(&mut map, &[]);
    assert_eq!(map.cell(1, 2), Case::Void);
}

#[test]
fn decode_board_gives_bytes() {
    assert_eq!(decode_board("AQID"), Ok(vec![1, 2, 3]));
    assert_eq!(decode_board("AQI"), Err(GameError::InvalidEncoding));
}

#[test]
fn check_edge_reports_corner_touch() {
    let mut g = [[Case::Void; 20]; 20];
    g[4][4] = Case::Player;
    let mut corner = false;
    assert!(check_edge(&g, 5, 5, &mut corner));
    assert!(corner);
    let mut corner = false;
    assert!(!check_edge(&g, 4, 5, &mut corner));
    assert!(!corner);
    let mut corner = false;
    assert!(check_edge(&g, 0, 0, &mut corner));
    assert!(!corner);
    g[19][19] = Case::Opponent;
    assert!(check_edge(&g, 18, 18, &mut corner));
    assert!(!corner);
}
