use tetromino::pieces::Offsets::{
    Center, East, EastBySouthEast, EastEast, North, NorthEast, NorthWest, South,
    SouthBySouthEast, SouthEast, SouthSouth, SouthWest, West,
};
use tetromino::pieces::{pieces, xy, Offsets, Orientation, Piece, PieceColor, PieceView};

const ORIENTATIONS: [Orientation; 4] = [
    Orientation::Up,
    Orientation::Right,
    Orientation::Down,
    Orientation::Left,
];

fn turned_to(p: &Piece, o: &Orientation) -> Piece {
    let mut q = p.clone();
    while q.orientation != *o {
        q.rotate_right();
    }
    q
}

#[test]
fn xy_matches_the_offset_table() {
    let table: [(Offsets, (i8, i8)); 13] = [
        (Center, (0, 0)),
        (North, (0, -1)),
        (NorthWest, (-1, -1)),
        (West, (-1, 0)),
        (SouthWest, (-1, 1)),
        (South, (0, 1)),
        (SouthEast, (1, 1)),
        (East, (1, 0)),
        (NorthEast, (1, -1)),
        (EastEast, (2, 0)),
        (SouthSouth, (0, 2)),
        (SouthBySouthEast, (1, 2)),
        (EastBySouthEast, (2, 1)),
    ];
    for (offset, expected) in table.iter() {
        assert_eq!(xy(offset), *expected, "offset {:?}", offset);
    }
}

#[test]
fn views_match_the_canonical_table() {
    let table: [[PieceView; 4]; 7] = [
        [
            [North, NorthEast, Center, East],
            [North, NorthEast, Center, East],
            [North, NorthEast, Center, East],
            [North, NorthEast, Center, East],
        ],
        [
            [Center, West, East, North],
            [Center, East, North, South],
            [Center, West, East, South],
            [Center, West, North, South],
        ],
        [
            [West, Center, East, EastEast],
            [NorthEast, East, SouthEast, SouthBySouthEast],
            [SouthWest, South, SouthEast, EastBySouthEast],
            [North, Center, South, SouthSouth],
        ],
        [
            [West, Center, East, NorthEast],
            [North, Center, South, SouthEast],
            [Center, East, West, SouthWest],
            [NorthWest, North, Center, South],
        ],
        [
            [Center, East, West, NorthWest],
            [NorthEast, North, Center, South],
            [West, Center, East, SouthEast],
            [North, Center, South, SouthWest],
        ],
        [
            [West, Center, North, NorthEast],
            [North, Center, East, SouthEast],
            [SouthWest, South, Center, East],
            [NorthWest, West, Center, South],
        ],
        [
            [NorthWest, North, Center, East],
            [South, Center, East, NorthEast],
            [West, Center, South, SouthEast],
            [SouthWest, West, Center, North],
        ],
    ];
    let all = pieces();
    for (i, piece) in all.iter().enumerate() {
        for (k, o) in ORIENTATIONS.iter().enumerate() {
            let q = turned_to(piece, o);
            assert_eq!(*q.view(), table[i][k], "piece {} orientation {:?}", i, o);
        }
    }
}

#[test]
fn four_right_turns_restore_orientation() {
    for piece in pieces().iter() {
        for o in ORIENTATIONS.iter() {
            let start = turned_to(piece, o);
            let mut q = start.clone();
            for _ in 0..4 {
                q.rotate_right();
            }
            assert_eq!(q, start);
        }
    }
}

#[test]
fn four_left_turns_restore_orientation() {
    for piece in pieces().iter() {
        for o in ORIENTATIONS.iter() {
            let start = turned_to(piece, o);
            let mut q = start.clone();
            for _ in 0..4 {
                q.rotate_left();
            }
            assert_eq!(q, start);
        }
    }
}

#[test]
fn right_then_left_and_left_then_right_cancel() {
    for piece in pieces().iter() {
        for o in ORIENTATIONS.iter() {
            let start = turned_to(piece, o);
            let mut a = start.clone();
            a.rotate_right();
            a.rotate_left();
            assert_eq!(a, start);
            let mut b = start.clone();
            b.rotate_left();
            b.rotate_right();
            assert_eq!(b, start);
        }
    }
}

#[test]
fn rotate_right_steps_forward() {
    let mut p = pieces()[1];
    let expected = [
        Orientation::Right,
        Orientation::Down,
        Orientation::Left,
        Orientation::Up,
    ];
    for o in expected.iter() {
        p.rotate_right();
        assert_eq!(p.orientation, *o);
    }
}

#[test]
fn rotate_left_steps_back() {
    let mut p = pieces()[1];
    let expected = [
        Orientation::Left,
        Orientation::Down,
        Orientation::Right,
        Orientation::Up,
    ];
    for o in expected.iter() {
        p.rotate_left();
        assert_eq!(p.orientation, *o);
    }
}

#[test]
fn rotation_keeps_color() {
    for piece in pieces().iter() {
        let mut q = piece.clone();
        q.rotate_right();
        assert_eq!(q.color, piece.color);
        q.rotate_left();
        q.rotate_left();
        assert_eq!(q.color, piece.color);
    }
}

#[test]
fn catalog_order_and_colors() {
    let all = pieces();
    assert_eq!(all.len(), 7);
    let colors = [
        PieceColor::Yellow,
        PieceColor::Magenta,
        PieceColor::Cyan,
        PieceColor::Orange,
        PieceColor::Blue,
        PieceColor::Green,
        PieceColor::Red,
    ];
    for (piece, color) in all.iter().zip(colors.iter()) {
        assert_eq!(piece.color, *color);
        assert_eq!(piece.orientation, Orientation::Up);
    }
}

#[test]
fn t_piece_turns_right() {
    let mut t = pieces()[1];
    assert_eq!(t.orientation, Orientation::Up);
    assert_eq!(*t.view(), [Center, West, East, North]);
    t.rotate_right();
    assert_eq!(t.orientation, Orientation::Right);
    assert_eq!(*t.view(), [Center, East, North, South]);
}

#[test]
fn o_piece_looks_the_same_in_every_orientation() {
    let mut o = pieces()[0];
    for _ in 0..4 {
        assert_eq!(*o.view(), [North, NorthEast, Center, East]);
        o.rotate_right();
    }
}

#[test]
fn cloned_pieces_turn_independently() {
    let original = pieces()[2];
    let mut a = original.clone();
    let b = original.clone();
    a.rotate_right();
    assert_eq!(a.orientation, Orientation::Right);
    assert_eq!(b.orientation, Orientation::Up);
    assert_eq!(*b.view(), [West, Center, East, EastEast]);
    assert_eq!(*a.view(), [NorthEast, East, SouthEast, SouthBySouthEast]);
    assert_eq!(pieces()[2].orientation, Orientation::Up);
}

#[test]
fn i_piece_cells_in_coordinates() {
    let mut i = pieces()[2];
    i.rotate_left();
    let cells: Vec<(i8, i8)> = i.view().iter().map(xy).collect();
    assert_eq!(cells, vec![(0, -1), (0, 0), (0, 1), (0, 2)]);
}
