use schack::coords::{
    chess_to_numerical, label_to_square, numerical_to_chess, pixel_to_square, square_to_label,
    MalformedLabel, Square,
};

#[test]
fn corner_labels() {
    assert_eq!(numerical_to_chess(0, 0), "A8");
    assert_eq!(numerical_to_chess(7, 7), "H1");
    assert_eq!(numerical_to_chess(0, 7), "A1");
    assert_eq!(numerical_to_chess(7, 0), "H8");
}

#[test]
fn king_pawn_label() {
    assert_eq!(numerical_to_chess(4, 6), "E2");
    assert_eq!(square_to_label(Square { column: 4, row: 4 }), "E4");
}

#[test]
fn label_to_numbers() {
    assert_eq!(chess_to_numerical("A8"), (0, 0));
    assert_eq!(chess_to_numerical("E2"), (4, 6));
    assert_eq!(chess_to_numerical("H1"), (7, 7));
}

#[test]
fn label_to_square_accepts_labels() {
    assert_eq!(label_to_square("E4"), Ok(Square { column: 4, row: 4 }));
    assert_eq!(label_to_square("B7"), Ok(Square { column: 1, row: 1 }));
}

#[test]
fn label_to_square_rejects_malformed() {
    assert_eq!(label_to_square(""), Err(MalformedLabel));
    assert_eq!(label_to_square("E"), Err(MalformedLabel));
    assert_eq!(label_to_square("E22"), Err(MalformedLabel));
    assert_eq!(label_to_square("I2"), Err(MalformedLabel));
    assert_eq!(label_to_square("e2"), Err(MalformedLabel));
    assert_eq!(label_to_square("E0"), Err(MalformedLabel));
    assert_eq!(label_to_square("E9"), Err(MalformedLabel));
    assert_eq!(label_to_square("É2"), Err(MalformedLabel));
}

#[test]
fn round_trip_every_square() {
    for column in 0..8u8 {
        for row in 0..8u8 {
            let s = Square { column, row };
            let label = square_to_label(s);
            assert_eq!(label.chars().count(), 2);
            assert_eq!(label_to_square(&label), Ok(s));
            assert_eq!(square_to_label(label_to_square(&label).unwrap()), label);
        }
    }
}

#[test]
fn pixels_floor_to_cells() {
    assert_eq!(pixel_to_square(0, 0, 90), Square { column: 0, row: 0 });
    assert_eq!(pixel_to_square(89, 90, 90), Square { column: 0, row: 1 });
    assert_eq!(pixel_to_square(405, 585, 90), Square { column: 4, row: 6 });
    assert_eq!(pixel_to_square(719, 719, 90), Square { column: 7, row: 7 });
}
