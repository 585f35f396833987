use b24_tool::calibration::{build_linearisation_table, linearisation_read_sequence, LinearisationRow};

#[test]
fn read_sequence_for_two_points() {
    assert_eq!(
        linearisation_read_sequence(2),
        vec![
            (0, "valid_from"),
            (1, "gain"),
            (2, "offset"),
            (3, "valid_from"),
            (4, "gain"),
            (5, "offset"),
            (6, "final_valid_to"),
        ]
    );
    assert_eq!(linearisation_read_sequence(0), vec![(0, "final_valid_to")]);
    assert_eq!(linearisation_read_sequence(85).len(), 256);
}

#[test]
fn table_from_coefficients() {
    let buf: Vec<u32> = vec![10, 11, 12, 20, 21, 22, 30];
    let table = build_linearisation_table(&buf, 2);
    assert_eq!(
        table,
        vec![
            LinearisationRow { index: 1, valid_from: 10, gain: 11, offset: 12, valid_to: 20 },
            LinearisationRow { index: 2, valid_from: 20, gain: 21, offset: 22, valid_to: 30 },
        ]
    );
}

#[test]
fn table_with_missing_coefficients() {
    let buf: Vec<u32> = vec![10, 11, 12, 20, 21];
    let table = build_linearisation_table(&buf, 3);
    assert_eq!(
        table,
        vec![LinearisationRow { index: 1, valid_from: 10, gain: 11, offset: 12, valid_to: 20 }]
    );
    let table = build_linearisation_table(&vec![1, 2, 3], 1);
    assert_eq!(table[0].valid_to, 0);
}
