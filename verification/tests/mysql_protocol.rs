use bakpiarun::mysql_protocol::{
    build_column_count_packet, build_column_def_packet, build_eof_packet, build_error_packet,
    build_ok_packet, build_packet, build_row_packet, lenenc_int, lenenc_str, map_column_type,
    ColumnType, Value,
};

#[test]
fn lenenc_int_forms() {
    assert_eq!(lenenc_int(0), vec![0]);
    assert_eq!(lenenc_int(250), vec![250]);
    assert_eq!(lenenc_int(251), vec![0xfc, 251, 0]);
    assert_eq!(lenenc_int(65535), vec![0xfc, 0xff, 0xff]);
    assert_eq!(lenenc_int(65536), vec![0xfd, 0, 0, 1]);
    assert_eq!(lenenc_int(16777215), vec![0xfd, 0xff, 0xff, 0xff]);
    assert_eq!(lenenc_int(16777216), vec![0xfe, 0, 0, 0, 1, 0, 0, 0, 0]);
    assert_eq!(lenenc_int(u64::MAX), vec![0xfe, 0xff, 0xff, 0xff, 0xff, 0xff, 0xff, 0xff, 0xff]);
}

#[test]
fn lenenc_str_prefixes_length() {
    assert_eq!(lenenc_str(b"abc"), vec![3, b'a', b'b', b'c']);
    assert_eq!(lenenc_str(b""), vec![0]);
}

#[test]
fn packet_header_then_payload() {
    assert_eq!(build_packet(1, &[1, 2]), vec![2, 0, 0, 1, 1, 2]);
    let big = vec![7u8; 70000];
    let p = build_packet(9, &big);
    assert_eq!(&p[0..4], &[0x70, 0x11, 0x01, 9]);
    assert_eq!(p.len(), 70004);
}

#[test]
fn ok_packet_bytes() {
    assert_eq!(build_ok_packet(2, 0, 0), vec![7, 0, 0, 2, 0, 0, 0, 2, 0, 0, 0]);
    assert_eq!(build_ok_packet(1, 300, 5), vec![9, 0, 0, 1, 0, 0xfc, 0x2c, 0x01, 5, 2, 0, 0, 0]);
}

#[test]
fn error_packet_bytes() {
    assert_eq!(
        build_error_packet(1, 1064, "x"),
        vec![10, 0, 0, 1, 0xff, 0x28, 0x04, b'#', b'H', b'Y', b'0', b'0', b'0', b'x']
    );
}

#[test]
fn eof_and_column_count_packets() {
    assert_eq!(build_eof_packet(3), vec![5, 0, 0, 3, 0xfe, 0, 0, 2, 0]);
    assert_eq!(build_column_count_packet(1, 2), vec![1, 0, 0, 1, 2]);
}

#[test]
fn column_type_codes() {
    assert_eq!(map_column_type(ColumnType::MYSQL_TYPE_TINY), 1);
    assert_eq!(map_column_type(ColumnType::MYSQL_TYPE_TIMESTAMP), 12);
    assert_eq!(map_column_type(ColumnType::MYSQL_TYPE_VAR_STRING), 15);
    assert_eq!(map_column_type(ColumnType::MYSQL_TYPE_LONG_BLOB), 252);
    assert_eq!(map_column_type(ColumnType::MYSQL_TYPE_DECIMAL), 253);
    assert_eq!(map_column_type(ColumnType::MYSQL_TYPE_GEOMETRY), 255);
}

#[test]
fn column_definition_packet() {
    let p = build_column_def_packet(2, "id", ColumnType::MYSQL_TYPE_LONG);
    let payload: Vec<u8> = vec![
        3, b'd', b'e', b'f', 0, 0, 0, 2, b'i', b'd', 2, b'i', b'd', 0x0c, 0x21, 0x00, 0xff, 0xff,
        0xff, 0xff, 3, 0, 0, 0, 0, 0,
    ];
    let mut expected = vec![payload.len() as u8, 0, 0, 2];
    expected.extend_from_slice(&payload);
    assert_eq!(p, expected);
}

#[test]
fn text_row_packet() {
    let row = vec![
        Value::Null,
        Value::Bytes(b"ab".to_vec()),
        Value::Int(-5),
        Value::UInt(7),
        Value::Double(b"1.5".to_vec(), 1.5f64.to_bits()),
        Value::Other,
    ];
    assert_eq!(
        build_row_packet(4, &row),
        vec![
            15, 0, 0, 4, 0xfb, 2, b'a', b'b', 2, b'-', b'5', 1, b'7', 3, b'1', b'.', b'5', 1, b'?'
        ]
    );
}

#[test]
fn lenenc_strings_are_prefix_free() {
    let samples: Vec<Vec<u8>> = vec![vec![], b"a".to_vec(), b"ab".to_vec(), vec![7u8; 250], vec![7u8; 251], vec![1u8; 70000]];
    for a in &samples {
        for b in &samples {
            let mut ea = lenenc_str(a);
            let mut eb = lenenc_str(b);
            if a != b {
                let n = ea.len().min(eb.len());
                assert_ne!(ea[..n], eb[..n]);
            }
            ea.extend_from_slice(b"tail");
            eb.extend_from_slice(b"tail");
            assert_eq!(ea == eb, a == b);
        }
    }
}
