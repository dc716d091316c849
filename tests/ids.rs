use surreal_engine::ids::{get_opt_uuid, get_uuid, ret_uuid, IdError};

#[test]
fn uuid_bytes_are_big_endian() {
    let v: u128 = 0xa1a2a3a4b1b2c1c2d1d2d3d4d5d6d7d8;
    let b = ret_uuid(v);
    assert_eq!(
        b,
        vec![
            0xa1, 0xa2, 0xa3, 0xa4, 0xb1, 0xb2, 0xc1, 0xc2, 0xd1, 0xd2, 0xd3, 0xd4, 0xd5, 0xd6,
            0xd7, 0xd8
        ]
    );
    assert_eq!(get_uuid(&b), Ok(v));
}

#[test]
fn small_identifier_round_trip() {
    let b = ret_uuid(1);
    assert_eq!(b[15], 1);
    assert!(b[..15].iter().all(|x| *x == 0));
    assert_eq!(get_uuid(&b), Ok(1));
}

#[test]
fn wrong_length_is_refused() {
    assert_eq!(get_uuid(&[1, 2, 3]), Err(IdError::ByteLength(3)));
    assert_eq!(get_uuid(&[0; 17]), Err(IdError::ByteLength(17)));
}

#[test]
fn optional_identifier() {
    assert_eq!(get_opt_uuid(None), Ok(None));
    let b = ret_uuid(5);
    assert_eq!(get_opt_uuid(Some(&b)), Ok(Some(5)));
    assert_eq!(get_opt_uuid(Some(&[0u8; 4][..])), Err(IdError::ByteLength(4)));
}
