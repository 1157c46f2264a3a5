use cbor_title::{DecodeError, EndOfFile, Immediate, Major, Minor, Read, Title, Write};

fn imm(v: u8) -> Minor {
    Minor::Immediate(Immediate::new(v).unwrap())
}

fn bytes_of(t: Title) -> Vec<u8> {
    let mut out: Vec<u8> = Vec::new();
    t.encode(&mut out).unwrap();
    out
}

fn parse(bytes: &[u8]) -> Result<(Title, usize), DecodeError<EndOfFile>> {
    let mut reader: &[u8] = bytes;
    let t = Title::decode(&mut reader)?;
    Ok((t, reader.len()))
}

#[test]
fn encode_picks_the_smallest_shape() {
    assert_eq!(bytes_of(Title::from(0u8)), vec![0x00]);
    assert_eq!(bytes_of(Title::from(23u8)), vec![0x17]);
    assert_eq!(bytes_of(Title::from(24u8)), vec![0x18, 24]);
    assert_eq!(bytes_of(Title::from(255u8)), vec![0x18, 255]);
    assert_eq!(bytes_of(Title::from(256u16)), vec![0x19, 1, 0]);
    assert_eq!(bytes_of(Title::from(65535u16)), vec![0x19, 255, 255]);
    assert_eq!(bytes_of(Title::from(65536u32)), vec![0x1a, 0, 1, 0, 0]);
    assert_eq!(bytes_of(Title::from(u32::MAX)), vec![0x1a, 255, 255, 255, 255]);
    assert_eq!(bytes_of(Title::from(1u64 << 32)), vec![0x1b, 0, 0, 0, 1, 0, 0, 0, 0]);
    assert_eq!(bytes_of(Title::from(u64::MAX)), vec![0x1b, 255, 255, 255, 255, 255, 255, 255, 255]);
}

#[test]
fn encode_spells_big_endian() {
    assert_eq!(bytes_of(Title::from(0x0102u16)), vec![0x19, 0x01, 0x02]);
    assert_eq!(bytes_of(Title::from(0x0102_0304u32)), vec![0x1a, 1, 2, 3, 4]);
    assert_eq!(
        bytes_of(Title::from(0x0102_0304_0506_0708u64)),
        vec![0x1b, 1, 2, 3, 4, 5, 6, 7, 8]
    );
    assert_eq!(bytes_of(Title::from(-500i16)), vec![0x39, 0x01, 0xf3]);
}

#[test]
fn minor_shapes_by_value() {
    assert_eq!(Title::from(23u8), Title(Major::Positive, imm(23)));
    assert_eq!(Title::from(24u8), Title(Major::Positive, Minor::Subsequent1([24])));
    assert_eq!(Title::from(255u64), Title(Major::Positive, Minor::Subsequent1([255])));
    assert_eq!(Title::from(256u64), Title(Major::Positive, Minor::Subsequent2([1, 0])));
    assert_eq!(
        Title::from(1u64 << 32),
        Title(Major::Positive, Minor::Subsequent8([0, 0, 0, 1, 0, 0, 0, 0]))
    );
}

#[test]
fn encode_appends_to_the_sink() {
    let mut out: Vec<u8> = vec![0xaa];
    Title::from(1000u16).encode(&mut out).unwrap();
    Title::break_marker().encode(&mut out).unwrap();
    assert_eq!(out, vec![0xaa, 0x19, 0x03, 0xe8, 0xff]);
}

#[test]
fn encode_every_major() {
    let majors = [
        Major::Positive,
        Major::Negative,
        Major::Bytes,
        Major::Text,
        Major::Array,
        Major::Mapping,
        Major::Tag,
        Major::Other,
    ];
    for (i, major) in majors.iter().enumerate() {
        let t = Title(*major, imm(5));
        assert_eq!(bytes_of(t), vec![((i as u8) << 5) | 5]);
        assert_eq!(parse(&[((i as u8) << 5) | 5]).unwrap(), (t, 0));
        assert_eq!(major.tag(), i as u8);
        assert_eq!(Major::from_prefix((i as u8) << 5), *major);
    }
}

#[test]
fn round_trip_unsigned() {
    let values: [u64; 12] =
        [0, 1, 23, 24, 255, 256, 65535, 65536, 0xffff_ffff, 0x1_0000_0000, 1 << 63, u64::MAX];
    for &n in values.iter() {
        let t = Title::from(n);
        let bytes = bytes_of(t);
        assert_eq!(bytes.len(), t.len());
        assert_eq!(parse(&bytes).unwrap(), (t, 0));
        assert_eq!(i128::try_from(t), Ok(n as i128));
    }
}

#[test]
fn round_trip_signed() {
    let values: [i64; 14] = [
        0,
        -1,
        1,
        -24,
        -25,
        23,
        24,
        -256,
        -257,
        -65536,
        -65537,
        i64::MIN,
        i64::MAX,
        -4_294_967_297,
    ];
    for &n in values.iter() {
        let t = Title::from(n);
        let bytes = bytes_of(t);
        assert_eq!(parse(&bytes).unwrap(), (t, 0));
        assert_eq!(i128::try_from(t), Ok(n as i128));
    }
}

#[test]
fn round_trip_narrow_types() {
    for n in i8::MIN..=i8::MAX {
        let t = Title::from(n);
        assert_eq!(parse(&bytes_of(t)).unwrap(), (t, 0));
        assert_eq!(i128::try_from(t), Ok(n as i128));
        assert_eq!(Title::from(n as i16), t);
        assert_eq!(Title::from(n as i32), t);
        assert_eq!(Title::from(n as i64), t);
        assert_eq!(Title::try_from(n as i128), Ok(t));
    }
    for n in u8::MIN..=u8::MAX {
        let t = Title::from(n);
        assert_eq!(parse(&bytes_of(t)).unwrap(), (t, 0));
        assert_eq!(i128::try_from(t), Ok(n as i128));
        assert_eq!(Title::from(n as u16), t);
        assert_eq!(Title::from(n as u32), t);
        assert_eq!(Title::from(n as u64), t);
        assert_eq!(Title::try_from(n as u128), Ok(t));
    }
    assert_eq!(i128::try_from(Title::from(i16::MIN)), Ok(-32768));
    assert_eq!(i128::try_from(Title::from(i32::MIN)), Ok(-2147483648));
    assert_eq!(i128::try_from(Title::from(u16::MAX)), Ok(65535));
    assert_eq!(i128::try_from(Title::from(u32::MAX)), Ok(4294967295));
}

#[test]
fn decode_leaves_what_follows() {
    let bytes = [0x19, 0x01, 0x00, 0x07, 0x08];
    let mut reader: &[u8] = &bytes;
    let t = Title::decode(&mut reader).unwrap();
    assert_eq!(t, Title(Major::Positive, Minor::Subsequent2([1, 0])));
    assert_eq!(reader.len(), 2);
    let u = Title::decode(&mut reader).unwrap();
    assert_eq!(u, Title(Major::Positive, imm(7)));
    assert_eq!(reader.len(), 1);
}

#[test]
fn decode_is_lenient_on_width() {
    let (t, left) = parse(&[0x1b, 0, 0, 0, 0, 0, 0, 0, 5]).unwrap();
    assert_eq!(left, 0);
    assert_eq!(t, Title(Major::Positive, Minor::Subsequent8([0, 0, 0, 0, 0, 0, 0, 5])));
    assert_eq!(t.1.value(), Some(5));
    assert_eq!(i128::try_from(t), Ok(5));
    assert_ne!(t, Title::from(5u8));

    let (t, _) = parse(&[0x18, 5]).unwrap();
    assert_eq!(i128::try_from(t), Ok(5));
    let (t, _) = parse(&[0x39, 0, 5]).unwrap();
    assert_eq!(i128::try_from(t), Ok(-6));
    let (t, _) = parse(&[0x5a, 0, 0, 0, 5]).unwrap();
    assert_eq!(Option::<usize>::try_from(t), Ok(Some(5)));
}

#[test]
fn decode_rejects_reserved_codes() {
    for major in 0u8..8 {
        for code in 28u8..=30 {
            let bytes = [(major << 5) | code, 1, 2, 3, 4, 5, 6, 7, 8];
            let mut reader: &[u8] = &bytes;
            let r = Title::decode(&mut reader);
            assert!(matches!(r, Err(DecodeError::Invalid)));
            assert_eq!(reader.len(), 8);
        }
    }
    let mut reader: &[u8] = &[0x1c];
    assert!(matches!(Title::decode(&mut reader), Err(DecodeError::Invalid)));
    assert_eq!(reader.len(), 0);
}

#[test]
fn decode_accepts_every_other_code() {
    for prefix in 0u8..=255 {
        let code = prefix & 31;
        let bytes = [prefix, 1, 2, 3, 4, 5, 6, 7, 8];
        let r = parse(&bytes);
        if (28..=30).contains(&code) {
            assert!(matches!(r, Err(DecodeError::Invalid)));
        } else {
            let (t, left) = r.unwrap();
            assert_eq!(t.len() + left, 9);
            assert_eq!(t.1.code(), code);
            assert_eq!(t.0.tag(), prefix >> 5);
            assert_eq!(bytes_of(t), bytes[..t.len()].to_vec());
        }
    }
}

#[test]
fn decode_reports_a_short_source() {
    assert!(matches!(parse(&[]), Err(DecodeError::Source(EndOfFile))));
    assert!(matches!(parse(&[0x18]), Err(DecodeError::Source(EndOfFile))));
    assert!(matches!(parse(&[0x19, 1]), Err(DecodeError::Source(EndOfFile))));
    assert!(matches!(parse(&[0x1a, 1, 2, 3]), Err(DecodeError::Source(EndOfFile))));
    assert!(matches!(parse(&[0x1b, 1, 2, 3, 4, 5, 6, 7]), Err(DecodeError::Source(EndOfFile))));
    assert!(parse(&[0x1b, 1, 2, 3, 4, 5, 6, 7, 8]).is_ok());
}

#[test]
fn decode_break_and_indeterminate() {
    assert_eq!(parse(&[0xff]).unwrap(), (Title::break_marker(), 0));
    assert_eq!(parse(&[0x5f, 9]).unwrap(), (Title(Major::Bytes, Minor::Indeterminate), 1));
    assert_eq!(bytes_of(Title(Major::Array, Minor::Indeterminate)), vec![0x9f]);
}

#[test]
fn len_counts_prefix_and_trailer() {
    assert_eq!(Title(Major::Positive, Minor::Subsequent8([0; 8])).len(), 9);
    assert_eq!(Title(Major::Positive, Minor::Subsequent4([0; 4])).len(), 5);
    assert_eq!(Title(Major::Positive, Minor::Subsequent2([0; 2])).len(), 3);
    assert_eq!(Title(Major::Positive, Minor::Subsequent1([0; 1])).len(), 2);
    assert_eq!(Title(Major::Positive, imm(0)).len(), 1);
    assert_eq!(Title(Major::Text, Minor::Indeterminate).len(), 1);
    assert_eq!(Title::break_marker().len(), 1);
}

#[test]
fn slice_is_read_in_order() {
    let bytes = [1u8, 2, 3, 4, 5];
    let mut reader: &[u8] = &bytes;
    let mut two = [0u8; 2];
    reader.read_exact(&mut two).unwrap();
    assert_eq!(two, [1, 2]);
    let mut none: [u8; 0] = [];
    reader.read_exact(&mut none).unwrap();
    assert_eq!(reader.len(), 3);
    let mut four = [9u8; 4];
    assert_eq!(reader.read_exact(&mut four), Err(EndOfFile));
    assert_eq!(four, [9, 9, 9, 9]);
    assert_eq!(reader.len(), 3);
    let mut three = [0u8; 3];
    reader.read_exact(&mut three).unwrap();
    assert_eq!(three, [3, 4, 5]);
    assert_eq!(reader.len(), 0);
}

#[test]
fn vec_writer_appends() {
    let mut out: Vec<u8> = vec![1];
    out.write_all(&[2, 3]).unwrap();
    out.write_all(&[]).unwrap();
    out.write_all(&[4]).unwrap();
    assert_eq!(out, vec![1, 2, 3, 4]);
}
