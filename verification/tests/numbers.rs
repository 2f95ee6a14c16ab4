use bitcoin_script::num::Num;
use bitcoin_script::opcode::Opcode;
use bitcoin_script::script::Builder;
use bitcoin_script::{cast_to_bool, check_minimal_push, Error};

#[test]
fn num_to_vec_examples() {
    assert_eq!(Num::new(0).to_vec(), Vec::<u8>::new());
    assert_eq!(Num::new(1).to_vec(), vec![1]);
    assert_eq!(Num::new(-1).to_vec(), vec![0x81]);
    assert_eq!(Num::new(127).to_vec(), vec![0x7f]);
    assert_eq!(Num::new(128).to_vec(), vec![0x80, 0x00]);
    assert_eq!(Num::new(-128).to_vec(), vec![0x80, 0x80]);
    assert_eq!(Num::new(255).to_vec(), vec![0xff, 0x00]);
    assert_eq!(Num::new(256).to_vec(), vec![0x00, 0x01]);
    assert_eq!(Num::new(-255).to_vec(), vec![0xff, 0x80]);
    assert_eq!(Num::new(0x12345678).to_vec(), vec![0x78, 0x56, 0x34, 0x12]);
    assert_eq!(Num::new(i64::MAX).to_vec(), vec![0xff, 0xff, 0xff, 0xff, 0xff, 0xff, 0xff, 0x7f]);
}

#[test]
fn num_from_slice_examples() {
    assert_eq!(Num::from_slice(&[], true, 4), Ok(Num::new(0)));
    assert_eq!(Num::from_slice(&[0x80], true, 4), Err(Error::NumberNotMinimallyEncoded));
    assert_eq!(Num::from_slice(&[0x80], false, 4), Ok(Num::new(0)));
    assert_eq!(Num::from_slice(&[0x00], true, 4), Err(Error::NumberNotMinimallyEncoded));
    assert_eq!(Num::from_slice(&[0x01, 0x00], true, 4), Err(Error::NumberNotMinimallyEncoded));
    assert_eq!(Num::from_slice(&[0x01, 0x00], false, 4), Ok(Num::new(1)));
    assert_eq!(Num::from_slice(&[0x80, 0x00], true, 4), Ok(Num::new(128)));
    assert_eq!(Num::from_slice(&[0x80, 0x80], true, 4), Ok(Num::new(-128)));
    assert_eq!(Num::from_slice(&[0x81], true, 4), Ok(Num::new(-1)));
    assert_eq!(Num::from_slice(&[1, 2, 3, 4, 5], true, 4), Err(Error::NumberOverflow));
    assert_eq!(
        Num::from_slice(&[0xff, 0xff, 0xff, 0xff, 0x00], true, 5),
        Ok(Num::new(4294967295))
    );
    assert_eq!(
        Num::from_slice(&[0xff, 0xff, 0xff, 0xff, 0xff, 0xff, 0xff, 0xff], false, 8),
        Ok(Num::new(-i64::MAX))
    );
}

#[test]
fn num_roundtrip_range() {
    let mut v: i64 = -70000;
    while v <= 70000 {
        let n = Num::new(v);
        let bytes = n.to_vec();
        assert_eq!(Num::from_slice(&bytes, true, 8), Ok(n));
        assert_eq!(cast_to_bool(&bytes), v != 0);
        v += 1;
    }
    for v in [i64::MAX, -i64::MAX, 1 << 40, -(1 << 40), 0x7fff_ffff, -0x7fff_ffff] {
        let n = Num::new(v);
        assert_eq!(Num::from_slice(&n.to_vec(), true, 8), Ok(n));
    }
}

#[test]
fn num_helpers() {
    assert!(Num::new(-5).is_negative());
    assert!(!Num::new(0).is_negative());
    assert!(Num::new(0).is_zero());
    assert_eq!(Num::new(0x8000_0001).bit_and(&Num::new(0x8000_0000)).value(), 0x8000_0000);
    assert_eq!(Num::from_usize(300).value(), 300);
    assert_eq!(Num::from_u8(7).value(), 7);
}

#[test]
fn cast_to_bool_examples() {
    assert!(!cast_to_bool(&[]));
    assert!(!cast_to_bool(&[0]));
    assert!(!cast_to_bool(&[0x80]));
    assert!(!cast_to_bool(&[0, 0, 0x80]));
    assert!(cast_to_bool(&[0x80, 0]));
    assert!(cast_to_bool(&[1]));
    assert!(cast_to_bool(&[0, 1]));
    assert!(cast_to_bool(&[0x81]));
}

#[test]
fn check_minimal_push_examples() {
    assert!(check_minimal_push(&[], Opcode::OP_0));
    assert!(!check_minimal_push(&[], Opcode::OP_PUSHDATA1));
    assert!(check_minimal_push(&[5], Opcode::OP_5));
    assert!(!check_minimal_push(&[5], Opcode::OP_PUSHBYTES_1));
    assert!(check_minimal_push(&[16], Opcode::OP_16));
    assert!(check_minimal_push(&[0x81], Opcode::OP_1NEGATE));
    assert!(!check_minimal_push(&[0x81], Opcode::OP_PUSHBYTES_1));
    assert!(check_minimal_push(&[17], Opcode::OP_PUSHBYTES_1));
    assert!(check_minimal_push(&[0; 75], Opcode::OP_PUSHBYTES_75));
    assert!(!check_minimal_push(&[0; 75], Opcode::OP_PUSHDATA1));
    assert!(check_minimal_push(&[0; 76], Opcode::OP_PUSHDATA1));
    assert!(check_minimal_push(&[0; 255], Opcode::OP_PUSHDATA1));
    assert!(check_minimal_push(&[0; 256], Opcode::OP_PUSHDATA2));
    assert!(!check_minimal_push(&[0; 256], Opcode::OP_PUSHDATA4));
    assert!(check_minimal_push(&vec![0; 65536], Opcode::OP_PUSHDATA4));
}

#[test]
fn opcode_byte_roundtrip() {
    for b in 0..=255u8 {
        match Opcode::from_u8(b) {
            Some(op) => {
                assert!(b <= 0xb9);
                assert_eq!(op.to_u8(), b);
                assert_eq!(op as u8, b);
            }
            None => assert!(b > 0xb9),
        }
    }
    assert_eq!(Opcode::OP_EQUAL.to_u8(), 0x87);
    assert_eq!(Opcode::OP_CHECKLOCKTIMEVERIFY.to_u8(), 0xb1);
}

#[test]
fn builder_push_data_forms() {
    let s = Builder::default().push_data(&[]).into_script();
    assert_eq!(s.as_bytes(), &[0x00]);
    let s = Builder::default().push_data(&[7; 75]).into_script();
    assert_eq!(s.as_bytes()[0], 75);
    assert_eq!(s.len(), 76);
    let s = Builder::default().push_data(&[7; 76]).into_script();
    assert_eq!(&s.as_bytes()[..2], &[0x4c, 76]);
    let s = Builder::default().push_data(&[7; 256]).into_script();
    assert_eq!(&s.as_bytes()[..3], &[0x4d, 0x00, 0x01]);
    let s = Builder::default().push_data(&vec![7; 65536]).into_script();
    assert_eq!(&s.as_bytes()[..5], &[0x4e, 0x00, 0x00, 0x01, 0x00]);
    assert_eq!(s.len(), 65541);
    let s = Builder::default().push_opcode(Opcode::OP_DUP).into_script();
    assert_eq!(s.as_bytes(), &[0x76]);
}
