use bitcoin_script::{
    eval_script, is_public_key, Builder, Error, NoopSignatureChecker, Opcode, Script,
    SignatureVersion, VerificationFlags,
};
use hex::FromHex;

#[test]
fn tests_is_public_key() {
    assert!(!is_public_key(&[]));
    assert!(!is_public_key(&[1]));
    assert!(is_public_key(&Vec::<u8>::from_hex("0495dfb90f202c7d016ef42c65bc010cd26bb8237b06253cc4d12175097bef767ed6b1fcb3caf1ed57c98d92e6cb70278721b952e29a335134857acd4c199b9d2f").unwrap()));
    assert!(is_public_key(&[2; 33]));
    assert!(is_public_key(&[3; 33]));
    assert!(!is_public_key(&[4; 33]));
}

#[test]
fn test_push_data() {
    let expected = vec![vec![0x5a]];
    let flags = VerificationFlags::default().verify_p2sh(true);
    let checker = NoopSignatureChecker;
    let version = SignatureVersion::Base;
    let direct = Script::new(vec![Opcode::OP_PUSHBYTES_1 as u8, 0x5a]);
    let pushdata1 = Script::new(vec![Opcode::OP_PUSHDATA1 as u8, 0x1, 0x5a]);
    let pushdata2 = Script::new(vec![Opcode::OP_PUSHDATA2 as u8, 0x1, 0, 0x5a]);
    let pushdata4 = Script::new(vec![Opcode::OP_PUSHDATA4 as u8, 0x1, 0, 0, 0, 0x5a]);

    let mut direct_stack = vec![];
    let mut pushdata1_stack = vec![];
    let mut pushdata2_stack = vec![];
    let mut pushdata4_stack = vec![];
    assert!(eval_script(&mut direct_stack, &direct, &flags, &checker, version).unwrap());
    assert!(eval_script(&mut pushdata1_stack, &pushdata1, &flags, &checker, version).unwrap());
    assert!(eval_script(&mut pushdata2_stack, &pushdata2, &flags, &checker, version).unwrap());
    assert!(eval_script(&mut pushdata4_stack, &pushdata4, &flags, &checker, version).unwrap());

    assert_eq!(expected, direct_stack);
    assert_eq!(expected, pushdata1_stack);
    assert_eq!(expected, pushdata2_stack);
    assert_eq!(expected, pushdata4_stack);
}

fn basic_test(script: &Script, expected: Result<bool, Error>, expected_stack: Vec<Vec<u8>>) {
    let flags = VerificationFlags::default().verify_p2sh(true);
    let checker = NoopSignatureChecker;
    let version = SignatureVersion::Base;
    let mut stack = vec![];
    assert_eq!(eval_script(&mut stack, script, &flags, &checker, version), expected);
    if expected.is_ok() {
        assert_eq!(stack, expected_stack);
    }
}

#[test]
fn test_equal() {
    let script = Builder::default()
        .push_data(&[0x4])
        .push_data(&[0x4])
        .push_opcode(Opcode::OP_EQUAL)
        .into_script();
    let result = Ok(true);
    let stack = vec![vec![1]];
    basic_test(&script, result, stack);
}

#[test]
fn test_equal_false() {
    let script = Builder::default()
        .push_data(&[0x4])
        .push_data(&[0x3])
        .push_opcode(Opcode::OP_EQUAL)
        .into_script();
    let result = Ok(false);
    let stack = vec![vec![0]];
    basic_test(&script, result, stack);
}

#[test]
fn test_equal_invalid_stack() {
    let script = Builder::default()
        .push_data(&[0x4])
        .push_opcode(Opcode::OP_EQUAL)
        .into_script();
    let result = Err(Error::InvalidStackOperation);
    basic_test(&script, result, vec![]);
}

#[test]
fn test_equal_verify() {
    let script = Builder::default()
        .push_data(&[0x4])
        .push_data(&[0x4])
        .push_opcode(Opcode::OP_EQUALVERIFY)
        .into_script();
    let result = Ok(false);
    let stack = vec![];
    basic_test(&script, result, stack);
}

#[test]
fn test_equal_verify_failed() {
    let script = Builder::default()
        .push_data(&[0x4])
        .push_data(&[0x3])
        .push_opcode(Opcode::OP_EQUALVERIFY)
        .into_script();
    let result = Err(Error::EqualVerify);
    basic_test(&script, result, vec![]);
}

#[test]
fn test_equal_verify_invalid_stack() {
    let script = Builder::default()
        .push_data(&[0x4])
        .push_opcode(Opcode::OP_EQUALVERIFY)
        .into_script();
    let result = Err(Error::InvalidStackOperation);
    basic_test(&script, result, vec![]);
}

#[test]
fn test_size() {
    let script = Builder::default()
        .push_data(&[0x12, 0x34])
        .push_opcode(Opcode::OP_SIZE)
        .into_script();
    let result = Ok(true);
    let stack = vec![vec![0x12, 0x34], vec![0x2]];
    basic_test(&script, result, stack);
}

#[test]
fn test_size_false() {
    let script = Builder::default()
        .push_data(&[])
        .push_opcode(Opcode::OP_SIZE)
        .into_script();
    let result = Ok(false);
    let stack = vec![vec![], vec![]];
    basic_test(&script, result, stack);
}

#[test]
fn test_size_invalid_stack() {
    let script = Builder::default()
        .push_opcode(Opcode::OP_SIZE)
        .into_script();
    let result = Err(Error::InvalidStackOperation);
    basic_test(&script, result, vec![]);
}
