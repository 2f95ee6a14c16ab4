use bitcoin_script::semantics::SignatureChecker;
use bitcoin_script::num::Num;
use bitcoin_script::{
    eval_script, Builder, Error, NoopSignatureChecker, Opcode, Script, SignatureVersion,
    VerificationFlags,
};

fn run(stack: Vec<Vec<u8>>, script: &Script, flags: &VerificationFlags) -> (Result<bool, Error>, Vec<Vec<u8>>) {
    let mut stack = stack;
    let r = eval_script(&mut stack, script, flags, &NoopSignatureChecker, SignatureVersion::Base);
    (r, stack)
}

fn ops(ops: &[Opcode]) -> Script {
    let mut b = Builder::default();
    for op in ops {
        b = b.push_opcode(*op);
    }
    b.into_script()
}

fn s(v: &[u8]) -> Vec<u8> {
    v.to_vec()
}

#[test]
fn stack_copy_ops() {
    let f = VerificationFlags::default();
    let abc = vec![s(&[1]), s(&[2]), s(&[3])];
    assert_eq!(run(abc.clone(), &ops(&[Opcode::OP_DUP]), &f), (Ok(true), vec![s(&[1]), s(&[2]), s(&[3]), s(&[3])]));
    assert_eq!(run(abc.clone(), &ops(&[Opcode::OP_OVER]), &f), (Ok(true), vec![s(&[1]), s(&[2]), s(&[3]), s(&[2])]));
    assert_eq!(run(abc.clone(), &ops(&[Opcode::OP_2DUP]), &f).1, vec![s(&[1]), s(&[2]), s(&[3]), s(&[2]), s(&[3])]);
    assert_eq!(run(abc.clone(), &ops(&[Opcode::OP_3DUP]), &f).1.len(), 6);
    assert_eq!(run(abc.clone(), &ops(&[Opcode::OP_TUCK]), &f).1, vec![s(&[1]), s(&[3]), s(&[2]), s(&[3])]);
    let abcd = vec![s(&[1]), s(&[2]), s(&[3]), s(&[4])];
    assert_eq!(run(abcd.clone(), &ops(&[Opcode::OP_2OVER]), &f).1, vec![s(&[1]), s(&[2]), s(&[3]), s(&[4]), s(&[1]), s(&[2])]);
    assert_eq!(run(vec![s(&[0x80])], &ops(&[Opcode::OP_IFDUP]), &f), (Ok(true), vec![s(&[0x80])]));
    assert_eq!(run(vec![s(&[5])], &ops(&[Opcode::OP_IFDUP]), &f).1, vec![s(&[5]), s(&[5])]);
    assert_eq!(run(vec![], &ops(&[Opcode::OP_DUP]), &f).0, Err(Error::InvalidStackOperation));
}

#[test]
fn stack_reorder_ops() {
    let f = VerificationFlags::default();
    let abc = vec![s(&[1]), s(&[2]), s(&[3])];
    assert_eq!(run(abc.clone(), &ops(&[Opcode::OP_SWAP]), &f).1, vec![s(&[1]), s(&[3]), s(&[2])]);
    assert_eq!(run(abc.clone(), &ops(&[Opcode::OP_ROT]), &f).1, vec![s(&[2]), s(&[3]), s(&[1])]);
    assert_eq!(run(abc.clone(), &ops(&[Opcode::OP_ROT, Opcode::OP_ROT, Opcode::OP_ROT]), &f).1, abc);
    assert_eq!(run(abc.clone(), &ops(&[Opcode::OP_SWAP, Opcode::OP_SWAP]), &f).1, abc);
    assert_eq!(run(abc.clone(), &ops(&[Opcode::OP_NIP]), &f).1, vec![s(&[1]), s(&[3])]);
    assert_eq!(run(abc.clone(), &ops(&[Opcode::OP_DROP]), &f).1, vec![s(&[1]), s(&[2])]);
    assert_eq!(run(abc.clone(), &ops(&[Opcode::OP_2DROP]), &f).1, vec![s(&[1])]);
    let six: Vec<Vec<u8>> = (1..=6).map(|i| vec![i as u8]).collect();
    assert_eq!(
        run(six.clone(), &ops(&[Opcode::OP_2ROT]), &f).1,
        vec![s(&[3]), s(&[4]), s(&[5]), s(&[6]), s(&[1]), s(&[2])]
    );
    assert_eq!(
        run(six.clone(), &ops(&[Opcode::OP_2SWAP]), &f).1,
        vec![s(&[1]), s(&[2]), s(&[5]), s(&[6]), s(&[3]), s(&[4])]
    );
    assert_eq!(run(vec![s(&[1])], &ops(&[Opcode::OP_SWAP]), &f).0, Err(Error::InvalidStackOperation));
}

#[test]
fn pick_and_roll_count_from_the_bottom() {
    let f = VerificationFlags::default();
    // The element taken is the one above position n, counted from the bottom.
    let stack = vec![s(&[0xa]), s(&[0xb]), s(&[0xc]), s(&[])];
    assert_eq!(run(stack.clone(), &ops(&[Opcode::OP_PICK]), &f).1, vec![s(&[0xa]), s(&[0xb]), s(&[0xc]), s(&[0xb])]);
    assert_eq!(run(stack.clone(), &ops(&[Opcode::OP_ROLL]), &f).1, vec![s(&[0xa]), s(&[0xc]), s(&[0xb])]);
    let stack = vec![s(&[0xa]), s(&[0xb]), s(&[0xc]), s(&[3])];
    assert_eq!(run(stack, &ops(&[Opcode::OP_PICK]), &f), (Err(Error::InvalidStackOperation), vec![s(&[0xa]), s(&[0xb]), s(&[0xc])]));
    let stack = vec![s(&[0xa]), s(&[0x81])];
    assert_eq!(run(stack, &ops(&[Opcode::OP_PICK]), &f).0, Err(Error::InvalidStackOperation));
    let stack = vec![s(&[0xa]), s(&[1, 2, 3, 4, 5])];
    assert_eq!(run(stack, &ops(&[Opcode::OP_PICK]), &f).0, Err(Error::NumberOverflow));
}

#[test]
fn depth_size_and_alt_stack() {
    let f = VerificationFlags::default();
    let abc = vec![s(&[1]), s(&[2]), s(&[3])];
    assert_eq!(run(abc.clone(), &ops(&[Opcode::OP_DEPTH]), &f).1.last().unwrap(), &s(&[3]));
    assert_eq!(run(vec![], &ops(&[Opcode::OP_DEPTH]), &f), (Ok(false), vec![s(&[])]));
    assert_eq!(run(vec![vec![7; 200]], &ops(&[Opcode::OP_SIZE]), &f).1[1], s(&[200, 0]));
    assert_eq!(run(abc.clone(), &ops(&[Opcode::OP_TOALTSTACK, Opcode::OP_FROMALTSTACK]), &f).1, abc);
    assert_eq!(run(abc.clone(), &ops(&[Opcode::OP_TOALTSTACK]), &f).1, vec![s(&[1]), s(&[2])]);
    assert_eq!(run(abc.clone(), &ops(&[Opcode::OP_FROMALTSTACK]), &f).0, Err(Error::InvalidAltstackOperation));
}

#[test]
fn conditionals_and_verify() {
    let f = VerificationFlags::default();
    // With no open conditional entered false, OP_IF does not read the stack.
    assert_eq!(run(vec![s(&[1])], &ops(&[Opcode::OP_IF, Opcode::OP_ENDIF]), &f), (Ok(true), vec![s(&[1])]));
    // Once a conditional is entered false, OP_IF and OP_NOTIF pop and read the top.
    assert_eq!(
        run(vec![s(&[1]), s(&[0])], &ops(&[Opcode::OP_IF, Opcode::OP_NOTIF, Opcode::OP_ENDIF, Opcode::OP_ENDIF]), &f),
        (Ok(true), vec![s(&[1])])
    );
    assert_eq!(run(vec![], &ops(&[Opcode::OP_IF, Opcode::OP_IF]), &f).0, Err(Error::UnbalancedConditional));
    assert_eq!(run(vec![], &ops(&[Opcode::OP_ELSE]), &f).0, Err(Error::UnbalancedConditional));
    assert_eq!(run(vec![], &ops(&[Opcode::OP_ENDIF]), &f).0, Err(Error::UnbalancedConditional));
    assert_eq!(run(vec![s(&[1])], &ops(&[Opcode::OP_IF, Opcode::OP_ELSE, Opcode::OP_ENDIF]), &f).0, Ok(true));
    assert_eq!(run(vec![s(&[1]), s(&[1])], &ops(&[Opcode::OP_VERIFY]), &f), (Ok(true), vec![s(&[1])]));
    assert_eq!(run(vec![s(&[1]), s(&[0x80])], &ops(&[Opcode::OP_VERIFY]), &f), (Err(Error::Verify), vec![s(&[1])]));
    assert_eq!(run(vec![], &ops(&[Opcode::OP_VERIFY]), &f).0, Err(Error::InvalidStackOperation));
    assert_eq!(run(vec![s(&[1])], &ops(&[Opcode::OP_RETURN]), &f).0, Err(Error::ReturnOpcode));
}

#[test]
fn nop_stops_evaluation() {
    let f = VerificationFlags::default();
    assert_eq!(
        run(vec![], &ops(&[Opcode::OP_1, Opcode::OP_NOP, Opcode::OP_RETURN]), &f),
        (Ok(true), vec![s(&[1])])
    );
    let discourage = VerificationFlags::default().verify_discourage_upgradable_nops(true);
    assert_eq!(run(vec![], &ops(&[Opcode::OP_NOP4]), &f).0, Ok(false));
    assert_eq!(run(vec![], &ops(&[Opcode::OP_NOP4]), &discourage).0, Err(Error::DiscourageUpgradableNops));
}

#[test]
fn push_value_opcodes() {
    let f = VerificationFlags::default();
    assert_eq!(run(vec![], &ops(&[Opcode::OP_1NEGATE]), &f), (Ok(true), vec![s(&[0x81])]));
    assert_eq!(run(vec![], &ops(&[Opcode::OP_16]), &f), (Ok(true), vec![s(&[0x10])]));
    assert_eq!(run(vec![], &ops(&[Opcode::OP_0]), &f), (Ok(false), vec![s(&[])]));
}

#[test]
fn lock_time_opcodes() {
    let f = VerificationFlags::default();
    let checker = NoopSignatureChecker;
    assert!(!checker.check_lock_time(Num::new(1)));
    assert!(!checker.check_sequence(Num::new(1)));
    assert_eq!(run(vec![s(&[1])], &ops(&[Opcode::OP_CHECKLOCKTIMEVERIFY]), &f).0, Err(Error::UnsatisfiedLocktime));
    assert_eq!(run(vec![s(&[0x81])], &ops(&[Opcode::OP_CHECKLOCKTIMEVERIFY]), &f).0, Err(Error::NegativeLocktime));
    assert_eq!(run(vec![], &ops(&[Opcode::OP_CHECKLOCKTIMEVERIFY]), &f).0, Err(Error::InvalidStackOperation));
    assert_eq!(run(vec![s(&[1, 2, 3, 4, 5, 6])], &ops(&[Opcode::OP_CHECKLOCKTIMEVERIFY]), &f).0, Err(Error::NumberOverflow));
    // A sequence with the disable flag set is not asked about.
    assert_eq!(
        run(vec![s(&[0, 0, 0, 0x80, 0])], &ops(&[Opcode::OP_CHECKSEQUENCEVERIFY]), &f),
        (Ok(true), vec![s(&[0, 0, 0, 0x80, 0])])
    );
    assert_eq!(run(vec![s(&[1])], &ops(&[Opcode::OP_CHECKSEQUENCEVERIFY]), &f).0, Err(Error::UnsatisfiedLocktime));
    let discourage = VerificationFlags::default().verify_discourage_upgradable_nops(true);
    assert_eq!(run(vec![s(&[1])], &ops(&[Opcode::OP_CHECKSEQUENCEVERIFY]), &discourage).0, Err(Error::DiscourageUpgradableNops));
    let minimal = VerificationFlags::default().verify_minimaldata(true);
    assert_eq!(run(vec![s(&[1, 0])], &ops(&[Opcode::OP_CHECKLOCKTIMEVERIFY]), &minimal).0, Err(Error::NumberNotMinimallyEncoded));
}

#[test]
fn malformed_scripts() {
    let f = VerificationFlags::default();
    assert_eq!(run(vec![], &Script::new(vec![0xba]), &f).0, Err(Error::BadOpcode));
    assert_eq!(run(vec![], &Script::new(vec![0x02, 0x01]), &f).0, Err(Error::BadOpcode));
    assert_eq!(run(vec![], &Script::new(vec![0x4d, 0x01]), &f).0, Err(Error::BadOpcode));
    assert_eq!(run(vec![], &Script::new(vec![0x4c, 0x02, 0x01]), &f).0, Err(Error::BadOpcode));
    assert_eq!(run(vec![s(&[9])], &Script::new(vec![0x61; 10001]), &f), (Err(Error::ScriptSize), vec![s(&[9])]));
    assert_eq!(run(vec![], &Script::new(vec![0x61; 10000]), &f).0, Ok(false));
}

#[test]
fn minimal_data_rule() {
    let minimal = VerificationFlags::default().verify_minimaldata(true);
    let f = VerificationFlags::default();
    let script = Builder::default().push_data(&[5]).into_script();
    assert_eq!(run(vec![], &script, &minimal).0, Err(Error::Minimaldata));
    assert_eq!(run(vec![], &script, &f), (Ok(true), vec![s(&[5])]));
    let script = Builder::default().push_data(&[17]).into_script();
    assert_eq!(run(vec![], &script, &minimal), (Ok(true), vec![s(&[17])]));
}

#[test]
fn success_reads_bytes_not_numbers() {
    let f = VerificationFlags::default();
    // Negative zero is false as a number, but a finished evaluation only asks
    // for a byte that is not zero.
    assert_eq!(run(vec![s(&[0x80])], &ops(&[]), &f).0, Ok(true));
    assert_eq!(run(vec![s(&[0, 0])], &ops(&[]), &f).0, Ok(false));
    assert_eq!(run(vec![], &ops(&[]), &f).0, Ok(false));
}
