//! The meaning of a script: how each instruction changes the evaluation state,
//! and where a whole evaluation ends.

use vstd::prelude::*;

use crate::error::Error;
use crate::flags::VerificationFlags;
use crate::num::{lemma_encode_len, spec_encode, spec_from_slice};
use crate::opcode::Opcode;
use crate::script::{spec_parse_at, SpecInstruction};
use crate::signature::SignatureVersion;

verus! {

/// Answers the questions of signature, lock time and sequence that evaluation
/// asks of the transaction being checked.
pub trait SignatureChecker {
    /// Whether the checker accepts a signature over a script with a public key.
    spec fn spec_check_signature(
        &self,
        script_signature: Seq<u8>,
        public: Seq<u8>,
        script: Seq<u8>,
        version: SignatureVersion,
    ) -> bool;

    /// Whether the checker accepts a lock time.
    spec fn spec_check_lock_time(&self, lock_time: int) -> bool;

    /// Whether the checker accepts a sequence number.
    spec fn spec_check_sequence(&self, sequence: int) -> bool;

    fn check_signature(
        &self,
        script_signature: &[u8],
        public: &[u8],
        script: &crate::script::Script,
        version: SignatureVersion,
    ) -> (r: bool)
        ensures
            r == self.spec_check_signature(script_signature@, public@, script@, version),
    ;

    fn check_lock_time(&self, lock_time: crate::num::Num) -> (r: bool)
        ensures
            r == self.spec_check_lock_time(lock_time@),
    ;

    fn check_sequence(&self, sequence: crate::num::Num) -> (r: bool)
        ensures
            r == self.spec_check_sequence(sequence@),
    ;
}

/// A checker that accepts no signature, lock time or sequence.
pub struct NoopSignatureChecker;

impl SignatureChecker for NoopSignatureChecker {
    open spec fn spec_check_signature(
        &self,
        script_signature: Seq<u8>,
        public: Seq<u8>,
        script: Seq<u8>,
        version: SignatureVersion,
    ) -> bool {
        false
    }

    open spec fn spec_check_lock_time(&self, lock_time: int) -> bool {
        false
    }

    open spec fn spec_check_sequence(&self, sequence: int) -> bool {
        false
    }

    fn check_signature(
        &self,
        script_signature: &[u8],
        public: &[u8],
        script: &crate::script::Script,
        version: SignatureVersion,
    ) -> (r: bool) {
        false
    }

    fn check_lock_time(&self, lock_time: crate::num::Num) -> (r: bool) {
        false
    }

    fn check_sequence(&self, sequence: crate::num::Num) -> (r: bool) {
        false
    }
}

#[verifier::ext_equal]
/// What an evaluation holds between two instructions: the main stack (its
/// last element is the top), the alternate stack, and for each open
/// conditional the value it was entered with.
pub struct EvalState {
    pub stack: Seq<Seq<u8>>,
    pub altstack: Seq<Seq<u8>>,
    pub fvec: Seq<bool>,
}

#[verifier::ext_equal]
/// What one instruction does to the evaluation.
pub enum StepOutcome {
    /// Evaluation goes on with the next instruction from this state.
    Continue(EvalState),
    /// Evaluation ends here, with this state.
    Stop(EvalState),
    /// Evaluation fails with this error, leaving this main stack.
    Fail(Error, Seq<Seq<u8>>),
    /// The instruction reads past the end of the stack.
    Stuck,
}

/// Where an evaluation ends.
pub enum RunOutcome {
    /// The script ran to its end (or to a stopping instruction) in this state.
    Done(EvalState),
    /// The evaluation failed with this error, leaving this main stack.
    Fail(Error, Seq<Seq<u8>>),
    /// The evaluation read past the end of the stack.
    Stuck,
}

/// A value is true unless all its bytes are zero, where the last byte may also
/// be `0x80` (negative zero).
pub open spec fn spec_cast_to_bool(d: Seq<u8>) -> bool {
    exists|i: int| 0 <= i < d.len() && d[i] != 0 && !(i == d.len() - 1 && d[i] == 0x80)
}

/// The push of `data` by `opcode` is the shortest one: `OP_0` for nothing,
/// `OP_1` to `OP_16` and `OP_1NEGATE` for the one-byte values they stand for,
/// a direct push up to 75 bytes, then `OP_PUSHDATA1`, then `OP_PUSHDATA2`.
pub open spec fn spec_check_minimal_push(data: Seq<u8>, opcode: Opcode) -> bool {
    if data.len() == 0 {
        opcode == Opcode::OP_0
    } else if data.len() == 1 && 1 <= data[0] <= 16 {
        opcode.spec_byte() == Opcode::OP_1.spec_byte() + data[0] - 1
    } else if data.len() == 1 && data[0] == 0x81 {
        opcode == Opcode::OP_1NEGATE
    } else if data.len() <= 75 {
        opcode.spec_byte() == data.len()
    } else if data.len() <= 255 {
        opcode == Opcode::OP_PUSHDATA1
    } else if data.len() <= 65535 {
        opcode == Opcode::OP_PUSHDATA2
    } else {
        true
    }
}

/// Some open conditional was entered with a false value.
pub open spec fn spec_has_false(fvec: Seq<bool>) -> bool {
    exists|i: int| 0 <= i < fvec.len() && !fvec[i]
}

/// The encoding of true pushed by `OP_EQUAL`.
pub open spec fn bytes_true() -> Seq<u8> {
    seq![1u8]
}

/// The encoding of false pushed by `OP_EQUAL`.
pub open spec fn bytes_false() -> Seq<u8> {
    seq![0u8]
}

/// The bit of a sequence number that turns its relative lock time off.
pub const SEQUENCE_LOCKTIME_DISABLE_FLAG: i64 = 0x8000_0000;

pub open spec fn with_stack(st: EvalState, stack: Seq<Seq<u8>>) -> EvalState {
    EvalState { stack, altstack: st.altstack, fvec: st.fvec }
}

/// The effect of the lock-time opcodes (`OP_CHECKLOCKTIMEVERIFY` when
/// `sequence` is false, `OP_CHECKSEQUENCEVERIFY` when it is true): the top of
/// the stack, read as a number of at most 5 bytes, must be non-negative and
/// accepted by the checker; a sequence with the disable bit set is not asked
/// about. The stack is left as it was.
pub open spec fn spec_step_locktime<C: SignatureChecker>(
    checker: &C,
    flags: VerificationFlags,
    st: EvalState,
    sequence: bool,
) -> StepOutcome {
    let enabled = if sequence {
        flags.verify_chechsequenceverify
    } else {
        flags.verify_clocktimeverify
    };
    if !enabled && flags.verify_discourage_upgradable_nops {
        StepOutcome::Fail(Error::DiscourageUpgradableNops, st.stack)
    } else if st.stack.len() == 0 {
        StepOutcome::Fail(Error::InvalidStackOperation, st.stack)
    } else {
        match spec_from_slice(st.stack.last(), flags.verify_minimaldata, 5) {
            Err(e) => StepOutcome::Fail(e, st.stack),
            Ok(v) => {
                if v < 0 {
                    StepOutcome::Fail(Error::NegativeLocktime, st.stack)
                } else if sequence && (v as i64 & SEQUENCE_LOCKTIME_DISABLE_FLAG) != 0 {
                    StepOutcome::Continue(st)
                } else if sequence && !checker.spec_check_sequence(v) {
                    StepOutcome::Fail(Error::UnsatisfiedLocktime, st.stack)
                } else if !sequence && !checker.spec_check_lock_time(v) {
                    StepOutcome::Fail(Error::UnsatisfiedLocktime, st.stack)
                } else {
                    StepOutcome::Continue(st)
                }
            },
        }
    }
}

/// The effect of the opcodes that steer evaluation: no-ops, lock times,
/// conditionals, `OP_VERIFY` and `OP_RETURN`.
pub open spec fn spec_step_flow<C: SignatureChecker>(
    checker: &C,
    flags: VerificationFlags,
    st: EvalState,
    op: Opcode,
) -> StepOutcome {
    let s = st.stack;
    let n = s.len();
    match op {
        Opcode::OP_NOP => StepOutcome::Stop(st),
        Opcode::OP_CHECKLOCKTIMEVERIFY => spec_step_locktime(checker, flags, st, false),
        Opcode::OP_CHECKSEQUENCEVERIFY => spec_step_locktime(checker, flags, st, true),
        Opcode::OP_NOP1 | Opcode::OP_NOP4 | Opcode::OP_NOP5 | Opcode::OP_NOP6 | Opcode::OP_NOP7
        | Opcode::OP_NOP8 | Opcode::OP_NOP9 | Opcode::OP_NOP10 => {
            if flags.verify_discourage_upgradable_nops {
                StepOutcome::Fail(Error::DiscourageUpgradableNops, s)
            } else {
                StepOutcome::Continue(st)
            }
        },
        Opcode::OP_IF | Opcode::OP_NOTIF => {
            if spec_has_false(st.fvec) {
                if n == 0 {
                    StepOutcome::Fail(Error::UnbalancedConditional, s)
                } else {
                    let b = spec_cast_to_bool(s.last());
                    let fvalue = if op == Opcode::OP_NOTIF {
                        !b
                    } else {
                        b
                    };
                    StepOutcome::Continue(
                        EvalState {
                            stack: s.drop_last(),
                            altstack: st.altstack,
                            fvec: st.fvec.push(fvalue),
                        },
                    )
                }
            } else {
                StepOutcome::Continue(
                    EvalState { stack: s, altstack: st.altstack, fvec: st.fvec.push(false) },
                )
            }
        },
        Opcode::OP_ELSE => {
            if st.fvec.len() == 0 {
                StepOutcome::Fail(Error::UnbalancedConditional, s)
            } else {
                StepOutcome::Continue(st)
            }
        },
        Opcode::OP_ENDIF => {
            if st.fvec.len() == 0 {
                StepOutcome::Fail(Error::UnbalancedConditional, s)
            } else {
                StepOutcome::Continue(
                    EvalState { stack: s, altstack: st.altstack, fvec: st.fvec.drop_last() },
                )
            }
        },
        Opcode::OP_VERIFY => {
            if n == 0 {
                StepOutcome::Fail(Error::InvalidStackOperation, s)
            } else if !spec_cast_to_bool(s.last()) {
                StepOutcome::Fail(Error::Verify, s.drop_last())
            } else {
                StepOutcome::Continue(with_stack(st, s.drop_last()))
            }
        },
        Opcode::OP_RETURN => StepOutcome::Fail(Error::ReturnOpcode, s),
        _ => StepOutcome::Continue(st),
    }
}

/// The effect of `OP_PICK` (`roll` false) and `OP_ROLL` (`roll` true): the top,
/// read as a number of at most 4 bytes, must be a non-negative number below the
/// size of the rest of the stack; the element one above that position, counted
/// from the bottom, is copied (or moved) to the top.
pub open spec fn spec_step_pick(flags: VerificationFlags, st: EvalState, roll: bool) -> StepOutcome {
    let s = st.stack;
    if s.len() < 2 {
        StepOutcome::Fail(Error::InvalidStackOperation, s)
    } else {
        let rest = s.drop_last();
        match spec_from_slice(s.last(), flags.verify_minimaldata, 4) {
            Err(e) => StepOutcome::Fail(e, rest),
            Ok(k) => {
                if k < 0 || k >= rest.len() {
                    StepOutcome::Fail(Error::InvalidStackOperation, rest)
                } else if k + 1 >= rest.len() {
                    StepOutcome::Stuck
                } else {
                    let v = rest[k + 1];
                    if roll {
                        StepOutcome::Continue(with_stack(st, rest.remove(k + 1).push(v)))
                    } else {
                        StepOutcome::Continue(with_stack(st, rest.push(v)))
                    }
                }
            },
        }
    }
}

/// The effect of the opcodes that rearrange, copy, measure and compare stack
/// elements.
pub open spec fn spec_step_stack(flags: VerificationFlags, st: EvalState, op: Opcode) -> StepOutcome {
    let s = st.stack;
    let n = s.len();
    let fail = StepOutcome::Fail(Error::InvalidStackOperation, s);
    match op {
        Opcode::OP_TOALTSTACK => {
            if n == 0 {
                fail
            } else {
                StepOutcome::Continue(
                    EvalState {
                        stack: s.drop_last(),
                        altstack: st.altstack.push(s.last()),
                        fvec: st.fvec,
                    },
                )
            }
        },
        Opcode::OP_FROMALTSTACK => {
            if st.altstack.len() == 0 {
                StepOutcome::Fail(Error::InvalidAltstackOperation, s)
            } else {
                StepOutcome::Continue(
                    EvalState {
                        stack: s.push(st.altstack.last()),
                        altstack: st.altstack.drop_last(),
                        fvec: st.fvec,
                    },
                )
            }
        },
        Opcode::OP_2DROP => {
            if n < 2 {
                fail
            } else {
                StepOutcome::Continue(with_stack(st, s.subrange(0, n - 2)))
            }
        },
        Opcode::OP_2DUP => {
            if n < 2 {
                fail
            } else {
                StepOutcome::Continue(with_stack(st, s.push(s[n - 2]).push(s[n - 1])))
            }
        },
        Opcode::OP_3DUP => {
            if n < 3 {
                fail
            } else {
                StepOutcome::Continue(
                    with_stack(st, s.push(s[n - 3]).push(s[n - 2]).push(s[n - 1])),
                )
            }
        },
        Opcode::OP_2OVER => {
            if n < 4 {
                fail
            } else {
                StepOutcome::Continue(with_stack(st, s.push(s[n - 4]).push(s[n - 3])))
            }
        },
        Opcode::OP_2ROT => {
            if n < 6 {
                fail
            } else {
                StepOutcome::Continue(
                    with_stack(
                        st,
                        s.subrange(0, n - 6) + s.subrange(n - 4, n as int) + seq![s[n - 6], s[n - 5]],
                    ),
                )
            }
        },
        Opcode::OP_2SWAP => {
            if n < 4 {
                fail
            } else {
                StepOutcome::Continue(
                    with_stack(
                        st,
                        s.subrange(0, n - 4) + seq![s[n - 2], s[n - 1], s[n - 4], s[n - 3]],
                    ),
                )
            }
        },
        Opcode::OP_IFDUP => {
            if n == 0 {
                fail
            } else if spec_cast_to_bool(s.last()) {
                StepOutcome::Continue(with_stack(st, s.push(s.last())))
            } else {
                StepOutcome::Continue(st)
            }
        },
        Opcode::OP_DEPTH => StepOutcome::Continue(with_stack(st, s.push(spec_encode(n as int)))),
        Opcode::OP_DROP => {
            if n == 0 {
                fail
            } else {
                StepOutcome::Continue(with_stack(st, s.drop_last()))
            }
        },
        Opcode::OP_DUP => {
            if n == 0 {
                fail
            } else {
                StepOutcome::Continue(with_stack(st, s.push(s.last())))
            }
        },
        Opcode::OP_NIP => {
            if n < 2 {
                fail
            } else {
                StepOutcome::Continue(with_stack(st, s.remove(n - 2)))
            }
        },
        Opcode::OP_OVER => {
            if n < 2 {
                fail
            } else {
                StepOutcome::Continue(with_stack(st, s.push(s[n - 2])))
            }
        },
        Opcode::OP_PICK => spec_step_pick(flags, st, false),
        Opcode::OP_ROLL => spec_step_pick(flags, st, true),
        Opcode::OP_ROT => {
            if n < 3 {
                fail
            } else {
                StepOutcome::Continue(
                    with_stack(st, s.subrange(0, n - 3) + seq![s[n - 2], s[n - 1], s[n - 3]]),
                )
            }
        },
        Opcode::OP_SWAP => {
            if n < 2 {
                fail
            } else {
                StepOutcome::Continue(with_stack(st, s.subrange(0, n - 2) + seq![s[n - 1], s[n - 2]]))
            }
        },
        Opcode::OP_TUCK => {
            if n < 2 {
                fail
            } else {
                StepOutcome::Continue(with_stack(st, s.insert(n - 2, s[n - 1])))
            }
        },
        Opcode::OP_SIZE => {
            if n == 0 {
                fail
            } else {
                StepOutcome::Continue(with_stack(st, s.push(spec_encode(s.last().len() as int))))
            }
        },
        Opcode::OP_EQUAL => {
            if n < 2 {
                fail
            } else {
                let r = if s[n - 1] == s[n - 2] {
                    bytes_true()
                } else {
                    bytes_false()
                };
                StepOutcome::Continue(with_stack(st, s.subrange(0, n - 2).push(r)))
            }
        },
        Opcode::OP_EQUALVERIFY => {
            if n < 2 {
                fail
            } else if s[n - 1] != s[n - 2] {
                StepOutcome::Fail(Error::EqualVerify, s.subrange(0, n - 2))
            } else {
                StepOutcome::Continue(with_stack(st, s.subrange(0, n - 2)))
            }
        },
        _ => StepOutcome::Continue(st),
    }
}

/// Whether an opcode is handled by `spec_step_stack` rather than by
/// `spec_step_flow`.
pub open spec fn is_stack_opcode(op: Opcode) -> bool {
    let b = op.spec_byte();
    0x6b <= b <= 0x88
}

/// Whether an opcode is handled by `spec_step_stack`.
pub fn is_stack_opcode_exec(op: Opcode) -> (r: bool)
    ensures
        r == is_stack_opcode(op),
{
    let b = op.to_u8();
    0x6b <= b && b <= 0x88
}

/// The effect of one instruction.
pub open spec fn spec_step<C: SignatureChecker>(
    checker: &C,
    flags: VerificationFlags,
    st: EvalState,
    ins: SpecInstruction,
) -> StepOutcome {
    match ins {
        SpecInstruction::PushValue(_, v) => StepOutcome::Continue(
            with_stack(st, st.stack.push(spec_encode(v))),
        ),
        SpecInstruction::PushBytes(op, d) => {
            if flags.verify_minimaldata && !spec_check_minimal_push(d, op) {
                StepOutcome::Fail(Error::Minimaldata, st.stack)
            } else {
                StepOutcome::Continue(with_stack(st, st.stack.push(d)))
            }
        },
        SpecInstruction::Normal(op) => {
            if is_stack_opcode(op) {
                spec_step_stack(flags, st, op)
            } else {
                spec_step_flow(checker, flags, st, op)
            }
        },
    }
}

/// Every element of `s` is short enough for its length to be a number.
pub open spec fn elems_bounded(s: Seq<Seq<u8>>) -> bool {
    forall|i: int| 0 <= i < s.len() ==> #[trigger] s[i].len() <= i64::MAX
}

/// One instruction adds at most three elements to the two stacks together,
/// and every element it adds is short enough for its length to be a number.
pub proof fn lemma_step_bounded<C: SignatureChecker>(
    checker: &C,
    flags: VerificationFlags,
    st: EvalState,
    ins: SpecInstruction,
)
    requires
        elems_bounded(st.stack),
        elems_bounded(st.altstack),
        st.stack.len() <= i64::MAX,
        ins matches SpecInstruction::PushBytes(_, d) ==> d.len() <= i64::MAX,
        ins matches SpecInstruction::PushValue(_, v) ==> -1 <= v <= 16,
    ensures
        match spec_step(checker, flags, st, ins) {
            StepOutcome::Continue(st2) | StepOutcome::Stop(st2) => {
                &&& st2.stack.len() + st2.altstack.len() <= st.stack.len() + st.altstack.len() + 3
                &&& elems_bounded(st2.stack)
                &&& elems_bounded(st2.altstack)
            },
            _ => true,
        },
{
    let s = st.stack;
    let n = s.len();
    match ins {
        SpecInstruction::PushValue(_, v) => {
            lemma_encode_len(v);
        },
        SpecInstruction::PushBytes(_, d) => {},
        SpecInstruction::Normal(op) => {
            if op == Opcode::OP_DEPTH {
                lemma_encode_len(n as int);
            } else if op == Opcode::OP_SIZE && n > 0 {
                lemma_encode_len(s.last().len() as int);
            } else if op == Opcode::OP_2ROT && n >= 6 {
                let s2 = s.subrange(0, n - 6) + s.subrange(n - 4, n as int) + seq![s[n - 6], s[n - 5]];
                assert forall|i: int| 0 <= i < s2.len() implies #[trigger] s2[i].len() <= i64::MAX by {
                    if i < n - 6 {
                        assert(s2[i] == s[i]);
                    } else if i < n - 2 {
                        assert(s2[i] == s[i + 2]);
                    }
                }
            } else if op == Opcode::OP_2SWAP && n >= 4 {
                let s2 = s.subrange(0, n - 4) + seq![s[n - 2], s[n - 1], s[n - 4], s[n - 3]];
                assert forall|i: int| 0 <= i < s2.len() implies #[trigger] s2[i].len() <= i64::MAX by {
                    if i < n - 4 {
                        assert(s2[i] == s[i]);
                    }
                }
            } else if op == Opcode::OP_ROT && n >= 3 {
                let s2 = s.subrange(0, n - 3) + seq![s[n - 2], s[n - 1], s[n - 3]];
                assert forall|i: int| 0 <= i < s2.len() implies #[trigger] s2[i].len() <= i64::MAX by {
                    if i < n - 3 {
                        assert(s2[i] == s[i]);
                    }
                }
            } else if op == Opcode::OP_SWAP && n >= 2 {
                let s2 = s.subrange(0, n - 2) + seq![s[n - 1], s[n - 2]];
                assert forall|i: int| 0 <= i < s2.len() implies #[trigger] s2[i].len() <= i64::MAX by {
                    if i < n - 2 {
                        assert(s2[i] == s[i]);
                    }
                }
            } else if op == Opcode::OP_EQUAL && n >= 2 {
                let r = if s[n - 1] == s[n - 2] {
                    bytes_true()
                } else {
                    bytes_false()
                };
                let s2 = s.subrange(0, n - 2).push(r);
                assert forall|i: int| 0 <= i < s2.len() implies #[trigger] s2[i].len() <= i64::MAX by {
                    if i < n - 2 {
                        assert(s2[i] == s[i]);
                    }
                }
            } else if op == Opcode::OP_TUCK && n >= 2 {
                let s2 = s.insert(n - 2, s[n - 1]);
                assert forall|i: int| 0 <= i < s2.len() implies #[trigger] s2[i].len() <= i64::MAX by {
                    if i < n - 2 {
                        assert(s2[i] == s[i]);
                    } else if i > n - 2 {
                        assert(s2[i] == s[i - 1]);
                    }
                }
            } else if (op == Opcode::OP_PICK || op == Opcode::OP_ROLL) && n >= 2 {
                let rest = s.drop_last();
                match spec_from_slice(s.last(), flags.verify_minimaldata, 4) {
                    Ok(k) => {
                        if 0 <= k && k + 1 < rest.len() {
                            let r2 = rest.remove(k + 1);
                            assert forall|i: int| 0 <= i < r2.len() implies #[trigger] r2[i].len()
                                <= i64::MAX by {
                                if i < k + 1 {
                                    assert(r2[i] == rest[i]);
                                } else {
                                    assert(r2[i] == rest[i + 1]);
                                }
                            }
                        }
                    },
                    Err(_) => {},
                }
            } else if op == Opcode::OP_NIP && n >= 2 {
                let s2 = s.remove(n - 2);
                assert forall|i: int| 0 <= i < s2.len() implies #[trigger] s2[i].len() <= i64::MAX by {
                    if i < n - 2 {
                        assert(s2[i] == s[i]);
                    } else {
                        assert(s2[i] == s[i + 1]);
                    }
                }
            } else if op == Opcode::OP_2DROP && n >= 2 {
                let s2 = s.subrange(0, n - 2);
                assert forall|i: int| 0 <= i < s2.len() implies #[trigger] s2[i].len() <= i64::MAX by {
                    assert(s2[i] == s[i]);
                }
            }
        },
    }
}

/// The instruction at `pos` ends after `pos`.
pub proof fn lemma_parse_advances(s: Seq<u8>, pos: int)
    requires
        0 <= pos < s.len(),
    ensures
        spec_parse_at(s, pos) matches Ok((_, next)) ==> pos < next <= s.len(),
        spec_parse_at(s, pos) matches Ok((SpecInstruction::PushBytes(_, d), _)) ==> d.len()
            <= s.len(),
        spec_parse_at(s, pos) matches Ok((SpecInstruction::PushValue(_, v), _)) ==> -1 <= v <= 16,
{
}

/// Evaluates the instructions of `s` from position `pos` on, from state `st`.
pub open spec fn spec_run<C: SignatureChecker>(
    checker: &C,
    flags: VerificationFlags,
    s: Seq<u8>,
    pos: int,
    st: EvalState,
) -> RunOutcome
    decreases s.len() - pos,
{
    if pos < 0 || pos >= s.len() {
        RunOutcome::Done(st)
    } else {
        match spec_parse_at(s, pos) {
            Err(e) => RunOutcome::Fail(e, st.stack),
            Ok((ins, next)) => {
                if next <= pos {
                    RunOutcome::Done(st)
                } else {
                    match spec_step(checker, flags, st, ins) {
                        StepOutcome::Continue(st2) => spec_run(checker, flags, s, next, st2),
                        StepOutcome::Stop(st2) => RunOutcome::Done(st2),
                        StepOutcome::Fail(e, stack) => RunOutcome::Fail(e, stack),
                        StepOutcome::Stuck => RunOutcome::Stuck,
                    }
                }
            },
        }
    }
}

/// A finished evaluation succeeds when its stack is not empty and its top
/// element has a byte that is not zero.
pub open spec fn spec_success(stack: Seq<Seq<u8>>) -> bool {
    stack.len() > 0 && exists|i: int| 0 <= i < stack.last().len() && stack.last()[i] != 0
}

/// The outcome of evaluating script `s` on stack `stack`: too long a script is
/// refused at once; otherwise the instructions run from an empty alternate
/// stack and no open conditional.
pub open spec fn spec_eval<C: SignatureChecker>(
    checker: &C,
    flags: VerificationFlags,
    stack: Seq<Seq<u8>>,
    s: Seq<u8>,
) -> RunOutcome {
    if s.len() > crate::script::MAX_SCRIPT_SIZE {
        RunOutcome::Fail(Error::ScriptSize, stack)
    } else {
        spec_run(
            checker,
            flags,
            s,
            0,
            EvalState { stack, altstack: Seq::empty(), fvec: Seq::empty() },
        )
    }
}

/// A number reads as true exactly when it is not zero.
pub proof fn lemma_cast_to_bool_of_encoding(v: int)
    ensures
        spec_cast_to_bool(spec_encode(v)) == (v != 0),
{
    let e = spec_encode(v);
    if v == 0 {
        assert(e.len() == 0);
    } else {
        crate::num::lemma_encode_decode(v);
        let n = e.len();
        assert(n > 0);
        if e.last() % 128 != 0 {
            assert(e[n - 1] != 0 && !(n - 1 == n - 1 && e[n - 1] == 0x80));
        } else {
            assert(e[n - 2] != 0 && !(n - 2 == n - 1 && e[n - 2] == 0x80));
        }
    }
}

/// Without the minimal-data rule, a push has the same effect whichever push
/// opcode carries the data.
pub proof fn lemma_push_forms_agree<C: SignatureChecker>(
    checker: &C,
    flags: VerificationFlags,
    st: EvalState,
    op1: Opcode,
    op2: Opcode,
    d: Seq<u8>,
)
    requires
        !flags.verify_minimaldata,
    ensures
        spec_step(checker, flags, st, SpecInstruction::PushBytes(op1, d)) == spec_step(
            checker,
            flags,
            st,
            SpecInstruction::PushBytes(op2, d),
        ),
{
}

/// The state after the step `ins` from `st`, when that step goes on.
pub open spec fn after<C: SignatureChecker>(
    checker: &C,
    flags: VerificationFlags,
    st: EvalState,
    ins: SpecInstruction,
) -> EvalState {
    match spec_step(checker, flags, st, ins) {
        StepOutcome::Continue(st2) => st2,
        _ => st,
    }
}

/// `OP_DROP` undoes `OP_DUP`, and `OP_FROMALTSTACK` undoes `OP_TOALTSTACK`, on
/// any non-empty stack.
pub proof fn lemma_dup_drop_and_alt_roundtrip<C: SignatureChecker>(
    checker: &C,
    flags: VerificationFlags,
    st: EvalState,
)
    requires
        st.stack.len() > 0,
    ensures
        spec_step(checker, flags, st, SpecInstruction::Normal(Opcode::OP_DUP)) is Continue,
        spec_step(
            checker,
            flags,
            after(checker, flags, st, SpecInstruction::Normal(Opcode::OP_DUP)),
            SpecInstruction::Normal(Opcode::OP_DROP),
        ) == StepOutcome::Continue(st),
        spec_step(checker, flags, st, SpecInstruction::Normal(Opcode::OP_TOALTSTACK)) is Continue,
        spec_step(
            checker,
            flags,
            after(checker, flags, st, SpecInstruction::Normal(Opcode::OP_TOALTSTACK)),
            SpecInstruction::Normal(Opcode::OP_FROMALTSTACK),
        ) == StepOutcome::Continue(st),
{
    let s = st.stack;
    assert(s.push(s.last()).drop_last() =~= s);
    assert(s.drop_last().push(s.last()) =~= s);
    assert(st.altstack.push(s.last()).drop_last() =~= st.altstack);
}

/// `OP_SWAP` twice, and `OP_ROT` three times, leave any stack large enough for
/// them as it was.
pub proof fn lemma_swap_and_rot_cycles<C: SignatureChecker>(
    checker: &C,
    flags: VerificationFlags,
    st: EvalState,
)
    requires
        st.stack.len() >= 3,
    ensures
        ({
            let swap = SpecInstruction::Normal(Opcode::OP_SWAP);
            spec_step(checker, flags, after(checker, flags, st, swap), swap) == StepOutcome::Continue(
                st,
            )
        }),
        ({
            let rot = SpecInstruction::Normal(Opcode::OP_ROT);
            let st1 = after(checker, flags, st, rot);
            let st2 = after(checker, flags, st1, rot);
            spec_step(checker, flags, st2, rot) == StepOutcome::Continue(st)
        }),
{
    let s = st.stack;
    let n = s.len();
    let swapped = s.subrange(0, n - 2) + seq![s[n - 1], s[n - 2]];
    assert(swapped.subrange(0, n - 2) + seq![swapped[n - 1], swapped[n - 2]] =~= s);
    let r1 = s.subrange(0, n - 3) + seq![s[n - 2], s[n - 1], s[n - 3]];
    let r2 = r1.subrange(0, n - 3) + seq![r1[n - 2], r1[n - 1], r1[n - 3]];
    assert(r2 =~= s.subrange(0, n - 3) + seq![s[n - 1], s[n - 3], s[n - 2]]);
    let r3 = r2.subrange(0, n - 3) + seq![r2[n - 2], r2[n - 1], r2[n - 3]];
    assert(r3 =~= s);
}

/// Evaluating the instruction that pushes `d` (written as `Builder::push_data`
/// writes it) leaves `d` on top of the stack it started from, when the
/// minimal-data rule is off.
pub proof fn lemma_eval_push<C: SignatureChecker>(
    checker: &C,
    flags: VerificationFlags,
    stack: Seq<Seq<u8>>,
    d: Seq<u8>,
)
    requires
        !flags.verify_minimaldata,
        crate::script::spec_push_encoding(d).len() <= crate::script::MAX_SCRIPT_SIZE,
    ensures
        spec_eval(checker, flags, stack, crate::script::spec_push_encoding(d)) == RunOutcome::Done(
            EvalState { stack: stack.push(d), altstack: Seq::empty(), fvec: Seq::empty() },
        ),
{
    let e = crate::script::spec_push_encoding(d);
    let empty = Seq::<u8>::empty();
    crate::script::lemma_push_encoding_parses(empty, d, empty);
    assert(empty + e + empty =~= e);
    let st = EvalState { stack, altstack: Seq::empty(), fvec: Seq::empty() };
    let st2 = EvalState { stack: stack.push(d), altstack: Seq::empty(), fvec: Seq::empty() };
    assert(spec_run(checker, flags, e, e.len() as int, st2) == RunOutcome::Done(st2));
}

} // verus!
