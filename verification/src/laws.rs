//! Laws of the library: what each operation does, stated over its inputs and
//! results independently of the definitions that the code is checked against.

use vstd::prelude::*;

use crate::error::Error;
use crate::flags::VerificationFlags;
use crate::num::{lemma_encode_decode, spec_decode, spec_encode, spec_from_slice, spec_is_minimal};
use crate::opcode::Opcode;
use crate::signature::{
    spec_check_pubkey_encoding, spec_check_signature_encoding, spec_der_r, spec_der_s,
    spec_half_curve_order_bytes, spec_is_defined_hashtype_signature, spec_is_low_der_signature,
    spec_is_public_key, spec_is_valid_signature_encoding,
};
use crate::be_int::be_value;
use crate::script::SpecInstruction;
use crate::semantics::{
    spec_cast_to_bool, spec_check_minimal_push, spec_step, EvalState, NoopSignatureChecker,
    SignatureChecker, StepOutcome,
};

verus! {

/// `o` goes on to a state that keeps the alternate stack and the open
/// conditionals of `st` and has `stack` as its main stack.
pub open spec fn continues_with(o: StepOutcome, st: EvalState, stack: Seq<Seq<u8>>) -> bool {
    o == StepOutcome::Continue(EvalState { stack, altstack: st.altstack, fvec: st.fvec })
}

/// The outcome of running opcode `op` alone on `st`.
pub open spec fn run_op<C: SignatureChecker>(
    checker: &C,
    flags: VerificationFlags,
    st: EvalState,
    op: Opcode,
) -> StepOutcome {
    spec_step(checker, flags, st, SpecInstruction::Normal(op))
}


/// The copying opcodes append copies of elements near the top, in their order:
/// `OP_DUP` the top, `OP_2DUP` the top two, `OP_3DUP` the top three, `OP_OVER`
/// the second, `OP_2OVER` the third and fourth. Nothing else changes.
pub proof fn law_copy_opcodes<C: SignatureChecker>(
    checker: &C,
    flags: VerificationFlags,
    st: EvalState,
)
    ensures
        ({
            let s = st.stack;
            let n = s.len() as int;
            &&& n >= 1 ==> continues_with(
                run_op(checker, flags, st, Opcode::OP_DUP),
                st,
                s + s.subrange(n - 1, n),
            )
            &&& n >= 2 ==> continues_with(
                run_op(checker, flags, st, Opcode::OP_2DUP),
                st,
                s + s.subrange(n - 2, n),
            )
            &&& n >= 3 ==> continues_with(
                run_op(checker, flags, st, Opcode::OP_3DUP),
                st,
                s + s.subrange(n - 3, n),
            )
            &&& n >= 2 ==> continues_with(
                run_op(checker, flags, st, Opcode::OP_OVER),
                st,
                s + s.subrange(n - 2, n - 1),
            )
            &&& n >= 4 ==> continues_with(
                run_op(checker, flags, st, Opcode::OP_2OVER),
                st,
                s + s.subrange(n - 4, n - 2),
            )
        }),
{
    let s = st.stack;
    let n = s.len() as int;
    if n >= 1 {
        assert(s.push(s.last()) =~= s + s.subrange(n - 1, n));
    }
    if n >= 2 {
        assert(s.push(s[n - 2]).push(s[n - 1]) =~= s + s.subrange(n - 2, n));
        assert(s.push(s[n - 2]) =~= s + s.subrange(n - 2, n - 1));
    }
    if n >= 3 {
        assert(s.push(s[n - 3]).push(s[n - 2]).push(s[n - 1]) =~= s + s.subrange(n - 3, n));
    }
    if n >= 4 {
        assert(s.push(s[n - 4]).push(s[n - 3]) =~= s + s.subrange(n - 4, n - 2));
    }
}

/// `OP_3DUP` followed by `OP_2DROP` and `OP_DROP` gives the stack back.
pub proof fn law_3dup_then_drop_three<C: SignatureChecker>(
    checker: &C,
    flags: VerificationFlags,
    st: EvalState,
)
    requires
        st.stack.len() >= 3,
    ensures
        ({
            let st1 = EvalState {
                stack: st.stack + st.stack.subrange(st.stack.len() - 3, st.stack.len() as int),
                altstack: st.altstack,
                fvec: st.fvec,
            };
            let st2 = EvalState {
                stack: st.stack + st.stack.subrange(st.stack.len() - 3, st.stack.len() - 2),
                altstack: st.altstack,
                fvec: st.fvec,
            };
            &&& run_op(checker, flags, st, Opcode::OP_3DUP) == StepOutcome::Continue(st1)
            &&& run_op(checker, flags, st1, Opcode::OP_2DROP) == StepOutcome::Continue(st2)
            &&& run_op(checker, flags, st2, Opcode::OP_DROP) == StepOutcome::Continue(st)
        }),
{
    law_copy_opcodes(checker, flags, st);
    law_drop_opcodes(checker, flags, st);
    let s = st.stack;
    let n = s.len() as int;
    let s1 = s + s.subrange(n - 3, n);
    let s2 = s + s.subrange(n - 3, n - 2);
    assert(s1.subrange(0, s1.len() - 2) =~= s2);
    assert(s2.drop_last() =~= s);
}

/// The dropping opcodes remove elements near the top: `OP_DROP` the top,
/// `OP_2DROP` the top two, `OP_NIP` the second. Nothing else changes.
pub proof fn law_drop_opcodes<C: SignatureChecker>(
    checker: &C,
    flags: VerificationFlags,
    st: EvalState,
)
    ensures
        ({
            let s = st.stack;
            let n = s.len() as int;
            &&& n >= 1 ==> continues_with(
                run_op(checker, flags, st, Opcode::OP_DROP),
                st,
                s.subrange(0, n - 1),
            )
            &&& n >= 2 ==> continues_with(
                run_op(checker, flags, st, Opcode::OP_2DROP),
                st,
                s.subrange(0, n - 2),
            )
            &&& n >= 2 ==> continues_with(
                run_op(checker, flags, st, Opcode::OP_NIP),
                st,
                s.subrange(0, n - 2) + s.subrange(n - 1, n),
            )
        }),
{
    let s = st.stack;
    let n = s.len() as int;
    if n >= 1 {
        assert(s.drop_last() =~= s.subrange(0, n - 1));
    }
    if n >= 2 {
        assert(s.remove(n - 2) =~= s.subrange(0, n - 2) + s.subrange(n - 1, n));
    }
}

/// The reordering opcodes permute the elements near the top: `OP_SWAP`
/// exchanges the top two, `OP_ROT` moves the third to the top, `OP_2SWAP`
/// exchanges the top two pairs, `OP_2ROT` moves the third pair to the top, and
/// `OP_TUCK` puts a copy of the top below the second. Nothing else changes.
pub proof fn law_reorder_opcodes<C: SignatureChecker>(
    checker: &C,
    flags: VerificationFlags,
    st: EvalState,
)
    ensures
        ({
            let s = st.stack;
            let n = s.len() as int;
            &&& n >= 2 ==> continues_with(
                run_op(checker, flags, st, Opcode::OP_SWAP),
                st,
                s.subrange(0, n - 2) + s.subrange(n - 1, n) + s.subrange(n - 2, n - 1),
            )
            &&& n >= 3 ==> continues_with(
                run_op(checker, flags, st, Opcode::OP_ROT),
                st,
                s.subrange(0, n - 3) + s.subrange(n - 2, n) + s.subrange(n - 3, n - 2),
            )
            &&& n >= 4 ==> continues_with(
                run_op(checker, flags, st, Opcode::OP_2SWAP),
                st,
                s.subrange(0, n - 4) + s.subrange(n - 2, n) + s.subrange(n - 4, n - 2),
            )
            &&& n >= 6 ==> continues_with(
                run_op(checker, flags, st, Opcode::OP_2ROT),
                st,
                s.subrange(0, n - 6) + s.subrange(n - 4, n) + s.subrange(n - 6, n - 4),
            )
            &&& n >= 2 ==> continues_with(
                run_op(checker, flags, st, Opcode::OP_TUCK),
                st,
                s.subrange(0, n - 2) + s.subrange(n - 1, n) + s.subrange(n - 2, n),
            )
        }),
{
    let s = st.stack;
    let n = s.len() as int;
    if n >= 2 {
        assert(s.subrange(0, n - 2) + seq![s[n - 1], s[n - 2]] =~= s.subrange(0, n - 2)
            + s.subrange(n - 1, n) + s.subrange(n - 2, n - 1));
        assert(s.insert(n - 2, s[n - 1]) =~= s.subrange(0, n - 2) + s.subrange(n - 1, n)
            + s.subrange(n - 2, n));
    }
    if n >= 3 {
        assert(s.subrange(0, n - 3) + seq![s[n - 2], s[n - 1], s[n - 3]] =~= s.subrange(0, n - 3)
            + s.subrange(n - 2, n) + s.subrange(n - 3, n - 2));
    }
    if n >= 4 {
        assert(s.subrange(0, n - 4) + seq![s[n - 2], s[n - 1], s[n - 4], s[n - 3]] =~= s.subrange(
            0,
            n - 4,
        ) + s.subrange(n - 2, n) + s.subrange(n - 4, n - 2));
    }
    if n >= 6 {
        assert(s.subrange(0, n - 6) + s.subrange(n - 4, n) + seq![s[n - 6], s[n - 5]]
            =~= s.subrange(0, n - 6) + s.subrange(n - 4, n) + s.subrange(n - 6, n - 4));
    }
}

/// Every stack opcode refuses a stack with fewer elements than it works on,
/// with `InvalidStackOperation`, leaving the stack as it was.
pub proof fn law_stack_opcodes_need_depth<C: SignatureChecker>(
    checker: &C,
    flags: VerificationFlags,
    st: EvalState,
)
    ensures
        ({
            let s = st.stack;
            let n = s.len();
            let fail = StepOutcome::Fail(Error::InvalidStackOperation, s);
            &&& n < 1 ==> run_op(checker, flags, st, Opcode::OP_DUP) == fail
            &&& n < 1 ==> run_op(checker, flags, st, Opcode::OP_DROP) == fail
            &&& n < 1 ==> run_op(checker, flags, st, Opcode::OP_IFDUP) == fail
            &&& n < 1 ==> run_op(checker, flags, st, Opcode::OP_SIZE) == fail
            &&& n < 1 ==> run_op(checker, flags, st, Opcode::OP_TOALTSTACK) == fail
            &&& n < 1 ==> run_op(checker, flags, st, Opcode::OP_VERIFY) == fail
            &&& n < 2 ==> run_op(checker, flags, st, Opcode::OP_2DUP) == fail
            &&& n < 2 ==> run_op(checker, flags, st, Opcode::OP_2DROP) == fail
            &&& n < 2 ==> run_op(checker, flags, st, Opcode::OP_NIP) == fail
            &&& n < 2 ==> run_op(checker, flags, st, Opcode::OP_OVER) == fail
            &&& n < 2 ==> run_op(checker, flags, st, Opcode::OP_SWAP) == fail
            &&& n < 2 ==> run_op(checker, flags, st, Opcode::OP_TUCK) == fail
            &&& n < 2 ==> run_op(checker, flags, st, Opcode::OP_PICK) == fail
            &&& n < 2 ==> run_op(checker, flags, st, Opcode::OP_ROLL) == fail
            &&& n < 2 ==> run_op(checker, flags, st, Opcode::OP_EQUAL) == fail
            &&& n < 2 ==> run_op(checker, flags, st, Opcode::OP_EQUALVERIFY) == fail
            &&& n < 3 ==> run_op(checker, flags, st, Opcode::OP_3DUP) == fail
            &&& n < 3 ==> run_op(checker, flags, st, Opcode::OP_ROT) == fail
            &&& n < 4 ==> run_op(checker, flags, st, Opcode::OP_2OVER) == fail
            &&& n < 4 ==> run_op(checker, flags, st, Opcode::OP_2SWAP) == fail
            &&& n < 6 ==> run_op(checker, flags, st, Opcode::OP_2ROT) == fail
        }),
{
}


/// `o` goes on to a state that keeps the alternate stack and the open
/// conditionals of `st` and whose main stack is that of `st` with one element
/// added on top, an encoding of `v`: the minimal one, which reads back as `v`.
pub open spec fn continues_pushing_number(o: StepOutcome, st: EvalState, v: int) -> bool {
    &&& o is Continue
    &&& o->Continue_0.altstack == st.altstack
    &&& o->Continue_0.fvec == st.fvec
    &&& o->Continue_0.stack.len() == st.stack.len() + 1
    &&& o->Continue_0.stack.drop_last() == st.stack
    &&& spec_decode(o->Continue_0.stack.last()) == v
    &&& spec_is_minimal(o->Continue_0.stack.last())
}

/// `OP_DEPTH` pushes the number of elements on the stack, `OP_SIZE` the length
/// of the top element; a pushed number reads back as that number.
pub proof fn law_depth_and_size<C: SignatureChecker>(
    checker: &C,
    flags: VerificationFlags,
    st: EvalState,
)
    ensures
        continues_pushing_number(
            run_op(checker, flags, st, Opcode::OP_DEPTH),
            st,
            st.stack.len() as int,
        ),
        st.stack.len() > 0 ==> continues_pushing_number(
            run_op(checker, flags, st, Opcode::OP_SIZE),
            st,
            st.stack.last().len() as int,
        ),
{
    let s = st.stack;
    lemma_encode_decode(s.len() as int);
    assert(s.push(spec_encode(s.len() as int)).drop_last() =~= s);
    if s.len() > 0 {
        lemma_encode_decode(s.last().len() as int);
        assert(s.push(spec_encode(s.last().len() as int)).drop_last() =~= s);
    }
}

/// `OP_EQUAL` replaces the top two elements by `[1]` when they are equal and by
/// `[0]` when not; `OP_EQUALVERIFY` removes them, and fails with `EqualVerify`
/// when they differ.
pub proof fn law_equal<C: SignatureChecker>(checker: &C, flags: VerificationFlags, st: EvalState)
    requires
        st.stack.len() >= 2,
    ensures
        ({
            let s = st.stack;
            let n = s.len() as int;
            let below = s.subrange(0, n - 2);
            &&& s[n - 1] == s[n - 2] ==> continues_with(
                run_op(checker, flags, st, Opcode::OP_EQUAL),
                st,
                below + seq![seq![1u8]],
            )
            &&& s[n - 1] != s[n - 2] ==> continues_with(
                run_op(checker, flags, st, Opcode::OP_EQUAL),
                st,
                below + seq![seq![0u8]],
            )
            &&& s[n - 1] == s[n - 2] ==> continues_with(
                run_op(checker, flags, st, Opcode::OP_EQUALVERIFY),
                st,
                below,
            )
            &&& s[n - 1] != s[n - 2] ==> run_op(checker, flags, st, Opcode::OP_EQUALVERIFY)
                == StepOutcome::Fail(Error::EqualVerify, below)
        }),
{
    let s = st.stack;
    let n = s.len() as int;
    assert(s.subrange(0, n - 2).push(seq![1u8]) =~= s.subrange(0, n - 2) + seq![seq![1u8]]);
    assert(s.subrange(0, n - 2).push(seq![0u8]) =~= s.subrange(0, n - 2) + seq![seq![0u8]]);
}

/// `OP_IFDUP` copies the top element when it reads as true and changes nothing
/// otherwise.
pub proof fn law_ifdup<C: SignatureChecker>(checker: &C, flags: VerificationFlags, st: EvalState)
    requires
        st.stack.len() >= 1,
    ensures
        ({
            let s = st.stack;
            let n = s.len() as int;
            &&& spec_cast_to_bool(s[n - 1]) ==> continues_with(
                run_op(checker, flags, st, Opcode::OP_IFDUP),
                st,
                s + s.subrange(n - 1, n),
            )
            &&& !spec_cast_to_bool(s[n - 1]) ==> run_op(checker, flags, st, Opcode::OP_IFDUP)
                == StepOutcome::Continue(st)
        }),
{
    let s = st.stack;
    let n = s.len() as int;
    assert(s.push(s.last()) =~= s + s.subrange(n - 1, n));
}

/// `OP_TOALTSTACK` moves the top of the main stack onto the alternate stack,
/// and `OP_FROMALTSTACK` moves the top of the alternate stack onto the main
/// stack, which fails with `InvalidAltstackOperation` when the alternate
/// stack is empty.
pub proof fn law_alt_stack<C: SignatureChecker>(checker: &C, flags: VerificationFlags, st: EvalState)
    ensures
        ({
            let s = st.stack;
            let a = st.altstack;
            let n = s.len() as int;
            let m = a.len() as int;
            &&& n >= 1 ==> run_op(checker, flags, st, Opcode::OP_TOALTSTACK) == StepOutcome::Continue(
                EvalState {
                    stack: s.subrange(0, n - 1),
                    altstack: a + s.subrange(n - 1, n),
                    fvec: st.fvec,
                },
            )
            &&& m >= 1 ==> run_op(checker, flags, st, Opcode::OP_FROMALTSTACK)
                == StepOutcome::Continue(
                EvalState {
                    stack: s + a.subrange(m - 1, m),
                    altstack: a.subrange(0, m - 1),
                    fvec: st.fvec,
                },
            )
            &&& m == 0 ==> run_op(checker, flags, st, Opcode::OP_FROMALTSTACK) == StepOutcome::Fail(
                Error::InvalidAltstackOperation,
                s,
            )
        }),
{
    let s = st.stack;
    let a = st.altstack;
    let n = s.len() as int;
    let m = a.len() as int;
    if n >= 1 {
        assert(s.drop_last() =~= s.subrange(0, n - 1));
        assert(a.push(s.last()) =~= a + s.subrange(n - 1, n));
    }
    if m >= 1 {
        assert(s.push(a.last()) =~= s + a.subrange(m - 1, m));
        assert(a.drop_last() =~= a.subrange(0, m - 1));
    }
}

/// `OP_PICK` and `OP_ROLL` take the top element off and read it as a number `k`
/// of at most 4 bytes. When `0 <= k` and position `k + 1`, counted from the
/// bottom of the remaining stack, exists, `OP_PICK` copies the element there to
/// the top and `OP_ROLL` moves it there. A `k` outside `0 .. rest.len()` fails
/// with `InvalidStackOperation`, and an unreadable one with the reading error,
/// both without the taken top element.
pub proof fn law_pick_roll<C: SignatureChecker>(
    checker: &C,
    flags: VerificationFlags,
    st: EvalState,
    k: int,
)
    requires
        st.stack.len() >= 2,
    ensures
        ({
            let s = st.stack;
            let n = s.len() as int;
            let rest = s.subrange(0, n - 1);
            let read = spec_from_slice(s[n - 1], flags.verify_minimaldata, 4);
            &&& read == Ok::<int, Error>(k) && 0 <= k && k + 2 < n ==> continues_with(
                run_op(checker, flags, st, Opcode::OP_PICK),
                st,
                rest + rest.subrange(k + 1, k + 2),
            )
            &&& read == Ok::<int, Error>(k) && 0 <= k && k + 2 < n ==> continues_with(
                run_op(checker, flags, st, Opcode::OP_ROLL),
                st,
                rest.subrange(0, k + 1) + rest.subrange(k + 2, n - 1) + rest.subrange(k + 1, k + 2),
            )
            &&& read == Ok::<int, Error>(k) && (k < 0 || k >= n - 1) ==> run_op(
                checker,
                flags,
                st,
                Opcode::OP_PICK,
            ) == StepOutcome::Fail(Error::InvalidStackOperation, rest)
            &&& read is Err ==> run_op(checker, flags, st, Opcode::OP_PICK) == StepOutcome::Fail(
                read->Err_0,
                rest,
            )
        }),
{
    let s = st.stack;
    let n = s.len() as int;
    let rest = s.subrange(0, n - 1);
    assert(s.drop_last() =~= rest);
    if 0 <= k && k + 2 < n {
        assert(rest.push(rest[k + 1]) =~= rest + rest.subrange(k + 1, k + 2));
        assert(rest.remove(k + 1).push(rest[k + 1]) =~= rest.subrange(0, k + 1) + rest.subrange(
            k + 2,
            n - 1,
        ) + rest.subrange(k + 1, k + 2));
    }
}


/// `OP_NOP` ends the evaluation where it stands; `OP_RETURN` fails with
/// `ReturnOpcode`; the upgradable no-ops change nothing, unless they are
/// discouraged, when they fail with `DiscourageUpgradableNops`.
pub proof fn law_nops_and_return<C: SignatureChecker>(
    checker: &C,
    flags: VerificationFlags,
    st: EvalState,
    op: Opcode,
)
    requires
        op == Opcode::OP_NOP1 || op == Opcode::OP_NOP4 || op == Opcode::OP_NOP5 || op
            == Opcode::OP_NOP6 || op == Opcode::OP_NOP7 || op == Opcode::OP_NOP8 || op
            == Opcode::OP_NOP9 || op == Opcode::OP_NOP10,
    ensures
        run_op(checker, flags, st, Opcode::OP_NOP) == StepOutcome::Stop(st),
        run_op(checker, flags, st, Opcode::OP_RETURN) == StepOutcome::Fail(
            Error::ReturnOpcode,
            st.stack,
        ),
        !flags.verify_discourage_upgradable_nops ==> run_op(checker, flags, st, op)
            == StepOutcome::Continue(st),
        flags.verify_discourage_upgradable_nops ==> run_op(checker, flags, st, op)
            == StepOutcome::Fail(Error::DiscourageUpgradableNops, st.stack),
{
}

/// `OP_VERIFY` removes the top element, and fails with `Verify` when it reads
/// as false.
pub proof fn law_verify<C: SignatureChecker>(checker: &C, flags: VerificationFlags, st: EvalState)
    requires
        st.stack.len() >= 1,
    ensures
        ({
            let s = st.stack;
            let n = s.len() as int;
            &&& spec_cast_to_bool(s[n - 1]) ==> continues_with(
                run_op(checker, flags, st, Opcode::OP_VERIFY),
                st,
                s.subrange(0, n - 1),
            )
            &&& !spec_cast_to_bool(s[n - 1]) ==> run_op(checker, flags, st, Opcode::OP_VERIFY)
                == StepOutcome::Fail(Error::Verify, s.subrange(0, n - 1))
        }),
{
    assert(st.stack.drop_last() =~= st.stack.subrange(0, st.stack.len() - 1));
}

/// The conditionals. While every open conditional was entered with true,
/// `OP_IF` and `OP_NOTIF` open one entered with false and leave the stack alone.
/// Once some open conditional was entered with false, they take the top
/// element off and open one entered with its value (`OP_IF`) or its negation
/// (`OP_NOTIF`), failing with `UnbalancedConditional` on an empty stack.
/// `OP_ELSE` changes nothing, and `OP_ENDIF` closes the last one; both fail
/// with `UnbalancedConditional` when none is open.
pub proof fn law_conditionals<C: SignatureChecker>(
    checker: &C,
    flags: VerificationFlags,
    st: EvalState,
)
    ensures
        ({
            let s = st.stack;
            let n = s.len() as int;
            let f = st.fvec;
            let all_true = forall|i: int| 0 <= i < f.len() ==> f[i];
            &&& all_true ==> run_op(checker, flags, st, Opcode::OP_IF) == StepOutcome::Continue(
                EvalState { stack: s, altstack: st.altstack, fvec: f + seq![false] },
            )
            &&& all_true ==> run_op(checker, flags, st, Opcode::OP_NOTIF) == StepOutcome::Continue(
                EvalState { stack: s, altstack: st.altstack, fvec: f + seq![false] },
            )
            &&& !all_true && n >= 1 ==> run_op(checker, flags, st, Opcode::OP_IF)
                == StepOutcome::Continue(
                EvalState {
                    stack: s.subrange(0, n - 1),
                    altstack: st.altstack,
                    fvec: f + seq![spec_cast_to_bool(s[n - 1])],
                },
            )
            &&& !all_true && n >= 1 ==> run_op(checker, flags, st, Opcode::OP_NOTIF)
                == StepOutcome::Continue(
                EvalState {
                    stack: s.subrange(0, n - 1),
                    altstack: st.altstack,
                    fvec: f + seq![!spec_cast_to_bool(s[n - 1])],
                },
            )
            &&& !all_true && n == 0 ==> run_op(checker, flags, st, Opcode::OP_IF)
                == StepOutcome::Fail(Error::UnbalancedConditional, s)
            &&& f.len() > 0 ==> run_op(checker, flags, st, Opcode::OP_ELSE) == StepOutcome::Continue(
                st,
            )
            &&& f.len() > 0 ==> run_op(checker, flags, st, Opcode::OP_ENDIF)
                == StepOutcome::Continue(
                EvalState { stack: s, altstack: st.altstack, fvec: f.subrange(0, f.len() - 1) },
            )
            &&& f.len() == 0 ==> run_op(checker, flags, st, Opcode::OP_ELSE) == StepOutcome::Fail(
                Error::UnbalancedConditional,
                s,
            )
            &&& f.len() == 0 ==> run_op(checker, flags, st, Opcode::OP_ENDIF) == StepOutcome::Fail(
                Error::UnbalancedConditional,
                s,
            )
        }),
{
    let s = st.stack;
    let n = s.len() as int;
    let f = st.fvec;
    assert(f.push(false) =~= f + seq![false]);
    assert(f.push(true) =~= f + seq![true]);
    if n >= 1 {
        assert(s.drop_last() =~= s.subrange(0, n - 1));
        assert(f.push(spec_cast_to_bool(s[n - 1])) =~= f + seq![spec_cast_to_bool(s[n - 1])]);
        assert(f.push(!spec_cast_to_bool(s[n - 1])) =~= f + seq![!spec_cast_to_bool(s[n - 1])]);
    }
    if f.len() > 0 {
        assert(f.drop_last() =~= f.subrange(0, f.len() - 1));
    }
}

/// The bit that disables a relative lock time, read on a non-negative number.
proof fn lemma_disable_bit(v: i64)
    requires
        v >= 0,
    ensures
        ((v & 0x8000_0000i64) != 0) == ((v / 0x8000_0000) % 2 == 1),
{
    assert(v >= 0 ==> (((v & 0x8000_0000i64) != 0) == ((v / 0x8000_0000) % 2 == 1))) by (bit_vector);
}

/// The lock-time opcodes never change the state: they go on exactly when the
/// top element reads (as a number of at most 5 bytes) as a non-negative `v`
/// that the checker accepts (`OP_CHECKLOCKTIMEVERIFY`), or that either has the
/// disable bit (bit 31) set or is accepted as a sequence
/// (`OP_CHECKSEQUENCEVERIFY`), and the opcode is not a discouraged upgradable
/// no-op. Otherwise they fail, leaving the stack.
pub proof fn law_lock_time<C: SignatureChecker>(
    checker: &C,
    flags: VerificationFlags,
    st: EvalState,
    v: int,
)
    requires
        st.stack.len() >= 1,
        spec_from_slice(st.stack.last(), flags.verify_minimaldata, 5) == Ok::<int, Error>(v),
    ensures
        ({
            let o = run_op(checker, flags, st, Opcode::OP_CHECKLOCKTIMEVERIFY);
            let discouraged = !flags.verify_clocktimeverify
                && flags.verify_discourage_upgradable_nops;
            &&& (o is Continue) == (!discouraged && v >= 0 && checker.spec_check_lock_time(v))
            &&& o is Continue ==> o == StepOutcome::Continue(st)
            &&& !(o is Continue) ==> o is Fail && o->Fail_1 == st.stack
            &&& !discouraged && v < 0 ==> o == StepOutcome::Fail(Error::NegativeLocktime, st.stack)
        }),
        ({
            let o = run_op(checker, flags, st, Opcode::OP_CHECKSEQUENCEVERIFY);
            let discouraged = !flags.verify_chechsequenceverify
                && flags.verify_discourage_upgradable_nops;
            &&& (o is Continue) == (!discouraged && v >= 0 && ((v / 0x8000_0000) % 2 == 1
                || checker.spec_check_sequence(v)))
            &&& o is Continue ==> o == StepOutcome::Continue(st)
            &&& !(o is Continue) ==> o is Fail && o->Fail_1 == st.stack
        }),
{
    if v >= 0 {
        let s = st.stack.last();
        assert(s.len() <= 5);
        crate::num::lemma_decode_bound(s);
        lemma_disable_bit(v as i64);
    }
}

/// Under the checker that accepts nothing, no lock time or sequence without the
/// disable bit is ever satisfied.
pub proof fn law_noop_checker_refuses(flags: VerificationFlags, st: EvalState, v: int)
    requires
        st.stack.len() >= 1,
        spec_from_slice(st.stack.last(), flags.verify_minimaldata, 5) == Ok::<int, Error>(v),
    ensures
        !(run_op(&NoopSignatureChecker, flags, st, Opcode::OP_CHECKLOCKTIMEVERIFY) is Continue),
{
    law_lock_time(&NoopSignatureChecker, flags, st, v);
}

/// A number push leaves on top an encoding that reads back as the number; a
/// push of bytes without the minimal-data rule leaves exactly those bytes.
pub proof fn law_pushes<C: SignatureChecker>(
    checker: &C,
    flags: VerificationFlags,
    st: EvalState,
    op: Opcode,
    v: int,
    d: Seq<u8>,
)
    ensures
        continues_pushing_number(
            spec_step(checker, flags, st, SpecInstruction::PushValue(op, v)),
            st,
            v,
        ),
        !flags.verify_minimaldata ==> continues_with(
            spec_step(checker, flags, st, SpecInstruction::PushBytes(op, d)),
            st,
            st.stack + seq![d],
        ),
{
    lemma_encode_decode(v);
    assert(st.stack.push(spec_encode(v)).drop_last() =~= st.stack);
    assert(st.stack.push(d) =~= st.stack + seq![d]);
}

/// The shortest push of each kind of data. One byte `v` in `1 ..= 16` is
/// pushed minimally only by `OP_v` (byte `0x50 + v`), `0x81` only by
/// `OP_1NEGATE` (byte `0x4f`), nothing only by `OP_0` (byte `0`), any other
/// data of up to 75 bytes only by the direct push of its length, up to 255
/// bytes only by `OP_PUSHDATA1`, up to 65535 bytes only by `OP_PUSHDATA2`.
pub proof fn law_minimal_push(d: Seq<u8>, op: Opcode)
    ensures
        d.len() == 0 ==> (spec_check_minimal_push(d, op) <==> op.spec_byte() == 0),
        d.len() == 1 && 1 <= d[0] <= 16 ==> (spec_check_minimal_push(d, op) <==> op.spec_byte()
            == 0x50 + d[0]),
        d.len() == 1 && d[0] == 0x81 ==> (spec_check_minimal_push(d, op) <==> op.spec_byte()
            == 0x4f),
        1 <= d.len() <= 75 && !(d.len() == 1 && (1 <= d[0] <= 16 || d[0] == 0x81)) ==> (
        spec_check_minimal_push(d, op) <==> op.spec_byte() == d.len()),
        76 <= d.len() <= 255 ==> (spec_check_minimal_push(d, op) <==> op.spec_byte() == 0x4c),
        256 <= d.len() <= 65535 ==> (spec_check_minimal_push(d, op) <==> op.spec_byte() == 0x4d),
{
    crate::opcode::lemma_opcode_byte_roundtrip(op);
    crate::opcode::lemma_byte_opcode_roundtrip(op.spec_byte());
    crate::opcode::lemma_opcode_byte_roundtrip(Opcode::OP_0);
    crate::opcode::lemma_opcode_byte_roundtrip(Opcode::OP_1NEGATE);
    crate::opcode::lemma_opcode_byte_roundtrip(Opcode::OP_PUSHDATA1);
    crate::opcode::lemma_opcode_byte_roundtrip(Opcode::OP_PUSHDATA2);
}

/// Under the minimal-data rule, a direct one-byte push of a value in
/// `1 ..= 16` fails with `Minimaldata`, leaving the stack.
pub proof fn law_minimal_data_refuses_small_direct_push<C: SignatureChecker>(
    checker: &C,
    flags: VerificationFlags,
    st: EvalState,
    v: u8,
)
    requires
        flags.verify_minimaldata,
        1 <= v <= 16,
    ensures
        spec_step(checker, flags, st, SpecInstruction::PushBytes(Opcode::OP_PUSHBYTES_1, seq![v]))
            == StepOutcome::Fail(Error::Minimaldata, st.stack),
{
    law_minimal_push(seq![v], Opcode::OP_PUSHBYTES_1);
}


/// The bytes of a signature with elements `r` and `s` and hash type `h`:
/// `0x30 [len] 0x02 [len r] r 0x02 [len s] s h`.
pub open spec fn der_signature(r: Seq<u8>, s: Seq<u8>, h: u8) -> Seq<u8> {
    seq![0x30u8, (r.len() + s.len() + 4) as u8, 0x02u8, r.len() as u8] + r + seq![
        0x02u8,
        s.len() as u8,
    ] + s + seq![h]
}

/// An integer element as strict encoding wants it: some bytes, the first
/// below `0x80`, and a leading zero only before a byte of `0x80` or more.
pub open spec fn shortest_non_negative(b: Seq<u8>) -> bool {
    b.len() >= 1 && b[0] <= 0x7f && (b[0] == 0 ==> b.len() == 1 || b[1] >= 0x80)
}

/// The strictly encoded signatures are exactly the bytes
/// `0x30 [len] 0x02 [len r] r 0x02 [len s] s h` of at most 73 bytes, with `r`
/// and `s` non-negative integers in their shortest form; `r` and `s` are the
/// elements that the encoding reads back.
pub proof fn law_signature_encoding_shape(sig: Seq<u8>, r: Seq<u8>, s: Seq<u8>, h: u8)
    ensures
        spec_is_valid_signature_encoding(sig) ==> sig == der_signature(
            spec_der_r(sig),
            spec_der_s(sig),
            sig.last(),
        ) && shortest_non_negative(spec_der_r(sig)) && shortest_non_negative(spec_der_s(sig)),
        shortest_non_negative(r) && shortest_non_negative(s) && r.len() + s.len() <= 66 ==> {
            &&& spec_is_valid_signature_encoding(der_signature(r, s, h))
            &&& spec_der_r(der_signature(r, s, h)) == r
            &&& spec_der_s(der_signature(r, s, h)) == s
        },
{
    if spec_is_valid_signature_encoding(sig) {
        let lr = sig[3] as int;
        let ls = sig[lr + 5] as int;
        assert(sig =~= der_signature(spec_der_r(sig), spec_der_s(sig), sig.last()));
    }
    if shortest_non_negative(r) && shortest_non_negative(s) && r.len() + s.len() <= 66 {
        let d = der_signature(r, s, h);
        assert(d[3] == r.len());
        assert(d[r.len() + 4int] == 2);
        assert(d[r.len() + 5int] == s.len());
        assert(spec_der_r(d) =~= r);
        assert(spec_der_s(d) =~= s);
    }
}

/// Every strictly encoded signature has the compound tag `0x30` first and the
/// integer tag `0x02` before each element, at positions 2 and `sig[3] + 4`;
/// changing any of these tags to another byte makes the signature not strictly
/// encoded.
pub proof fn law_signature_tags(sig: Seq<u8>, b: u8)
    requires
        spec_is_valid_signature_encoding(sig),
    ensures
        sig[0] == 0x30,
        sig[2] == 0x02,
        sig[sig[3] + 4] == 0x02,
        b != 0x30 ==> !spec_is_valid_signature_encoding(sig.update(0, b)),
        b != 0x02 ==> !spec_is_valid_signature_encoding(sig.update(2, b)),
        b != 0x02 ==> !spec_is_valid_signature_encoding(sig.update(sig[3] + 4, b)),
{
    let k = sig[3] + 4;
    let u = sig.update(k, b);
    assert(u[3] == sig[3]);
    assert(u[k] == b);
}

/// The empty signature passes the encoding check under every flag set;
/// without `verify_dersig`, `verify_low_s` and `verify_strictenc` every
/// signature does; the check never answers `Ok(false)`. Under `verify_dersig`
/// a non-empty signature passes exactly when it is strictly encoded, and under
/// `verify_low_s` exactly when it is strictly encoded and its S element is at
/// most half the curve order.
pub proof fn law_signature_encoding_check(sig: Seq<u8>, flags: VerificationFlags)
    ensures
        spec_check_signature_encoding(Seq::empty(), flags) == Ok::<bool, Error>(true),
        !flags.verify_dersig && !flags.verify_low_s && !flags.verify_strictenc
            ==> spec_check_signature_encoding(sig, flags) == Ok::<bool, Error>(true),
        spec_check_signature_encoding(sig, flags) != Ok::<bool, Error>(false),
        flags.verify_dersig && !flags.verify_low_s && sig.len() > 0 ==> (
        spec_check_signature_encoding(sig, flags) is Ok <==> spec_is_valid_signature_encoding(
            sig,
        )),
        flags.verify_low_s && sig.len() > 0 ==> (spec_check_signature_encoding(sig, flags) is Ok
            <==> spec_is_valid_signature_encoding(sig) && be_value(spec_der_s(sig)) <= be_value(
            spec_half_curve_order_bytes(),
        )),
        spec_is_low_der_signature(sig) != Ok::<bool, Error>(false),
        spec_is_low_der_signature(sig) is Ok <==> spec_is_valid_signature_encoding(sig) && be_value(
            spec_der_s(sig),
        ) <= be_value(spec_half_curve_order_bytes()),
{
}

/// The strict hash-type check accepts exactly the non-empty signatures: it
/// asks for a hash type both below `All` and above `Single`, which none is.
pub proof fn law_hashtype(sig: Seq<u8>)
    ensures
        spec_is_defined_hashtype_signature(sig) == (sig.len() > 0),
{
}

/// The public keys are the 33-byte keys starting `0x02` or `0x03` and the
/// 65-byte keys starting `0x04`. The key check accepts every key of that shape
/// under every flag set, accepts every key without `verify_strictenc`, and
/// refuses any other key under `verify_strictenc` with `PubkeyType`.
pub proof fn law_public_keys(v: Seq<u8>, flags: VerificationFlags)
    ensures
        spec_is_public_key(v) <==> (v.len() == 33 && (v[0] == 2 || v[0] == 3)) || (v.len() == 65
            && v[0] == 4),
        (v.len() == 33 && (v[0] == 2 || v[0] == 3)) || (v.len() == 65 && v[0] == 4)
            ==> spec_check_pubkey_encoding(v, flags) == Ok::<bool, Error>(true),
        !flags.verify_strictenc ==> spec_check_pubkey_encoding(v, flags) == Ok::<bool, Error>(
            true,
        ),
        flags.verify_strictenc && !((v.len() == 33 && (v[0] == 2 || v[0] == 3)) || (v.len() == 65
            && v[0] == 4)) ==> spec_check_pubkey_encoding(v, flags) == Err::<bool, Error>(
            Error::PubkeyType,
        ),
{
}

/// A value reads as false exactly when it is all zero bytes, or all zero bytes
/// followed by a last byte `0x80` (negative zero).
pub proof fn law_cast_to_bool(d: Seq<u8>)
    ensures
        !spec_cast_to_bool(d) <==> (d =~= Seq::new(d.len(), |i: int| 0u8) || (d.len() > 0 && d
            =~= Seq::new((d.len() - 1) as nat, |i: int| 0u8).push(0x80u8))),
{
    let n = d.len() as int;
    let zeros = Seq::new(d.len(), |i: int| 0u8);
    if !spec_cast_to_bool(d) {
        if n > 0 && d[n - 1] == 0x80 {
            assert forall|i: int| 0 <= i < n - 1 implies d[i] == 0 by {
                if d[i] != 0 {
                    assert(!(i == n - 1 && d[i] == 0x80));
                }
            }
            assert(d =~= Seq::new((d.len() - 1) as nat, |i: int| 0u8).push(0x80u8));
        } else {
            assert forall|i: int| 0 <= i < n implies d[i] == 0 by {
                if d[i] != 0 {
                    assert(!(i == n - 1 && d[i] == 0x80));
                }
            }
            assert(d =~= zeros);
        }
    } else {
        let i = choose|i: int| 0 <= i < n && d[i] != 0 && !(i == n - 1 && d[i] == 0x80);
        assert(!(d =~= zeros)) by {
            assert(d[i] != zeros[i]);
        }
        if n > 0 {
            let z = Seq::new((d.len() - 1) as nat, |i: int| 0u8).push(0x80u8);
            assert(!(d =~= z)) by {
                assert(d[i] != z[i]);
            }
        }
    }
}


/// The shortest encoding of numbers: nothing for zero, one byte for `1 ..= 127`
/// and, below that, its negation with the sign bit set; a number of 128 or
/// more is its low byte followed by the encoding of the rest, except that
/// `128 ..= 255` take a zero byte after them for the sign; a negative number is
/// the encoding of its absolute value with the sign bit of the last byte set,
/// a bit that the encoding of a positive number leaves clear.
pub proof fn law_number_encoding(v: int)
    ensures
        spec_encode(0) == Seq::<u8>::empty(),
        1 <= v <= 127 ==> spec_encode(v) == seq![v as u8] && spec_encode(-v) == seq![(v + 0x80) as u8],
        128 <= v <= 255 ==> spec_encode(v) == seq![v as u8, 0u8],
        v >= 256 ==> spec_encode(v) == seq![(v % 256) as u8] + spec_encode(v / 256),
        v > 0 ==> spec_encode(v).len() > 0 && spec_encode(v).last() < 0x80 && spec_encode(-v)
            == spec_encode(v).update(
            spec_encode(v).len() - 1,
            (spec_encode(v).last() + 0x80) as u8,
        ),
{
    reveal_with_fuel(crate::num::le_bytes, 3);
    if v > 0 {
        crate::num::lemma_le_bytes_last_pub(v as nat);
        if v >= 256 {
            crate::num::lemma_le_bytes_last_pub((v / 256) as nat);
            let b = crate::num::le_bytes(v as nat);
            let c = crate::num::le_bytes((v / 256) as nat);
            assert(b =~= seq![(v % 256) as u8] + c);
            assert(b.last() == c.last());
            if b.last() >= 0x80 {
                assert(b.push(0u8) =~= seq![(v % 256) as u8] + c.push(0u8));
            } else {
                assert(b =~= seq![(v % 256) as u8] + c);
            }
        }
    }
}

/// A finished evaluation succeeds exactly when the stack is not empty and its
/// top element is not all zero bytes.
pub proof fn law_success(stack: Seq<Seq<u8>>)
    ensures
        crate::semantics::spec_success(stack) <==> stack.len() > 0 && !(stack.last() =~= Seq::new(
            stack.last().len(),
            |i: int| 0u8,
        )),
{
    if stack.len() > 0 {
        let t = stack.last();
        let zeros = Seq::new(t.len(), |i: int| 0u8);
        if crate::semantics::spec_success(stack) {
            let i = choose|i: int| 0 <= i < t.len() && t[i] != 0;
            assert(t[i] != zeros[i]);
        } else {
            assert forall|i: int| 0 <= i < t.len() implies t[i] == zeros[i] by {
                if t[i] != 0 {
                    assert(crate::semantics::spec_success(stack));
                }
            }
        }
    }
}


/// How a script is read at `pos`, by the byte found there: bytes above `0xb9`
/// are no opcode; `0x00` pushes nothing; `0x01 ..= 0x4b` push that many of the
/// following bytes, or fail with `BadOpcode` when the script is shorter;
/// `0x4f` pushes -1 and `0x51 ..= 0x60` push 1 to 16; `0x50` and
/// `0x61 ..= 0xb9` are opcodes of their own. Each instruction is followed by
/// the next one right after it.
pub proof fn law_parse(s: Seq<u8>, pos: int)
    requires
        0 <= pos < s.len(),
    ensures
        ({
            let b = s[pos];
            let r = crate::script::spec_parse_at(s, pos);
            &&& b > 0xb9 ==> r == Err::<(SpecInstruction, int), Error>(Error::BadOpcode)
            &&& b == 0 ==> (r matches Ok((SpecInstruction::PushBytes(op, d), next)) && op.spec_byte()
                == 0 && d.len() == 0 && next == pos + 1)
            &&& 1 <= b <= 0x4b && pos + 1 + b <= s.len() ==> (r matches Ok(
                (SpecInstruction::PushBytes(op, d), next),
            ) && op.spec_byte() == b && d == s.subrange(pos + 1, pos + 1 + b) && next == pos + 1 + b)
            &&& 1 <= b <= 0x4b && pos + 1 + b > s.len() ==> r == Err::<(SpecInstruction, int), Error>(
                Error::BadOpcode,
            )
            &&& b == 0x4f ==> (r matches Ok((SpecInstruction::PushValue(op, v), next))
                && op.spec_byte() == b && v == -1 && next == pos + 1)
            &&& 0x51 <= b <= 0x60 ==> (r matches Ok((SpecInstruction::PushValue(op, v), next))
                && op.spec_byte() == b && v == b - 0x50 && next == pos + 1)
            &&& (b == 0x50 || 0x61 <= b <= 0xb9) ==> (r matches Ok((SpecInstruction::Normal(op), next))
                && op.spec_byte() == b && next == pos + 1)
        }),
{
    crate::opcode::lemma_byte_opcode_roundtrip(s[pos]);
    let b = s[pos];
    if b == 0 {
        assert(s.subrange(pos + 1, pos + 1) =~= Seq::<u8>::empty());
    }
}

/// A script of one opcode that is not a push ends as that opcode's step from
/// the starting state: a step that goes on or stops ends the evaluation in its
/// state, and a failing step fails the evaluation alike.
pub proof fn law_eval_single_opcode<C: SignatureChecker>(
    checker: &C,
    flags: VerificationFlags,
    stack: Seq<Seq<u8>>,
    op: Opcode,
)
    requires
        op.spec_byte() == 0x50 || 0x61 <= op.spec_byte() <= 0xb9,
    ensures
        ({
            let st = EvalState { stack, altstack: Seq::empty(), fvec: Seq::empty() };
            let e = crate::semantics::spec_eval(checker, flags, stack, seq![op.spec_byte()]);
            match run_op(checker, flags, st, op) {
                StepOutcome::Continue(st2) => e == crate::semantics::RunOutcome::Done(st2),
                StepOutcome::Stop(st2) => e == crate::semantics::RunOutcome::Done(st2),
                StepOutcome::Fail(err, s2) => e == crate::semantics::RunOutcome::Fail(err, s2),
                StepOutcome::Stuck => e == crate::semantics::RunOutcome::Stuck,
            }
        }),
{
    let sc = seq![op.spec_byte()];
    law_parse(sc, 0);
    crate::opcode::lemma_opcode_byte_roundtrip(op);
    let st = EvalState { stack, altstack: Seq::empty(), fvec: Seq::empty() };
    match run_op(checker, flags, st, op) {
        StepOutcome::Continue(st2) => {
            assert(crate::semantics::spec_run(checker, flags, sc, 1, st2)
                == crate::semantics::RunOutcome::Done(st2));
        },
        _ => {},
    }
}


/// Reading a number: an encoding longer than the limit overflows; with
/// minimality required, a non-empty encoding within the limit is accepted
/// exactly when it is the shortest encoding of the number it stands for, and
/// then reads as that number.
pub proof fn law_read_number(s: Seq<u8>, max_size: nat)
    ensures
        s.len() > max_size ==> spec_from_slice(s, true, max_size) == Err::<int, Error>(
            Error::NumberOverflow,
        ) && spec_from_slice(s, false, max_size) == Err::<int, Error>(Error::NumberOverflow),
        0 < s.len() <= max_size ==> (spec_from_slice(s, true, max_size) is Ok <==> s == spec_encode(
            spec_decode(s),
        )),
        0 < s.len() <= max_size && spec_from_slice(s, true, max_size) is Err ==> spec_from_slice(
            s,
            true,
            max_size,
        ) == Err::<int, Error>(Error::NumberNotMinimallyEncoded),
        s.len() <= max_size ==> spec_from_slice(s, false, max_size) == Ok::<int, Error>(
            spec_decode(s),
        ),
{
    if 0 < s.len() <= max_size {
        if spec_is_minimal(s) {
            crate::num::lemma_decode_encode(s);
        }
        lemma_encode_decode(spec_decode(s));
    }
    if s.len() == 0 {
        assert(spec_decode(s) == 0);
    }
}

/// Padding a number with a zero byte after a last byte below `0x80` does not
/// change it, and padding with `0x80` instead negates it.
pub proof fn law_number_padding(s: Seq<u8>)
    requires
        s.len() == 0 || s.last() < 0x80,
    ensures
        spec_decode(s.push(0u8)) == spec_decode(s),
        spec_decode(s.push(0x80u8)) == -spec_decode(s),
{
    crate::num::lemma_le_value_push_zero_pub(s);
    assert(crate::num::clear_sign(s.push(0x80u8)) =~= s.push(0u8));
    if s.len() == 0 {
        assert(crate::num::le_value(s) == 0);
    }
}

} // verus!
