//! Evaluation of scripts, and the checks on pushes and values it relies on.

use vstd::prelude::*;

use crate::error::Error;
use crate::flags::VerificationFlags;
use crate::num::{lemma_encode_len, Num};
use crate::opcode::Opcode;
use crate::semantics::{
    is_stack_opcode, spec_cast_to_bool, spec_check_minimal_push, spec_has_false, spec_step,
    spec_step_flow, spec_step_stack, EvalState, SignatureChecker, StepOutcome, elems_bounded,
    lemma_parse_advances, lemma_step_bounded, spec_eval, spec_run, spec_success, RunOutcome,
};
use crate::script::{Instruction, Script, MAX_SCRIPT_SIZE};
use crate::signature::SignatureVersion;

verus! {

/// The contents of a stack of byte vectors.
pub open spec fn stack_model(s: Seq<Vec<u8>>) -> Seq<Seq<u8>> {
    s.map_values(|v: Vec<u8>| v@)
}

/// The evaluation state held by the three vectors.
pub open spec fn state_model(stack: Seq<Vec<u8>>, altstack: Seq<Vec<u8>>, fvec: Seq<bool>) -> EvalState {
    EvalState { stack: stack_model(stack), altstack: stack_model(altstack), fvec }
}

/// Copies a byte vector.
fn clone_bytes(v: &Vec<u8>) -> (r: Vec<u8>)
    ensures
        r@ == v@,
{
    let mut r: Vec<u8> = Vec::new();
    let mut i: usize = 0;
    while i < v.len()
        invariant
            i <= v@.len(),
            r@ == v@.subrange(0, i as int),
        decreases v@.len() - i,
    {
        r.push(v[i]);
        i = i + 1;
        assert(r@ =~= v@.subrange(0, i as int));
    }
    assert(v@.subrange(0, i as int) =~= v@);
    r
}

/// Tells whether two byte vectors hold the same bytes.
fn bytes_equal(a: &Vec<u8>, b: &Vec<u8>) -> (r: bool)
    ensures
        r == (a@ == b@),
{
    if a.len() != b.len() {
        return false;
    }
    let mut i: usize = 0;
    while i < a.len()
        invariant
            a@.len() == b@.len(),
            i <= a@.len(),
            a@.subrange(0, i as int) == b@.subrange(0, i as int),
        decreases a@.len() - i,
    {
        if a[i] != b[i] {
            assert(a@[i as int] != b@[i as int]);
            return false;
        }
        i = i + 1;
        assert(a@.subrange(0, i as int) =~= a@.subrange(0, i - 1).push(a@[i - 1]));
        assert(b@.subrange(0, i as int) =~= b@.subrange(0, i - 1).push(b@[i - 1]));
    }
    assert(a@ =~= a@.subrange(0, i as int));
    assert(b@ =~= b@.subrange(0, i as int));
    true
}

/// Reads a value as a boolean: false when all its bytes are zero, where the
/// last byte may also be `0x80` (negative zero); true otherwise.
pub fn cast_to_bool(data: &[u8]) -> (r: bool)
    ensures
        r == spec_cast_to_bool(data@),
{
    let n = data.len();
    if n == 0 {
        return false;
    }
    let mut i: usize = 0;
    while i < n - 1
        invariant
            n == data@.len(),
            n > 0,
            i <= n - 1,
            forall|j: int| 0 <= j < i ==> data@[j] == 0,
        decreases n - 1 - i,
    {
        if data[i] != 0 {
            return true;
        }
        i = i + 1;
    }
    let last = data[n - 1];
    if last == 0 || last == 0x80 {
        assert(!spec_cast_to_bool(data@)) by {
            if exists|j: int| 0 <= j < n && data@[j] != 0 && !(j == n - 1 && data@[j] == 0x80) {
                let j = choose|j: int|
                    0 <= j < n && data@[j] != 0 && !(j == n - 1 && data@[j] == 0x80);
                assert(j < n - 1 ==> data@[j] == 0);
            }
        }
        false
    } else {
        assert(data@[n - 1] != 0 && !((n - 1) as int == n - 1 && data@[n - 1] == 0x80));
        true
    }
}

/// Tells whether `data` is pushed by `opcode` in the shortest way.
pub fn check_minimal_push(data: &[u8], opcode: Opcode) -> (r: bool)
    ensures
        r == spec_check_minimal_push(data@, opcode),
{
    let n = data.len();
    if n == 0 {
        opcode == Opcode::OP_0
    } else if n == 1 && data[0] >= 1 && data[0] <= 16 {
        opcode.to_u8() == Opcode::OP_1.to_u8() + (data[0] - 1)
    } else if n == 1 && data[0] == 0x81 {
        opcode == Opcode::OP_1NEGATE
    } else if n <= 75 {
        opcode.to_u8() as usize == n
    } else if n <= 255 {
        opcode == Opcode::OP_PUSHDATA1
    } else if n <= 65535 {
        opcode == Opcode::OP_PUSHDATA2
    } else {
        true
    }
}

/// Refuses an empty stack.
pub fn require_not_empty(stack: &Vec<Vec<u8>>) -> (r: Result<(), Error>)
    ensures
        r == (if stack@.len() == 0 {
            Err(Error::InvalidStackOperation)
        } else {
            Ok::<(), Error>(())
        }),
{
    if stack.len() == 0 {
        Err(Error::InvalidStackOperation)
    } else {
        Ok(())
    }
}

/// Refuses a stack with fewer than `len` elements.
pub fn require_len(stack: &Vec<Vec<u8>>, len: usize) -> (r: Result<(), Error>)
    ensures
        r == (if stack@.len() < len {
            Err(Error::InvalidStackOperation)
        } else {
            Ok::<(), Error>(())
        }),
{
    if stack.len() < len {
        Err(Error::InvalidStackOperation)
    } else {
        Ok(())
    }
}

/// Tells whether some open conditional was entered with a false value.
fn has_false(fvec: &Vec<bool>) -> (r: bool)
    ensures
        r == spec_has_false(fvec@),
{
    let mut i: usize = 0;
    while i < fvec.len()
        invariant
            i <= fvec@.len(),
            forall|j: int| 0 <= j < i ==> fvec@[j],
        decreases fvec@.len() - i,
    {
        if !fvec[i] {
            return true;
        }
        i = i + 1;
    }
    false
}


/// Exchanges two elements of a stack.
fn swap_items(stack: &mut Vec<Vec<u8>>, i: usize, j: usize)
    requires
        i < j < old(stack)@.len(),
    ensures
        final(stack)@ == old(stack)@.update(i as int, old(stack)@[j as int]).update(
            j as int,
            old(stack)@[i as int],
        ),
{
    let b = stack.remove(j);
    let a = stack.remove(i);
    stack.insert(i, b);
    stack.insert(j, a);
    assert(stack@ =~= old(stack)@.update(i as int, old(stack)@[j as int]).update(
        j as int,
        old(stack)@[i as int],
    ));
}

/// Moves an element between the main and the alternate stack.
fn step_alt(
    flags: &VerificationFlags,
    stack: &mut Vec<Vec<u8>>,
    altstack: &mut Vec<Vec<u8>>,
    fvec: &Vec<bool>,
    op: Opcode,
) -> (r: Result<(), Error>)
    requires
        op == Opcode::OP_TOALTSTACK || op == Opcode::OP_FROMALTSTACK,
        old(stack)@.len() <= i64::MAX,
        forall|i: int| 0 <= i < old(stack)@.len() ==> old(stack)@[i]@.len() <= i64::MAX,
        !(spec_step_stack(*flags, state_model(old(stack)@, old(altstack)@, fvec@), op) is Stuck),
    ensures
        match r {
            Ok(()) => spec_step_stack(*flags, state_model(old(stack)@, old(altstack)@, fvec@), op)
                == StepOutcome::Continue(state_model(final(stack)@, final(altstack)@, fvec@)),
            Err(e) => spec_step_stack(*flags, state_model(old(stack)@, old(altstack)@, fvec@), op)
                == StepOutcome::Fail(e, stack_model(final(stack)@)),
        },
{
    let ghost s = stack_model(stack@);
    let ghost alt = stack_model(altstack@);
    let len = stack.len();
    if op == Opcode::OP_TOALTSTACK {
        require_not_empty(stack)?;
        let v = stack.pop().unwrap();
        altstack.push(v);
        assert(stack_model(stack@) =~= s.drop_last());
        assert(stack_model(altstack@) =~= alt.push(s.last()));
    } else {
        if altstack.len() == 0 {
            return Err(Error::InvalidAltstackOperation);
        }
        let v = altstack.pop().unwrap();
        stack.push(v);
        assert(stack_model(stack@) =~= s.push(alt.last()));
        assert(stack_model(altstack@) =~= alt.drop_last());
    }
    Ok(())
}

/// Drops elements from the top of the stack.
fn step_drop(
    flags: &VerificationFlags,
    stack: &mut Vec<Vec<u8>>,
    altstack: &mut Vec<Vec<u8>>,
    fvec: &Vec<bool>,
    op: Opcode,
) -> (r: Result<(), Error>)
    requires
        op == Opcode::OP_2DROP || op == Opcode::OP_DROP || op == Opcode::OP_NIP,
        old(stack)@.len() <= i64::MAX,
        forall|i: int| 0 <= i < old(stack)@.len() ==> old(stack)@[i]@.len() <= i64::MAX,
        !(spec_step_stack(*flags, state_model(old(stack)@, old(altstack)@, fvec@), op) is Stuck),
    ensures
        match r {
            Ok(()) => spec_step_stack(*flags, state_model(old(stack)@, old(altstack)@, fvec@), op)
                == StepOutcome::Continue(state_model(final(stack)@, final(altstack)@, fvec@)),
            Err(e) => spec_step_stack(*flags, state_model(old(stack)@, old(altstack)@, fvec@), op)
                == StepOutcome::Fail(e, stack_model(final(stack)@)),
        },
{
    let ghost s = stack_model(stack@);
    let ghost alt = stack_model(altstack@);
    let len = stack.len();
    if op == Opcode::OP_2DROP {
        require_len(stack, 2)?;
        stack.pop();
        stack.pop();
        assert(stack_model(stack@) =~= s.subrange(0, len - 2));
    } else if op == Opcode::OP_DROP {
        require_not_empty(stack)?;
        stack.pop();
        assert(stack_model(stack@) =~= s.drop_last());
    } else {
        require_len(stack, 2)?;
        stack.swap_remove(len - 2);
        assert(stack_model(stack@) =~= s.remove(len - 2));
    }
    Ok(())
}

/// Copies elements to the top of the stack.
fn step_dup(
    flags: &VerificationFlags,
    stack: &mut Vec<Vec<u8>>,
    altstack: &mut Vec<Vec<u8>>,
    fvec: &Vec<bool>,
    op: Opcode,
) -> (r: Result<(), Error>)
    requires
        op == Opcode::OP_2DUP || op == Opcode::OP_3DUP || op == Opcode::OP_2OVER || op == Opcode::OP_DUP || op == Opcode::OP_OVER || op == Opcode::OP_IFDUP || op == Opcode::OP_TUCK,
        old(stack)@.len() <= i64::MAX,
        forall|i: int| 0 <= i < old(stack)@.len() ==> old(stack)@[i]@.len() <= i64::MAX,
        !(spec_step_stack(*flags, state_model(old(stack)@, old(altstack)@, fvec@), op) is Stuck),
    ensures
        match r {
            Ok(()) => spec_step_stack(*flags, state_model(old(stack)@, old(altstack)@, fvec@), op)
                == StepOutcome::Continue(state_model(final(stack)@, final(altstack)@, fvec@)),
            Err(e) => spec_step_stack(*flags, state_model(old(stack)@, old(altstack)@, fvec@), op)
                == StepOutcome::Fail(e, stack_model(final(stack)@)),
        },
{
    let ghost s = stack_model(stack@);
    let ghost alt = stack_model(altstack@);
    let len = stack.len();
    if op == Opcode::OP_2DUP {
        require_len(stack, 2)?;
        let v1 = clone_bytes(&stack[len - 2]);
        let v2 = clone_bytes(&stack[len - 1]);
        stack.push(v1);
        stack.push(v2);
        assert(stack_model(stack@) =~= s.push(s[len - 2]).push(s[len - 1]));
    } else if op == Opcode::OP_3DUP {
        require_len(stack, 3)?;
        let v1 = clone_bytes(&stack[len - 3]);
        let v2 = clone_bytes(&stack[len - 2]);
        let v3 = clone_bytes(&stack[len - 1]);
        stack.push(v1);
        stack.push(v2);
        stack.push(v3);
        assert(stack_model(stack@) =~= s.push(s[len - 3]).push(s[len - 2]).push(s[len - 1]));
    } else if op == Opcode::OP_2OVER {
        require_len(stack, 4)?;
        let v1 = clone_bytes(&stack[len - 4]);
        let v2 = clone_bytes(&stack[len - 3]);
        stack.push(v1);
        stack.push(v2);
        assert(stack_model(stack@) =~= s.push(s[len - 4]).push(s[len - 3]));
    } else if op == Opcode::OP_DUP {
        require_not_empty(stack)?;
        let v = clone_bytes(&stack[len - 1]);
        stack.push(v);
        assert(stack_model(stack@) =~= s.push(s.last()));
    } else if op == Opcode::OP_OVER {
        require_len(stack, 2)?;
        let v = clone_bytes(&stack[len - 2]);
        stack.push(v);
        assert(stack_model(stack@) =~= s.push(s[len - 2]));
    } else if op == Opcode::OP_IFDUP {
        require_not_empty(stack)?;
        if cast_to_bool(stack[len - 1].as_slice()) {
            let v = clone_bytes(&stack[len - 1]);
            stack.push(v);
            assert(stack_model(stack@) =~= s.push(s.last()));
        }
    } else {
        require_len(stack, 2)?;
        let v = clone_bytes(&stack[len - 1]);
        stack.insert(len - 2, v);
        assert(stack_model(stack@) =~= s.insert(len - 2, s[len - 1]));
    }
    Ok(())
}

/// Reorders the top elements of the stack.
fn step_reorder(
    flags: &VerificationFlags,
    stack: &mut Vec<Vec<u8>>,
    altstack: &mut Vec<Vec<u8>>,
    fvec: &Vec<bool>,
    op: Opcode,
) -> (r: Result<(), Error>)
    requires
        op == Opcode::OP_2ROT || op == Opcode::OP_2SWAP || op == Opcode::OP_ROT || op == Opcode::OP_SWAP,
        old(stack)@.len() <= i64::MAX,
        forall|i: int| 0 <= i < old(stack)@.len() ==> old(stack)@[i]@.len() <= i64::MAX,
        !(spec_step_stack(*flags, state_model(old(stack)@, old(altstack)@, fvec@), op) is Stuck),
    ensures
        match r {
            Ok(()) => spec_step_stack(*flags, state_model(old(stack)@, old(altstack)@, fvec@), op)
                == StepOutcome::Continue(state_model(final(stack)@, final(altstack)@, fvec@)),
            Err(e) => spec_step_stack(*flags, state_model(old(stack)@, old(altstack)@, fvec@), op)
                == StepOutcome::Fail(e, stack_model(final(stack)@)),
        },
{
    let ghost s = stack_model(stack@);
    let ghost alt = stack_model(altstack@);
    let len = stack.len();
    if op == Opcode::OP_2ROT {
        require_len(stack, 6)?;
        let v1 = stack.remove(len - 6);
        let v2 = stack.remove(len - 6);
        stack.push(v1);
        stack.push(v2);
        assert(stack_model(stack@) =~= s.subrange(0, len - 6) + s.subrange(len - 4, len as int)
            + seq![s[len - 6], s[len - 5]]);
    } else if op == Opcode::OP_2SWAP {
        require_len(stack, 4)?;
        swap_items(stack, len - 4, len - 2);
        swap_items(stack, len - 3, len - 1);
        assert(stack_model(stack@) =~= s.subrange(0, len - 4) + seq![
            s[len - 2],
            s[len - 1],
            s[len - 4],
            s[len - 3],
        ]);
    } else if op == Opcode::OP_ROT {
        require_len(stack, 3)?;
        swap_items(stack, len - 3, len - 2);
        swap_items(stack, len - 2, len - 1);
        assert(stack_model(stack@) =~= s.subrange(0, len - 3) + seq![
            s[len - 2],
            s[len - 1],
            s[len - 3],
        ]);
    } else {
        require_len(stack, 2)?;
        swap_items(stack, len - 2, len - 1);
        assert(stack_model(stack@) =~= s.subrange(0, len - 2) + seq![s[len - 1], s[len - 2]]);
    }
    Ok(())
}

/// Copies (`OP_PICK`) or moves (`OP_ROLL`) an element to the top.
fn step_pick(
    flags: &VerificationFlags,
    stack: &mut Vec<Vec<u8>>,
    altstack: &mut Vec<Vec<u8>>,
    fvec: &Vec<bool>,
    op: Opcode,
) -> (r: Result<(), Error>)
    requires
        op == Opcode::OP_PICK || op == Opcode::OP_ROLL,
        old(stack)@.len() <= i64::MAX,
        forall|i: int| 0 <= i < old(stack)@.len() ==> old(stack)@[i]@.len() <= i64::MAX,
        !(spec_step_stack(*flags, state_model(old(stack)@, old(altstack)@, fvec@), op) is Stuck),
    ensures
        match r {
            Ok(()) => spec_step_stack(*flags, state_model(old(stack)@, old(altstack)@, fvec@), op)
                == StepOutcome::Continue(state_model(final(stack)@, final(altstack)@, fvec@)),
            Err(e) => spec_step_stack(*flags, state_model(old(stack)@, old(altstack)@, fvec@), op)
                == StepOutcome::Fail(e, stack_model(final(stack)@)),
        },
{
    let ghost s = stack_model(stack@);
    let ghost alt = stack_model(altstack@);
    let len = stack.len();
    require_len(stack, 2)?;
    let top = stack.pop().unwrap();
    let ghost rest = s.drop_last();
    assert(stack_model(stack@) =~= rest);
    let num = Num::from_slice(top.as_slice(), flags.verify_minimaldata, 4)?;
    let n = num.value();
    let rest_len = stack.len();
    if n < 0 || n >= rest_len as i64 {
        return Err(Error::InvalidStackOperation);
    }
    let k = n as usize + 1;
    let v = clone_bytes(&stack[k]);
    if op == Opcode::OP_ROLL {
        stack.remove(k);
        assert(stack_model(stack@) =~= rest.remove(k as int));
    }
    stack.push(v);
    if op == Opcode::OP_ROLL {
        assert(stack_model(stack@) =~= rest.remove(k as int).push(rest[k as int]));
    } else {
        assert(stack_model(stack@) =~= rest.push(rest[k as int]));
    }
    Ok(())
}

/// Pushes the depth of the stack or the size of its top.
fn step_measure(
    flags: &VerificationFlags,
    stack: &mut Vec<Vec<u8>>,
    altstack: &mut Vec<Vec<u8>>,
    fvec: &Vec<bool>,
    op: Opcode,
) -> (r: Result<(), Error>)
    requires
        op == Opcode::OP_DEPTH || op == Opcode::OP_SIZE,
        old(stack)@.len() <= i64::MAX,
        forall|i: int| 0 <= i < old(stack)@.len() ==> old(stack)@[i]@.len() <= i64::MAX,
        !(spec_step_stack(*flags, state_model(old(stack)@, old(altstack)@, fvec@), op) is Stuck),
    ensures
        match r {
            Ok(()) => spec_step_stack(*flags, state_model(old(stack)@, old(altstack)@, fvec@), op)
                == StepOutcome::Continue(state_model(final(stack)@, final(altstack)@, fvec@)),
            Err(e) => spec_step_stack(*flags, state_model(old(stack)@, old(altstack)@, fvec@), op)
                == StepOutcome::Fail(e, stack_model(final(stack)@)),
        },
{
    let ghost s = stack_model(stack@);
    let ghost alt = stack_model(altstack@);
    let len = stack.len();
    if op == Opcode::OP_DEPTH {
        let depth = Num::from_usize(len);
        let v = depth.to_vec();
        stack.push(v);
        assert(stack_model(stack@) =~= s.push(crate::num::spec_encode(len as int)));
    } else {
        require_not_empty(stack)?;
        let size = Num::from_usize(stack[len - 1].len());
        let v = size.to_vec();
        stack.push(v);
        assert(stack_model(stack@) =~= s.push(crate::num::spec_encode(s.last().len() as int)));
    }
    Ok(())
}

/// Compares the two top elements (`OP_EQUAL`, `OP_EQUALVERIFY`).
fn step_compare(
    flags: &VerificationFlags,
    stack: &mut Vec<Vec<u8>>,
    altstack: &mut Vec<Vec<u8>>,
    fvec: &Vec<bool>,
    op: Opcode,
) -> (r: Result<(), Error>)
    requires
        op == Opcode::OP_EQUAL || op == Opcode::OP_EQUALVERIFY,
        old(stack)@.len() <= i64::MAX,
        forall|i: int| 0 <= i < old(stack)@.len() ==> old(stack)@[i]@.len() <= i64::MAX,
        !(spec_step_stack(*flags, state_model(old(stack)@, old(altstack)@, fvec@), op) is Stuck),
    ensures
        match r {
            Ok(()) => spec_step_stack(*flags, state_model(old(stack)@, old(altstack)@, fvec@), op)
                == StepOutcome::Continue(state_model(final(stack)@, final(altstack)@, fvec@)),
            Err(e) => spec_step_stack(*flags, state_model(old(stack)@, old(altstack)@, fvec@), op)
                == StepOutcome::Fail(e, stack_model(final(stack)@)),
        },
{
    let ghost s = stack_model(stack@);
    let ghost alt = stack_model(altstack@);
    let len = stack.len();
    require_len(stack, 2)?;
    let v1 = stack.pop().unwrap();
    let v2 = stack.pop().unwrap();
    assert(v1@ == s[len - 1]);
    assert(v2@ == s[len - 2]);
    assert(stack_model(stack@) =~= s.subrange(0, len - 2));
    let equal = bytes_equal(&v1, &v2);
    if op == Opcode::OP_EQUAL {
        let mut to_push: Vec<u8> = Vec::new();
        to_push.push(if equal {
            1u8
        } else {
            0u8
        });
        stack.push(to_push);
        assert(stack_model(stack@) =~= s.subrange(0, len - 2).push(
            if s[len - 1] == s[len - 2] {
                seq![1u8]
            } else {
                seq![0u8]
            },
        ));
    } else if !equal {
        return Err(Error::EqualVerify);
    }
    Ok(())
}

/// Carries out an opcode that rearranges, copies, measures or compares stack
/// elements.
fn step_stack(
    flags: &VerificationFlags,
    stack: &mut Vec<Vec<u8>>,
    altstack: &mut Vec<Vec<u8>>,
    fvec: &Vec<bool>,
    op: Opcode,
) -> (r: Result<(), Error>)
    requires
        is_stack_opcode(op),
        old(stack)@.len() <= i64::MAX,
        forall|i: int| 0 <= i < old(stack)@.len() ==> old(stack)@[i]@.len() <= i64::MAX,
        !(spec_step_stack(*flags, state_model(old(stack)@, old(altstack)@, fvec@), op) is Stuck),
    ensures
        match r {
            Ok(()) => spec_step_stack(*flags, state_model(old(stack)@, old(altstack)@, fvec@), op)
                == StepOutcome::Continue(state_model(final(stack)@, final(altstack)@, fvec@)),
            Err(e) => spec_step_stack(*flags, state_model(old(stack)@, old(altstack)@, fvec@), op)
                == StepOutcome::Fail(e, stack_model(final(stack)@)),
        },
{
    match op {
        Opcode::OP_TOALTSTACK | Opcode::OP_FROMALTSTACK => step_alt(flags, stack, altstack, fvec, op),
        Opcode::OP_2DROP | Opcode::OP_DROP | Opcode::OP_NIP => step_drop(
            flags,
            stack,
            altstack,
            fvec,
            op,
        ),
        Opcode::OP_2DUP | Opcode::OP_3DUP | Opcode::OP_2OVER | Opcode::OP_DUP | Opcode::OP_OVER
        | Opcode::OP_IFDUP | Opcode::OP_TUCK => step_dup(flags, stack, altstack, fvec, op),
        Opcode::OP_2ROT | Opcode::OP_2SWAP | Opcode::OP_ROT | Opcode::OP_SWAP => step_reorder(
            flags,
            stack,
            altstack,
            fvec,
            op,
        ),
        Opcode::OP_PICK | Opcode::OP_ROLL => step_pick(flags, stack, altstack, fvec, op),
        Opcode::OP_DEPTH | Opcode::OP_SIZE => step_measure(flags, stack, altstack, fvec, op),
        Opcode::OP_EQUAL | Opcode::OP_EQUALVERIFY => step_compare(flags, stack, altstack, fvec, op),
        _ => Ok(()),
    }
}


/// Carries out an opcode that steers evaluation. Returns whether evaluation goes
/// on after it.
fn step_flow<C: SignatureChecker>(
    checker: &C,
    flags: &VerificationFlags,
    stack: &mut Vec<Vec<u8>>,
    altstack: &Vec<Vec<u8>>,
    fvec: &mut Vec<bool>,
    op: Opcode,
) -> (r: Result<bool, Error>)
    requires
        !is_stack_opcode(op),
    ensures
        match r {
            Ok(true) => spec_step_flow(
                checker,
                *flags,
                state_model(old(stack)@, altstack@, old(fvec)@),
                op,
            ) == StepOutcome::Continue(state_model(final(stack)@, altstack@, final(fvec)@)),
            Ok(false) => spec_step_flow(
                checker,
                *flags,
                state_model(old(stack)@, altstack@, old(fvec)@),
                op,
            ) == StepOutcome::Stop(state_model(final(stack)@, altstack@, final(fvec)@)),
            Err(e) => spec_step_flow(
                checker,
                *flags,
                state_model(old(stack)@, altstack@, old(fvec)@),
                op,
            ) == StepOutcome::Fail(e, stack_model(final(stack)@)),
        },
{
    let ghost s = stack_model(stack@);
    let len = stack.len();
    match op {
        Opcode::OP_NOP => {
            return Ok(false);
        },
        Opcode::OP_CHECKLOCKTIMEVERIFY => {
            if !flags.verify_clocktimeverify && flags.verify_discourage_upgradable_nops {
                return Err(Error::DiscourageUpgradableNops);
            }
            require_not_empty(stack)?;
            // Lock times are read as numbers of up to 5 bytes, which reach well
            // beyond the 32-bit lock time field of a transaction.
            let lock_time = Num::from_slice(stack[len - 1].as_slice(), flags.verify_minimaldata, 5)?;
            if lock_time.is_negative() {
                return Err(Error::NegativeLocktime);
            }
            if !checker.check_lock_time(lock_time) {
                return Err(Error::UnsatisfiedLocktime);
            }
        },
        Opcode::OP_CHECKSEQUENCEVERIFY => {
            if !flags.verify_chechsequenceverify && flags.verify_discourage_upgradable_nops {
                return Err(Error::DiscourageUpgradableNops);
            }
            require_not_empty(stack)?;
            let sequence = Num::from_slice(stack[len - 1].as_slice(), flags.verify_minimaldata, 5)?;
            if sequence.is_negative() {
                return Err(Error::NegativeLocktime);
            }
            proof {
                sequence.lemma_range();
            }
            let disable_flag = Num::new(crate::semantics::SEQUENCE_LOCKTIME_DISABLE_FLAG);
            if !sequence.bit_and(&disable_flag).is_zero() {
                return Ok(true);
            }
            if !checker.check_sequence(sequence) {
                return Err(Error::UnsatisfiedLocktime);
            }
        },
        Opcode::OP_NOP1 | Opcode::OP_NOP4 | Opcode::OP_NOP5 | Opcode::OP_NOP6 | Opcode::OP_NOP7
        | Opcode::OP_NOP8 | Opcode::OP_NOP9 | Opcode::OP_NOP10 => {
            if flags.verify_discourage_upgradable_nops {
                return Err(Error::DiscourageUpgradableNops);
            }
        },
        Opcode::OP_IF | Opcode::OP_NOTIF => {
            let mut fvalue = false;
            if has_false(fvec) {
                if len == 0 {
                    return Err(Error::UnbalancedConditional);
                }
                let top = stack.pop().unwrap();
                fvalue = cast_to_bool(top.as_slice());
                if op == Opcode::OP_NOTIF {
                    fvalue = !fvalue;
                }
                assert(stack_model(stack@) =~= s.drop_last());
            }
            fvec.push(fvalue);
        },
        Opcode::OP_ELSE => {
            if fvec.len() == 0 {
                return Err(Error::UnbalancedConditional);
            }
        },
        Opcode::OP_ENDIF => {
            if fvec.len() == 0 {
                return Err(Error::UnbalancedConditional);
            }
            fvec.pop();
        },
        Opcode::OP_VERIFY => {
            require_not_empty(stack)?;
            let top = stack.pop().unwrap();
            assert(stack_model(stack@) =~= s.drop_last());
            if !cast_to_bool(top.as_slice()) {
                return Err(Error::Verify);
            }
        },
        Opcode::OP_RETURN => {
            return Err(Error::ReturnOpcode);
        },
        _ => {},
    }
    Ok(true)
}

/// Carries out one instruction. Returns whether evaluation goes on after it.
fn step<C: SignatureChecker>(
    checker: &C,
    flags: &VerificationFlags,
    stack: &mut Vec<Vec<u8>>,
    altstack: &mut Vec<Vec<u8>>,
    fvec: &mut Vec<bool>,
    ins: Instruction,
) -> (r: Result<bool, Error>)
    requires
        old(stack)@.len() <= i64::MAX,
        forall|i: int| 0 <= i < old(stack)@.len() ==> old(stack)@[i]@.len() <= i64::MAX,
        ins matches Instruction::PushValue(_, v) ==> v@ > i64::MIN,
        !(spec_step(checker, *flags, state_model(old(stack)@, old(altstack)@, old(fvec)@), ins@) is Stuck),
    ensures
        match r {
            Ok(true) => spec_step(
                checker,
                *flags,
                state_model(old(stack)@, old(altstack)@, old(fvec)@),
                ins@,
            ) == StepOutcome::Continue(state_model(final(stack)@, final(altstack)@, final(fvec)@)),
            Ok(false) => spec_step(
                checker,
                *flags,
                state_model(old(stack)@, old(altstack)@, old(fvec)@),
                ins@,
            ) == StepOutcome::Stop(state_model(final(stack)@, final(altstack)@, final(fvec)@)),
            Err(e) => spec_step(
                checker,
                *flags,
                state_model(old(stack)@, old(altstack)@, old(fvec)@),
                ins@,
            ) == StepOutcome::Fail(e, stack_model(final(stack)@)),
        },
{
    let ghost s = stack_model(stack@);
    match ins {
        Instruction::PushValue(_op, num) => {
            let v = num.to_vec();
            stack.push(v);
            assert(stack_model(stack@) =~= s.push(crate::num::spec_encode(num@)));
            Ok(true)
        },
        Instruction::PushBytes(op, bytes) => {
            if flags.verify_minimaldata && !check_minimal_push(bytes.as_slice(), op) {
                return Err(Error::Minimaldata);
            }
            let ghost b = bytes@;
            stack.push(bytes);
            assert(stack_model(stack@) =~= s.push(b));
            Ok(true)
        },
        Instruction::Normal(op) => {
            if crate::semantics::is_stack_opcode_exec(op) {
                step_stack(flags, stack, altstack, fvec, op)?;
                Ok(true)
            } else {
                step_flow(checker, flags, stack, altstack, fvec, op)
            }
        },
    }
}


/// Tells whether a finished evaluation succeeded: the stack is not empty and
/// its top element has a byte that is not zero.
fn is_success(stack: &Vec<Vec<u8>>) -> (r: bool)
    ensures
        r == spec_success(stack_model(stack@)),
{
    let n = stack.len();
    if n == 0 {
        return false;
    }
    let top = &stack[n - 1];
    let ghost t = stack_model(stack@).last();
    assert(top@ == t);
    let mut i: usize = 0;
    while i < top.len()
        invariant
            top@ == t,
            n == stack@.len(),
            n > 0,
            t == stack_model(stack@).last(),
            i <= t.len(),
            forall|j: int| 0 <= j < i ==> t[j] == 0,
        decreases t.len() - i,
    {
        if top[i] != 0 {
            assert(t[i as int] != 0);
            assert(stack_model(stack@).last() == t);
            return true;
        }
        i = i + 1;
    }
    false
}

/// The largest number of elements a vector of byte vectors can hold: each
/// element takes 24 bytes and no allocation exceeds `isize::MAX` bytes.
pub open spec fn max_stack_len() -> int {
    0x0555_5555_5555_5555
}

/// Evaluates `script` on `stack`. On success, tells whether the evaluation
/// left a true value (one with a byte that is not zero) on top of the stack.
pub fn eval_script<C: SignatureChecker>(
    stack: &mut Vec<Vec<u8>>,
    script: &Script,
    flags: &VerificationFlags,
    checker: &C,
    _version: SignatureVersion,
) -> (r: Result<bool, Error>)
    requires
        old(stack)@.len() <= max_stack_len(),
        forall|i: int| 0 <= i < old(stack)@.len() ==> old(stack)@[i]@.len() <= i64::MAX,
        !(spec_eval(checker, *flags, stack_model(old(stack)@), script@) is Stuck),
    ensures
        match spec_eval(checker, *flags, stack_model(old(stack)@), script@) {
            RunOutcome::Done(st) => r == Ok::<bool, Error>(spec_success(st.stack))
                && stack_model(final(stack)@) == st.stack,
            RunOutcome::Fail(e, s) => r == Err::<bool, Error>(e) && stack_model(final(stack)@) == s,
            RunOutcome::Stuck => false,
        },
{
    if script.len() > MAX_SCRIPT_SIZE {
        return Err(Error::ScriptSize);
    }
    let ghost init = stack_model(stack@);
    let ghost init_len = stack@.len();
    let mut fvec: Vec<bool> = Vec::new();
    let mut altstack: Vec<Vec<u8>> = Vec::new();
    let len = script.len();
    let mut pos: usize = 0;
    assert(state_model(stack@, altstack@, fvec@) =~= EvalState {
        stack: init,
        altstack: Seq::empty(),
        fvec: Seq::empty(),
    });
    assert(elems_bounded(init));
    while pos < len
        invariant
            len == script@.len(),
            len <= MAX_SCRIPT_SIZE,
            pos <= len,
            init == stack_model(old(stack)@),
            init_len == old(stack)@.len(),
            init_len <= max_stack_len(),
            spec_eval(checker, *flags, init, script@) == spec_run(
                checker,
                *flags,
                script@,
                pos as int,
                state_model(stack@, altstack@, fvec@),
            ),
            !(spec_eval(checker, *flags, init, script@) is Stuck),
            stack@.len() + altstack@.len() <= init_len + 3 * pos,
            elems_bounded(stack_model(stack@)),
            elems_bounded(stack_model(altstack@)),
        decreases len - pos,
    {
        let ghost st = state_model(stack@, altstack@, fvec@);
        proof {
            lemma_parse_advances(script@, pos as int);
        }
        let (ins, next) = script.get_instruction(pos)?;
        proof {
            lemma_step_bounded(checker, *flags, st, ins@);
            assert forall|i: int| 0 <= i < stack@.len() implies stack@[i]@.len() <= i64::MAX by {
                assert(stack_model(stack@)[i] == stack@[i]@);
            }
        }
        match step(checker, flags, stack, &mut altstack, &mut fvec, ins) {
            Ok(true) => {
                pos = next;
            },
            Ok(false) => {
                return Ok(is_success(stack));
            },
            Err(e) => {
                return Err(e);
            },
        }
    }
    Ok(is_success(stack))
}

} // verus!
