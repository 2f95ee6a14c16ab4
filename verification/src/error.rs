//! Errors that script evaluation can end with.

use vstd::prelude::*;

verus! {

/// Why the evaluation of a script failed.
#[derive(Debug, Clone, Copy, PartialEq, Eq, Structural)]
pub enum Error {
    /// The script is longer than the largest script allowed.
    ScriptSize,
    /// A byte of the script is no opcode, or a push runs past the script's end.
    BadOpcode,
    /// A number operand is longer than the opcode allows.
    NumberOverflow,
    /// A number operand is not in its shortest encoding.
    NumberNotMinimallyEncoded,
    /// A push does not use the shortest form available.
    Minimaldata,
    /// An upgradable no-op was met while those are discouraged.
    DiscourageUpgradableNops,
    /// The stack is too small for the operation.
    InvalidStackOperation,
    /// The alternate stack is empty where a value was taken from it.
    InvalidAltstackOperation,
    /// A lock time or sequence operand is negative.
    NegativeLocktime,
    /// The signature checker refused a lock time or sequence.
    UnsatisfiedLocktime,
    /// A conditional has no matching opening or operand.
    UnbalancedConditional,
    /// `OP_VERIFY` found a false value.
    Verify,
    /// `OP_RETURN` was executed.
    ReturnOpcode,
    /// `OP_EQUALVERIFY` found two different values.
    EqualVerify,
    /// The signature is not strictly DER encoded.
    SignatureDer,
    /// The signature's S value is in the upper half of the curve order.
    SignatureHighS,
    /// The signature's hash type is not defined.
    SignatureHashtype,
    /// The public key has no valid shape.
    PubkeyType,
}

} // verus!
