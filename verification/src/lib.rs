//! A verified interpreter for the Bitcoin script language, with the
//! signature and public-key encoding rules that it enforces.

pub mod be_int;
pub mod error;
pub mod flags;
pub mod interpreter;
pub mod laws;
pub mod num;
pub mod opcode;
pub mod script;
pub mod semantics;
pub mod signature;
pub use error::Error;
pub use flags::VerificationFlags;
pub use interpreter::{eval_script, cast_to_bool, check_minimal_push};
pub use num::Num;
pub use opcode::Opcode;
pub use script::{Builder, Script};
pub use semantics::{NoopSignatureChecker, SignatureChecker};
pub use signature::{
    is_defined_hashtype_signature, is_public_key, is_valid_signature_encoding, SignatureHash,
    SignatureVersion,
};
