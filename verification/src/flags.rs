//! The switches that select which rules script evaluation enforces.

use vstd::prelude::*;

verus! {

/// Rules that script evaluation may be asked to enforce.
#[derive(Debug, Clone, Copy, PartialEq, Eq, Structural)]
pub struct VerificationFlags {
    pub verify_p2sh: bool,
    pub verify_strictenc: bool,
    pub verify_dersig: bool,
    pub verify_low_s: bool,
    pub verify_nulldummy: bool,
    pub verify_sigpushonly: bool,
    pub verify_minimaldata: bool,
    pub verify_discourage_upgradable_nops: bool,
    pub verify_cleanstack: bool,
    pub verify_clocktimeverify: bool,
    pub verify_chechsequenceverify: bool,
    pub verify_witness: bool,
    pub verify_discourage_upgradable_witness_program: bool,
}

impl VerificationFlags {
    /// The flags with every rule switched off.
    pub open spec fn spec_none() -> VerificationFlags {
        VerificationFlags {
            verify_p2sh: false,
            verify_strictenc: false,
            verify_dersig: false,
            verify_low_s: false,
            verify_nulldummy: false,
            verify_sigpushonly: false,
            verify_minimaldata: false,
            verify_discourage_upgradable_nops: false,
            verify_cleanstack: false,
            verify_clocktimeverify: false,
            verify_chechsequenceverify: false,
            verify_witness: false,
            verify_discourage_upgradable_witness_program: false,
        }
    }

    /// The same flags with `verify_p2sh` set to `value`.
    pub fn verify_p2sh(self, value: bool) -> (r: Self)
        ensures
            r == (Self { verify_p2sh: value, ..self }),
    {
        Self { verify_p2sh: value, ..self }
    }

    /// The same flags with `verify_strictenc` set to `value`.
    pub fn verify_strictenc(self, value: bool) -> (r: Self)
        ensures
            r == (Self { verify_strictenc: value, ..self }),
    {
        Self { verify_strictenc: value, ..self }
    }

    /// The same flags with `verify_dersig` set to `value`.
    pub fn verify_dersig(self, value: bool) -> (r: Self)
        ensures
            r == (Self { verify_dersig: value, ..self }),
    {
        Self { verify_dersig: value, ..self }
    }

    /// The same flags with `verify_low_s` set to `value`.
    pub fn verify_low_s(self, value: bool) -> (r: Self)
        ensures
            r == (Self { verify_low_s: value, ..self }),
    {
        Self { verify_low_s: value, ..self }
    }

    /// The same flags with `verify_nulldummy` set to `value`.
    pub fn verify_nulldummy(self, value: bool) -> (r: Self)
        ensures
            r == (Self { verify_nulldummy: value, ..self }),
    {
        Self { verify_nulldummy: value, ..self }
    }

    /// The same flags with `verify_sigpushonly` set to `value`.
    pub fn verify_sigpushonly(self, value: bool) -> (r: Self)
        ensures
            r == (Self { verify_sigpushonly: value, ..self }),
    {
        Self { verify_sigpushonly: value, ..self }
    }

    /// The same flags with `verify_minimaldata` set to `value`.
    pub fn verify_minimaldata(self, value: bool) -> (r: Self)
        ensures
            r == (Self { verify_minimaldata: value, ..self }),
    {
        Self { verify_minimaldata: value, ..self }
    }

    /// The same flags with `verify_discourage_upgradable_nops` set to `value`.
    pub fn verify_discourage_upgradable_nops(self, value: bool) -> (r: Self)
        ensures
            r == (Self { verify_discourage_upgradable_nops: value, ..self }),
    {
        Self { verify_discourage_upgradable_nops: value, ..self }
    }

    /// The same flags with `verify_cleanstack` set to `value`.
    pub fn verify_cleanstack(self, value: bool) -> (r: Self)
        ensures
            r == (Self { verify_cleanstack: value, ..self }),
    {
        Self { verify_cleanstack: value, ..self }
    }

    /// The same flags with `verify_clocktimeverify` set to `value`.
    pub fn verify_clocktimeverify(self, value: bool) -> (r: Self)
        ensures
            r == (Self { verify_clocktimeverify: value, ..self }),
    {
        Self { verify_clocktimeverify: value, ..self }
    }

    /// The same flags with `verify_chechsequenceverify` set to `value`.
    pub fn verify_chechsequenceverify(self, value: bool) -> (r: Self)
        ensures
            r == (Self { verify_chechsequenceverify: value, ..self }),
    {
        Self { verify_chechsequenceverify: value, ..self }
    }

    /// The same flags with `verify_witness` set to `value`.
    pub fn verify_witness(self, value: bool) -> (r: Self)
        ensures
            r == (Self { verify_witness: value, ..self }),
    {
        Self { verify_witness: value, ..self }
    }

    /// The same flags with `verify_discourage_upgradable_witness_program` set to `value`.
    pub fn verify_discourage_upgradable_witness_program(self, value: bool) -> (r: Self)
        ensures
            r == (Self { verify_discourage_upgradable_witness_program: value, ..self }),
    {
        Self { verify_discourage_upgradable_witness_program: value, ..self }
    }
}

impl Default for VerificationFlags {
    /// The flags with every rule switched off.
    fn default() -> (r: Self)
        ensures
            r == Self::spec_none(),
    {
        VerificationFlags {
            verify_p2sh: false,
            verify_strictenc: false,
            verify_dersig: false,
            verify_low_s: false,
            verify_nulldummy: false,
            verify_sigpushonly: false,
            verify_minimaldata: false,
            verify_discourage_upgradable_nops: false,
            verify_cleanstack: false,
            verify_clocktimeverify: false,
            verify_chechsequenceverify: false,
            verify_witness: false,
            verify_discourage_upgradable_witness_program: false,
        }
    }
}

} // verus!
