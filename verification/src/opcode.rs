//! The opcodes of the script language and the bytes that stand for them.

use vstd::prelude::*;

verus! {

/// An opcode of the script language. The variants are listed in the order of
/// the bytes that stand for them, from `0x00` (`OP_0`) to `0xb9` (`OP_NOP10`).
#[allow(non_camel_case_types)]
#[derive(Debug, Clone, Copy, PartialEq, Eq, Structural)]
pub enum Opcode {
    OP_0,
    OP_PUSHBYTES_1,
    OP_PUSHBYTES_2,
    OP_PUSHBYTES_3,
    OP_PUSHBYTES_4,
    OP_PUSHBYTES_5,
    OP_PUSHBYTES_6,
    OP_PUSHBYTES_7,
    OP_PUSHBYTES_8,
    OP_PUSHBYTES_9,
    OP_PUSHBYTES_10,
    OP_PUSHBYTES_11,
    OP_PUSHBYTES_12,
    OP_PUSHBYTES_13,
    OP_PUSHBYTES_14,
    OP_PUSHBYTES_15,
    OP_PUSHBYTES_16,
    OP_PUSHBYTES_17,
    OP_PUSHBYTES_18,
    OP_PUSHBYTES_19,
    OP_PUSHBYTES_20,
    OP_PUSHBYTES_21,
    OP_PUSHBYTES_22,
    OP_PUSHBYTES_23,
    OP_PUSHBYTES_24,
    OP_PUSHBYTES_25,
    OP_PUSHBYTES_26,
    OP_PUSHBYTES_27,
    OP_PUSHBYTES_28,
    OP_PUSHBYTES_29,
    OP_PUSHBYTES_30,
    OP_PUSHBYTES_31,
    OP_PUSHBYTES_32,
    OP_PUSHBYTES_33,
    OP_PUSHBYTES_34,
    OP_PUSHBYTES_35,
    OP_PUSHBYTES_36,
    OP_PUSHBYTES_37,
    OP_PUSHBYTES_38,
    OP_PUSHBYTES_39,
    OP_PUSHBYTES_40,
    OP_PUSHBYTES_41,
    OP_PUSHBYTES_42,
    OP_PUSHBYTES_43,
    OP_PUSHBYTES_44,
    OP_PUSHBYTES_45,
    OP_PUSHBYTES_46,
    OP_PUSHBYTES_47,
    OP_PUSHBYTES_48,
    OP_PUSHBYTES_49,
    OP_PUSHBYTES_50,
    OP_PUSHBYTES_51,
    OP_PUSHBYTES_52,
    OP_PUSHBYTES_53,
    OP_PUSHBYTES_54,
    OP_PUSHBYTES_55,
    OP_PUSHBYTES_56,
    OP_PUSHBYTES_57,
    OP_PUSHBYTES_58,
    OP_PUSHBYTES_59,
    OP_PUSHBYTES_60,
    OP_PUSHBYTES_61,
    OP_PUSHBYTES_62,
    OP_PUSHBYTES_63,
    OP_PUSHBYTES_64,
    OP_PUSHBYTES_65,
    OP_PUSHBYTES_66,
    OP_PUSHBYTES_67,
    OP_PUSHBYTES_68,
    OP_PUSHBYTES_69,
    OP_PUSHBYTES_70,
    OP_PUSHBYTES_71,
    OP_PUSHBYTES_72,
    OP_PUSHBYTES_73,
    OP_PUSHBYTES_74,
    OP_PUSHBYTES_75,
    OP_PUSHDATA1,
    OP_PUSHDATA2,
    OP_PUSHDATA4,
    OP_1NEGATE,
    OP_RESERVED,
    OP_1,
    OP_2,
    OP_3,
    OP_4,
    OP_5,
    OP_6,
    OP_7,
    OP_8,
    OP_9,
    OP_10,
    OP_11,
    OP_12,
    OP_13,
    OP_14,
    OP_15,
    OP_16,
    OP_NOP,
    OP_VER,
    OP_IF,
    OP_NOTIF,
    OP_VERIF,
    OP_VERNOTIF,
    OP_ELSE,
    OP_ENDIF,
    OP_VERIFY,
    OP_RETURN,
    OP_TOALTSTACK,
    OP_FROMALTSTACK,
    OP_2DROP,
    OP_2DUP,
    OP_3DUP,
    OP_2OVER,
    OP_2ROT,
    OP_2SWAP,
    OP_IFDUP,
    OP_DEPTH,
    OP_DROP,
    OP_DUP,
    OP_NIP,
    OP_OVER,
    OP_PICK,
    OP_ROLL,
    OP_ROT,
    OP_SWAP,
    OP_TUCK,
    OP_CAT,
    OP_SUBSTR,
    OP_LEFT,
    OP_RIGHT,
    OP_SIZE,
    OP_INVERT,
    OP_AND,
    OP_OR,
    OP_XOR,
    OP_EQUAL,
    OP_EQUALVERIFY,
    OP_RESERVED1,
    OP_RESERVED2,
    OP_1ADD,
    OP_1SUB,
    OP_2MUL,
    OP_2DIV,
    OP_NEGATE,
    OP_ABS,
    OP_NOT,
    OP_0NOTEQUAL,
    OP_ADD,
    OP_SUB,
    OP_MUL,
    OP_DIV,
    OP_MOD,
    OP_LSHIFT,
    OP_RSHIFT,
    OP_BOOLAND,
    OP_BOOLOR,
    OP_NUMEQUAL,
    OP_NUMEQUALVERIFY,
    OP_NUMNOTEQUAL,
    OP_LESSTHAN,
    OP_GREATERTHAN,
    OP_LESSTHANOREQUAL,
    OP_GREATERTHANOREQUAL,
    OP_MIN,
    OP_MAX,
    OP_WITHIN,
    OP_RIPEMD160,
    OP_SHA1,
    OP_SHA256,
    OP_HASH160,
    OP_HASH256,
    OP_CODESEPARATOR,
    OP_CHECKSIG,
    OP_CHECKSIGVERIFY,
    OP_CHECKMULTISIG,
    OP_CHECKMULTISIGVERIFY,
    OP_NOP1,
    OP_CHECKLOCKTIMEVERIFY,
    OP_CHECKSEQUENCEVERIFY,
    OP_NOP4,
    OP_NOP5,
    OP_NOP6,
    OP_NOP7,
    OP_NOP8,
    OP_NOP9,
    OP_NOP10,
}

/// The largest byte that stands for an opcode.
pub const MAX_OPCODE: u8 = 0xb9;

impl Opcode {
    /// The byte that stands for the opcode.
    pub open spec fn spec_byte(self) -> u8 {
        match self {
            Opcode::OP_0 => 0x00,
            Opcode::OP_PUSHBYTES_1 => 0x01,
            Opcode::OP_PUSHBYTES_2 => 0x02,
            Opcode::OP_PUSHBYTES_3 => 0x03,
            Opcode::OP_PUSHBYTES_4 => 0x04,
            Opcode::OP_PUSHBYTES_5 => 0x05,
            Opcode::OP_PUSHBYTES_6 => 0x06,
            Opcode::OP_PUSHBYTES_7 => 0x07,
            Opcode::OP_PUSHBYTES_8 => 0x08,
            Opcode::OP_PUSHBYTES_9 => 0x09,
            Opcode::OP_PUSHBYTES_10 => 0x0a,
            Opcode::OP_PUSHBYTES_11 => 0x0b,
            Opcode::OP_PUSHBYTES_12 => 0x0c,
            Opcode::OP_PUSHBYTES_13 => 0x0d,
            Opcode::OP_PUSHBYTES_14 => 0x0e,
            Opcode::OP_PUSHBYTES_15 => 0x0f,
            Opcode::OP_PUSHBYTES_16 => 0x10,
            Opcode::OP_PUSHBYTES_17 => 0x11,
            Opcode::OP_PUSHBYTES_18 => 0x12,
            Opcode::OP_PUSHBYTES_19 => 0x13,
            Opcode::OP_PUSHBYTES_20 => 0x14,
            Opcode::OP_PUSHBYTES_21 => 0x15,
            Opcode::OP_PUSHBYTES_22 => 0x16,
            Opcode::OP_PUSHBYTES_23 => 0x17,
            Opcode::OP_PUSHBYTES_24 => 0x18,
            Opcode::OP_PUSHBYTES_25 => 0x19,
            Opcode::OP_PUSHBYTES_26 => 0x1a,
            Opcode::OP_PUSHBYTES_27 => 0x1b,
            Opcode::OP_PUSHBYTES_28 => 0x1c,
            Opcode::OP_PUSHBYTES_29 => 0x1d,
            Opcode::OP_PUSHBYTES_30 => 0x1e,
            Opcode::OP_PUSHBYTES_31 => 0x1f,
            Opcode::OP_PUSHBYTES_32 => 0x20,
            Opcode::OP_PUSHBYTES_33 => 0x21,
            Opcode::OP_PUSHBYTES_34 => 0x22,
            Opcode::OP_PUSHBYTES_35 => 0x23,
            Opcode::OP_PUSHBYTES_36 => 0x24,
            Opcode::OP_PUSHBYTES_37 => 0x25,
            Opcode::OP_PUSHBYTES_38 => 0x26,
            Opcode::OP_PUSHBYTES_39 => 0x27,
            Opcode::OP_PUSHBYTES_40 => 0x28,
            Opcode::OP_PUSHBYTES_41 => 0x29,
            Opcode::OP_PUSHBYTES_42 => 0x2a,
            Opcode::OP_PUSHBYTES_43 => 0x2b,
            Opcode::OP_PUSHBYTES_44 => 0x2c,
            Opcode::OP_PUSHBYTES_45 => 0x2d,
            Opcode::OP_PUSHBYTES_46 => 0x2e,
            Opcode::OP_PUSHBYTES_47 => 0x2f,
            Opcode::OP_PUSHBYTES_48 => 0x30,
            Opcode::OP_PUSHBYTES_49 => 0x31,
            Opcode::OP_PUSHBYTES_50 => 0x32,
            Opcode::OP_PUSHBYTES_51 => 0x33,
            Opcode::OP_PUSHBYTES_52 => 0x34,
            Opcode::OP_PUSHBYTES_53 => 0x35,
            Opcode::OP_PUSHBYTES_54 => 0x36,
            Opcode::OP_PUSHBYTES_55 => 0x37,
            Opcode::OP_PUSHBYTES_56 => 0x38,
            Opcode::OP_PUSHBYTES_57 => 0x39,
            Opcode::OP_PUSHBYTES_58 => 0x3a,
            Opcode::OP_PUSHBYTES_59 => 0x3b,
            Opcode::OP_PUSHBYTES_60 => 0x3c,
            Opcode::OP_PUSHBYTES_61 => 0x3d,
            Opcode::OP_PUSHBYTES_62 => 0x3e,
            Opcode::OP_PUSHBYTES_63 => 0x3f,
            Opcode::OP_PUSHBYTES_64 => 0x40,
            Opcode::OP_PUSHBYTES_65 => 0x41,
            Opcode::OP_PUSHBYTES_66 => 0x42,
            Opcode::OP_PUSHBYTES_67 => 0x43,
            Opcode::OP_PUSHBYTES_68 => 0x44,
            Opcode::OP_PUSHBYTES_69 => 0x45,
            Opcode::OP_PUSHBYTES_70 => 0x46,
            Opcode::OP_PUSHBYTES_71 => 0x47,
            Opcode::OP_PUSHBYTES_72 => 0x48,
            Opcode::OP_PUSHBYTES_73 => 0x49,
            Opcode::OP_PUSHBYTES_74 => 0x4a,
            Opcode::OP_PUSHBYTES_75 => 0x4b,
            Opcode::OP_PUSHDATA1 => 0x4c,
            Opcode::OP_PUSHDATA2 => 0x4d,
            Opcode::OP_PUSHDATA4 => 0x4e,
            Opcode::OP_1NEGATE => 0x4f,
            Opcode::OP_RESERVED => 0x50,
            Opcode::OP_1 => 0x51,
            Opcode::OP_2 => 0x52,
            Opcode::OP_3 => 0x53,
            Opcode::OP_4 => 0x54,
            Opcode::OP_5 => 0x55,
            Opcode::OP_6 => 0x56,
            Opcode::OP_7 => 0x57,
            Opcode::OP_8 => 0x58,
            Opcode::OP_9 => 0x59,
            Opcode::OP_10 => 0x5a,
            Opcode::OP_11 => 0x5b,
            Opcode::OP_12 => 0x5c,
            Opcode::OP_13 => 0x5d,
            Opcode::OP_14 => 0x5e,
            Opcode::OP_15 => 0x5f,
            Opcode::OP_16 => 0x60,
            Opcode::OP_NOP => 0x61,
            Opcode::OP_VER => 0x62,
            Opcode::OP_IF => 0x63,
            Opcode::OP_NOTIF => 0x64,
            Opcode::OP_VERIF => 0x65,
            Opcode::OP_VERNOTIF => 0x66,
            Opcode::OP_ELSE => 0x67,
            Opcode::OP_ENDIF => 0x68,
            Opcode::OP_VERIFY => 0x69,
            Opcode::OP_RETURN => 0x6a,
            Opcode::OP_TOALTSTACK => 0x6b,
            Opcode::OP_FROMALTSTACK => 0x6c,
            Opcode::OP_2DROP => 0x6d,
            Opcode::OP_2DUP => 0x6e,
            Opcode::OP_3DUP => 0x6f,
            Opcode::OP_2OVER => 0x70,
            Opcode::OP_2ROT => 0x71,
            Opcode::OP_2SWAP => 0x72,
            Opcode::OP_IFDUP => 0x73,
            Opcode::OP_DEPTH => 0x74,
            Opcode::OP_DROP => 0x75,
            Opcode::OP_DUP => 0x76,
            Opcode::OP_NIP => 0x77,
            Opcode::OP_OVER => 0x78,
            Opcode::OP_PICK => 0x79,
            Opcode::OP_ROLL => 0x7a,
            Opcode::OP_ROT => 0x7b,
            Opcode::OP_SWAP => 0x7c,
            Opcode::OP_TUCK => 0x7d,
            Opcode::OP_CAT => 0x7e,
            Opcode::OP_SUBSTR => 0x7f,
            Opcode::OP_LEFT => 0x80,
            Opcode::OP_RIGHT => 0x81,
            Opcode::OP_SIZE => 0x82,
            Opcode::OP_INVERT => 0x83,
            Opcode::OP_AND => 0x84,
            Opcode::OP_OR => 0x85,
            Opcode::OP_XOR => 0x86,
            Opcode::OP_EQUAL => 0x87,
            Opcode::OP_EQUALVERIFY => 0x88,
            Opcode::OP_RESERVED1 => 0x89,
            Opcode::OP_RESERVED2 => 0x8a,
            Opcode::OP_1ADD => 0x8b,
            Opcode::OP_1SUB => 0x8c,
            Opcode::OP_2MUL => 0x8d,
            Opcode::OP_2DIV => 0x8e,
            Opcode::OP_NEGATE => 0x8f,
            Opcode::OP_ABS => 0x90,
            Opcode::OP_NOT => 0x91,
            Opcode::OP_0NOTEQUAL => 0x92,
            Opcode::OP_ADD => 0x93,
            Opcode::OP_SUB => 0x94,
            Opcode::OP_MUL => 0x95,
            Opcode::OP_DIV => 0x96,
            Opcode::OP_MOD => 0x97,
            Opcode::OP_LSHIFT => 0x98,
            Opcode::OP_RSHIFT => 0x99,
            Opcode::OP_BOOLAND => 0x9a,
            Opcode::OP_BOOLOR => 0x9b,
            Opcode::OP_NUMEQUAL => 0x9c,
            Opcode::OP_NUMEQUALVERIFY => 0x9d,
            Opcode::OP_NUMNOTEQUAL => 0x9e,
            Opcode::OP_LESSTHAN => 0x9f,
            Opcode::OP_GREATERTHAN => 0xa0,
            Opcode::OP_LESSTHANOREQUAL => 0xa1,
            Opcode::OP_GREATERTHANOREQUAL => 0xa2,
            Opcode::OP_MIN => 0xa3,
            Opcode::OP_MAX => 0xa4,
            Opcode::OP_WITHIN => 0xa5,
            Opcode::OP_RIPEMD160 => 0xa6,
            Opcode::OP_SHA1 => 0xa7,
            Opcode::OP_SHA256 => 0xa8,
            Opcode::OP_HASH160 => 0xa9,
            Opcode::OP_HASH256 => 0xaa,
            Opcode::OP_CODESEPARATOR => 0xab,
            Opcode::OP_CHECKSIG => 0xac,
            Opcode::OP_CHECKSIGVERIFY => 0xad,
            Opcode::OP_CHECKMULTISIG => 0xae,
            Opcode::OP_CHECKMULTISIGVERIFY => 0xaf,
            Opcode::OP_NOP1 => 0xb0,
            Opcode::OP_CHECKLOCKTIMEVERIFY => 0xb1,
            Opcode::OP_CHECKSEQUENCEVERIFY => 0xb2,
            Opcode::OP_NOP4 => 0xb3,
            Opcode::OP_NOP5 => 0xb4,
            Opcode::OP_NOP6 => 0xb5,
            Opcode::OP_NOP7 => 0xb6,
            Opcode::OP_NOP8 => 0xb7,
            Opcode::OP_NOP9 => 0xb8,
            Opcode::OP_NOP10 => 0xb9,
        }
    }

    /// The byte that stands for the opcode.
    pub fn to_u8(self) -> (r: u8)
        ensures
            r == self.spec_byte(),
    {
        match self {
            Opcode::OP_0 => 0x00,
            Opcode::OP_PUSHBYTES_1 => 0x01,
            Opcode::OP_PUSHBYTES_2 => 0x02,
            Opcode::OP_PUSHBYTES_3 => 0x03,
            Opcode::OP_PUSHBYTES_4 => 0x04,
            Opcode::OP_PUSHBYTES_5 => 0x05,
            Opcode::OP_PUSHBYTES_6 => 0x06,
            Opcode::OP_PUSHBYTES_7 => 0x07,
            Opcode::OP_PUSHBYTES_8 => 0x08,
            Opcode::OP_PUSHBYTES_9 => 0x09,
            Opcode::OP_PUSHBYTES_10 => 0x0a,
            Opcode::OP_PUSHBYTES_11 => 0x0b,
            Opcode::OP_PUSHBYTES_12 => 0x0c,
            Opcode::OP_PUSHBYTES_13 => 0x0d,
            Opcode::OP_PUSHBYTES_14 => 0x0e,
            Opcode::OP_PUSHBYTES_15 => 0x0f,
            Opcode::OP_PUSHBYTES_16 => 0x10,
            Opcode::OP_PUSHBYTES_17 => 0x11,
            Opcode::OP_PUSHBYTES_18 => 0x12,
            Opcode::OP_PUSHBYTES_19 => 0x13,
            Opcode::OP_PUSHBYTES_20 => 0x14,
            Opcode::OP_PUSHBYTES_21 => 0x15,
            Opcode::OP_PUSHBYTES_22 => 0x16,
            Opcode::OP_PUSHBYTES_23 => 0x17,
            Opcode::OP_PUSHBYTES_24 => 0x18,
            Opcode::OP_PUSHBYTES_25 => 0x19,
            Opcode::OP_PUSHBYTES_26 => 0x1a,
            Opcode::OP_PUSHBYTES_27 => 0x1b,
            Opcode::OP_PUSHBYTES_28 => 0x1c,
            Opcode::OP_PUSHBYTES_29 => 0x1d,
            Opcode::OP_PUSHBYTES_30 => 0x1e,
            Opcode::OP_PUSHBYTES_31 => 0x1f,
            Opcode::OP_PUSHBYTES_32 => 0x20,
            Opcode::OP_PUSHBYTES_33 => 0x21,
            Opcode::OP_PUSHBYTES_34 => 0x22,
            Opcode::OP_PUSHBYTES_35 => 0x23,
            Opcode::OP_PUSHBYTES_36 => 0x24,
            Opcode::OP_PUSHBYTES_37 => 0x25,
            Opcode::OP_PUSHBYTES_38 => 0x26,
            Opcode::OP_PUSHBYTES_39 => 0x27,
            Opcode::OP_PUSHBYTES_40 => 0x28,
            Opcode::OP_PUSHBYTES_41 => 0x29,
            Opcode::OP_PUSHBYTES_42 => 0x2a,
            Opcode::OP_PUSHBYTES_43 => 0x2b,
            Opcode::OP_PUSHBYTES_44 => 0x2c,
            Opcode::OP_PUSHBYTES_45 => 0x2d,
            Opcode::OP_PUSHBYTES_46 => 0x2e,
            Opcode::OP_PUSHBYTES_47 => 0x2f,
            Opcode::OP_PUSHBYTES_48 => 0x30,
            Opcode::OP_PUSHBYTES_49 => 0x31,
            Opcode::OP_PUSHBYTES_50 => 0x32,
            Opcode::OP_PUSHBYTES_51 => 0x33,
            Opcode::OP_PUSHBYTES_52 => 0x34,
            Opcode::OP_PUSHBYTES_53 => 0x35,
            Opcode::OP_PUSHBYTES_54 => 0x36,
            Opcode::OP_PUSHBYTES_55 => 0x37,
            Opcode::OP_PUSHBYTES_56 => 0x38,
            Opcode::OP_PUSHBYTES_57 => 0x39,
            Opcode::OP_PUSHBYTES_58 => 0x3a,
            Opcode::OP_PUSHBYTES_59 => 0x3b,
            Opcode::OP_PUSHBYTES_60 => 0x3c,
            Opcode::OP_PUSHBYTES_61 => 0x3d,
            Opcode::OP_PUSHBYTES_62 => 0x3e,
            Opcode::OP_PUSHBYTES_63 => 0x3f,
            Opcode::OP_PUSHBYTES_64 => 0x40,
            Opcode::OP_PUSHBYTES_65 => 0x41,
            Opcode::OP_PUSHBYTES_66 => 0x42,
            Opcode::OP_PUSHBYTES_67 => 0x43,
            Opcode::OP_PUSHBYTES_68 => 0x44,
            Opcode::OP_PUSHBYTES_69 => 0x45,
            Opcode::OP_PUSHBYTES_70 => 0x46,
            Opcode::OP_PUSHBYTES_71 => 0x47,
            Opcode::OP_PUSHBYTES_72 => 0x48,
            Opcode::OP_PUSHBYTES_73 => 0x49,
            Opcode::OP_PUSHBYTES_74 => 0x4a,
            Opcode::OP_PUSHBYTES_75 => 0x4b,
            Opcode::OP_PUSHDATA1 => 0x4c,
            Opcode::OP_PUSHDATA2 => 0x4d,
            Opcode::OP_PUSHDATA4 => 0x4e,
            Opcode::OP_1NEGATE => 0x4f,
            Opcode::OP_RESERVED => 0x50,
            Opcode::OP_1 => 0x51,
            Opcode::OP_2 => 0x52,
            Opcode::OP_3 => 0x53,
            Opcode::OP_4 => 0x54,
            Opcode::OP_5 => 0x55,
            Opcode::OP_6 => 0x56,
            Opcode::OP_7 => 0x57,
            Opcode::OP_8 => 0x58,
            Opcode::OP_9 => 0x59,
            Opcode::OP_10 => 0x5a,
            Opcode::OP_11 => 0x5b,
            Opcode::OP_12 => 0x5c,
            Opcode::OP_13 => 0x5d,
            Opcode::OP_14 => 0x5e,
            Opcode::OP_15 => 0x5f,
            Opcode::OP_16 => 0x60,
            Opcode::OP_NOP => 0x61,
            Opcode::OP_VER => 0x62,
            Opcode::OP_IF => 0x63,
            Opcode::OP_NOTIF => 0x64,
            Opcode::OP_VERIF => 0x65,
            Opcode::OP_VERNOTIF => 0x66,
            Opcode::OP_ELSE => 0x67,
            Opcode::OP_ENDIF => 0x68,
            Opcode::OP_VERIFY => 0x69,
            Opcode::OP_RETURN => 0x6a,
            Opcode::OP_TOALTSTACK => 0x6b,
            Opcode::OP_FROMALTSTACK => 0x6c,
            Opcode::OP_2DROP => 0x6d,
            Opcode::OP_2DUP => 0x6e,
            Opcode::OP_3DUP => 0x6f,
            Opcode::OP_2OVER => 0x70,
            Opcode::OP_2ROT => 0x71,
            Opcode::OP_2SWAP => 0x72,
            Opcode::OP_IFDUP => 0x73,
            Opcode::OP_DEPTH => 0x74,
            Opcode::OP_DROP => 0x75,
            Opcode::OP_DUP => 0x76,
            Opcode::OP_NIP => 0x77,
            Opcode::OP_OVER => 0x78,
            Opcode::OP_PICK => 0x79,
            Opcode::OP_ROLL => 0x7a,
            Opcode::OP_ROT => 0x7b,
            Opcode::OP_SWAP => 0x7c,
            Opcode::OP_TUCK => 0x7d,
            Opcode::OP_CAT => 0x7e,
            Opcode::OP_SUBSTR => 0x7f,
            Opcode::OP_LEFT => 0x80,
            Opcode::OP_RIGHT => 0x81,
            Opcode::OP_SIZE => 0x82,
            Opcode::OP_INVERT => 0x83,
            Opcode::OP_AND => 0x84,
            Opcode::OP_OR => 0x85,
            Opcode::OP_XOR => 0x86,
            Opcode::OP_EQUAL => 0x87,
            Opcode::OP_EQUALVERIFY => 0x88,
            Opcode::OP_RESERVED1 => 0x89,
            Opcode::OP_RESERVED2 => 0x8a,
            Opcode::OP_1ADD => 0x8b,
            Opcode::OP_1SUB => 0x8c,
            Opcode::OP_2MUL => 0x8d,
            Opcode::OP_2DIV => 0x8e,
            Opcode::OP_NEGATE => 0x8f,
            Opcode::OP_ABS => 0x90,
            Opcode::OP_NOT => 0x91,
            Opcode::OP_0NOTEQUAL => 0x92,
            Opcode::OP_ADD => 0x93,
            Opcode::OP_SUB => 0x94,
            Opcode::OP_MUL => 0x95,
            Opcode::OP_DIV => 0x96,
            Opcode::OP_MOD => 0x97,
            Opcode::OP_LSHIFT => 0x98,
            Opcode::OP_RSHIFT => 0x99,
            Opcode::OP_BOOLAND => 0x9a,
            Opcode::OP_BOOLOR => 0x9b,
            Opcode::OP_NUMEQUAL => 0x9c,
            Opcode::OP_NUMEQUALVERIFY => 0x9d,
            Opcode::OP_NUMNOTEQUAL => 0x9e,
            Opcode::OP_LESSTHAN => 0x9f,
            Opcode::OP_GREATERTHAN => 0xa0,
            Opcode::OP_LESSTHANOREQUAL => 0xa1,
            Opcode::OP_GREATERTHANOREQUAL => 0xa2,
            Opcode::OP_MIN => 0xa3,
            Opcode::OP_MAX => 0xa4,
            Opcode::OP_WITHIN => 0xa5,
            Opcode::OP_RIPEMD160 => 0xa6,
            Opcode::OP_SHA1 => 0xa7,
            Opcode::OP_SHA256 => 0xa8,
            Opcode::OP_HASH160 => 0xa9,
            Opcode::OP_HASH256 => 0xaa,
            Opcode::OP_CODESEPARATOR => 0xab,
            Opcode::OP_CHECKSIG => 0xac,
            Opcode::OP_CHECKSIGVERIFY => 0xad,
            Opcode::OP_CHECKMULTISIG => 0xae,
            Opcode::OP_CHECKMULTISIGVERIFY => 0xaf,
            Opcode::OP_NOP1 => 0xb0,
            Opcode::OP_CHECKLOCKTIMEVERIFY => 0xb1,
            Opcode::OP_CHECKSEQUENCEVERIFY => 0xb2,
            Opcode::OP_NOP4 => 0xb3,
            Opcode::OP_NOP5 => 0xb4,
            Opcode::OP_NOP6 => 0xb5,
            Opcode::OP_NOP7 => 0xb6,
            Opcode::OP_NOP8 => 0xb7,
            Opcode::OP_NOP9 => 0xb8,
            Opcode::OP_NOP10 => 0xb9,
        }
    }

    /// The opcode that a byte stands for, if any.
    pub open spec fn spec_from_u8(b: u8) -> Option<Opcode> {
        match b {
            0x00 => Some(Opcode::OP_0),
            0x01 => Some(Opcode::OP_PUSHBYTES_1),
            0x02 => Some(Opcode::OP_PUSHBYTES_2),
            0x03 => Some(Opcode::OP_PUSHBYTES_3),
            0x04 => Some(Opcode::OP_PUSHBYTES_4),
            0x05 => Some(Opcode::OP_PUSHBYTES_5),
            0x06 => Some(Opcode::OP_PUSHBYTES_6),
            0x07 => Some(Opcode::OP_PUSHBYTES_7),
            0x08 => Some(Opcode::OP_PUSHBYTES_8),
            0x09 => Some(Opcode::OP_PUSHBYTES_9),
            0x0a => Some(Opcode::OP_PUSHBYTES_10),
            0x0b => Some(Opcode::OP_PUSHBYTES_11),
            0x0c => Some(Opcode::OP_PUSHBYTES_12),
            0x0d => Some(Opcode::OP_PUSHBYTES_13),
            0x0e => Some(Opcode::OP_PUSHBYTES_14),
            0x0f => Some(Opcode::OP_PUSHBYTES_15),
            0x10 => Some(Opcode::OP_PUSHBYTES_16),
            0x11 => Some(Opcode::OP_PUSHBYTES_17),
            0x12 => Some(Opcode::OP_PUSHBYTES_18),
            0x13 => Some(Opcode::OP_PUSHBYTES_19),
            0x14 => Some(Opcode::OP_PUSHBYTES_20),
            0x15 => Some(Opcode::OP_PUSHBYTES_21),
            0x16 => Some(Opcode::OP_PUSHBYTES_22),
            0x17 => Some(Opcode::OP_PUSHBYTES_23),
            0x18 => Some(Opcode::OP_PUSHBYTES_24),
            0x19 => Some(Opcode::OP_PUSHBYTES_25),
            0x1a => Some(Opcode::OP_PUSHBYTES_26),
            0x1b => Some(Opcode::OP_PUSHBYTES_27),
            0x1c => Some(Opcode::OP_PUSHBYTES_28),
            0x1d => Some(Opcode::OP_PUSHBYTES_29),
            0x1e => Some(Opcode::OP_PUSHBYTES_30),
            0x1f => Some(Opcode::OP_PUSHBYTES_31),
            0x20 => Some(Opcode::OP_PUSHBYTES_32),
            0x21 => Some(Opcode::OP_PUSHBYTES_33),
            0x22 => Some(Opcode::OP_PUSHBYTES_34),
            0x23 => Some(Opcode::OP_PUSHBYTES_35),
            0x24 => Some(Opcode::OP_PUSHBYTES_36),
            0x25 => Some(Opcode::OP_PUSHBYTES_37),
            0x26 => Some(Opcode::OP_PUSHBYTES_38),
            0x27 => Some(Opcode::OP_PUSHBYTES_39),
            0x28 => Some(Opcode::OP_PUSHBYTES_40),
            0x29 => Some(Opcode::OP_PUSHBYTES_41),
            0x2a => Some(Opcode::OP_PUSHBYTES_42),
            0x2b => Some(Opcode::OP_PUSHBYTES_43),
            0x2c => Some(Opcode::OP_PUSHBYTES_44),
            0x2d => Some(Opcode::OP_PUSHBYTES_45),
            0x2e => Some(Opcode::OP_PUSHBYTES_46),
            0x2f => Some(Opcode::OP_PUSHBYTES_47),
            0x30 => Some(Opcode::OP_PUSHBYTES_48),
            0x31 => Some(Opcode::OP_PUSHBYTES_49),
            0x32 => Some(Opcode::OP_PUSHBYTES_50),
            0x33 => Some(Opcode::OP_PUSHBYTES_51),
            0x34 => Some(Opcode::OP_PUSHBYTES_52),
            0x35 => Some(Opcode::OP_PUSHBYTES_53),
            0x36 => Some(Opcode::OP_PUSHBYTES_54),
            0x37 => Some(Opcode::OP_PUSHBYTES_55),
            0x38 => Some(Opcode::OP_PUSHBYTES_56),
            0x39 => Some(Opcode::OP_PUSHBYTES_57),
            0x3a => Some(Opcode::OP_PUSHBYTES_58),
            0x3b => Some(Opcode::OP_PUSHBYTES_59),
            0x3c => Some(Opcode::OP_PUSHBYTES_60),
            0x3d => Some(Opcode::OP_PUSHBYTES_61),
            0x3e => Some(Opcode::OP_PUSHBYTES_62),
            0x3f => Some(Opcode::OP_PUSHBYTES_63),
            0x40 => Some(Opcode::OP_PUSHBYTES_64),
            0x41 => Some(Opcode::OP_PUSHBYTES_65),
            0x42 => Some(Opcode::OP_PUSHBYTES_66),
            0x43 => Some(Opcode::OP_PUSHBYTES_67),
            0x44 => Some(Opcode::OP_PUSHBYTES_68),
            0x45 => Some(Opcode::OP_PUSHBYTES_69),
            0x46 => Some(Opcode::OP_PUSHBYTES_70),
            0x47 => Some(Opcode::OP_PUSHBYTES_71),
            0x48 => Some(Opcode::OP_PUSHBYTES_72),
            0x49 => Some(Opcode::OP_PUSHBYTES_73),
            0x4a => Some(Opcode::OP_PUSHBYTES_74),
            0x4b => Some(Opcode::OP_PUSHBYTES_75),
            0x4c => Some(Opcode::OP_PUSHDATA1),
            0x4d => Some(Opcode::OP_PUSHDATA2),
            0x4e => Some(Opcode::OP_PUSHDATA4),
            0x4f => Some(Opcode::OP_1NEGATE),
            0x50 => Some(Opcode::OP_RESERVED),
            0x51 => Some(Opcode::OP_1),
            0x52 => Some(Opcode::OP_2),
            0x53 => Some(Opcode::OP_3),
            0x54 => Some(Opcode::OP_4),
            0x55 => Some(Opcode::OP_5),
            0x56 => Some(Opcode::OP_6),
            0x57 => Some(Opcode::OP_7),
            0x58 => Some(Opcode::OP_8),
            0x59 => Some(Opcode::OP_9),
            0x5a => Some(Opcode::OP_10),
            0x5b => Some(Opcode::OP_11),
            0x5c => Some(Opcode::OP_12),
            0x5d => Some(Opcode::OP_13),
            0x5e => Some(Opcode::OP_14),
            0x5f => Some(Opcode::OP_15),
            0x60 => Some(Opcode::OP_16),
            0x61 => Some(Opcode::OP_NOP),
            0x62 => Some(Opcode::OP_VER),
            0x63 => Some(Opcode::OP_IF),
            0x64 => Some(Opcode::OP_NOTIF),
            0x65 => Some(Opcode::OP_VERIF),
            0x66 => Some(Opcode::OP_VERNOTIF),
            0x67 => Some(Opcode::OP_ELSE),
            0x68 => Some(Opcode::OP_ENDIF),
            0x69 => Some(Opcode::OP_VERIFY),
            0x6a => Some(Opcode::OP_RETURN),
            0x6b => Some(Opcode::OP_TOALTSTACK),
            0x6c => Some(Opcode::OP_FROMALTSTACK),
            0x6d => Some(Opcode::OP_2DROP),
            0x6e => Some(Opcode::OP_2DUP),
            0x6f => Some(Opcode::OP_3DUP),
            0x70 => Some(Opcode::OP_2OVER),
            0x71 => Some(Opcode::OP_2ROT),
            0x72 => Some(Opcode::OP_2SWAP),
            0x73 => Some(Opcode::OP_IFDUP),
            0x74 => Some(Opcode::OP_DEPTH),
            0x75 => Some(Opcode::OP_DROP),
            0x76 => Some(Opcode::OP_DUP),
            0x77 => Some(Opcode::OP_NIP),
            0x78 => Some(Opcode::OP_OVER),
            0x79 => Some(Opcode::OP_PICK),
            0x7a => Some(Opcode::OP_ROLL),
            0x7b => Some(Opcode::OP_ROT),
            0x7c => Some(Opcode::OP_SWAP),
            0x7d => Some(Opcode::OP_TUCK),
            0x7e => Some(Opcode::OP_CAT),
            0x7f => Some(Opcode::OP_SUBSTR),
            0x80 => Some(Opcode::OP_LEFT),
            0x81 => Some(Opcode::OP_RIGHT),
            0x82 => Some(Opcode::OP_SIZE),
            0x83 => Some(Opcode::OP_INVERT),
            0x84 => Some(Opcode::OP_AND),
            0x85 => Some(Opcode::OP_OR),
            0x86 => Some(Opcode::OP_XOR),
            0x87 => Some(Opcode::OP_EQUAL),
            0x88 => Some(Opcode::OP_EQUALVERIFY),
            0x89 => Some(Opcode::OP_RESERVED1),
            0x8a => Some(Opcode::OP_RESERVED2),
            0x8b => Some(Opcode::OP_1ADD),
            0x8c => Some(Opcode::OP_1SUB),
            0x8d => Some(Opcode::OP_2MUL),
            0x8e => Some(Opcode::OP_2DIV),
            0x8f => Some(Opcode::OP_NEGATE),
            0x90 => Some(Opcode::OP_ABS),
            0x91 => Some(Opcode::OP_NOT),
            0x92 => Some(Opcode::OP_0NOTEQUAL),
            0x93 => Some(Opcode::OP_ADD),
            0x94 => Some(Opcode::OP_SUB),
            0x95 => Some(Opcode::OP_MUL),
            0x96 => Some(Opcode::OP_DIV),
            0x97 => Some(Opcode::OP_MOD),
            0x98 => Some(Opcode::OP_LSHIFT),
            0x99 => Some(Opcode::OP_RSHIFT),
            0x9a => Some(Opcode::OP_BOOLAND),
            0x9b => Some(Opcode::OP_BOOLOR),
            0x9c => Some(Opcode::OP_NUMEQUAL),
            0x9d => Some(Opcode::OP_NUMEQUALVERIFY),
            0x9e => Some(Opcode::OP_NUMNOTEQUAL),
            0x9f => Some(Opcode::OP_LESSTHAN),
            0xa0 => Some(Opcode::OP_GREATERTHAN),
            0xa1 => Some(Opcode::OP_LESSTHANOREQUAL),
            0xa2 => Some(Opcode::OP_GREATERTHANOREQUAL),
            0xa3 => Some(Opcode::OP_MIN),
            0xa4 => Some(Opcode::OP_MAX),
            0xa5 => Some(Opcode::OP_WITHIN),
            0xa6 => Some(Opcode::OP_RIPEMD160),
            0xa7 => Some(Opcode::OP_SHA1),
            0xa8 => Some(Opcode::OP_SHA256),
            0xa9 => Some(Opcode::OP_HASH160),
            0xaa => Some(Opcode::OP_HASH256),
            0xab => Some(Opcode::OP_CODESEPARATOR),
            0xac => Some(Opcode::OP_CHECKSIG),
            0xad => Some(Opcode::OP_CHECKSIGVERIFY),
            0xae => Some(Opcode::OP_CHECKMULTISIG),
            0xaf => Some(Opcode::OP_CHECKMULTISIGVERIFY),
            0xb0 => Some(Opcode::OP_NOP1),
            0xb1 => Some(Opcode::OP_CHECKLOCKTIMEVERIFY),
            0xb2 => Some(Opcode::OP_CHECKSEQUENCEVERIFY),
            0xb3 => Some(Opcode::OP_NOP4),
            0xb4 => Some(Opcode::OP_NOP5),
            0xb5 => Some(Opcode::OP_NOP6),
            0xb6 => Some(Opcode::OP_NOP7),
            0xb7 => Some(Opcode::OP_NOP8),
            0xb8 => Some(Opcode::OP_NOP9),
            0xb9 => Some(Opcode::OP_NOP10),
            _ => None,
        }
    }

    /// The opcode that a byte stands for, if any.
    pub fn from_u8(b: u8) -> (r: Option<Opcode>)
        ensures
            r == Self::spec_from_u8(b),
    {
        match b {
            0x00 => Some(Opcode::OP_0),
            0x01 => Some(Opcode::OP_PUSHBYTES_1),
            0x02 => Some(Opcode::OP_PUSHBYTES_2),
            0x03 => Some(Opcode::OP_PUSHBYTES_3),
            0x04 => Some(Opcode::OP_PUSHBYTES_4),
            0x05 => Some(Opcode::OP_PUSHBYTES_5),
            0x06 => Some(Opcode::OP_PUSHBYTES_6),
            0x07 => Some(Opcode::OP_PUSHBYTES_7),
            0x08 => Some(Opcode::OP_PUSHBYTES_8),
            0x09 => Some(Opcode::OP_PUSHBYTES_9),
            0x0a => Some(Opcode::OP_PUSHBYTES_10),
            0x0b => Some(Opcode::OP_PUSHBYTES_11),
            0x0c => Some(Opcode::OP_PUSHBYTES_12),
            0x0d => Some(Opcode::OP_PUSHBYTES_13),
            0x0e => Some(Opcode::OP_PUSHBYTES_14),
            0x0f => Some(Opcode::OP_PUSHBYTES_15),
            0x10 => Some(Opcode::OP_PUSHBYTES_16),
            0x11 => Some(Opcode::OP_PUSHBYTES_17),
            0x12 => Some(Opcode::OP_PUSHBYTES_18),
            0x13 => Some(Opcode::OP_PUSHBYTES_19),
            0x14 => Some(Opcode::OP_PUSHBYTES_20),
            0x15 => Some(Opcode::OP_PUSHBYTES_21),
            0x16 => Some(Opcode::OP_PUSHBYTES_22),
            0x17 => Some(Opcode::OP_PUSHBYTES_23),
            0x18 => Some(Opcode::OP_PUSHBYTES_24),
            0x19 => Some(Opcode::OP_PUSHBYTES_25),
            0x1a => Some(Opcode::OP_PUSHBYTES_26),
            0x1b => Some(Opcode::OP_PUSHBYTES_27),
            0x1c => Some(Opcode::OP_PUSHBYTES_28),
            0x1d => Some(Opcode::OP_PUSHBYTES_29),
            0x1e => Some(Opcode::OP_PUSHBYTES_30),
            0x1f => Some(Opcode::OP_PUSHBYTES_31),
            0x20 => Some(Opcode::OP_PUSHBYTES_32),
            0x21 => Some(Opcode::OP_PUSHBYTES_33),
            0x22 => Some(Opcode::OP_PUSHBYTES_34),
            0x23 => Some(Opcode::OP_PUSHBYTES_35),
            0x24 => Some(Opcode::OP_PUSHBYTES_36),
            0x25 => Some(Opcode::OP_PUSHBYTES_37),
            0x26 => Some(Opcode::OP_PUSHBYTES_38),
            0x27 => Some(Opcode::OP_PUSHBYTES_39),
            0x28 => Some(Opcode::OP_PUSHBYTES_40),
            0x29 => Some(Opcode::OP_PUSHBYTES_41),
            0x2a => Some(Opcode::OP_PUSHBYTES_42),
            0x2b => Some(Opcode::OP_PUSHBYTES_43),
            0x2c => Some(Opcode::OP_PUSHBYTES_44),
            0x2d => Some(Opcode::OP_PUSHBYTES_45),
            0x2e => Some(Opcode::OP_PUSHBYTES_46),
            0x2f => Some(Opcode::OP_PUSHBYTES_47),
            0x30 => Some(Opcode::OP_PUSHBYTES_48),
            0x31 => Some(Opcode::OP_PUSHBYTES_49),
            0x32 => Some(Opcode::OP_PUSHBYTES_50),
            0x33 => Some(Opcode::OP_PUSHBYTES_51),
            0x34 => Some(Opcode::OP_PUSHBYTES_52),
            0x35 => Some(Opcode::OP_PUSHBYTES_53),
            0x36 => Some(Opcode::OP_PUSHBYTES_54),
            0x37 => Some(Opcode::OP_PUSHBYTES_55),
            0x38 => Some(Opcode::OP_PUSHBYTES_56),
            0x39 => Some(Opcode::OP_PUSHBYTES_57),
            0x3a => Some(Opcode::OP_PUSHBYTES_58),
            0x3b => Some(Opcode::OP_PUSHBYTES_59),
            0x3c => Some(Opcode::OP_PUSHBYTES_60),
            0x3d => Some(Opcode::OP_PUSHBYTES_61),
            0x3e => Some(Opcode::OP_PUSHBYTES_62),
            0x3f => Some(Opcode::OP_PUSHBYTES_63),
            0x40 => Some(Opcode::OP_PUSHBYTES_64),
            0x41 => Some(Opcode::OP_PUSHBYTES_65),
            0x42 => Some(Opcode::OP_PUSHBYTES_66),
            0x43 => Some(Opcode::OP_PUSHBYTES_67),
            0x44 => Some(Opcode::OP_PUSHBYTES_68),
            0x45 => Some(Opcode::OP_PUSHBYTES_69),
            0x46 => Some(Opcode::OP_PUSHBYTES_70),
            0x47 => Some(Opcode::OP_PUSHBYTES_71),
            0x48 => Some(Opcode::OP_PUSHBYTES_72),
            0x49 => Some(Opcode::OP_PUSHBYTES_73),
            0x4a => Some(Opcode::OP_PUSHBYTES_74),
            0x4b => Some(Opcode::OP_PUSHBYTES_75),
            0x4c => Some(Opcode::OP_PUSHDATA1),
            0x4d => Some(Opcode::OP_PUSHDATA2),
            0x4e => Some(Opcode::OP_PUSHDATA4),
            0x4f => Some(Opcode::OP_1NEGATE),
            0x50 => Some(Opcode::OP_RESERVED),
            0x51 => Some(Opcode::OP_1),
            0x52 => Some(Opcode::OP_2),
            0x53 => Some(Opcode::OP_3),
            0x54 => Some(Opcode::OP_4),
            0x55 => Some(Opcode::OP_5),
            0x56 => Some(Opcode::OP_6),
            0x57 => Some(Opcode::OP_7),
            0x58 => Some(Opcode::OP_8),
            0x59 => Some(Opcode::OP_9),
            0x5a => Some(Opcode::OP_10),
            0x5b => Some(Opcode::OP_11),
            0x5c => Some(Opcode::OP_12),
            0x5d => Some(Opcode::OP_13),
            0x5e => Some(Opcode::OP_14),
            0x5f => Some(Opcode::OP_15),
            0x60 => Some(Opcode::OP_16),
            0x61 => Some(Opcode::OP_NOP),
            0x62 => Some(Opcode::OP_VER),
            0x63 => Some(Opcode::OP_IF),
            0x64 => Some(Opcode::OP_NOTIF),
            0x65 => Some(Opcode::OP_VERIF),
            0x66 => Some(Opcode::OP_VERNOTIF),
            0x67 => Some(Opcode::OP_ELSE),
            0x68 => Some(Opcode::OP_ENDIF),
            0x69 => Some(Opcode::OP_VERIFY),
            0x6a => Some(Opcode::OP_RETURN),
            0x6b => Some(Opcode::OP_TOALTSTACK),
            0x6c => Some(Opcode::OP_FROMALTSTACK),
            0x6d => Some(Opcode::OP_2DROP),
            0x6e => Some(Opcode::OP_2DUP),
            0x6f => Some(Opcode::OP_3DUP),
            0x70 => Some(Opcode::OP_2OVER),
            0x71 => Some(Opcode::OP_2ROT),
            0x72 => Some(Opcode::OP_2SWAP),
            0x73 => Some(Opcode::OP_IFDUP),
            0x74 => Some(Opcode::OP_DEPTH),
            0x75 => Some(Opcode::OP_DROP),
            0x76 => Some(Opcode::OP_DUP),
            0x77 => Some(Opcode::OP_NIP),
            0x78 => Some(Opcode::OP_OVER),
            0x79 => Some(Opcode::OP_PICK),
            0x7a => Some(Opcode::OP_ROLL),
            0x7b => Some(Opcode::OP_ROT),
            0x7c => Some(Opcode::OP_SWAP),
            0x7d => Some(Opcode::OP_TUCK),
            0x7e => Some(Opcode::OP_CAT),
            0x7f => Some(Opcode::OP_SUBSTR),
            0x80 => Some(Opcode::OP_LEFT),
            0x81 => Some(Opcode::OP_RIGHT),
            0x82 => Some(Opcode::OP_SIZE),
            0x83 => Some(Opcode::OP_INVERT),
            0x84 => Some(Opcode::OP_AND),
            0x85 => Some(Opcode::OP_OR),
            0x86 => Some(Opcode::OP_XOR),
            0x87 => Some(Opcode::OP_EQUAL),
            0x88 => Some(Opcode::OP_EQUALVERIFY),
            0x89 => Some(Opcode::OP_RESERVED1),
            0x8a => Some(Opcode::OP_RESERVED2),
            0x8b => Some(Opcode::OP_1ADD),
            0x8c => Some(Opcode::OP_1SUB),
            0x8d => Some(Opcode::OP_2MUL),
            0x8e => Some(Opcode::OP_2DIV),
            0x8f => Some(Opcode::OP_NEGATE),
            0x90 => Some(Opcode::OP_ABS),
            0x91 => Some(Opcode::OP_NOT),
            0x92 => Some(Opcode::OP_0NOTEQUAL),
            0x93 => Some(Opcode::OP_ADD),
            0x94 => Some(Opcode::OP_SUB),
            0x95 => Some(Opcode::OP_MUL),
            0x96 => Some(Opcode::OP_DIV),
            0x97 => Some(Opcode::OP_MOD),
            0x98 => Some(Opcode::OP_LSHIFT),
            0x99 => Some(Opcode::OP_RSHIFT),
            0x9a => Some(Opcode::OP_BOOLAND),
            0x9b => Some(Opcode::OP_BOOLOR),
            0x9c => Some(Opcode::OP_NUMEQUAL),
            0x9d => Some(Opcode::OP_NUMEQUALVERIFY),
            0x9e => Some(Opcode::OP_NUMNOTEQUAL),
            0x9f => Some(Opcode::OP_LESSTHAN),
            0xa0 => Some(Opcode::OP_GREATERTHAN),
            0xa1 => Some(Opcode::OP_LESSTHANOREQUAL),
            0xa2 => Some(Opcode::OP_GREATERTHANOREQUAL),
            0xa3 => Some(Opcode::OP_MIN),
            0xa4 => Some(Opcode::OP_MAX),
            0xa5 => Some(Opcode::OP_WITHIN),
            0xa6 => Some(Opcode::OP_RIPEMD160),
            0xa7 => Some(Opcode::OP_SHA1),
            0xa8 => Some(Opcode::OP_SHA256),
            0xa9 => Some(Opcode::OP_HASH160),
            0xaa => Some(Opcode::OP_HASH256),
            0xab => Some(Opcode::OP_CODESEPARATOR),
            0xac => Some(Opcode::OP_CHECKSIG),
            0xad => Some(Opcode::OP_CHECKSIGVERIFY),
            0xae => Some(Opcode::OP_CHECKMULTISIG),
            0xaf => Some(Opcode::OP_CHECKMULTISIGVERIFY),
            0xb0 => Some(Opcode::OP_NOP1),
            0xb1 => Some(Opcode::OP_CHECKLOCKTIMEVERIFY),
            0xb2 => Some(Opcode::OP_CHECKSEQUENCEVERIFY),
            0xb3 => Some(Opcode::OP_NOP4),
            0xb4 => Some(Opcode::OP_NOP5),
            0xb5 => Some(Opcode::OP_NOP6),
            0xb6 => Some(Opcode::OP_NOP7),
            0xb7 => Some(Opcode::OP_NOP8),
            0xb8 => Some(Opcode::OP_NOP9),
            0xb9 => Some(Opcode::OP_NOP10),
            _ => None,
        }
    }
}

/// The byte of an opcode reads back as that opcode.
pub proof fn lemma_opcode_byte_roundtrip(op: Opcode)
    ensures
        Opcode::spec_from_u8(op.spec_byte()) == Some(op),
        op.spec_byte() <= MAX_OPCODE,
{
}

/// A byte that reads as an opcode is that opcode's byte; the bytes above
/// `MAX_OPCODE` stand for no opcode.
pub proof fn lemma_byte_opcode_roundtrip(b: u8)
    ensures
        Opcode::spec_from_u8(b) matches Some(op) ==> op.spec_byte() == b,
        Opcode::spec_from_u8(b) is None <==> b > MAX_OPCODE,
{
}

} // verus!
