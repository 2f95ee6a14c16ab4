//! Scripts as byte strings, their reading as a sequence of instructions, and a
//! builder that writes them.

use vstd::prelude::*;

use crate::error::Error;
use crate::num::{le_value, Num};
use crate::opcode::Opcode;

verus! {

/// The largest script, in bytes, that evaluation accepts.
pub const MAX_SCRIPT_SIZE: usize = 10000;

/// A script: the bytes of its instructions.
#[derive(Debug)]
pub struct Script {
    data: Vec<u8>,
}

impl View for Script {
    type V = Seq<u8>;

    closed spec fn view(&self) -> Seq<u8> {
        self.data@
    }
}

/// One instruction of a script, as the reader sees it.
pub enum SpecInstruction {
    /// An opcode that pushes a small number (`OP_1NEGATE`, `OP_1` to `OP_16`).
    PushValue(Opcode, int),
    /// An opcode that pushes the bytes that follow it.
    PushBytes(Opcode, Seq<u8>),
    /// Any other opcode.
    Normal(Opcode),
}

/// One instruction of a script.
#[derive(Debug)]
pub enum Instruction {
    /// An opcode that pushes a small number (`OP_1NEGATE`, `OP_1` to `OP_16`).
    PushValue(Opcode, Num),
    /// An opcode that pushes the bytes that follow it.
    PushBytes(Opcode, Vec<u8>),
    /// Any other opcode.
    Normal(Opcode),
}

impl View for Instruction {
    type V = SpecInstruction;

    open spec fn view(&self) -> SpecInstruction {
        match self {
            Instruction::PushValue(op, n) => SpecInstruction::PushValue(*op, n@),
            Instruction::PushBytes(op, b) => SpecInstruction::PushBytes(*op, b@),
            Instruction::Normal(op) => SpecInstruction::Normal(*op),
        }
    }
}

/// How many length bytes follow a `OP_PUSHDATA` opcode of byte `b`.
pub open spec fn pushdata_width(b: u8) -> int {
    if b == 0x4c {
        1
    } else if b == 0x4d {
        2
    } else {
        4
    }
}

/// Reads the instruction that starts at `pos`: its opcode byte, and for a push
/// the bytes it pushes. The next instruction starts at the returned position.
/// A byte that is no opcode, or a push that runs past the end of the script,
/// is refused with `BadOpcode`.
pub open spec fn spec_parse_at(s: Seq<u8>, pos: int) -> Result<(SpecInstruction, int), Error> {
    let b = s[pos];
    match Opcode::spec_from_u8(b) {
        None => Err(Error::BadOpcode),
        Some(op) => {
            if b <= 0x4b {
                let end = pos + 1 + b;
                if end > s.len() {
                    Err(Error::BadOpcode)
                } else {
                    Ok((SpecInstruction::PushBytes(op, s.subrange(pos + 1, end)), end))
                }
            } else if 0x4c <= b <= 0x4e {
                let w = pushdata_width(b);
                if pos + 1 + w > s.len() {
                    Err(Error::BadOpcode)
                } else {
                    let n = le_value(s.subrange(pos + 1, pos + 1 + w));
                    let end = pos + 1 + w + n;
                    if end > s.len() {
                        Err(Error::BadOpcode)
                    } else {
                        Ok((SpecInstruction::PushBytes(op, s.subrange(pos + 1 + w, end)), end))
                    }
                }
            } else if b == 0x4f {
                Ok((SpecInstruction::PushValue(op, -1), pos + 1))
            } else if 0x51 <= b <= 0x60 {
                Ok((SpecInstruction::PushValue(op, b - 0x50), pos + 1))
            } else {
                Ok((SpecInstruction::Normal(op), pos + 1))
            }
        },
    }
}

/// Copies `data[start..end]`.
fn copy_range(data: &Vec<u8>, start: usize, end: usize) -> (r: Vec<u8>)
    requires
        start <= end <= data@.len(),
    ensures
        r@ == data@.subrange(start as int, end as int),
{
    let mut r: Vec<u8> = Vec::new();
    let mut i = start;
    while i < end
        invariant
            start <= i <= end <= data@.len(),
            r@ == data@.subrange(start as int, i as int),
        decreases end - i,
    {
        r.push(data[i]);
        i = i + 1;
        assert(r@ =~= data@.subrange(start as int, i as int));
    }
    r
}

impl Script {
    /// The script of the given bytes.
    pub fn new(data: Vec<u8>) -> (r: Script)
        ensures
            r@ == data@,
    {
        Script { data }
    }

    /// The length of the script in bytes.
    pub fn len(&self) -> (r: usize)
        ensures
            r == self@.len(),
    {
        self.data.len()
    }

    /// The bytes of the script.
    pub fn as_bytes(&self) -> (r: &[u8])
        ensures
            r@ == self@,
    {
        self.data.as_slice()
    }

    /// Reads the instruction that starts at `pos`, and where the next one starts.
    pub fn get_instruction(&self, pos: usize) -> (r: Result<(Instruction, usize), Error>)
        requires
            pos < self@.len(),
        ensures
            match r {
                Ok((ins, next)) => spec_parse_at(self@, pos as int) == Ok::<
                    (SpecInstruction, int),
                    Error,
                >((ins@, next as int)),
                Err(e) => spec_parse_at(self@, pos as int) == Err::<(SpecInstruction, int), Error>(e),
            },
    {
        let len = self.data.len();
        let b = self.data[pos];
        let op = match Opcode::from_u8(b) {
            None => {
                return Err(Error::BadOpcode);
            },
            Some(op) => op,
        };
        if b <= 0x4b {
            let n = b as usize;
            if n > len - pos - 1 {
                return Err(Error::BadOpcode);
            }
            let end = pos + 1 + n;
            let bytes = copy_range(&self.data, pos + 1, end);
            Ok((Instruction::PushBytes(op, bytes), end))
        } else if 0x4c <= b && b <= 0x4e {
            let w: usize = if b == 0x4c {
                1
            } else if b == 0x4d {
                2
            } else {
                4
            };
            if w > len - pos - 1 {
                return Err(Error::BadOpcode);
            }
            let ghost lb = self@.subrange(pos + 1, pos + 1 + w);
            let n: u64 = if w == 1 {
                proof {
                    reveal_with_fuel(le_value, 2);
                }
                self.data[pos + 1] as u64
            } else if w == 2 {
                proof {
                    reveal_with_fuel(le_value, 3);
                }
                self.data[pos + 1] as u64 + 256 * self.data[pos + 2] as u64
            } else {
                proof {
                    reveal_with_fuel(le_value, 5);
                }
                self.data[pos + 1] as u64 + 256 * self.data[pos + 2] as u64 + 65536
                    * self.data[pos + 3] as u64 + 16777216 * self.data[pos + 4] as u64
            };
            assert(n == le_value(lb));
            let room = len - pos - 1 - w;
            if n > room as u64 {
                return Err(Error::BadOpcode);
            }
            let start = pos + 1 + w;
            let end = start + n as usize;
            let bytes = copy_range(&self.data, start, end);
            Ok((Instruction::PushBytes(op, bytes), end))
        } else if b == 0x4f {
            Ok((Instruction::PushValue(op, Num::new(-1)), pos + 1))
        } else if 0x51 <= b && b <= 0x60 {
            Ok((Instruction::PushValue(op, Num::new((b - 0x50) as i64)), pos + 1))
        } else {
            Ok((Instruction::Normal(op), pos + 1))
        }
    }
}

/// The bytes that push `d`: the shortest of a direct push, `OP_PUSHDATA1`,
/// `OP_PUSHDATA2` and `OP_PUSHDATA4` (the length little-endian), then `d`.
pub open spec fn spec_push_encoding(d: Seq<u8>) -> Seq<u8> {
    let n = d.len();
    if n < 0x4c {
        seq![n as u8] + d
    } else if n < 0x100 {
        seq![0x4cu8, n as u8] + d
    } else if n < 0x10000 {
        seq![0x4du8, (n % 256) as u8, (n / 256) as u8] + d
    } else {
        seq![
            0x4eu8,
            (n % 256) as u8,
            (n / 256 % 256) as u8,
            (n / 65536 % 256) as u8,
            (n / 16777216) as u8,
        ] + d
    }
}

/// Writes a script instruction by instruction.
#[derive(Debug)]
pub struct Builder {
    data: Vec<u8>,
}

impl View for Builder {
    type V = Seq<u8>;

    closed spec fn view(&self) -> Seq<u8> {
        self.data@
    }
}

impl Default for Builder {
    fn default() -> (r: Self)
        ensures
            r@ == Seq::<u8>::empty(),
    {
        Builder { data: Vec::new() }
    }
}

impl Builder {
    /// Appends an opcode.
    pub fn push_opcode(self, opcode: Opcode) -> (r: Self)
        ensures
            r@ == self@.push(opcode.spec_byte()),
    {
        let mut data = self.data;
        data.push(opcode.to_u8());
        Builder { data }
    }

    /// Appends an instruction that pushes `data`.
    pub fn push_data(self, data: &[u8]) -> (r: Self)
        requires
            data@.len() < 0x1_0000_0000,
        ensures
            r@ == self@ + spec_push_encoding(data@),
    {
        let mut out = self.data;
        let ghost start = out@;
        let len = data.len();
        if len < 0x4c {
            out.push(len as u8);
        } else if len < 0x100 {
            out.push(0x4c);
            out.push(len as u8);
        } else if len < 0x10000 {
            out.push(0x4d);
            out.push((len % 256) as u8);
            out.push((len / 256) as u8);
        } else {
            out.push(0x4e);
            out.push((len % 256) as u8);
            out.push((len / 256 % 256) as u8);
            out.push((len / 65536 % 256) as u8);
            out.push((len / 16777216) as u8);
        }
        let ghost head = out@;
        let mut i: usize = 0;
        while i < len
            invariant
                len == data@.len(),
                i <= len,
                out@ == head + data@.subrange(0, i as int),
            decreases len - i,
        {
            out.push(data[i]);
            i = i + 1;
            assert(out@ =~= head + data@.subrange(0, i as int));
        }
        assert(data@.subrange(0, len as int) =~= data@);
        assert(out@ =~= start + spec_push_encoding(data@));
        Builder { data: out }
    }

    /// The script written so far.
    pub fn into_script(self) -> (r: Script)
        ensures
            r@ == self@,
    {
        Script { data: self.data }
    }
}

/// The instruction that pushes `d` reads back as a push of exactly `d`,
/// wherever it stands in a script, and the next instruction starts right after
/// it.
pub proof fn lemma_push_encoding_parses(prefix: Seq<u8>, d: Seq<u8>, rest: Seq<u8>)
    requires
        d.len() < 0x1_0000_0000,
    ensures
        ({
            let e = spec_push_encoding(d);
            let s = prefix + e + rest;
            &&& Opcode::spec_from_u8(e[0]) is Some
            &&& spec_parse_at(s, prefix.len() as int) == Ok::<(SpecInstruction, int), Error>(
                (
                    SpecInstruction::PushBytes(Opcode::spec_from_u8(e[0]).unwrap(), d),
                    (prefix.len() + e.len()) as int,
                ),
            )
        }),
{
    let e = spec_push_encoding(d);
    let s = prefix + e + rest;
    let p = prefix.len() as int;
    let n = d.len();
    assert(s[p] == e[0]);
    if n < 0x4c {
        assert(s.subrange(p + 1, p + 1 + n) =~= d);
    } else {
        let w = pushdata_width(e[0]);
        assert(s.subrange(p + 1, p + 1 + w) =~= e.subrange(1, 1 + w));
        if n < 0x100 {
            reveal_with_fuel(le_value, 2);
        } else if n < 0x10000 {
            reveal_with_fuel(le_value, 3);
        } else {
            reveal_with_fuel(le_value, 5);
        }
        assert(le_value(e.subrange(1, 1 + w)) == n);
        assert(s.subrange(p + 1 + w, p + 1 + w + n) =~= d);
    }
}

} // verus!
