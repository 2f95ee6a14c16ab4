# bitcoin_script

A verified interpreter for the Bitcoin script language.

- `src/semantics.rs` states what each instruction does to the evaluation state
  (`spec_step`) and where a whole evaluation ends (`spec_eval`), with the laws
  proved of them.
- `src/interpreter.rs` holds `eval_script`, proved to end as `spec_eval` says,
  and the checks it relies on (`cast_to_bool`, `check_minimal_push`).
- `src/script.rs` reads scripts instruction by instruction and writes them
  (`Builder`); `src/opcode.rs` maps opcodes to bytes; `src/num.rs` encodes and
  decodes script numbers, with round-trip laws.
- `src/signature.rs` holds the encoding rules for signatures (strict DER, low
  S, hash type) and public keys; `src/be_int.rs` orders big-endian integers.
