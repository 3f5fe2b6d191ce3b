# rv32i_decoder

Field decoders for the RV32I instruction formats (opcode, R, I, S, B, U, J),
each proved to split an instruction word into the fields of the RV32I layout
without losing a bit, and the register-register, register-immediate and
upper-immediate instructions that run on a register file, verified with Verus.

- `src/decoder.rs`: the mask sets (`*BitFields`), the decoders (`*Decoder::new`),
  the instruction behaviours, and the laws that decoding loses no bit.
- `src/decoder/register.rs`: the register file (`x0` hard-wired to zero) and its
  read-after-write law.
- `src/decoder/memory.rs`: the data memory handed to each behaviour.
- `src/semantics.rs`: the mathematical meaning of the 32-bit operations (wrapping
  addition, two's complement, sign extension, shifts), the verified helpers that
  compute them, and the laws of the instruction set's pseudoinstructions.
