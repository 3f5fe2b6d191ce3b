pub mod register;
pub mod memory;

use vstd::prelude::*;
use vstd::arithmetic::power2::lemma2_to64;
use crate::semantics::{
    wrap32,
    law_sign_extension_keeps_value,
    field, add32, sub32, flag, signed, sext12, imm12, sll32, srl32, sra32, add_wrapping,
    sub_wrapping, less_than_signed, sign_extend_imm12, shift_left, shift_right_logical,
    shift_right_arith,
};
use crate::decoder::register::Register;
use crate::decoder::memory::Memory;

verus! {

// Opcode

/// The mask that selects the opcode of an instruction word.
#[derive(Debug)]
pub struct OpcodeBitFields {
    opcode: u32,
}

impl View for OpcodeBitFields {
    type V = u32;

    closed spec fn view(&self) -> u32 {
        self.opcode
    }
}

impl OpcodeBitFields {
    pub fn new() -> (bf: OpcodeBitFields)
        ensures
            bf@ == 0x0000_007Fu32,
    {
        OpcodeBitFields { opcode: 0x0000_007F }
    }
}

/// The opcode of an instruction word.
#[derive(Debug)]
pub struct OpcodeDecoder {
    pub opcode: u32,
}

impl OpcodeDecoder {
    /// `self` holds the opcode of `inst`: its bits 0 to 6.
    pub open spec fn decodes(&self, inst: u32) -> bool {
        self.opcode == field(inst, 0, 7)
    }

    pub fn new(inst: u32) -> (d: OpcodeDecoder)
        ensures
            d.decodes(inst),
    {
        let bf: OpcodeBitFields = OpcodeBitFields::new();
        proof {
            lemma_instruction_fields(inst);
        }
        OpcodeDecoder { opcode: (inst & bf.opcode) }
    }
}

// R-Type

/// The masks that select the fields of an R-type instruction word.
#[derive(Debug)]
pub struct RTypeBitFields {
    rd: u32,
    funct3: u32,
    rs1: u32,
    rs2: u32,
    funct7: u32,
}

impl View for RTypeBitFields {
    /// The masks of `rd`, `funct3`, `rs1`, `rs2` and `funct7`.
    type V = (u32, u32, u32, u32, u32);

    closed spec fn view(&self) -> (u32, u32, u32, u32, u32) {
        (self.rd, self.funct3, self.rs1, self.rs2, self.funct7)
    }
}

impl RTypeBitFields {
    pub fn new() -> (bf: RTypeBitFields)
        ensures
            bf@ == (0x0000_0F80u32, 0x0000_7000u32, 0x000F_8000u32, 0x01F0_0000u32, 0xFE00_0000u32),
    {
        RTypeBitFields {
            rd: 0x0000_0F80,
            funct3: 0x0000_7000,
            rs1: 0x000F_8000,
            rs2: 0x01F0_0000,
            funct7: 0xFE00_0000,
        }
    }
}

/// The fields of an R-type instruction word.
#[derive(Debug)]
pub struct RTypeDecoder {
    pub rd: u32,
    pub funct3: u32,
    pub rs1: u32,
    pub rs2: u32,
    pub funct7: u32,
}

impl RTypeDecoder {
    /// `self` holds the R-type fields of `inst`: `rd` its bits 7 to 11, `funct3`
    /// bits 12 to 14, `rs1` bits 15 to 19, `rs2` bits 20 to 24 and `funct7`
    /// bits 25 to 31.
    pub open spec fn decodes(&self, inst: u32) -> bool {
        &&& self.rd == field(inst, 7, 5)
        &&& self.funct3 == field(inst, 12, 3)
        &&& self.rs1 == field(inst, 15, 5)
        &&& self.rs2 == field(inst, 20, 5)
        &&& self.funct7 == field(inst, 25, 7)
    }

    pub fn new(inst: u32) -> (d: RTypeDecoder)
        ensures
            d.decodes(inst),
    {
        let bf: RTypeBitFields = RTypeBitFields::new();
        proof {
            lemma_instruction_fields(inst);
        }
        RTypeDecoder {
            rd: (inst & bf.rd) >> 7,
            funct3: (inst & bf.funct3) >> 12,
            rs1: (inst & bf.rs1) >> 15,
            rs2: (inst & bf.rs2) >> 20,
            funct7: (inst & bf.funct7) >> 25,
        }
    }
}

#[allow(non_snake_case)]
impl RTypeDecoder {
    /// ADD performs the addition of rs1 and rs2. SUB performs the subtraction of rs2 from rs1.
    /// Overflows are ignored and the low XLEN bits of results are written to the destination rd.
    pub fn behaviorADD(&self, r: &mut Register, m: &mut Memory)
        ensures
            old(r).writes(*final(r), self.rd, add32(old(r).reg(self.rs1), old(r).reg(self.rs2))),
            *final(m) == *old(m),
    {
        let t1: u32 = add_wrapping(r.getReg(self.rs1), r.getReg(self.rs2));
        r.setReg(self.rd, t1);
    }

    pub fn behaviorSUB(&self, r: &mut Register, m: &mut Memory)
        ensures
            old(r).writes(*final(r), self.rd, sub32(old(r).reg(self.rs1), old(r).reg(self.rs2))),
            *final(m) == *old(m),
    {
        let t1: u32 = sub_wrapping(r.getReg(self.rs1), r.getReg(self.rs2));
        r.setReg(self.rd, t1);
    }

    /// SLT and SLTU perform signed and unsigned compares respectively, writing 1 to rd if
    /// rs1 < rs2, 0 otherwise. Note, SLTU rd, x0, rs2 sets rd to 1 if rs2 is not equal to
    /// zero, otherwise sets rd to zero (assembler pseudoinstruction SNEZ rd, rs).
    pub fn behaviorSLT(&self, r: &mut Register, m: &mut Memory)
        ensures
            old(r).writes(
                *final(r),
                self.rd,
                flag(signed(old(r).reg(self.rs1)) < signed(old(r).reg(self.rs2))),
            ),
            *final(m) == *old(m),
    {
        if less_than_signed(r.getReg(self.rs1), r.getReg(self.rs2)) {
            r.setReg(self.rd, 1);
        } else {
            r.setReg(self.rd, 0);
        }
    }

    pub fn behaviorSLTU(&self, r: &mut Register, m: &mut Memory)
        ensures
            old(r).writes(*final(r), self.rd, flag(old(r).reg(self.rs1) < old(r).reg(self.rs2))),
            *final(m) == *old(m),
    {
        if r.getReg(self.rs1) < r.getReg(self.rs2) {
            r.setReg(self.rd, 1);
        } else {
            r.setReg(self.rd, 0);
        }
    }

    /// AND, OR, and XOR perform bitwise logical operations.
    pub fn behaviorAND(&self, r: &mut Register, m: &mut Memory)
        ensures
            old(r).writes(*final(r), self.rd, old(r).reg(self.rs1) & old(r).reg(self.rs2)),
            *final(m) == *old(m),
    {
        let t1: u32 = r.getReg(self.rs1) & r.getReg(self.rs2);
        r.setReg(self.rd, t1);
    }

    pub fn behaviorOR(&self, r: &mut Register, m: &mut Memory)
        ensures
            old(r).writes(*final(r), self.rd, old(r).reg(self.rs1) | old(r).reg(self.rs2)),
            *final(m) == *old(m),
    {
        let t1: u32 = r.getReg(self.rs1) | r.getReg(self.rs2);
        r.setReg(self.rd, t1);
    }

    pub fn behaviorXOR(&self, r: &mut Register, m: &mut Memory)
        ensures
            old(r).writes(*final(r), self.rd, old(r).reg(self.rs1) ^ old(r).reg(self.rs2)),
            *final(m) == *old(m),
    {
        let t1: u32 = r.getReg(self.rs1) ^ r.getReg(self.rs2);
        r.setReg(self.rd, t1);
    }

    /// SLL, SRL, and SRA perform logical left, logical right, and arithmetic right shifts on
    /// the value in register rs1 by the shift amount held in the lower 5 bits of register rs2.
    pub fn behaviorSLL(&self, r: &mut Register, m: &mut Memory)
        ensures
            old(r).writes(*final(r), self.rd, sll32(old(r).reg(self.rs1), old(r).reg(self.rs2))),
            *final(m) == *old(m),
    {
        let t1: u32 = shift_left(r.getReg(self.rs1), r.getReg(self.rs2));
        r.setReg(self.rd, t1);
    }

    pub fn behaviorSRL(&self, r: &mut Register, m: &mut Memory)
        ensures
            old(r).writes(*final(r), self.rd, srl32(old(r).reg(self.rs1), old(r).reg(self.rs2))),
            *final(m) == *old(m),
    {
        let t1: u32 = shift_right_logical(r.getReg(self.rs1), r.getReg(self.rs2));
        r.setReg(self.rd, t1);
    }

    pub fn behaviorSRA(&self, r: &mut Register, m: &mut Memory)
        ensures
            old(r).writes(*final(r), self.rd, sra32(old(r).reg(self.rs1), old(r).reg(self.rs2))),
            *final(m) == *old(m),
    {
        let t1: u32 = shift_right_arith(r.getReg(self.rs1), r.getReg(self.rs2));
        r.setReg(self.rd, t1);
    }

    /// Executes nothing: registers and memory stay as they are.
    pub fn behavior(&self, r: &mut Register, m: &mut Memory)
        ensures
            *final(r) == *old(r),
            *final(m) == *old(m),
    {
    }
}

// I-Type

/// The masks that select the fields of an I-type instruction word.
#[derive(Debug)]
pub struct ITypeBitFields {
    rd: u32,
    funct3: u32,
    rs1: u32,
    imm_11_0: u32,
    imm_4_0: u32,
    imm_11_5: u32,
}

impl View for ITypeBitFields {
    /// The masks of `rd`, `funct3`, `rs1`, `imm_11_0`, `imm_4_0` and `imm_11_5`.
    type V = (u32, u32, u32, u32, u32, u32);

    closed spec fn view(&self) -> (u32, u32, u32, u32, u32, u32) {
        (self.rd, self.funct3, self.rs1, self.imm_11_0, self.imm_4_0, self.imm_11_5)
    }
}

impl ITypeBitFields {
    pub fn new() -> (bf: ITypeBitFields)
        ensures
            bf@ == (
                0x0000_0F80u32,
                0x0000_7000u32,
                0x000F_8000u32,
                0xFFF0_0000u32,
                0x01F0_0000u32,
                0xFE00_0000u32,
            ),
    {
        ITypeBitFields {
            rd: 0x0000_0F80,
            funct3: 0x0000_7000,
            rs1: 0x000F_8000,
            imm_11_0: 0xFFF0_0000,
            imm_4_0: 0x01F0_0000,
            imm_11_5: 0xFE00_0000,
        }
    }
}

/// The fields of an I-type instruction word.
#[derive(Debug)]
pub struct ITypeDecoder {
    pub rd: u32,
    pub funct3: u32,
    pub rs1: u32,
    pub imm_11_0: u32,
    pub imm_4_0: u32,
    pub imm_11_5: u32,
}

impl ITypeDecoder {
    /// `self` holds the I-type fields of `inst`: `rd` its bits 7 to 11, `funct3`
    /// bits 12 to 14, `rs1` bits 15 to 19, the immediate `imm_11_0` bits 20 to 31,
    /// and the parts of that immediate `imm_4_0` (bits 20 to 24, a shift amount)
    /// and `imm_11_5` (bits 25 to 31).
    pub open spec fn decodes(&self, inst: u32) -> bool {
        &&& self.rd == field(inst, 7, 5)
        &&& self.funct3 == field(inst, 12, 3)
        &&& self.rs1 == field(inst, 15, 5)
        &&& self.imm_11_0 == field(inst, 20, 12)
        &&& self.imm_4_0 == field(inst, 20, 5)
        &&& self.imm_11_5 == field(inst, 25, 7)
    }

    pub fn new(inst: u32) -> (d: ITypeDecoder)
        ensures
            d.decodes(inst),
    {
        let bf: ITypeBitFields = ITypeBitFields::new();
        proof {
            lemma_instruction_fields(inst);
        }
        ITypeDecoder {
            rd: (inst & bf.rd) >> 7,
            funct3: (inst & bf.funct3) >> 12,
            rs1: (inst & bf.rs1) >> 15,
            imm_11_0: (inst & bf.imm_11_0) >> 20,
            imm_4_0: (inst & bf.imm_4_0) >> 20,
            imm_11_5: (inst & bf.imm_11_5) >> 25,
        }
    }
}

#[allow(non_snake_case)]
impl ITypeDecoder {
    /// ADDI adds the sign-extended 12-bit immediate to register rs1. Arithmetic overflow is
    /// ignored and the result is simply the low XLEN bits of the result. ADDI rd, rs1, 0 is
    /// used to implement the MV rd, rs1 assembler pseudoinstruction.
    pub fn behaviorADDI(&self, r: &mut Register, m: &mut Memory)
        ensures
            old(r).writes(*final(r), self.rd, add32(old(r).reg(self.rs1), sext12(self.imm_11_0))),
            *final(m) == *old(m),
    {
        let t: u32 = add_wrapping(r.getReg(self.rs1), sign_extend_imm12(self.imm_11_0));
        r.setReg(self.rd, t);
    }

    /// SLTI (set less than immediate) places the value 1 in register rd if register rs1 is
    /// less than the sign-extended immediate when both are treated as signed numbers, else 0
    /// is written to rd. SLTIU is similar but compares the values as unsigned numbers (i.e.,
    /// the immediate is first sign-extended to XLEN bits then treated as an unsigned number).
    /// Note, SLTIU rd, rs1, 1 sets rd to 1 if rs1 equals zero, otherwise sets rd to 0
    /// (assembler pseudoinstruction SEQZ rd, rs).
    pub fn behaviorSLTI(&self, r: &mut Register, m: &mut Memory)
        ensures
            old(r).writes(
                *final(r),
                self.rd,
                flag(signed(old(r).reg(self.rs1)) < imm12(self.imm_11_0)),
            ),
            *final(m) == *old(m),
    {
        proof {
            law_sign_extension_keeps_value(self.imm_11_0);
        }
        if less_than_signed(r.getReg(self.rs1), sign_extend_imm12(self.imm_11_0)) {
            r.setReg(self.rd, 1);
        } else {
            r.setReg(self.rd, 0);
        }
    }

    pub fn behaviorSLTIU(&self, r: &mut Register, m: &mut Memory)
        ensures
            old(r).writes(*final(r), self.rd, flag(old(r).reg(self.rs1) < sext12(self.imm_11_0))),
            *final(m) == *old(m),
    {
        if r.getReg(self.rs1) < sign_extend_imm12(self.imm_11_0) {
            r.setReg(self.rd, 1);
        } else {
            r.setReg(self.rd, 0);
        }
    }

    /// ANDI, ORI, XORI are logical operations that perform bitwise AND, OR, and XOR on
    /// register rs1 and the sign-extended 12-bit immediate and place the result in rd. Note,
    /// XORI rd, rs1, -1 performs a bitwise logical inversion of register rs1 (assembler
    /// pseudoinstruction NOT rd, rs).
    pub fn behaviorXORI(&self, r: &mut Register, m: &mut Memory)
        ensures
            old(r).writes(*final(r), self.rd, old(r).reg(self.rs1) ^ sext12(self.imm_11_0)),
            *final(m) == *old(m),
    {
        let t1: u32 = r.getReg(self.rs1) ^ sign_extend_imm12(self.imm_11_0);
        r.setReg(self.rd, t1);
    }

    pub fn behaviorORI(&self, r: &mut Register, m: &mut Memory)
        ensures
            old(r).writes(*final(r), self.rd, old(r).reg(self.rs1) | sext12(self.imm_11_0)),
            *final(m) == *old(m),
    {
        let t1: u32 = r.getReg(self.rs1) | sign_extend_imm12(self.imm_11_0);
        r.setReg(self.rd, t1);
    }

    pub fn behaviorANDI(&self, r: &mut Register, m: &mut Memory)
        ensures
            old(r).writes(*final(r), self.rd, old(r).reg(self.rs1) & sext12(self.imm_11_0)),
            *final(m) == *old(m),
    {
        let t1: u32 = r.getReg(self.rs1) & sign_extend_imm12(self.imm_11_0);
        r.setReg(self.rd, t1);
    }

    /// Shifts by a constant are encoded as a specialization of the I-type format. The operand
    /// to be shifted is in rs1, and the shift amount is encoded in the lower 5 bits of the
    /// I-immediate field. SLLI is a logical left shift (zeros are shifted into the lower
    /// bits); SRLI is a logical right shift (zeros are shifted into the upper bits); and SRAI
    /// is an arithmetic right shift (the original sign bit is copied into the vacated upper
    /// bits).
    pub fn behaviorSLLI(&self, r: &mut Register, m: &mut Memory)
        ensures
            old(r).writes(*final(r), self.rd, sll32(old(r).reg(self.rs1), self.imm_4_0)),
            *final(m) == *old(m),
    {
        let t1: u32 = shift_left(r.getReg(self.rs1), self.imm_4_0);
        r.setReg(self.rd, t1);
    }

    pub fn behaviorSRLI(&self, r: &mut Register, m: &mut Memory)
        ensures
            old(r).writes(*final(r), self.rd, srl32(old(r).reg(self.rs1), self.imm_4_0)),
            *final(m) == *old(m),
    {
        let t1: u32 = shift_right_logical(r.getReg(self.rs1), self.imm_4_0);
        r.setReg(self.rd, t1);
    }

    pub fn behaviorSRAI(&self, r: &mut Register, m: &mut Memory)
        ensures
            old(r).writes(*final(r), self.rd, sra32(old(r).reg(self.rs1), self.imm_4_0)),
            *final(m) == *old(m),
    {
        let t1: u32 = shift_right_arith(r.getReg(self.rs1), self.imm_4_0);
        r.setReg(self.rd, t1);
    }

    /// Executes nothing: registers and memory stay as they are.
    pub fn behavior(&self, r: &mut Register, m: &mut Memory)
        ensures
            *final(r) == *old(r),
            *final(m) == *old(m),
    {
    }
}

// S-Type

/// The masks that select the fields of an S-type instruction word.
#[derive(Debug)]
pub struct STypeBitFields {
    imm_4_0: u32,
    funct3: u32,
    rs1: u32,
    rs2: u32,
    imm_11_5: u32,
}

impl View for STypeBitFields {
    /// The masks of `imm_4_0`, `funct3`, `rs1`, `rs2` and `imm_11_5`.
    type V = (u32, u32, u32, u32, u32);

    closed spec fn view(&self) -> (u32, u32, u32, u32, u32) {
        (self.imm_4_0, self.funct3, self.rs1, self.rs2, self.imm_11_5)
    }
}

impl STypeBitFields {
    pub fn new() -> (bf: STypeBitFields)
        ensures
            bf@ == (0x0000_0F80u32, 0x0000_7000u32, 0x000F_8000u32, 0x01F0_0000u32, 0xFE00_0000u32),
    {
        STypeBitFields {
            imm_4_0: 0x0000_0F80,
            funct3: 0x0000_7000,
            rs1: 0x000F_8000,
            rs2: 0x01F0_0000,
            imm_11_5: 0xFE00_0000,
        }
    }
}

/// The fields of an S-type instruction word.
#[derive(Debug)]
pub struct STypeDecoder {
    pub imm_4_0: u32,
    pub funct3: u32,
    pub rs1: u32,
    pub rs2: u32,
    pub imm_11_5: u32,
}

impl STypeDecoder {
    /// `self` holds the S-type fields of `inst`: `imm_4_0` its bits 7 to 11,
    /// `funct3` bits 12 to 14, `rs1` bits 15 to 19, `rs2` bits 20 to 24 and
    /// `imm_11_5` bits 25 to 31.
    pub open spec fn decodes(&self, inst: u32) -> bool {
        &&& self.imm_4_0 == field(inst, 7, 5)
        &&& self.funct3 == field(inst, 12, 3)
        &&& self.rs1 == field(inst, 15, 5)
        &&& self.rs2 == field(inst, 20, 5)
        &&& self.imm_11_5 == field(inst, 25, 7)
    }

    pub fn new(inst: u32) -> (d: STypeDecoder)
        ensures
            d.decodes(inst),
    {
        let bf: STypeBitFields = STypeBitFields::new();
        proof {
            lemma_instruction_fields(inst);
        }
        STypeDecoder {
            imm_4_0: (inst & bf.imm_4_0) >> 7,
            funct3: (inst & bf.funct3) >> 12,
            rs1: (inst & bf.rs1) >> 15,
            rs2: (inst & bf.rs2) >> 20,
            imm_11_5: (inst & bf.imm_11_5) >> 25,
        }
    }
}

// B-Type

/// The masks that select the fields of a B-type instruction word.
#[derive(Debug)]
pub struct BTypeBitFields {
    imm_11: u32,
    imm_4_1: u32,
    funct3: u32,
    rs1: u32,
    rs2: u32,
    imm_10_5: u32,
    imm_12: u32,
}

impl View for BTypeBitFields {
    /// The masks of `imm_11`, `imm_4_1`, `funct3`, `rs1`, `rs2`, `imm_10_5` and `imm_12`.
    type V = (u32, u32, u32, u32, u32, u32, u32);

    closed spec fn view(&self) -> (u32, u32, u32, u32, u32, u32, u32) {
        (self.imm_11, self.imm_4_1, self.funct3, self.rs1, self.rs2, self.imm_10_5, self.imm_12)
    }
}

impl BTypeBitFields {
    pub fn new() -> (bf: BTypeBitFields)
        ensures
            bf@ == (
                0x0000_0080u32,
                0x0000_0F00u32,
                0x0000_7000u32,
                0x000F_8000u32,
                0x01F0_0000u32,
                0x7E00_0000u32,
                0x8000_0000u32,
            ),
    {
        BTypeBitFields {
            imm_11: 0x0000_0080,
            imm_4_1: 0x0000_0F00,
            funct3: 0x0000_7000,
            rs1: 0x000F_8000,
            rs2: 0x01F0_0000,
            imm_10_5: 0x7E00_0000,
            imm_12: 0x8000_0000,
        }
    }
}

/// The fields of a B-type instruction word.
#[derive(Debug)]
pub struct BTypeDecoder {
    pub imm_11: u32,
    pub imm_4_1: u32,
    pub funct3: u32,
    pub rs1: u32,
    pub rs2: u32,
    pub imm_10_5: u32,
    pub imm_12: u32,
}

impl BTypeDecoder {
    /// `self` holds the B-type fields of `inst`: `imm_11` its bit 7, `imm_4_1`
    /// bits 8 to 11, `funct3` bits 12 to 14, `rs1` bits 15 to 19, `rs2` bits 20
    /// to 24, `imm_10_5` bits 25 to 30 and `imm_12` bit 31.
    pub open spec fn decodes(&self, inst: u32) -> bool {
        &&& self.imm_11 == field(inst, 7, 1)
        &&& self.imm_4_1 == field(inst, 8, 4)
        &&& self.funct3 == field(inst, 12, 3)
        &&& self.rs1 == field(inst, 15, 5)
        &&& self.rs2 == field(inst, 20, 5)
        &&& self.imm_10_5 == field(inst, 25, 6)
        &&& self.imm_12 == field(inst, 31, 1)
    }

    pub fn new(inst: u32) -> (d: BTypeDecoder)
        ensures
            d.decodes(inst),
    {
        let bf: BTypeBitFields = BTypeBitFields::new();
        proof {
            lemma_instruction_fields(inst);
        }
        BTypeDecoder {
            imm_11: (inst & bf.imm_11) >> 7,
            imm_4_1: (inst & bf.imm_4_1) >> 8,
            funct3: (inst & bf.funct3) >> 12,
            rs1: (inst & bf.rs1) >> 15,
            rs2: (inst & bf.rs2) >> 20,
            imm_10_5: (inst & bf.imm_10_5) >> 25,
            imm_12: (inst & bf.imm_12) >> 31,
        }
    }
}

// U-Type

/// The masks that select the fields of a U-type instruction word.
#[derive(Debug)]
pub struct UTypeBitFields {
    rd: u32,
    imm_31_12: u32,
}

impl View for UTypeBitFields {
    /// The masks of `rd` and `imm_31_12`.
    type V = (u32, u32);

    closed spec fn view(&self) -> (u32, u32) {
        (self.rd, self.imm_31_12)
    }
}

impl UTypeBitFields {
    pub fn new() -> (bf: UTypeBitFields)
        ensures
            bf@ == (0x0000_0F80u32, 0xFFFF_F000u32),
    {
        UTypeBitFields { rd: 0x0000_0F80, imm_31_12: 0xFFFF_F000 }
    }
}

#[allow(non_snake_case)]
impl UTypeBitFields {
    /// LUI (load upper immediate) is used to build 32-bit constants and uses the U-type
    /// format. LUI places the 32-bit U-immediate value into the destination register rd,
    /// filling in the lowest 12 bits with zeros.
    pub fn behaviorLUI(&self, r: &mut Register, m: &mut Memory)
        ensures
            old(r).writes(*final(r), self@.0, sll32(self@.1, 12)),
            *final(m) == *old(m),
    {
        let t1: u32 = shift_left(self.imm_31_12, 12);
        r.setReg(self.rd, t1);
    }

    /// AUIPC (add upper immediate to pc) is used to build pc-relative addresses and uses the
    /// U-type format. AUIPC forms a 32-bit offset from the U-immediate, filling in the lowest
    /// 12 bits with zeros, adds this offset to the address of the AUIPC instruction, then
    /// places the result in register rd.
    pub fn behaviorAUIPC(&self, r: &mut Register, m: &mut Memory)
        ensures
            old(r).writes(*final(r), self@.0, add32(sll32(self@.1, 12), old(r).pc)),
            *final(m) == *old(m),
    {
        let t1: u32 = add_wrapping(shift_left(self.imm_31_12, 12), r.getPC());
        r.setReg(self.rd, t1);
    }
}

/// The fields of a U-type instruction word.
#[derive(Debug)]
pub struct UTypeDecoder {
    rd: u32,
    imm_31_12: u32,
}

impl View for UTypeDecoder {
    /// `rd` and `imm_31_12`.
    type V = (u32, u32);

    closed spec fn view(&self) -> (u32, u32) {
        (self.rd, self.imm_31_12)
    }
}

impl UTypeDecoder {
    /// `self` holds the U-type fields of `inst`: `rd` its bits 7 to 11 and
    /// `imm_31_12` bits 12 to 31.
    pub open spec fn decodes(&self, inst: u32) -> bool {
        &&& self@.0 == field(inst, 7, 5)
        &&& self@.1 == field(inst, 12, 20)
    }

    pub fn new(inst: u32) -> (d: UTypeDecoder)
        ensures
            d.decodes(inst),
    {
        let bf: UTypeBitFields = UTypeBitFields::new();
        proof {
            lemma_instruction_fields(inst);
        }
        UTypeDecoder { rd: (inst & bf.rd) >> 7, imm_31_12: (inst & bf.imm_31_12) >> 12 }
    }
}

#[allow(non_snake_case)]
impl UTypeDecoder {
    /// LUI places the U-immediate, its lowest 12 bits filled with zeros, into the
    /// decoded destination register rd.
    pub fn behaviorLUI(&self, r: &mut Register, m: &mut Memory)
        ensures
            old(r).writes(*final(r), self@.0, sll32(self@.1, 12)),
            *final(m) == *old(m),
    {
        let t1: u32 = shift_left(self.imm_31_12, 12);
        r.setReg(self.rd, t1);
    }

    /// AUIPC adds the U-immediate, its lowest 12 bits filled with zeros, to the pc
    /// and places the result in the decoded destination register rd.
    pub fn behaviorAUIPC(&self, r: &mut Register, m: &mut Memory)
        ensures
            old(r).writes(*final(r), self@.0, add32(sll32(self@.1, 12), old(r).pc)),
            *final(m) == *old(m),
    {
        let t1: u32 = add_wrapping(shift_left(self.imm_31_12, 12), r.getPC());
        r.setReg(self.rd, t1);
    }
}

// J-Type

/// The masks that select the fields of a J-type instruction word.
#[derive(Debug)]
pub struct JTypeBitFields {
    rd: u32,
    imm_19_12: u32,
    imm_11: u32,
    imm_10_1: u32,
    imm_20: u32,
}

impl View for JTypeBitFields {
    /// The masks of `rd`, `imm_19_12`, `imm_11`, `imm_10_1` and `imm_20`.
    type V = (u32, u32, u32, u32, u32);

    closed spec fn view(&self) -> (u32, u32, u32, u32, u32) {
        (self.rd, self.imm_19_12, self.imm_11, self.imm_10_1, self.imm_20)
    }
}

impl JTypeBitFields {
    pub fn new() -> (bf: JTypeBitFields)
        ensures
            bf@ == (0x0000_0F80u32, 0x000F_F000u32, 0x0010_0000u32, 0x7FE0_0000u32, 0x8000_0000u32),
    {
        JTypeBitFields {
            rd: 0x0000_0F80,
            imm_19_12: 0x000F_F000,
            imm_11: 0x0010_0000,
            imm_10_1: 0x7FE0_0000,
            imm_20: 0x8000_0000,
        }
    }
}

/// The fields of a J-type instruction word.
#[derive(Debug)]
pub struct JTypeDecoder {
    pub rd: u32,
    pub imm_19_12: u32,
    pub imm_11: u32,
    pub imm_10_1: u32,
    pub imm_20: u32,
}

impl JTypeDecoder {
    /// `self` holds the J-type fields of `inst`: `rd` its bits 7 to 11,
    /// `imm_19_12` bits 12 to 19, `imm_11` bit 20, `imm_10_1` bits 21 to 30 and
    /// `imm_20` bit 31.
    pub open spec fn decodes(&self, inst: u32) -> bool {
        &&& self.rd == field(inst, 7, 5)
        &&& self.imm_19_12 == field(inst, 12, 8)
        &&& self.imm_11 == field(inst, 20, 1)
        &&& self.imm_10_1 == field(inst, 21, 10)
        &&& self.imm_20 == field(inst, 31, 1)
    }

    pub fn new(inst: u32) -> (d: JTypeDecoder)
        ensures
            d.decodes(inst),
    {
        let bf: JTypeBitFields = JTypeBitFields::new();
        proof {
            lemma_instruction_fields(inst);
        }
        JTypeDecoder {
            rd: (inst & bf.rd) >> 7,
            imm_19_12: (inst & bf.imm_19_12) >> 12,
            imm_11: (inst & bf.imm_11) >> 20,
            imm_10_1: (inst & bf.imm_10_1) >> 21,
            imm_20: (inst & bf.imm_20) >> 31,
        }
    }
}

} // verus!

verus! {

/// `SLTU rd, x0, rs2` sets `rd` to 1 if `rs2` is not zero and to 0 otherwise
/// (the SNEZ pseudoinstruction): the value that `behaviorSLTU` writes is then
/// that test.
pub proof fn law_sltu_x0_is_snez(d: RTypeDecoder, r: Register)
    requires
        d.rs1 == 0,
    ensures
        flag(r.reg(d.rs1) < r.reg(d.rs2)) == flag(r.reg(d.rs2) != 0),
        flag(r.reg(d.rs1) < r.reg(d.rs2)) == 1 <==> r.reg(d.rs2) != 0,
        flag(r.reg(d.rs1) < r.reg(d.rs2)) == 0 <==> r.reg(d.rs2) == 0,
{
}

/// The bits that each decoder selects, read two ways: as a mask and a shift, and
/// as a field; and each instruction word as the sum of the fields of each format.
proof fn lemma_instruction_fields(inst: u32)
    ensures
        inst & 0x7F == field(inst, 0, 7),
        field(inst, 7, 1) == (inst >> 7) & 0x1,
        field(inst, 7, 5) == (inst >> 7) & 0x1F,
        field(inst, 8, 4) == (inst >> 8) & 0xF,
        field(inst, 12, 3) == (inst >> 12) & 0x7,
        field(inst, 12, 8) == (inst >> 12) & 0xFF,
        field(inst, 12, 20) == inst >> 12,
        field(inst, 15, 5) == (inst >> 15) & 0x1F,
        field(inst, 20, 1) == (inst >> 20) & 0x1,
        field(inst, 20, 5) == (inst >> 20) & 0x1F,
        field(inst, 20, 12) == inst >> 20,
        field(inst, 21, 10) == (inst >> 21) & 0x3FF,
        field(inst, 25, 6) == (inst >> 25) & 0x3F,
        field(inst, 25, 7) == inst >> 25,
        field(inst, 31, 1) == inst >> 31,
        (inst & 0x0000_0080) >> 7 == field(inst, 7, 1),
        (inst & 0x0000_0F80) >> 7 == field(inst, 7, 5),
        (inst & 0x0000_0F00) >> 8 == field(inst, 8, 4),
        (inst & 0x0000_7000) >> 12 == field(inst, 12, 3),
        (inst & 0x000F_F000) >> 12 == field(inst, 12, 8),
        (inst & 0xFFFF_F000) >> 12 == field(inst, 12, 20),
        (inst & 0x000F_8000) >> 15 == field(inst, 15, 5),
        (inst & 0x0010_0000) >> 20 == field(inst, 20, 1),
        (inst & 0x01F0_0000) >> 20 == field(inst, 20, 5),
        (inst & 0xFFF0_0000) >> 20 == field(inst, 20, 12),
        (inst & 0x7FE0_0000) >> 21 == field(inst, 21, 10),
        (inst & 0x7E00_0000) >> 25 == field(inst, 25, 6),
        (inst & 0xFE00_0000) >> 25 == field(inst, 25, 7),
        (inst & 0x8000_0000) >> 31 == field(inst, 31, 1),
        field(inst, 20, 5) == field(inst, 20, 12) % 32,
        field(inst, 25, 7) == field(inst, 20, 12) / 32,
        inst == field(inst, 0, 7) + field(inst, 7, 5) * 0x80 + field(inst, 12, 3) * 0x1000
            + field(inst, 15, 5) * 0x8000 + field(inst, 20, 5) * 0x10_0000 + field(inst, 25, 7)
            * 0x200_0000,
        inst == field(inst, 0, 7) + field(inst, 7, 5) * 0x80 + field(inst, 12, 3) * 0x1000
            + field(inst, 15, 5) * 0x8000 + field(inst, 20, 12) * 0x10_0000,
        inst == field(inst, 0, 7) + field(inst, 7, 5) * 0x80 + field(inst, 12, 20) * 0x1000,
        inst == field(inst, 0, 7) + field(inst, 7, 1) * 0x80 + field(inst, 8, 4) * 0x100
            + field(inst, 12, 3) * 0x1000 + field(inst, 15, 5) * 0x8000 + field(inst, 20, 5)
            * 0x10_0000 + field(inst, 25, 6) * 0x200_0000 + field(inst, 31, 1) * 0x8000_0000,
        inst == field(inst, 0, 7) + field(inst, 7, 5) * 0x80 + field(inst, 12, 8) * 0x1000
            + field(inst, 20, 1) * 0x10_0000 + field(inst, 21, 10) * 0x20_0000 + field(inst, 31, 1)
            * 0x8000_0000,
{
    lemma2_to64();
    assert(inst & 0x7F == inst % 0x80
        && (inst & 0x0000_0080) >> 7 == (inst / 0x80) % 2
        && (inst & 0x0000_0F80) >> 7 == (inst / 0x80) % 32
        && (inst & 0x0000_0F00) >> 8 == (inst / 0x100) % 16
        && (inst & 0x0000_7000) >> 12 == (inst / 0x1000) % 8
        && (inst & 0x000F_F000) >> 12 == (inst / 0x1000) % 256
        && (inst & 0xFFFF_F000) >> 12 == (inst / 0x1000) % 0x10_0000
        && (inst & 0x000F_8000) >> 15 == (inst / 0x8000) % 32
        && (inst & 0x0010_0000) >> 20 == (inst / 0x10_0000) % 2
        && (inst & 0x01F0_0000) >> 20 == (inst / 0x10_0000) % 32
        && (inst & 0xFFF0_0000) >> 20 == (inst / 0x10_0000) % 4096
        && (inst & 0x7FE0_0000) >> 21 == (inst / 0x20_0000) % 1024
        && (inst & 0x7E00_0000) >> 25 == (inst / 0x200_0000) % 64
        && (inst & 0xFE00_0000) >> 25 == (inst / 0x200_0000) % 128
        && (inst & 0x8000_0000) >> 31 == (inst / 0x8000_0000) % 2) by (bit_vector);
    assert((inst / 0x10_0000) % 32 == ((inst / 0x10_0000) % 4096) % 32
        && (inst / 0x200_0000) % 128 == ((inst / 0x10_0000) % 4096) / 32
        && inst == inst % 0x80 + ((inst / 0x80) % 32) * 0x80 + ((inst / 0x1000) % 8) * 0x1000
            + ((inst / 0x8000) % 32) * 0x8000 + ((inst / 0x10_0000) % 32) * 0x10_0000
            + ((inst / 0x200_0000) % 128) * 0x200_0000
        && inst == inst % 0x80 + ((inst / 0x80) % 32) * 0x80 + ((inst / 0x1000) % 8) * 0x1000
            + ((inst / 0x8000) % 32) * 0x8000 + ((inst / 0x10_0000) % 4096) * 0x10_0000
        && inst == inst % 0x80 + ((inst / 0x80) % 32) * 0x80 + ((inst / 0x1000) % 0x10_0000)
            * 0x1000
        && inst == inst % 0x80 + ((inst / 0x80) % 2) * 0x80 + ((inst / 0x100) % 16) * 0x100
            + ((inst / 0x1000) % 8) * 0x1000 + ((inst / 0x8000) % 32) * 0x8000
            + ((inst / 0x10_0000) % 32) * 0x10_0000 + ((inst / 0x200_0000) % 64) * 0x200_0000
            + ((inst / 0x8000_0000) % 2) * 0x8000_0000
        && inst == inst % 0x80 + ((inst / 0x80) % 32) * 0x80 + ((inst / 0x1000) % 256) * 0x1000
            + ((inst / 0x10_0000) % 2) * 0x10_0000 + ((inst / 0x20_0000) % 1024) * 0x20_0000
            + ((inst / 0x8000_0000) % 2) * 0x8000_0000) by (bit_vector);
    assert((inst >> 7) & 0x1 == (inst / 0x80) % 0x2
        && (inst >> 7) & 0x1F == (inst / 0x80) % 0x20
        && (inst >> 8) & 0xF == (inst / 0x100) % 0x10
        && (inst >> 12) & 0x7 == (inst / 0x1000) % 0x8
        && (inst >> 12) & 0xFF == (inst / 0x1000) % 0x100
        && inst >> 12 == (inst / 0x1000) % 0x100000
        && (inst >> 15) & 0x1F == (inst / 0x8000) % 0x20
        && (inst >> 20) & 0x1 == (inst / 0x100000) % 0x2
        && (inst >> 20) & 0x1F == (inst / 0x100000) % 0x20
        && inst >> 20 == (inst / 0x100000) % 0x1000
        && (inst >> 21) & 0x3FF == (inst / 0x200000) % 0x400
        && (inst >> 25) & 0x3F == (inst / 0x2000000) % 0x40
        && inst >> 25 == (inst / 0x2000000) % 0x80
        && inst >> 31 == (inst / 0x80000000) % 0x2) by (bit_vector);
}

/// The opcode is the low 7 bits of the word.
pub proof fn law_opcode_field_bits(inst: u32, o: OpcodeDecoder)
    requires
        o.decodes(inst),
    ensures
        o.opcode == inst & 0x7F,
        o.opcode < 128,
{
    lemma_instruction_fields(inst);
    assert(inst & 0x7F < 128) by (bit_vector);
}

/// Each R-type field is the bits at its place in the word, and no more: `rd`,
/// `rs1` and `rs2` name one of 32 registers, `funct3` has 3 bits, `funct7` 7.
pub proof fn law_rtype_field_bits(inst: u32, d: RTypeDecoder)
    requires
        d.decodes(inst),
    ensures
        d.rd == (inst >> 7) & 0x1F,
        d.funct3 == (inst >> 12) & 0x7,
        d.rs1 == (inst >> 15) & 0x1F,
        d.rs2 == (inst >> 20) & 0x1F,
        d.funct7 == inst >> 25,
        d.rd < 32 && d.funct3 < 8 && d.rs1 < 32 && d.rs2 < 32 && d.funct7 < 128,
{
    lemma_instruction_fields(inst);
    assert(((inst >> 7) & 0x1F) < 32 && ((inst >> 12) & 0x7) < 8 && ((inst >> 15) & 0x1F) < 32
        && ((inst >> 20) & 0x1F) < 32 && (inst >> 25) < 128) by (bit_vector);
}

/// Each I-type field is the bits at its place in the word: the 12-bit immediate
/// is the top 12 bits, and the shift amount its low 5.
pub proof fn law_itype_field_bits(inst: u32, d: ITypeDecoder)
    requires
        d.decodes(inst),
    ensures
        d.rd == (inst >> 7) & 0x1F,
        d.funct3 == (inst >> 12) & 0x7,
        d.rs1 == (inst >> 15) & 0x1F,
        d.imm_11_0 == inst >> 20,
        d.imm_4_0 == (inst >> 20) & 0x1F,
        d.imm_11_5 == inst >> 25,
        d.rd < 32 && d.funct3 < 8 && d.rs1 < 32 && d.imm_11_0 < 4096 && d.imm_4_0 < 32
            && d.imm_11_5 < 128,
{
    lemma_instruction_fields(inst);
    assert(((inst >> 7) & 0x1F) < 32 && ((inst >> 12) & 0x7) < 8 && ((inst >> 15) & 0x1F) < 32
        && (inst >> 20) < 4096 && ((inst >> 20) & 0x1F) < 32 && (inst >> 25) < 128) by (bit_vector);
}

/// Each S-type field is the bits at its place in the word.
pub proof fn law_stype_field_bits(inst: u32, d: STypeDecoder)
    requires
        d.decodes(inst),
    ensures
        d.imm_4_0 == (inst >> 7) & 0x1F,
        d.funct3 == (inst >> 12) & 0x7,
        d.rs1 == (inst >> 15) & 0x1F,
        d.rs2 == (inst >> 20) & 0x1F,
        d.imm_11_5 == inst >> 25,
        d.imm_4_0 < 32 && d.funct3 < 8 && d.rs1 < 32 && d.rs2 < 32 && d.imm_11_5 < 128,
{
    lemma_instruction_fields(inst);
    assert(((inst >> 7) & 0x1F) < 32 && ((inst >> 12) & 0x7) < 8 && ((inst >> 15) & 0x1F) < 32
        && ((inst >> 20) & 0x1F) < 32 && (inst >> 25) < 128) by (bit_vector);
}

/// Each B-type field is the bits at its place in the word; `imm_12`, the sign of
/// the branch offset, is bit 31.
pub proof fn law_btype_field_bits(inst: u32, d: BTypeDecoder)
    requires
        d.decodes(inst),
    ensures
        d.imm_11 == (inst >> 7) & 0x1,
        d.imm_4_1 == (inst >> 8) & 0xF,
        d.funct3 == (inst >> 12) & 0x7,
        d.rs1 == (inst >> 15) & 0x1F,
        d.rs2 == (inst >> 20) & 0x1F,
        d.imm_10_5 == (inst >> 25) & 0x3F,
        d.imm_12 == inst >> 31,
        d.imm_11 < 2 && d.imm_4_1 < 16 && d.funct3 < 8 && d.rs1 < 32 && d.rs2 < 32 && d.imm_10_5
            < 64 && d.imm_12 < 2,
{
    lemma_instruction_fields(inst);
    assert(((inst >> 7) & 0x1) < 2 && ((inst >> 8) & 0xF) < 16 && ((inst >> 12) & 0x7) < 8
        && ((inst >> 15) & 0x1F) < 32 && ((inst >> 20) & 0x1F) < 32 && ((inst >> 25) & 0x3F) < 64
        && (inst >> 31) < 2) by (bit_vector);
}

/// Each U-type field is the bits at its place in the word.
pub proof fn law_utype_field_bits(inst: u32, d: UTypeDecoder)
    requires
        d.decodes(inst),
    ensures
        d@.0 == (inst >> 7) & 0x1F,
        d@.1 == inst >> 12,
        d@.0 < 32 && d@.1 < 0x10_0000,
{
    lemma_instruction_fields(inst);
    assert(((inst >> 7) & 0x1F) < 32 && (inst >> 12) < 0x10_0000) by (bit_vector);
}

/// Each J-type field is the bits at its place in the word; `imm_20`, the sign of
/// the jump offset, is bit 31.
pub proof fn law_jtype_field_bits(inst: u32, d: JTypeDecoder)
    requires
        d.decodes(inst),
    ensures
        d.rd == (inst >> 7) & 0x1F,
        d.imm_19_12 == (inst >> 12) & 0xFF,
        d.imm_11 == (inst >> 20) & 0x1,
        d.imm_10_1 == (inst >> 21) & 0x3FF,
        d.imm_20 == inst >> 31,
        d.rd < 32 && d.imm_19_12 < 256 && d.imm_11 < 2 && d.imm_10_1 < 1024 && d.imm_20 < 2,
{
    lemma_instruction_fields(inst);
    assert(((inst >> 7) & 0x1F) < 32 && ((inst >> 12) & 0xFF) < 256 && ((inst >> 20) & 0x1) < 2
        && ((inst >> 21) & 0x3FF) < 1024 && (inst >> 31) < 2) by (bit_vector);
}

/// An R-type word is the sum of its fields, each at its place: decoding loses
/// no bit.
pub proof fn law_rtype_decoding_is_lossless(inst: u32, o: OpcodeDecoder, d: RTypeDecoder)
    requires
        o.decodes(inst),
        d.decodes(inst),
    ensures
        inst == o.opcode + d.rd * 0x80 + d.funct3 * 0x1000 + d.rs1 * 0x8000 + d.rs2 * 0x10_0000
            + d.funct7 * 0x200_0000,
{
    lemma_instruction_fields(inst);
}

/// An I-type word is the sum of its fields, each at its place, and the two parts
/// of the immediate are its low 5 and high 7 bits.
pub proof fn law_itype_decoding_is_lossless(inst: u32, o: OpcodeDecoder, d: ITypeDecoder)
    requires
        o.decodes(inst),
        d.decodes(inst),
    ensures
        inst == o.opcode + d.rd * 0x80 + d.funct3 * 0x1000 + d.rs1 * 0x8000 + d.imm_11_0
            * 0x10_0000,
        d.imm_4_0 == d.imm_11_0 % 32,
        d.imm_11_5 == d.imm_11_0 / 32,
{
    lemma_instruction_fields(inst);
}

/// An S-type word is the sum of its fields, each at its place.
pub proof fn law_stype_decoding_is_lossless(inst: u32, o: OpcodeDecoder, d: STypeDecoder)
    requires
        o.decodes(inst),
        d.decodes(inst),
    ensures
        inst == o.opcode + d.imm_4_0 * 0x80 + d.funct3 * 0x1000 + d.rs1 * 0x8000 + d.rs2
            * 0x10_0000 + d.imm_11_5 * 0x200_0000,
{
    lemma_instruction_fields(inst);
}

/// A U-type word is the sum of its fields, each at its place.
pub proof fn law_utype_decoding_is_lossless(inst: u32, o: OpcodeDecoder, d: UTypeDecoder)
    requires
        o.decodes(inst),
        d.decodes(inst),
    ensures
        inst == o.opcode + d@.0 * 0x80 + d@.1 * 0x1000,
{
    lemma_instruction_fields(inst);
}

/// LUI on a decoded U-type word writes the word itself with its lowest 12 bits
/// cleared.
pub proof fn law_lui_writes_upper_bits(inst: u32, d: UTypeDecoder)
    requires
        d.decodes(inst),
    ensures
        sll32(d@.1, 12) == inst - inst % 4096,
{
    lemma2_to64();
    let q: int = inst as int / 4096;
    assert(0 <= q < 0x10_0000 && inst as int == q * 4096 + inst as int % 4096) by (nonlinear_arith)
        requires q == inst as int / 4096, 0 <= inst <= 0xFFFF_FFFF;
    assert(d@.1 == q);
    assert(sll32(d@.1, 12) == wrap32(q * 4096));
    assert((q * 4096) % 0x1_0000_0000 == q * 4096) by (nonlinear_arith)
        requires 0 <= q < 0x10_0000;
}

/// A B-type word is the sum of its fields, each at its place.
pub proof fn law_btype_decoding_is_lossless(inst: u32, o: OpcodeDecoder, d: BTypeDecoder)
    requires
        o.decodes(inst),
        d.decodes(inst),
    ensures
        inst == o.opcode + d.imm_11 * 0x80 + d.imm_4_1 * 0x100 + d.funct3 * 0x1000 + d.rs1
            * 0x8000 + d.rs2 * 0x10_0000 + d.imm_10_5 * 0x200_0000 + d.imm_12 * 0x8000_0000,
{
    lemma_instruction_fields(inst);
}

/// A J-type word is the sum of its fields, each at its place.
pub proof fn law_jtype_decoding_is_lossless(inst: u32, o: OpcodeDecoder, d: JTypeDecoder)
    requires
        o.decodes(inst),
        d.decodes(inst),
    ensures
        inst == o.opcode + d.rd * 0x80 + d.imm_19_12 * 0x1000 + d.imm_11 * 0x10_0000 + d.imm_10_1
            * 0x20_0000 + d.imm_20 * 0x8000_0000,
{
    lemma_instruction_fields(inst);
}

} // verus!
