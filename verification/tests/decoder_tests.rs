use rv32i_decoder::decoder::memory::Memory;
use rv32i_decoder::decoder::register::Register;
use rv32i_decoder::decoder::{
    BTypeBitFields, BTypeDecoder, ITypeBitFields, ITypeDecoder, JTypeBitFields, JTypeDecoder,
    OpcodeBitFields, OpcodeDecoder, RTypeBitFields, RTypeDecoder, STypeBitFields, STypeDecoder,
    UTypeBitFields, UTypeDecoder,
};

fn regs_with(vals: &[(usize, u32)]) -> Register {
    let mut r = Register::new();
    for &(i, v) in vals {
        r.x[i] = v;
    }
    r
}

fn rtype(rd: u32, rs1: u32, rs2: u32) -> RTypeDecoder {
    RTypeDecoder { rd, funct3: 0, rs1, rs2, funct7: 0 }
}

fn itype(rd: u32, rs1: u32, imm: u32) -> ITypeDecoder {
    ITypeDecoder { rd, funct3: 0, rs1, imm_11_0: imm, imm_4_0: imm & 0x1F, imm_11_5: imm >> 5 }
}

#[test]
fn testJTypeFieldsInitialize() {
    let inst: u32 = 0x7434_8A7E;
    let mut j = JTypeDecoder::new(inst);
    // assert_eq!();
    let _ = &mut j;
}

#[test]
fn jtype_fields_of_word() {
    let j = JTypeDecoder::new(0x7434_8A7E);
    assert_eq!(j.rd, 20);
    assert_eq!(j.imm_19_12, 0x48);
    assert_eq!(j.imm_11, 1);
    assert_eq!(j.imm_10_1, 0x3A1);
    assert_eq!(j.imm_20, 0);
}

#[test]
fn jtype_fields_of_all_ones() {
    let j = JTypeDecoder::new(0xFFFF_FFFF);
    assert_eq!((j.rd, j.imm_19_12, j.imm_11, j.imm_10_1, j.imm_20), (31, 0xFF, 1, 0x3FF, 1));
}

#[test]
fn opcode_of_word() {
    assert_eq!(OpcodeDecoder::new(0x40B5_0533).opcode, 0x33);
    assert_eq!(OpcodeDecoder::new(0xFFFF_FFFF).opcode, 0x7F);
    assert_eq!(OpcodeDecoder::new(0).opcode, 0);
}

#[test]
fn rtype_fields_of_sub() {
    // sub a0, a0, a1
    let d = RTypeDecoder::new(0x40B5_0533);
    assert_eq!((d.rd, d.funct3, d.rs1, d.rs2, d.funct7), (10, 0, 10, 11, 32));
}

#[test]
fn itype_fields_of_addi() {
    // addi a0, a0, -1
    let d = ITypeDecoder::new(0xFFF5_0513);
    assert_eq!((d.rd, d.funct3, d.rs1), (10, 0, 10));
    assert_eq!((d.imm_11_0, d.imm_4_0, d.imm_11_5), (4095, 31, 127));
}

#[test]
fn stype_fields_of_sw() {
    // sw a0, 8(sp)
    let d = STypeDecoder::new(0x00A1_2423);
    assert_eq!((d.imm_4_0, d.funct3, d.rs1, d.rs2, d.imm_11_5), (8, 2, 2, 10, 0));
}

#[test]
fn btype_fields_of_bne() {
    let d = BTypeDecoder::new(0xFEB5_1EE3);
    assert_eq!((d.imm_11, d.imm_4_1, d.funct3, d.rs1, d.rs2), (1, 14, 1, 10, 11));
    assert_eq!(d.imm_10_5, 63);
    assert_eq!(d.imm_12, 1);
}

#[test]
fn btype_fields_of_beq() {
    // beq x1, x2 with imm[12] = 0, imm[11] = 1, imm[10:5] = 1, imm[4:1] = 5
    let d = BTypeDecoder::new(0x0220_85E3);
    assert_eq!((d.imm_11, d.imm_4_1, d.funct3, d.rs1, d.rs2), (1, 5, 0, 1, 2));
    assert_eq!((d.imm_10_5, d.imm_12), (1, 0));
}

#[test]
fn utype_fields_of_lui() {
    // lui t0, 0x12345
    let d = UTypeDecoder::new(0x1234_52B7);
    assert_eq!(format!("{:?}", d), "UTypeDecoder { rd: 5, imm_31_12: 74565 }");
}

#[test]
fn bit_field_masks() {
    assert_eq!(format!("{:?}", OpcodeBitFields::new()), "OpcodeBitFields { opcode: 127 }");
    assert_eq!(
        format!("{:?}", RTypeBitFields::new()),
        format!(
            "RTypeBitFields {{ rd: {}, funct3: {}, rs1: {}, rs2: {}, funct7: {} }}",
            0x0F80u32, 0x7000u32, 0x000F_8000u32, 0x01F0_0000u32, 0xFE00_0000u32
        )
    );
    assert_eq!(
        format!("{:?}", ITypeBitFields::new()),
        format!(
            "ITypeBitFields {{ rd: {}, funct3: {}, rs1: {}, imm_11_0: {}, imm_4_0: {}, imm_11_5: {} }}",
            0x0F80u32, 0x7000u32, 0x000F_8000u32, 0xFFF0_0000u32, 0x01F0_0000u32, 0xFE00_0000u32
        )
    );
    assert_eq!(
        format!("{:?}", STypeBitFields::new()),
        format!(
            "STypeBitFields {{ imm_4_0: {}, funct3: {}, rs1: {}, rs2: {}, imm_11_5: {} }}",
            0x0F80u32, 0x7000u32, 0x000F_8000u32, 0x01F0_0000u32, 0xFE00_0000u32
        )
    );
    assert_eq!(
        format!("{:?}", BTypeBitFields::new()),
        format!(
            "BTypeBitFields {{ imm_11: {}, imm_4_1: {}, funct3: {}, rs1: {}, rs2: {}, imm_10_5: {}, imm_12: {} }}",
            0x80u32, 0x0F00u32, 0x7000u32, 0x000F_8000u32, 0x01F0_0000u32, 0x7E00_0000u32, 0x8000_0000u32
        )
    );
    assert_eq!(
        format!("{:?}", UTypeBitFields::new()),
        format!("UTypeBitFields {{ rd: {}, imm_31_12: {} }}", 0x0F80u32, 0xFFFF_F000u32)
    );
    assert_eq!(
        format!("{:?}", JTypeBitFields::new()),
        format!(
            "JTypeBitFields {{ rd: {}, imm_19_12: {}, imm_11: {}, imm_10_1: {}, imm_20: {} }}",
            0x0F80u32, 0x000F_F000u32, 0x0010_0000u32, 0x7FE0_0000u32, 0x8000_0000u32
        )
    );
}

#[test]
fn rtype_decoding_rebuilds_word() {
    let inst: u32 = 0x40B5_0533;
    let o = OpcodeDecoder::new(inst);
    let d = RTypeDecoder::new(inst);
    let w = o.opcode + (d.rd << 7) + (d.funct3 << 12) + (d.rs1 << 15) + (d.rs2 << 20) + (d.funct7 << 25);
    assert_eq!(w, inst);
}

#[test]
fn itype_decoding_rebuilds_word() {
    let inst: u32 = 0xFFF5_0513;
    let o = OpcodeDecoder::new(inst);
    let d = ITypeDecoder::new(inst);
    let w = o.opcode + (d.rd << 7) + (d.funct3 << 12) + (d.rs1 << 15) + (d.imm_11_0 << 20);
    assert_eq!(w, inst);
    assert_eq!(d.imm_4_0, d.imm_11_0 % 32);
    assert_eq!(d.imm_11_5, d.imm_11_0 / 32);
}

#[test]
fn stype_decoding_rebuilds_word() {
    let inst: u32 = 0x00A1_2423;
    let o = OpcodeDecoder::new(inst);
    let d = STypeDecoder::new(inst);
    let w = o.opcode + (d.imm_4_0 << 7) + (d.funct3 << 12) + (d.rs1 << 15) + (d.rs2 << 20) + (d.imm_11_5 << 25);
    assert_eq!(w, inst);
}

#[test]
fn btype_decoding_rebuilds_word() {
    let inst: u32 = 0xFEB5_1EE3;
    let o = OpcodeDecoder::new(inst);
    let d = BTypeDecoder::new(inst);
    let w = o.opcode
        + (d.imm_11 << 7)
        + (d.imm_4_1 << 8)
        + (d.funct3 << 12)
        + (d.rs1 << 15)
        + (d.rs2 << 20)
        + (d.imm_10_5 << 25)
        + (d.imm_12 << 31);
    assert_eq!(w, inst);
}

#[test]
fn jtype_decoding_rebuilds_word() {
    let inst: u32 = 0x7434_8A7E;
    let o = OpcodeDecoder::new(inst);
    let d = JTypeDecoder::new(inst);
    let w = o.opcode + (d.rd << 7) + (d.imm_19_12 << 12) + (d.imm_11 << 20) + (d.imm_10_1 << 21) + (d.imm_20 << 31);
    assert_eq!(w, inst);
}

#[test]
fn register_x0_is_hardwired_zero() {
    let mut r = Register::new();
    r.x[0] = 99;
    assert_eq!(r.getReg(0), 0);
    r.setReg(0, 5);
    assert_eq!(r.getReg(0), 0);
    assert_eq!(r.x[0], 99);
}

#[test]
fn register_read_after_write() {
    let mut r = Register::new();
    r.setReg(7, 0xDEAD_BEEF);
    assert_eq!(r.getReg(7), 0xDEAD_BEEF);
    assert_eq!(r.getReg(6), 0);
    r.setReg(40, 1);
    assert_eq!(r.getReg(40), 0);
    assert_eq!(r.getPC(), 0);
}

#[test]
fn add_wraps_and_sub_undoes_it() {
    let mut r = regs_with(&[(1, 0xFFFF_FFFF), (2, 2)]);
    let mut m = Memory::new();
    rtype(3, 1, 2).behaviorADD(&mut r, &mut m);
    assert_eq!(r.getReg(3), 1);
    rtype(4, 3, 2).behaviorSUB(&mut r, &mut m);
    assert_eq!(r.getReg(4), 0xFFFF_FFFF);
    rtype(5, 2, 1).behaviorSUB(&mut r, &mut m);
    assert_eq!(r.getReg(5), 3);
    assert!(m.bytes.is_empty());
}

#[test]
fn add_to_x0_is_discarded() {
    let mut r = regs_with(&[(1, 4), (2, 5)]);
    let mut m = Memory::new();
    rtype(0, 1, 2).behaviorADD(&mut r, &mut m);
    assert_eq!(r.getReg(0), 0);
}

#[test]
fn slt_and_sltu_compare() {
    let mut r = regs_with(&[(1, 0xFFFF_FFFF), (2, 1)]);
    let mut m = Memory::new();
    rtype(3, 1, 2).behaviorSLT(&mut r, &mut m);
    assert_eq!(r.getReg(3), 1); // -1 < 1
    rtype(4, 1, 2).behaviorSLTU(&mut r, &mut m);
    assert_eq!(r.getReg(4), 0); // 0xFFFFFFFF >= 1
    rtype(5, 2, 1).behaviorSLT(&mut r, &mut m);
    assert_eq!(r.getReg(5), 0);
    rtype(6, 2, 1).behaviorSLTU(&mut r, &mut m);
    assert_eq!(r.getReg(6), 1);
    rtype(7, 2, 2).behaviorSLT(&mut r, &mut m);
    assert_eq!(r.getReg(7), 0);
}

#[test]
fn sltu_with_x0_is_snez() {
    let mut r = regs_with(&[(1, 0), (2, 9)]);
    let mut m = Memory::new();
    rtype(3, 0, 2).behaviorSLTU(&mut r, &mut m);
    assert_eq!(r.getReg(3), 1);
    rtype(4, 0, 1).behaviorSLTU(&mut r, &mut m);
    assert_eq!(r.getReg(4), 0);
}

#[test]
fn bitwise_register_operations() {
    let mut r = regs_with(&[(1, 0b1100), (2, 0b1010)]);
    let mut m = Memory::new();
    rtype(3, 1, 2).behaviorAND(&mut r, &mut m);
    rtype(4, 1, 2).behaviorOR(&mut r, &mut m);
    rtype(5, 1, 2).behaviorXOR(&mut r, &mut m);
    assert_eq!((r.getReg(3), r.getReg(4), r.getReg(5)), (0b1000, 0b1110, 0b0110));
}

#[test]
fn register_shifts_use_low_five_bits() {
    let mut r = regs_with(&[(1, 0x8000_0010), (2, 33), (3, 4)]);
    let mut m = Memory::new();
    rtype(4, 1, 2).behaviorSLL(&mut r, &mut m);
    assert_eq!(r.getReg(4), 0x0000_0020);
    rtype(5, 1, 2).behaviorSRL(&mut r, &mut m);
    assert_eq!(r.getReg(5), 0x4000_0008);
    rtype(6, 1, 3).behaviorSRA(&mut r, &mut m);
    assert_eq!(r.getReg(6), 0xF800_0001);
    rtype(7, 1, 3).behaviorSRL(&mut r, &mut m);
    assert_eq!(r.getReg(7), 0x0800_0001);
}

#[test]
fn sra_of_non_negative_is_srl() {
    let mut r = regs_with(&[(1, 0x7000_0000), (2, 8)]);
    let mut m = Memory::new();
    rtype(3, 1, 2).behaviorSRA(&mut r, &mut m);
    rtype(4, 1, 2).behaviorSRL(&mut r, &mut m);
    assert_eq!(r.getReg(3), 0x0070_0000);
    assert_eq!(r.getReg(3), r.getReg(4));
}

#[test]
fn sra_of_minus_one_stays_minus_one() {
    let mut r = regs_with(&[(1, 0xFFFF_FFFF), (2, 31)]);
    let mut m = Memory::new();
    rtype(3, 1, 2).behaviorSRA(&mut r, &mut m);
    assert_eq!(r.getReg(3), 0xFFFF_FFFF);
}

#[test]
fn empty_behavior_changes_nothing() {
    let mut r = regs_with(&[(1, 3)]);
    let mut m = Memory::new();
    rtype(1, 1, 1).behavior(&mut r, &mut m);
    itype(1, 1, 1).behavior(&mut r, &mut m);
    assert_eq!(r.getReg(1), 3);
}

#[test]
fn addi_sign_extends_immediate() {
    let mut r = regs_with(&[(1, 10)]);
    let mut m = Memory::new();
    itype(2, 1, 0xFFF).behaviorADDI(&mut r, &mut m);
    assert_eq!(r.getReg(2), 9);
    itype(3, 1, 0x7FF).behaviorADDI(&mut r, &mut m);
    assert_eq!(r.getReg(3), 10 + 2047);
    itype(4, 1, 0x800).behaviorADDI(&mut r, &mut m);
    assert_eq!(r.getReg(4), 10u32.wrapping_sub(2048));
}

#[test]
fn addi_zero_is_move() {
    let mut r = regs_with(&[(1, 0xCAFE_F00D)]);
    let mut m = Memory::new();
    itype(2, 1, 0).behaviorADDI(&mut r, &mut m);
    assert_eq!(r.getReg(2), 0xCAFE_F00D);
}

#[test]
fn addi_from_decoded_word() {
    // addi a0, a0, -1
    let mut r = regs_with(&[(10, 0)]);
    let mut m = Memory::new();
    ITypeDecoder::new(0xFFF5_0513).behaviorADDI(&mut r, &mut m);
    assert_eq!(r.getReg(10), 0xFFFF_FFFF);
}

#[test]
fn slti_and_sltiu_compare_with_extended_immediate() {
    let mut r = regs_with(&[(1, 0xFFFF_FFFE), (2, 5)]);
    let mut m = Memory::new();
    itype(3, 1, 0xFFF).behaviorSLTI(&mut r, &mut m);
    assert_eq!(r.getReg(3), 1); // -2 < -1
    itype(4, 2, 0xFFF).behaviorSLTI(&mut r, &mut m);
    assert_eq!(r.getReg(4), 0); // 5 >= -1
    itype(5, 2, 0xFFF).behaviorSLTIU(&mut r, &mut m);
    assert_eq!(r.getReg(5), 1); // 5 < 0xFFFFFFFF
    itype(6, 1, 0xFFF).behaviorSLTIU(&mut r, &mut m);
    assert_eq!(r.getReg(6), 1);
    itype(7, 2, 3).behaviorSLTIU(&mut r, &mut m);
    assert_eq!(r.getReg(7), 0);
}

#[test]
fn sltiu_one_is_seqz() {
    let mut r = regs_with(&[(1, 0), (2, 7)]);
    let mut m = Memory::new();
    itype(3, 1, 1).behaviorSLTIU(&mut r, &mut m);
    itype(4, 2, 1).behaviorSLTIU(&mut r, &mut m);
    assert_eq!((r.getReg(3), r.getReg(4)), (1, 0));
}

#[test]
fn logical_immediates() {
    let mut r = regs_with(&[(1, 0x1234_5678)]);
    let mut m = Memory::new();
    itype(2, 1, 0xFFF).behaviorXORI(&mut r, &mut m);
    assert_eq!(r.getReg(2), !0x1234_5678u32);
    itype(3, 1, 0x0F0).behaviorANDI(&mut r, &mut m);
    assert_eq!(r.getReg(3), 0x70);
    itype(4, 1, 0x800).behaviorORI(&mut r, &mut m);
    assert_eq!(r.getReg(4), 0xFFFF_FE78);
    itype(5, 1, 0x800).behaviorANDI(&mut r, &mut m);
    assert_eq!(r.getReg(5), 0x1234_5000 & 0xFFFF_F800);
}

#[test]
fn shifts_by_immediate() {
    let mut r = regs_with(&[(1, 0x8000_00F0)]);
    let mut m = Memory::new();
    itype(2, 1, 4).behaviorSLLI(&mut r, &mut m);
    assert_eq!(r.getReg(2), 0x0000_0F00);
    itype(3, 1, 4).behaviorSRLI(&mut r, &mut m);
    assert_eq!(r.getReg(3), 0x0800_000F);
    itype(4, 1, 4).behaviorSRAI(&mut r, &mut m);
    assert_eq!(r.getReg(4), 0xF800_000F);
    itype(5, 1, 0).behaviorSRAI(&mut r, &mut m);
    assert_eq!(r.getReg(5), 0x8000_00F0);
}

#[test]
fn shift_immediate_amount_is_low_five_bits() {
    let mut r = regs_with(&[(1, 1)]);
    let mut m = Memory::new();
    let d = ITypeDecoder { rd: 2, funct3: 1, rs1: 1, imm_11_0: 0, imm_4_0: 35, imm_11_5: 0 };
    d.behaviorSLLI(&mut r, &mut m);
    assert_eq!(r.getReg(2), 8);
}

#[test]
fn lui_and_auipc_on_decoded_word() {
    // lui t0, 0x12345 and auipc t0, 0x12345
    let mut r = Register::new();
    r.pc = 0x0000_1004;
    let mut m = Memory::new();
    UTypeDecoder::new(0x1234_52B7).behaviorLUI(&mut r, &mut m);
    assert_eq!(r.getReg(5), 0x1234_5000);
    UTypeDecoder::new(0x1234_5297).behaviorAUIPC(&mut r, &mut m);
    assert_eq!(r.getReg(5), 0x1234_6004);
    UTypeDecoder::new(0xFFFF_F297).behaviorAUIPC(&mut r, &mut m);
    assert_eq!(r.getReg(5), 0x0000_0004);
    assert_eq!(r.getPC(), 0x0000_1004);
}

#[test]
fn upper_immediate_behaviors_on_masks() {
    // The masks name register 0xF80, which does not exist, so nothing changes.
    let bf = UTypeBitFields::new();
    let mut r = regs_with(&[(5, 1)]);
    r.pc = 0x1000;
    let mut m = Memory::new();
    bf.behaviorLUI(&mut r, &mut m);
    bf.behaviorAUIPC(&mut r, &mut m);
    for i in 0..32u32 {
        assert_eq!(r.getReg(i), if i == 5 { 1 } else { 0 });
    }
    assert_eq!(r.getPC(), 0x1000);
}
