use emu8080::intel8080::Intel8080;

const INIT_FLAG: u8 = 0b00000010;

fn load_program(intel8080: &mut Intel8080, prog: Vec<u8>) {
    intel8080.load_program(prog);
}

fn compare_registers(intel8080: &Intel8080, a: u8, f: u8, b: u8, c: u8, d: u8, e: u8, h: u8, l: u8) {
    assert_eq!(intel8080.get_register(7), a, "The expected result in register A is {} but got {}", a, intel8080.get_register(7));
    assert_eq!(intel8080.flags(), f, "The expected result in register Flags is {} but got {}", f, intel8080.flags());
    assert_eq!(intel8080.get_register(0), b, "The expected result in register B is {} but got {}", b, intel8080.get_register(0));
    assert_eq!(intel8080.get_register(1), c, "The expected result in register C is {} but got {}", c, intel8080.get_register(1));
    assert_eq!(intel8080.get_register(2), d, "The expected result in register D is {} but got {}", d, intel8080.get_register(2));
    assert_eq!(intel8080.get_register(3), e, "The expected result in register E is {} but got {}", e, intel8080.get_register(3));
    assert_eq!(intel8080.get_register(4), h, "The expected result in register H is {} but got {}", h, intel8080.get_register(4));
    assert_eq!(intel8080.get_register(5), l, "The expected result in register L is {} but got {}", l, intel8080.get_register(5));
}

fn compare_memory(intel8080: &Intel8080, loc: u16, value: u8) {
    assert_eq!(intel8080.memory[loc as usize], value, "Expected value at memory location {} is {} but got {}", loc, value, intel8080.memory[loc as usize]);
}

#[test]
fn init(){
    let intel8080 = Intel8080::new();
    assert!(intel8080.get_sp() == 0);
}
#[test]
fn nop(){
    let mut intel8080 = Intel8080::new();
    load_program(&mut intel8080,vec![0]);
    intel8080.cycle();
    compare_registers(&intel8080, 0, INIT_FLAG, 0, 0, 0, 0, 0, 0);
}
#[test]
// [0,0,r1,r0,0,0,0,1] datlo dathi
fn lxi(){
    // register pair bc
    let mut i0 = Intel8080::new();
    load_program(&mut i0,vec![1,0xFF,1]);
    i0.cycle();
    compare_registers(&i0, 0, INIT_FLAG, 1, 0xFF, 0, 0, 0, 0);

    // register pair de
    let mut i1 = Intel8080::new();
    load_program(&mut i1,vec![0b00010001,0xFF,1]);
    i1.cycle();
    compare_registers(&i1, 0, INIT_FLAG, 0, 0, 1, 0xFF, 0, 0);

    // register pair hl        i0.cycle();

    let mut i2 = Intel8080::new();
    load_program(&mut i2,vec![0b00100001,0xFF,1]);
    i2.cycle();
    compare_registers(&i2, 0, INIT_FLAG, 0, 0, 0, 0, 1, 0xFF);
}

#[test]
// [0,0,r1,r0,0,0,1,0]
fn stax(){
    // register pair bc
    let mut i0 = Intel8080::new();
    //                       LXI BC, 0x12ab, MVI A, 0xFF, STAX BC
    load_program(&mut i0, vec![1, 0xab, 0x12, 0b00111110, 0xFF, 0b00000010]);
    i0.cycle();
    i0.cycle();
    i0.cycle();
    compare_memory(&i0,0x12ab,0xff);

    // register pair de
    let mut i0 = Intel8080::new();
    //                       LXI DE, 0x12ab, MVI A, 0xFF, STAX BC
    load_program(&mut i0, vec![0b00010001, 0xab, 0x12, 0b00111110, 0xFF, 0b00010010]);
    i0.cycle();
    i0.cycle();
    i0.cycle();
    compare_memory(&i0,0x12ab,0xff);
}

#[test]
// [0,0,r1,r0,0,0,1,1]
fn inx(){
    // register pair bc
    let mut i0 = Intel8080::new();
    //                       LXI BC, 0x12ab, INX BC
    load_program(&mut i0,vec![1,0xab,0x12,3]);
    i0.cycle();
    i0.cycle();
    compare_registers(&i0, 0, INIT_FLAG, 0x12, 0xac, 0, 0, 0, 0);

    // register pair de
    let mut i1 = Intel8080::new();
    //                       LXI DE, 0x12ab, INX DE
    load_program(&mut i1, vec![0b00010001, 0xab, 0x12, 0b00010011]);
    i1.cycle();
    i1.cycle();
    compare_registers(&i1, 0, INIT_FLAG, 0, 0, 0x12, 0xac, 0, 0);

    // register pair hl
    let mut i2 = Intel8080::new();
    //                       LXI HL, 0x12ab, INX HL
    load_program(&mut i2, vec![0b00100001, 0xab, 0x12, 0b00100011]);
    i2.cycle();
    i2.cycle();
    compare_registers(&i2, 0, INIT_FLAG, 0, 0, 0, 0, 0x12, 0xac);

    // register pair sp
    let mut i2 = Intel8080::new();
    //                       LXI HL, 0x12ab, INX SP
    load_program(&mut i2, vec![0b00110001, 0xab, 0x12, 0b00110011]);
    i2.cycle();
    i2.cycle();
    assert_eq!(i2.get_sp(),0x12ac);
    compare_registers(&i2, 0, INIT_FLAG, 0, 0, 0, 0, 0, 0);
}

#[test]
// [0,0,d2,d1,d0,1,0,0]
fn inr(){
    // register b
    let mut i0 = Intel8080::new();
    //                       MVI B 0x1F       INR B
    load_program(&mut i0,vec![0b00000110,0x1F,0b00000100]);
    i0.cycle();
    i0.cycle();
    compare_registers(&i0,0,0b00010010,0x20, 0,0,0,0,0);

    // register c
    let mut i0 = Intel8080::new();
    //                       MVI C 0x1F       INR C
    load_program(&mut i0,vec![0b00001110,0x1F,0b00001100]);
    i0.cycle();
    i0.cycle();
    compare_registers(&i0,0,0b00010010,0, 0x20,0,0,0,0);

}

#[test]
// [0,0,d2,d1,d0,1,0,1]
fn dcr(){
    // register b
    let mut i0 = Intel8080::new();
    //                             MVI B 0x1F       DCR B
    load_program(&mut i0,vec![0b00000110,0x1F,0b00000101]);
    i0.cycle();
    i0.cycle();
    compare_registers(&i0,0,0b00010110,0x1E, 0,0,0,0,0);

    // register c
    let mut i0 = Intel8080::new();
    //                             MVI C 0x1F       DCR C
    load_program(&mut i0,vec![0b00001110,0x1F,0b00001101]);
    i0.cycle();
    i0.cycle();
    compare_registers(&i0,0,0b00010110,0, 0x1E,0,0,0,0);

}

#[test]
// [0,0,d2,d1,d0,1,1,0] data
fn mvi(){
    // register b
    let mut i0 = Intel8080::new();
    //                             MVI B 0x1F
    load_program(&mut i0,vec![0b00000110,0x1F]);
    i0.cycle();
    compare_registers(&i0, 0, INIT_FLAG, 0x1F, 0, 0, 0, 0, 0);

    // register c
    let mut i0 = Intel8080::new();
    //                             MVI C 0x1F
    load_program(&mut i0,vec![0b00001110,0x1F]);
    i0.cycle();
    compare_registers(&i0, 0, INIT_FLAG, 0, 0x1F, 0, 0, 0, 0);

}

#[test]
// [0,0,r1,r0,1,0,0,1]
fn dad(){
    // register pair bc
    let mut i0 = Intel8080::new();
    //                          LXI BC, 0x12ab, LXI HL 0xFFFF, DAD BC
    load_program(&mut i0,vec![1,0xab,0x12,0b00100001,0xFF, 0xFF, 0b00001001]);
    i0.cycle();
    i0.cycle();
    i0.cycle();
    compare_registers(&i0,0,3,0x12, 0xab,0,0,0x12,0xaa);

    // register pair de
    let mut i0 = Intel8080::new();
    //                             LXI DE, 0x12ab, LXI HL 0xFFFF, DAD DE
    load_program(&mut i0,vec![0b00010001,0xab,0x12,0b00100001,0xFF, 0xFF, 0b00011001]);
    i0.cycle();
    i0.cycle();
    i0.cycle();
    compare_registers(&i0,0,3,0, 0,0x12,0xab,0x12,0xaa);

    // register pair hl
    let mut i0 = Intel8080::new();
    //                             LXI HL, 0x12ab, DAD HL
    load_program(&mut i0,vec![0b00100001,0xab,0x12,0b00101001]);
    i0.cycle();
    i0.cycle();
    compare_registers(&i0, 0, INIT_FLAG, 0, 0, 0, 0, 0x25, 0x56);

    // register pair sp
    let mut i0 = Intel8080::new();
    //                             LXI SP, 0x12ab, LXI HL 0xFFFF, DAD SP
    load_program(&mut i0,vec![0b00110001,0xab,0x12,0b00100001,0xFF, 0xFF, 0b00111001]);
    i0.cycle();
    i0.cycle();
    i0.cycle();
    assert_eq!(i0.get_sp(),0x12ab);
    compare_registers(&i0,0,3,0, 0,0,0,0x12,0xaa);
}

#[test]
// [0,0,r1,r0,1,0,1,0]
fn ldax(){
    // register pair bc
    let mut i0 = Intel8080::new();
    //                          LXI BC, 0x0110, LDAX BC
    load_program(&mut i0,vec![1,0x10,0x01,0b00001010]);
    i0.memory[0x0110] = 0xda;
    i0.cycle();
    i0.cycle();
    compare_registers(&i0, 0xda, INIT_FLAG, 0x01, 0x10, 0, 0, 0, 0);

    // register pair de
    let mut i0 = Intel8080::new();
    //                          LXI DE, 0x0110, LDAX DE
    load_program(&mut i0,vec![0b00010001,0x10,0x01,0b00011010]);
    i0.memory[0x0110] = 0xdb;
    i0.cycle();
    i0.cycle();
    compare_registers(&i0, 0xdb, INIT_FLAG, 0, 0, 0x01, 0x10, 0, 0);
}

#[test]
// [0,0,r1,r0,1,0,1,1]
fn dcx(){
    // register pair bc
    let mut i0 = Intel8080::new();
    //                       LXI BC, 0x12ab, DCX BC
    load_program(&mut i0,vec![1,0xab,0x12,0b00001011]);
    i0.cycle();
    i0.cycle();
    compare_registers(&i0, 0, INIT_FLAG, 0x12, 0xaa, 0, 0, 0, 0);

    // register pair de
    let mut i1 = Intel8080::new();
    //                       LXI DE, 0x12ab, DCX DE
    load_program(&mut i1, vec![0b00010001, 0xab, 0x12, 0b00011011]);
    i1.cycle();
    i1.cycle();
    compare_registers(&i1, 0, INIT_FLAG, 0, 0, 0x12, 0xaa, 0, 0);

    // register pair hl
    let mut i2 = Intel8080::new();
    //                       LXI HL, 0x12ab, DCX HL
    load_program(&mut i2, vec![0b00100001, 0xab, 0x12, 0b00101011]);
    i2.cycle();
    i2.cycle();
    compare_registers(&i2, 0, INIT_FLAG, 0, 0, 0, 0, 0x12, 0xaa);

    // register pair sp
    let mut i2 = Intel8080::new();
    //                       LXI HL, 0x12ab, DCX SP
    load_program(&mut i2, vec![0b00110001, 0xab, 0x12, 0b00111011]);
    i2.cycle();
    i2.cycle();
    assert_eq!(i2.get_sp(),0x12aa);
    compare_registers(&i2, 0, INIT_FLAG, 0, 0, 0, 0, 0, 0);
}

#[test]
// [0,0,0,0,0,1,1,1]
fn rlc(){
    // carry
    let mut i0 = Intel8080::new();
    //                             MVI A 0b10110111, RLC
    load_program(&mut i0,vec![0b00111110,0b10110111,0b00000111]);
    i0.cycle();
    i0.cycle();
    compare_registers(&i0, 0b01101111, INIT_FLAG |(1), 0, 0, 0, 0, 0, 0);

    // no carry
    let mut i0 = Intel8080::new();
    //                             MVI A 0b01011011, RLC
    load_program(&mut i0,vec![0b00111110,0b01011011,0b00000111]);
    i0.cycle();
    i0.cycle();
    compare_registers(&i0, 0b10110110, INIT_FLAG, 0, 0, 0, 0, 0, 0);
}

#[test]
// [0,0,0,0,1,1,1,1]
fn rrc(){
    // carry
    let mut i0 = Intel8080::new();
    //                             MVI A 0b10110111, RRC
    load_program(&mut i0,vec![0b00111110,0b10110111,0b00001111]);
    i0.cycle();
    i0.cycle();
    compare_registers(&i0, 0b11011011, INIT_FLAG |(1), 0, 0, 0, 0, 0, 0);

    // no carry
    let mut i0 = Intel8080::new();
    //                             MVI A 0b11011010, RRC
    load_program(&mut i0,vec![0b00111110,0b11011010,0b00001111]);
    i0.cycle();
    i0.cycle();
    compare_registers(&i0, 0b01101101, INIT_FLAG, 0, 0, 0, 0, 0, 0);
}

#[test]
// [0,0,0,1,0,1,1,1]
fn ral(){
    // carry
    let mut i0 = Intel8080::new();
    //                             MVI A 0xb10110111, RAL
    load_program(&mut i0,vec![0b00111110,0b10110111,0b00010111]);
    i0.cycle();
    i0.cycle();
    compare_registers(&i0, 0b01101110, INIT_FLAG |(1), 0, 0, 0, 0, 0, 0);

    // no carry
    let mut i0 = Intel8080::new();
    //                             MVI A 0b01011011, RAL
    load_program(&mut i0,vec![0b00111110,0b01011011,0b00010111]);
    i0.cycle();
    i0.cycle();
    compare_registers(&i0, 0b10110110, INIT_FLAG, 0, 0, 0, 0, 0, 0);
}

#[test]
// [0,0,0,1,1,1,1,1]
fn rar(){
    // carry
    let mut i0 = Intel8080::new();
    //                             MVI A 0xb10110111, RAR
    load_program(&mut i0,vec![0b00111110,0b10110111,0b00011111]);
    i0.cycle();
    i0.cycle();
    compare_registers(&i0, 0b01011011, INIT_FLAG |(1), 0, 0, 0, 0, 0, 0);

    // no carry
    let mut i0 = Intel8080::new();
    //                             MVI A 0b01011011, RAL
    load_program(&mut i0,vec![0b00111110,0b01011010,0b00011111]);
    i0.cycle();
    i0.cycle();
    compare_registers(&i0, 0b00101101, INIT_FLAG, 0, 0, 0, 0, 0, 0);
}

#[test]
// [0,0,1,0,0,0,1,0]
fn shld(){
    let mut i0 = Intel8080::new();
    //                             LXI HL 0x12ab, SHLD 0x111
    load_program(&mut i0,vec![0b00100001,0xab, 0x12,0b00100010, 0x11, 0x01]);
    i0.cycle();
    i0.cycle();
    compare_memory(&i0,0x0111,0xab);
    compare_memory(&i0,0x0112,0x12);
    compare_registers(&i0, 0, INIT_FLAG, 0, 0, 0, 0, 0x12, 0xab);
}

#[test]
// [0,0,1,0,0,1,1,1]
fn daa(){
    let mut i0 = Intel8080::new();
    //                             MVI A 0b00011111, DAA
    load_program(&mut i0,vec![0b00111110,0b10011011,0b00100111]);
    i0.cycle();
    i0.cycle();
    compare_registers(&i0,0b00000001,0b00010011,0, 0,0,0,0,0);
}

#[test]
// [0,0,1,0,0,1,1,1]
fn daa2(){
    let mut i0 = Intel8080::new();
    //                             MVI A 0x9b,      DAA
    load_program(&mut i0,vec![0b00111110,0x9b,0b00100111]);
    i0.cycle();
    i0.cycle();
    compare_registers(&i0,0b00000001,0b00010011,0, 0,0,0,0,0);
}

#[test]
// [0,0,1,0,1,0,1,0] addlo addhi
fn lhld(){
    let mut i0 = Intel8080::new();
    //                             LHLD 0x0003, 0xbb, 0xaa
    load_program(&mut i0,vec![0b00101010,0x03,0x00,0xaa,0xbb]);
    i0.cycle();
    compare_registers(&i0, 0, INIT_FLAG, 0, 0, 0, 0, 0xbb, 0xaa);
}

#[test]
// [0,0,1,0,1,1,1,1]
fn cma(){
    let mut i0 = Intel8080::new();
    //                             MVI A 0xFF, CMA
    load_program(&mut i0,vec![0b00111110,0xFF,0b00101111]);
    i0.cycle();
    i0.cycle();
    compare_registers(&i0, 0, INIT_FLAG, 0, 0, 0, 0, 0, 0);
}

#[test]
// [0,0,1,1,0,0,1,0] addlo addhi
fn sta(){
    let mut i0 = Intel8080::new();
    //                             MVI A 0xFF,     STA 0xabcd
    load_program(&mut i0,vec![0b00111110,0xFF,0b00110010, 0xcd, 0xab]);
    i0.cycle();
    i0.cycle();
    compare_memory(&i0, 0xabcd, 0xFF);
    compare_registers(&i0, 0xFF, INIT_FLAG, 0, 0, 0, 0, 0, 0);
}

#[test]
// [0,0,1,1,0,1,1,1]
fn stc(){
    let mut i0 = Intel8080::new();
    //                             STC
    load_program(&mut i0,vec![0b00110111]);
    i0.cycle();
    compare_registers(&i0, 0, INIT_FLAG | 1, 0, 0, 0, 0, 0, 0);
}

#[test]
// [0,0,1,1,1,0,1,0] addlo addhi
fn lda(){
    let mut i0 = Intel8080::new();
    //                             LDA 0x0003
    load_program(&mut i0,vec![0b00111010, 0x03, 0x00, 0xab]);
    i0.cycle();
    compare_registers(&i0, 0xab, INIT_FLAG, 0, 0, 0, 0, 0, 0);
}

#[test]
// [0,0,1,1,1,1,1,1]
fn cmc(){
    let mut i0 = Intel8080::new();
    //                             CMC
    load_program(&mut i0,vec![0b00111111]);
    i0.cycle();
    compare_registers(&i0, 0, INIT_FLAG | 1, 0, 0, 0, 0, 0, 0);

    let mut i0 = Intel8080::new();
    //                             STC         CMC
    load_program(&mut i0,vec![0b00110111, 0b00111111]);
    i0.cycle();
    i0.cycle();
    compare_registers(&i0, 0, INIT_FLAG & !1, 0, 0, 0, 0, 0, 0);
}

#[test]
// [0,1,d2,d1,d0,s2,s1,s0]
fn mov(){
    let mut i0 = Intel8080::new();
    //                             MVI A 0xFF      MOV B A
    load_program(&mut i0,vec![0b00111110,0xFF,0b01000111]);
    i0.cycle();
    i0.cycle();
    compare_registers(&i0, 0xFF, INIT_FLAG, 0xFF, 0, 0, 0, 0, 0);

    let mut i0 = Intel8080::new();
    //                             MVI A 0xFF        LXI HL 0x0006        MOV M A
    load_program(&mut i0,vec![0b00111110,0xFF, 0b00100001,0x06,0x00,0b01110111]);
    i0.cycle();
    i0.cycle();
    i0.cycle();
    compare_memory(&i0,0x0006, 0xFF);
    compare_registers(&i0, 0xFF, INIT_FLAG, 0, 0, 0, 0, 0, 0x06);

    let mut i0 = Intel8080::new();
    //                             MVI A 0xFF        LXI HL 0x0006        MOV A M
    load_program(&mut i0,vec![0b00111110,0xFF, 0b00100001,0x06,0x00,0b01111110, 0xab]);
    i0.cycle();
    i0.cycle();
    i0.cycle();
    compare_registers(&i0, 0xab, INIT_FLAG, 0, 0, 0, 0, 0, 0x06);
}

#[test]
// [1,0,alu2,alu1,alu0,s2,s1,s0]
fn alu1(){
    // ADD
    let mut i0 = Intel8080::new();
    //                             MVI A 0xFF,     MVI B 0x02,       ADD B
    load_program(&mut i0,vec![0b00111110,0xFF,0b00000110, 0x02, 0b10000000]);
    i0.cycle();
    i0.cycle();
    i0.cycle();
    compare_registers(&i0,0x01,0b00010011,0x02, 0,0,0,0,0);

    // ADC
    let mut i0 = Intel8080::new();
    //                             MVI A 0xFF,     MVI B 0x02,        ADD B,     ADC B
    load_program(&mut i0,vec![0b00111110,0xFF,0b00000110, 0x02, 0b10000000, 0b10001000]);
    i0.cycle();
    i0.cycle();
    i0.cycle();
    i0.cycle();
    compare_registers(&i0,0x04,0b00000010,0x02, 0,0,0,0,0);

    // SUB
    let mut i0 = Intel8080::new();
    //                             MVI A 0x00,     MVI B 0x02,        SUB B
    load_program(&mut i0,vec![0b00111110,0x00,0b00000110, 0x02, 0b10010000]);
    i0.cycle();
    i0.cycle();
    i0.cycle();
    compare_registers(&i0,0xFE,0b10000011,0x02, 0,0,0,0,0);

    // SBB
    let mut i0 = Intel8080::new();
    //                             MVI A 0x00,     MVI B 0x02,        SUB B      SBB B
    load_program(&mut i0,vec![0b00111110,0x00,0b00000110, 0x02, 0b10010000, 0b10011000]);
    i0.cycle();
    i0.cycle();
    i0.cycle();
    i0.cycle();
    compare_registers(&i0,0xFB,0b10010010,0x02, 0,0,0,0,0);

    // ANA
    let mut i0 = Intel8080::new();
    //                             MVI A 0xFF,     MVI B 0x02,        ANA B
    load_program(&mut i0,vec![0b00111110,0xFF,0b00000110, 0x02, 0b10100000]);
    i0.cycle();
    i0.cycle();
    i0.cycle();
    compare_registers(&i0,0x02,0b00010010,0x02, 0,0,0,0,0);

    // XRA
    let mut i0 = Intel8080::new();
    //                             MVI A 0xFF,     MVI B 0x02,        XRA B
    load_program(&mut i0,vec![0b00111110,0xFF,0b00000110, 0x02, 0b10101000]);
    i0.cycle();
    i0.cycle();
    i0.cycle();
    compare_registers(&i0,0b11111101,0b10000010,0x02, 0,0,0,0,0);

    // ORA
    let mut i0 = Intel8080::new();
    //                             MVI A 0b11110000,     MVI B 0x02,        ORA B
    load_program(&mut i0,vec![0b00111110,0b11110000,0b00000110, 0b00110011, 0b10110000]);
    i0.cycle();
    i0.cycle();
    i0.cycle();
    compare_registers(&i0,0b11110011,0b10000110,0b00110011, 0,0,0,0,0);

    // CMP
    let mut i0 = Intel8080::new();
    //                             MVI A 0x00,     MVI B 0x02,        CMP B
    load_program(&mut i0,vec![0b00111110,0x00,0b00000110, 0x02, 0b10111000]);
    i0.cycle();
    i0.cycle();
    i0.cycle();
    compare_registers(&i0,0x00,0b10000011,0x02, 0,0,0,0,0);
}

#[test]
// [1,1,cc2,cc1,cc0,0,0,0]
fn rcc() {
    // C
    let mut i0 = Intel8080::new();
    //                             MVI A 0xFF,        MVI B 0x02,       ADD B,      LXI SP 0xabcd,          RCC C
    load_program(&mut i0, vec![0b00111110, 0xFF, 0b00000110, 0x02, 0b10000000, 0b00110001, 0xcd, 0xab, 0b11011000]);
    i0.memory[0xabcd] = 0xda;
    i0.memory[0xabcd+1] = 0xcb;
    i0.cycle();
    i0.cycle();
    i0.cycle();
    i0.cycle();
    i0.cycle();
    assert_eq!(i0.get_sp(),0xabcd+2);
    assert_eq!(i0.PC,0xcbda);
    compare_registers(&i0, 0x01, 0b00010011, 0x02, 0, 0, 0, 0, 0);
}

#[test]
// [1,1,r1,r0,0,0,0,1]
fn pop() {
    // C
    let mut i0 = Intel8080::new();
    //                              LXI SP 0xabcd,          POP bc
    load_program(&mut i0, vec![0b00110001, 0xcd, 0xab, 0b11000001]);
    i0.memory[0xabcd] = 0xda;
    i0.memory[0xabcd+1] = 0xcb;
    i0.cycle();
    i0.cycle();
    assert_eq!(i0.get_sp(),0xabcd+2);
    compare_registers(&i0, 0, 0b00000010, 0xcb, 0xda, 0, 0, 0, 0);
}

#[test]
// [1,1,cc2,cc1,cc0,0,1,0]
fn jcc() {
    // C
    let mut i0 = Intel8080::new();
    //                             MVI A 0xFF,        MVI B 0x02,       ADD B,     JCC C
    load_program(&mut i0, vec![0b00111110, 0xFF, 0b00000110, 0x02, 0b10000000, 0b11011010,0xcd, 0xab]);
    i0.cycle();
    i0.cycle();
    i0.cycle();
    i0.cycle();
    assert_eq!(i0.PC,0xabcd);
    compare_registers(&i0, 0x01, 0b00010011, 0x02, 0, 0, 0, 0, 0);
}

#[test]
// [1,1,cc2,cc1,cc0,1,0,0]
fn ccc() {
    // C
    let mut i0 = Intel8080::new();
    //                             MVI A 0xFF,        MVI B 0x02,       ADD B,      LXI SP 0xabcd,          CCC C
    load_program(&mut i0, vec![0b00111110, 0xFF, 0b00000110, 0x02, 0b10000000, 0b00110001, 0xcd, 0xab, 0b11011100,0xea, 0xfc]);
    i0.cycle();
    i0.cycle();
    i0.cycle();
    i0.cycle();
    i0.cycle();
    assert_eq!(i0.PC,0xfcea);
    assert_eq!(i0.get_sp(),0xabcd-2);
    compare_registers(&i0, 0x01, 0b00010011, 0x02, 0, 0, 0, 0, 0);
}

#[test]
// [1,1,r1,r0,0,1,0,1]
fn push() {
    let mut i0 = Intel8080::new();
    //                              LXI SP 0xabcd,          LXI bc 0xbeef           PUSH bc
    load_program(&mut i0, vec![0b00110001, 0xcd, 0xab, 0b00000001, 0xef, 0xbe, 0b11000101]);
    i0.memory[0xabcd] = 0xda;
    i0.memory[0xabcd+1] = 0xcb;
    i0.cycle();
    i0.cycle();
    i0.cycle();
    assert_eq!(i0.get_sp(),0xabcd-2);
    compare_memory(&i0,0xabcd-2,0xef);
    compare_memory(&i0,0xabcd-1,0xbe);
    compare_registers(&i0, 0, 0b00000010, 0xbe, 0xef, 0, 0, 0, 0);
}

#[test]
// [1,1,alu2,alu1,alu0,1,1,0] data
fn alu2(){
    // ADD
    let mut i0 = Intel8080::new();
    //                             MVI A 0xFF,     MVI B 0x02,       ADD 0x02
    load_program(&mut i0,vec![0b00111110,0xFF,0b00000110, 0x02, 0b11000110,0x02]);
    i0.cycle();
    i0.cycle();
    i0.cycle();
    compare_registers(&i0,0x01,0b00010011,0x02, 0,0,0,0,0);

    // ADC
    let mut i0 = Intel8080::new();
    //                             MVI A 0xFF,     MVI B 0x02,        ADD B,     ADC 0x02
    load_program(&mut i0,vec![0b00111110,0xFF,0b00000110, 0x02, 0b10000000, 0b11001110, 0x02]);
    i0.cycle();
    i0.cycle();
    i0.cycle();
    i0.cycle();
    compare_registers(&i0,0x04,0b00000010,0x02, 0,0,0,0,0);

    // SUB
    let mut i0 = Intel8080::new();
    //                             MVI A 0x00,     MVI B 0x02,        SUB B
    load_program(&mut i0,vec![0b00111110,0x00,0b00000110, 0x02, 0b11010110, 0x02]);
    i0.cycle();
    i0.cycle();
    i0.cycle();
    compare_registers(&i0,0xFE,0b10000011,0x02, 0,0,0,0,0);

    // SBB
    let mut i0 = Intel8080::new();
    //                             MVI A 0x00,     MVI B 0x02,        SUB B      SBB 0x02
    load_program(&mut i0,vec![0b00111110,0x00,0b00000110, 0x02, 0b10010000, 0b11011110, 0x02]);
    i0.cycle();
    i0.cycle();
    i0.cycle();
    i0.cycle();
    compare_registers(&i0,0xFB,0b10010010,0x02, 0,0,0,0,0);

    // ANA
    let mut i0 = Intel8080::new();
    //                             MVI A 0xFF,     MVI B 0x02,        ANA B
    load_program(&mut i0,vec![0b00111110,0xFF,0b00000110, 0x02, 0b11100110, 0x02]);
    i0.cycle();
    i0.cycle();
    i0.cycle();
    compare_registers(&i0,0x02,0b00010010,0x02, 0,0,0,0,0);

    // XRA
    let mut i0 = Intel8080::new();
    //                             MVI A 0xFF,     MVI B 0x02,        XRA B
    load_program(&mut i0,vec![0b00111110,0xFF,0b00000110, 0x02, 0b11101110, 0x02]);
    i0.cycle();
    i0.cycle();
    i0.cycle();
    compare_registers(&i0,0b11111101,0b10000010,0x02, 0,0,0,0,0);

    // ORA
    let mut i0 = Intel8080::new();
    //                             MVI A 0b11110000,     MVI B 0x02,             ORA 0b00110011
    load_program(&mut i0,vec![0b00111110,0b11110000,0b00000110, 0b00110011, 0b10110000, 0b00110011]);
    i0.cycle();
    i0.cycle();
    i0.cycle();
    compare_registers(&i0,0b11110011,0b10000110,0b00110011, 0,0,0,0,0);

    // CMP
    let mut i0 = Intel8080::new();
    //                             MVI A 0x00,     MVI B 0x02,        CMP B
    load_program(&mut i0,vec![0b00111110,0x00,0b00000110, 0x02, 0b11111110, 0x02]);
    i0.cycle();
    i0.cycle();
    i0.cycle();
    compare_registers(&i0,0x00,0b10000011,0x02, 0,0,0,0,0);
}

#[test]
// [1,1,n2,n1,n0,1,1,1]
fn rst() {
    // C
    let mut i0 = Intel8080::new();
    //                              LXI SP 0xabcd,          RST 1
    load_program(&mut i0, vec![0b00110001, 0xcd, 0xab, 0b11001111]);
    i0.cycle();
    i0.cycle();
    assert_eq!(i0.PC,0x0008);
    assert_eq!(i0.get_sp(),0xabcd-2);
    compare_memory(&i0,0xabcd-2,0x04);
    compare_memory(&i0,0xabcd-1,0x00);
    compare_registers(&i0, 0, INIT_FLAG, 0, 0, 0, 0, 0, 0);
}

#[test]
// [1,1,0,0,1,0,0,1]
fn ret() {
    let mut i0 = Intel8080::new();
    //                              LXI SP 0xabcd,          RET
    load_program(&mut i0, vec![0b00110001, 0xcd, 0xab, 0b11001001]);
    i0.memory[0xabcd] = 0xda;
    i0.memory[0xabcd+1] = 0xcb;
    i0.cycle();
    i0.cycle();
    assert_eq!(i0.PC,0xcbda);
    assert_eq!(i0.get_sp(),0xabcd+2);
    compare_registers(&i0, 0, INIT_FLAG, 0, 0, 0, 0, 0, 0);
}

#[test]
// [1,1,0,0,1,1,0,1] addlo addhi
fn call() {
    let mut i0 = Intel8080::new();
    //                              LXI SP 0xabcd,          CALL 0xbeef
    load_program(&mut i0, vec![0b00110001, 0xcd, 0xab, 0b11001101, 0xef, 0xbe]);
    i0.memory[0xabcd] = 0xda;
    i0.memory[0xabcd+1] = 0xcb;
    i0.cycle();
    i0.cycle();
    assert_eq!(i0.PC,0xbeef);
    assert_eq!(i0.get_sp(),0xabcd-2);
    compare_memory(&i0,0xabcd-2,0x06);
    compare_memory(&i0,0xabcd-1,0x00);
    compare_registers(&i0, 0, INIT_FLAG, 0, 0, 0, 0, 0, 0);
}

#[test]
// [1,1,1,0,0,0,1,1]
fn xthl() {
    let mut i0 = Intel8080::new();
    //                              LXI SP 0xabcd,          LXI HL 0xbeef,          XTHL
    load_program(&mut i0, vec![0b00110001, 0xcd, 0xab, 0b00100001, 0xef, 0xbe, 0b11100011]);
    i0.memory[0xabcd] = 0xda;
    i0.memory[0xabcd+1] = 0xcb;
    i0.cycle();
    i0.cycle();
    i0.cycle();
    compare_memory(&i0,0xabcd,0xef);
    compare_memory(&i0,0xabcd+1,0xbe);
    compare_registers(&i0, 0, INIT_FLAG, 0, 0, 0, 0, 0xcb, 0xda);
}

#[test]
// [1,1,1,0,1,0,0,1]
fn pchl() {
    let mut i0 = Intel8080::new();
    //                              LXI HL 0xbeef,          PCHL
    load_program(&mut i0, vec![0b00100001, 0xef, 0xbe, 0b11101001]);
    i0.cycle();
    i0.cycle();
    assert_eq!(i0.PC,0xbeef);
    compare_registers(&i0, 0, INIT_FLAG, 0, 0, 0, 0, 0xbe, 0xef);
}

#[test]
// [1,1,1,0,1,0,1,1]
fn xchg() {
    let mut i0 = Intel8080::new();
    //                              LXI DE 0xabcd,          LXI HL 0xbeef,          XCHG
    load_program(&mut i0, vec![0b00010001, 0xcd, 0xab, 0b00100001, 0xef, 0xbe, 0b11101011]);
    i0.cycle();
    i0.cycle();
    i0.cycle();
    compare_registers(&i0, 0, INIT_FLAG, 0, 0, 0xbe, 0xef, 0xab, 0xcd);
}

#[test]
// [1,1,1,1,0,0,1,1]
fn di() {
    let mut i0 = Intel8080::new();
    //                              DI
    load_program(&mut i0, vec![0b11110011]);
    i0.cycle();
    assert_eq!(i0.interrupt_enabled, false);
    compare_registers(&i0, 0, INIT_FLAG, 0, 0, 0, 0, 0, 0);
}

#[test]
// [1,1,1,1,1,0,0,1]
fn sphl() {
    let mut i0 = Intel8080::new();
    //                              LXI SP 0xabcd,          LXI HL 0xbeef,          SPHL
    load_program(&mut i0, vec![0b00110001, 0xcd, 0xab, 0b00100001, 0xef, 0xbe, 0b11111001]);
    i0.cycle();
    i0.cycle();
    i0.cycle();
    assert_eq!(i0.get_sp(),0xbeef);
    compare_registers(&i0, 0, INIT_FLAG, 0, 0, 0, 0, 0xbe, 0xef);
}

#[test]
// [1,1,1,1,1,0,1,1]
fn ei() {
    let mut i0 = Intel8080::new();
    //                              DI
    load_program(&mut i0, vec![0b11110011, 0b11111011]);
    i0.cycle();
    assert_eq!(i0.interrupt_enabled, false);
    i0.cycle();
    assert_eq!(i0.interrupt_enabled, true);
    compare_registers(&i0, 0, INIT_FLAG, 0, 0, 0, 0, 0, 0);
}

