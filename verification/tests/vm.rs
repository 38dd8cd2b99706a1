use emu_pegasus::machine::{ORIGIN, STACK_RESET};
use emu_pegasus::vm::Vm;

const KNOWN: [(u8, u16); 16] = [
    (0xA9, 2),
    (0xA2, 2),
    (0xA0, 2),
    (0xA5, 2),
    (0xA6, 2),
    (0xA4, 2),
    (0xB5, 2),
    (0xB4, 2),
    (0xAD, 3),
    (0xAE, 3),
    (0xAC, 3),
    (0xBD, 3),
    (0xBC, 3),
    (0x85, 2),
    (0x86, 2),
    (0x84, 2),
];

fn length_of(opcode: u8) -> Option<u16> {
    KNOWN.iter().find(|(op, _)| *op == opcode).map(|(_, len)| *len)
}

fn registers(vm: &Vm) -> (u8, u8, u8, u16, u16) {
    (vm.a, vm.x, vm.y, vm.sp, vm.pc)
}

#[test]
fn reset_values() {
    assert_eq!(ORIGIN, 0x0C00);
    assert_eq!(STACK_RESET, 0x0100);
    let vm = Vm::new(Vec::new());
    assert_eq!(registers(&vm), (0, 0, 0, 0x0100, 0x0C00));
}

#[test]
fn program_is_placed_at_the_origin() {
    let vm = Vm::new(vec![0xA9, 0x42, 0xFF]);
    assert_eq!(vm.ram.read(0x0BFF), 0x00);
    assert_eq!(vm.ram.read(0x0C00), 0xA9);
    assert_eq!(vm.ram.read(0x0C01), 0x42);
    assert_eq!(vm.ram.read(0x0C02), 0xFF);
    assert_eq!(vm.ram.read(0x0C03), 0x00);
}

#[test]
fn load_immediate() {
    let mut vm = Vm::new(vec![0xA9, 0x42]);
    assert_eq!(vm.a, 0x00);
    assert!(vm.exec_opcode());
    assert_eq!(vm.a, 0x42);
    assert_eq!(vm.pc, ORIGIN + 2);
    assert_eq!((vm.x, vm.y, vm.sp), (0, 0, 0x0100));
}

#[test]
fn load_immediate_into_x_and_y() {
    let mut vm = Vm::new(vec![0xA2, 0x11, 0xA0, 0x22]);
    assert!(vm.exec_opcode());
    assert_eq!(registers(&vm), (0, 0x11, 0, 0x0100, ORIGIN + 2));
    assert!(vm.exec_opcode());
    assert_eq!(registers(&vm), (0, 0x11, 0x22, 0x0100, ORIGIN + 4));
}

#[test]
fn load_zero_page() {
    let mut vm = Vm::new(vec![0xA5, 0x10]);
    vm.ram.write(0x0010, 0x7F);
    assert!(vm.exec_opcode());
    assert_eq!(vm.a, 0x7F);
    assert_eq!(vm.pc, ORIGIN + 2);
}

#[test]
fn load_zero_page_into_x_and_y() {
    let mut vm = Vm::new(vec![0xA6, 0x10, 0xA4, 0x11]);
    vm.ram.write(0x0010, 0x31);
    vm.ram.write(0x0011, 0x32);
    assert!(vm.exec_opcode());
    assert!(vm.exec_opcode());
    assert_eq!(registers(&vm), (0, 0x31, 0x32, 0x0100, ORIGIN + 4));
}

#[test]
fn zero_page_index_wraps_within_eight_bits() {
    let mut vm = Vm::new(vec![0xB5, 0x01]);
    vm.x = 0xFF;
    vm.ram.write(0x0000, 0x11);
    vm.ram.write(0x0100, 0x22);
    vm.ram.write(0x0101, 0x33);
    assert!(vm.exec_opcode());
    assert_eq!(vm.a, 0x11);
    assert_eq!(vm.pc, ORIGIN + 2);
}

#[test]
fn zero_page_indexed_without_carry() {
    let mut vm = Vm::new(vec![0xB4, 0x20, 0xB5, 0x20]);
    vm.x = 0x05;
    vm.ram.write(0x0025, 0x99);
    vm.ram.write(0x0020, 0x01);
    assert!(vm.exec_opcode());
    assert_eq!(vm.y, 0x99);
    assert!(vm.exec_opcode());
    assert_eq!(vm.a, 0x99);
    assert_eq!(vm.x, 0x05);
    assert_eq!(vm.pc, ORIGIN + 4);
}

#[test]
fn load_absolute_composes_low_then_high() {
    let mut vm = Vm::new(vec![0xAD, 0x34, 0x12, 0xAE, 0x35, 0x12, 0xAC, 0x36, 0x12]);
    vm.ram.write(0x1234, 0xA1);
    vm.ram.write(0x1235, 0xA2);
    vm.ram.write(0x1236, 0xA3);
    vm.ram.write(0x3412, 0xEE);
    assert!(vm.exec_opcode());
    assert_eq!(registers(&vm), (0xA1, 0, 0, 0x0100, ORIGIN + 3));
    assert!(vm.exec_opcode());
    assert_eq!(registers(&vm), (0xA1, 0xA2, 0, 0x0100, ORIGIN + 6));
    assert!(vm.exec_opcode());
    assert_eq!(registers(&vm), (0xA1, 0xA2, 0xA3, 0x0100, ORIGIN + 9));
}

#[test]
fn absolute_index_is_added_to_the_full_address() {
    let mut vm = Vm::new(vec![0xBD, 0xFF, 0x12, 0xBC, 0x00, 0x20]);
    vm.x = 0x02;
    vm.ram.write(0x1301, 0x77);
    vm.ram.write(0x1201, 0x66);
    vm.ram.write(0x2002, 0x55);
    assert!(vm.exec_opcode());
    assert_eq!(vm.a, 0x77);
    assert_eq!(vm.pc, ORIGIN + 3);
    assert!(vm.exec_opcode());
    assert_eq!(vm.y, 0x55);
    assert_eq!(vm.pc, ORIGIN + 6);
}

#[test]
fn absolute_index_wraps_within_sixteen_bits() {
    let mut vm = Vm::new(vec![0xBD, 0xFF, 0xFF]);
    vm.x = 0x02;
    vm.ram.write(0x0001, 0x5A);
    assert!(vm.exec_opcode());
    assert_eq!(vm.a, 0x5A);
    assert_eq!(vm.pc, ORIGIN + 3);
}

#[test]
fn store_each_register_to_zero_page() {
    let mut vm = Vm::new(vec![0x85, 0x10, 0x86, 0x11, 0x84, 0x12]);
    vm.a = 0x0A;
    vm.x = 0x0B;
    vm.y = 0x0C;
    assert!(vm.exec_opcode());
    assert!(vm.exec_opcode());
    assert!(vm.exec_opcode());
    assert_eq!(vm.ram.read(0x0010), 0x0A);
    assert_eq!(vm.ram.read(0x0011), 0x0B);
    assert_eq!(vm.ram.read(0x0012), 0x0C);
    assert_eq!(vm.ram.read(0x0013), 0x00);
    assert_eq!(registers(&vm), (0x0A, 0x0B, 0x0C, 0x0100, ORIGIN + 6));
}

#[test]
fn store_then_load_round_trip() {
    let mut vm = Vm::new(Vec::new());
    for a in 0..=u8::MAX {
        for z in 0..=u8::MAX {
            vm.a = a;
            vm.y = !a;
            assert!(vm.exec_st_reg_zp(0x85, z));
            assert!(vm.exec_ld_reg_zp(0xA4, z));
            assert_eq!(vm.y, a);
            assert_eq!(vm.a, a);
        }
    }
}

#[test]
fn halt_on_unknown_opcode() {
    let mut vm = Vm::new(vec![0xFF]);
    let mut executed: u32 = 0;
    while vm.exec_opcode() {
        executed += 1;
    }
    assert_eq!(executed, 0);
    assert_eq!(registers(&vm), (0, 0, 0, 0x0100, 0x0C00));
    assert_eq!(vm.ram.read(0x0C00), 0xFF);
}

#[test]
fn halted_machine_stays_halted() {
    let mut vm = Vm::new(vec![0xA9, 0x01, 0x02]);
    assert!(vm.exec_opcode());
    assert!(!vm.exec_opcode());
    let before = registers(&vm);
    assert!(!vm.exec_opcode());
    assert!(!vm.exec_opcode());
    assert_eq!(registers(&vm), before);
    assert_eq!(before, (0x01, 0, 0, 0x0100, ORIGIN + 2));
}

#[test]
fn end_to_end_scenario() {
    let mut vm = Vm::new(vec![0xA9, 0x05, 0x85, 0x10, 0xA5, 0x10]);

    assert!(vm.exec_opcode());
    assert_eq!(vm.a, 0x05);
    assert_eq!(vm.pc, ORIGIN + 2);

    assert!(vm.exec_opcode());
    assert_eq!(vm.ram.read(0x0010), 0x05);
    assert_eq!(vm.pc, ORIGIN + 4);

    assert!(vm.exec_opcode());
    assert_eq!(vm.a, 0x05);
    assert_eq!(vm.pc, ORIGIN + 6);

    assert!(!vm.exec_opcode());
    assert_eq!(registers(&vm), (0x05, 0, 0, 0x0100, ORIGIN + 6));
}

#[test]
fn opcode_table_and_instruction_lengths() {
    for opcode in 0..=u8::MAX {
        let mut vm = Vm::new(vec![opcode, 0x00, 0x00]);
        let running = vm.exec_opcode();
        match length_of(opcode) {
            Some(len) => {
                assert!(running, "opcode {:#04x}", opcode);
                assert_eq!(vm.pc, ORIGIN + len, "opcode {:#04x}", opcode);
            }
            None => {
                assert!(!running, "opcode {:#04x}", opcode);
                assert_eq!(vm.pc, ORIGIN, "opcode {:#04x}", opcode);
            }
        }
        assert_eq!(vm.sp, 0x0100);
    }
}

fn check_family(run: fn(&mut Vm, u8, u8) -> bool, family: &[u8]) {
    for opcode in 0..=u8::MAX {
        let mut vm = Vm::new(Vec::new());
        vm.a = 0x01;
        vm.x = 0x02;
        vm.y = 0x03;
        let before = registers(&vm);
        let done = run(&mut vm, opcode, 0x40);
        assert_eq!(done, family.contains(&opcode), "opcode {:#04x}", opcode);
        if !done {
            assert_eq!(registers(&vm), before);
            assert_eq!(vm.ram.read(0x0040), 0x00);
        }
    }
}

#[test]
fn each_family_takes_its_own_opcodes_only() {
    check_family(Vm::exec_ld_reg_imm, &[0xA0, 0xA2, 0xA9]);
    check_family(Vm::exec_ld_reg_zp, &[0xA4, 0xA5, 0xA6]);
    check_family(Vm::exec_ld_reg_zpx, &[0xB4, 0xB5]);
    check_family(Vm::exec_ld_reg_abs, &[0xAC, 0xAD, 0xAE]);
    check_family(Vm::exec_ld_reg_abs_x, &[0xBC, 0xBD]);
    check_family(Vm::exec_st_reg_zp, &[0x84, 0x85, 0x86]);
}

#[test]
fn family_functions_take_the_first_operand_byte_as_given() {
    let mut vm = Vm::new(vec![0xA9, 0x01]);
    assert!(vm.exec_ld_reg_imm(0xA2, 0x99));
    assert_eq!(registers(&vm), (0, 0x99, 0, 0x0100, ORIGIN + 2));

    // The high byte of an absolute address comes from the bus, two places
    // after the opcode.
    let mut vm = Vm::new(vec![0xAD, 0x00, 0x12]);
    vm.ram.write(0x1234, 0x4D);
    assert!(vm.exec_ld_reg_abs(0xAD, 0x34));
    assert_eq!(registers(&vm), (0x4D, 0, 0, 0x0100, ORIGIN + 3));

    let mut vm = Vm::new(vec![0xBC, 0x00, 0x12]);
    vm.x = 0x10;
    vm.ram.write(0x1244, 0x4E);
    assert!(vm.exec_ld_reg_abs_x(0xBC, 0x34));
    assert_eq!(registers(&vm), (0, 0x10, 0x4E, 0x0100, ORIGIN + 3));
}

#[test]
fn program_counter_wraps_at_the_top_of_memory() {
    let mut vm = Vm::new(Vec::new());
    vm.ram.write(0xFFFF, 0xA9);
    vm.ram.write(0x0000, 0x42);
    vm.pc = 0xFFFF;
    assert!(vm.exec_opcode());
    assert_eq!(vm.a, 0x42);
    assert_eq!(vm.pc, 0x0001);
}

#[test]
fn operand_bytes_are_fetched_across_the_top_of_memory() {
    let mut vm = Vm::new(Vec::new());
    vm.ram.write(0xFFFE, 0xAD);
    vm.ram.write(0xFFFF, 0x34);
    vm.ram.write(0x0000, 0x12);
    vm.ram.write(0x1234, 0x6B);
    vm.pc = 0xFFFE;
    assert!(vm.exec_opcode());
    assert_eq!(vm.a, 0x6B);
    assert_eq!(vm.pc, 0x0001);
}

#[test]
fn a_store_can_rewrite_the_program() {
    let mut vm = Vm::new(Vec::new());
    vm.ram.load_data(0x0000, vec![0x85, 0x02, 0xFF, 0x07]);
    vm.pc = 0x0000;
    vm.a = 0xA9;
    assert!(vm.exec_opcode());
    assert_eq!(vm.ram.read(0x0002), 0xA9);
    assert!(vm.exec_opcode());
    assert_eq!(vm.a, 0x07);
    assert_eq!(vm.pc, 0x0004);
    assert!(!vm.exec_opcode());
}
