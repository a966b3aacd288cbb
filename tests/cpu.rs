use rust8::cpu::{Crash, Fault, CPU, START_PC};
use rust8::decode::{decode, Instruction};
use rust8::display::Display;
use rust8::input::Input;
use rust8::memory::Memory;
use rust8::rom::ROM;
use rust8::sound::Sound;

fn machine(program: &[u8]) -> CPU {
    let mut mem = Memory::new();
    mem.init(&ROM::from_bytes(program.to_vec()));
    CPU::new(mem, Display::new(), Sound::new(), Input::new())
}

fn run(cpu: &mut CPU, cycles: usize) {
    for _ in 0..cycles {
        cpu.cycle_with(0);
    }
}

#[test]
fn load_add_program() {
    let mut cpu = machine(&[0x60, 0x0A, 0x61, 0x05, 0x80, 0x14]);
    run(&mut cpu, 3);
    assert_eq!(cpu.mem.v_regs[0], 15);
    assert_eq!(cpu.mem.v_regs[15], 0);
    assert_eq!(cpu.pc, 0x206);
    assert!(!cpu.crashed());
}

#[test]
fn load_add_program_with_random_source() {
    let mut cpu = machine(&[0x60, 0x0A, 0x61, 0x05, 0x80, 0x14]);
    for _ in 0..3 {
        cpu.cycle();
    }
    assert_eq!(cpu.mem.v_regs[0], 15);
    assert_eq!(cpu.mem.v_regs[15], 0);
    assert_eq!(cpu.pc, 0x206);
}

#[test]
fn bcd_of_234() {
    let mut cpu = machine(&[]);
    cpu.mem.v_regs[3] = 234;
    cpu.mem.i = 0x300;
    cpu.execute_op(0xF333, 0);
    assert_eq!(&cpu.mem.mem[0x300..0x303], &[2, 3, 4]);
    assert_eq!(cpu.mem.i, 0x300);
    assert_eq!(cpu.pc, START_PC + 2);
}

#[test]
fn bcd_pads_with_zeros() {
    let mut cpu = machine(&[]);
    cpu.mem.v_regs[0] = 7;
    cpu.mem.i = 0x400;
    cpu.execute_op(0xF033, 0);
    assert_eq!(&cpu.mem.mem[0x400..0x403], &[0, 0, 7]);
}

#[test]
fn load_round_trip_every_register() {
    for r in 0..16u16 {
        let mut cpu = machine(&[]);
        let kk = (r as u8).wrapping_mul(17).wrapping_add(3);
        cpu.execute_op(0x6000 | (r << 8) | kk as u16, 0);
        assert_eq!(cpu.mem.v_regs[r as usize], kk);
    }
}

fn add(a: u8, b: u8) -> (u8, u8) {
    let mut cpu = machine(&[]);
    cpu.execute_op(0x6200 | a as u16, 0);
    cpu.execute_op(0x6700 | b as u16, 0);
    cpu.execute_op(0x8274, 0);
    (cpu.mem.v_regs[2], cpu.mem.v_regs[15])
}

fn sub(a: u8, b: u8) -> (u8, u8) {
    let mut cpu = machine(&[]);
    cpu.execute_op(0x6200 | a as u16, 0);
    cpu.execute_op(0x6700 | b as u16, 0);
    cpu.execute_op(0x8275, 0);
    (cpu.mem.v_regs[2], cpu.mem.v_regs[15])
}

#[test]
fn add_sets_carry() {
    assert_eq!(add(10, 5), (15, 0));
    assert_eq!(add(200, 100), (44, 1));
    assert_eq!(add(255, 1), (0, 1));
    assert_eq!(add(128, 127), (255, 0));
}

#[test]
fn sub_sets_no_borrow() {
    assert_eq!(sub(10, 5), (5, 1));
    assert_eq!(sub(5, 10), (251, 0));
    assert_eq!(sub(7, 7), (0, 1));
}

#[test]
fn add_exhaustive_against_arithmetic() {
    for a in (0..=255u16).step_by(7) {
        for b in (0..=255u16).step_by(5) {
            let (v, f) = add(a as u8, b as u8);
            assert_eq!(v as u16, (a + b) % 256);
            assert_eq!(f == 1, a + b > 255);
            let (v, f) = sub(a as u8, b as u8);
            assert_eq!(v as u16, (a + 256 - b) % 256);
            assert_eq!(f == 1, a >= b);
        }
    }
}

#[test]
fn flag_register_as_destination_keeps_result() {
    let mut cpu = machine(&[]);
    cpu.mem.v_regs[15] = 200;
    cpu.mem.v_regs[1] = 100;
    cpu.execute_op(0x8F14, 0);
    assert_eq!(cpu.mem.v_regs[15], 44);
}

#[test]
fn subn_reverses_operands() {
    let mut cpu = machine(&[]);
    cpu.mem.v_regs[1] = 3;
    cpu.mem.v_regs[2] = 10;
    cpu.execute_op(0x8127, 0);
    assert_eq!(cpu.mem.v_regs[1], 7);
    assert_eq!(cpu.mem.v_regs[15], 1);
    cpu.mem.v_regs[1] = 11;
    cpu.execute_op(0x8127, 0);
    assert_eq!(cpu.mem.v_regs[1], 255);
    assert_eq!(cpu.mem.v_regs[15], 0);
}

#[test]
fn shifts_read_vy() {
    let mut cpu = machine(&[]);
    cpu.mem.v_regs[1] = 0;
    cpu.mem.v_regs[2] = 0b1000_0011;
    cpu.execute_op(0x8126, 0);
    assert_eq!(cpu.mem.v_regs[1], 0b0100_0001);
    assert_eq!(cpu.mem.v_regs[15], 1);
    cpu.execute_op(0x812E, 0);
    assert_eq!(cpu.mem.v_regs[1], 0b0000_0110);
    assert_eq!(cpu.mem.v_regs[15], 1);
    cpu.mem.v_regs[2] = 0b0100_0000;
    cpu.execute_op(0x812E, 0);
    assert_eq!(cpu.mem.v_regs[1], 0b1000_0000);
    assert_eq!(cpu.mem.v_regs[15], 0);
}

#[test]
fn shifts_in_place_when_configured() {
    let mut cpu = machine(&[]);
    cpu.shift_uses_vy = false;
    cpu.mem.v_regs[1] = 0b0000_0101;
    cpu.mem.v_regs[2] = 0xFF;
    cpu.execute_op(0x8126, 0);
    assert_eq!(cpu.mem.v_regs[1], 0b0000_0010);
    assert_eq!(cpu.mem.v_regs[15], 1);
    cpu.execute_op(0x812E, 0);
    assert_eq!(cpu.mem.v_regs[1], 0b0000_0100);
    assert_eq!(cpu.mem.v_regs[15], 0);
}

#[test]
fn logic_and_immediates() {
    let mut cpu = machine(&[]);
    cpu.mem.v_regs[1] = 0b1100;
    cpu.mem.v_regs[2] = 0b1010;
    cpu.execute_op(0x8121, 0);
    assert_eq!(cpu.mem.v_regs[1], 0b1110);
    cpu.execute_op(0x8122, 0);
    assert_eq!(cpu.mem.v_regs[1], 0b1010);
    cpu.execute_op(0x8123, 0);
    assert_eq!(cpu.mem.v_regs[1], 0);
    cpu.execute_op(0x8120, 0);
    assert_eq!(cpu.mem.v_regs[1], 0b1010);
    cpu.mem.v_regs[15] = 9;
    cpu.execute_op(0x71FF, 0);
    assert_eq!(cpu.mem.v_regs[1], 9);
    assert_eq!(cpu.mem.v_regs[15], 9);
    assert_eq!(cpu.pc, START_PC + 10);
}

#[test]
fn skips() {
    let mut cpu = machine(&[]);
    cpu.mem.v_regs[1] = 5;
    cpu.mem.v_regs[2] = 5;
    cpu.execute_op(0x3105, 0);
    assert_eq!(cpu.pc, 0x204);
    cpu.execute_op(0x3106, 0);
    assert_eq!(cpu.pc, 0x206);
    cpu.execute_op(0x4106, 0);
    assert_eq!(cpu.pc, 0x20A);
    cpu.execute_op(0x5120, 0);
    assert_eq!(cpu.pc, 0x20E);
    cpu.execute_op(0x9120, 0);
    assert_eq!(cpu.pc, 0x210);
}

#[test]
fn jumps_calls_and_returns() {
    let mut cpu = machine(&[]);
    cpu.execute_op(0x1345, 0);
    assert_eq!(cpu.pc, 0x345);
    cpu.pc = 0x300;
    cpu.execute_op(0x2400, 0);
    assert_eq!(cpu.pc, 0x400);
    assert_eq!(cpu.mem.sp, 1);
    assert_eq!(cpu.mem.stack[0], 0x302);
    cpu.execute_op(0x00EE, 0);
    assert_eq!(cpu.pc, 0x302);
    assert_eq!(cpu.mem.sp, 0);
    cpu.mem.v_regs[0] = 0x10;
    cpu.execute_op(0xB300, 0);
    assert_eq!(cpu.pc, 0x310);
}

#[test]
fn index_register_ops() {
    let mut cpu = machine(&[]);
    cpu.execute_op(0xA123, 0);
    assert_eq!(cpu.mem.i, 0x123);
    cpu.mem.v_regs[4] = 0x10;
    cpu.execute_op(0xF41E, 0);
    assert_eq!(cpu.mem.i, 0x133);
    cpu.mem.v_regs[4] = 0x1B;
    cpu.execute_op(0xF429, 0);
    assert_eq!(cpu.mem.i, 5 * 0xB);
}

#[test]
fn font_glyph_address_reads_glyph() {
    let mut cpu = machine(&[]);
    cpu.mem.v_regs[0] = 8;
    cpu.execute_op(0xF029, 0);
    let at = cpu.mem.i as usize;
    assert_eq!(&cpu.mem.mem[at..at + 5], &[0xF0, 0x90, 0xF0, 0x90, 0xF0]);
}

#[test]
fn store_and_load_registers() {
    let mut cpu = machine(&[]);
    for r in 0..16 {
        cpu.mem.v_regs[r] = (r as u8) * 3 + 1;
    }
    cpu.mem.i = 0x500;
    cpu.execute_op(0xF355, 0);
    assert_eq!(&cpu.mem.mem[0x500..0x505], &[1, 4, 7, 10, 0]);
    assert_eq!(cpu.mem.i, 0x500);
    cpu.mem.mem[0x600..0x603].copy_from_slice(&[9, 8, 7]);
    cpu.mem.i = 0x600;
    cpu.execute_op(0xF265, 0);
    assert_eq!(&cpu.mem.v_regs[0..4], &[9, 8, 7, 10]);
}

#[test]
fn random_masks_the_drawn_byte() {
    let mut cpu = machine(&[]);
    cpu.execute_op(0xC30F, 0xAB);
    assert_eq!(cpu.mem.v_regs[3], 0x0B);
    cpu.decode_and_execute(0xC400);
    assert_eq!(cpu.mem.v_regs[4], 0);
    for _ in 0..20 {
        cpu.decode_and_execute(0xC50F);
        assert!(cpu.mem.v_regs[5] <= 0x0F);
    }
}

#[test]
fn keys_skip() {
    let mut cpu = machine(&[]);
    cpu.mem.v_regs[1] = 0xA;
    cpu.input.key_down(0xA);
    cpu.execute_op(0xE19E, 0);
    assert_eq!(cpu.pc, 0x204);
    cpu.execute_op(0xE1A1, 0);
    assert_eq!(cpu.pc, 0x206);
    cpu.input.key_up(0xA);
    cpu.execute_op(0xE1A1, 0);
    assert_eq!(cpu.pc, 0x20A);
}

#[test]
fn key_wait_blocks_until_press() {
    let mut cpu = machine(&[0xF3, 0x0A]);
    cpu.input.key_down(7);
    run(&mut cpu, 1);
    assert!(cpu.waiting_for_key);
    assert_eq!(cpu.pc, 0x200);
    run(&mut cpu, 5);
    assert_eq!(cpu.pc, 0x200);
    cpu.input.key_down(0xC);
    run(&mut cpu, 1);
    assert_eq!(cpu.pc, 0x202);
    assert_eq!(cpu.mem.v_regs[3], 0xC);
    assert!(!cpu.waiting_for_key);
}

#[test]
fn timer_instructions() {
    let mut cpu = machine(&[]);
    cpu.mem.v_regs[2] = 42;
    cpu.execute_op(0xF215, 0);
    assert_eq!(cpu.sound.dt, 42);
    cpu.execute_op(0xF218, 0);
    assert_eq!(cpu.sound.st, 42);
    cpu.sound.dt = 17;
    cpu.execute_op(0xF507, 0);
    assert_eq!(cpu.mem.v_regs[5], 17);
}

#[test]
fn cycles_pace_the_delay_timer() {
    // LD V0, 5; LD DT, V0; then a jump to itself
    let mut cpu = machine(&[0x60, 0x05, 0xF0, 0x15, 0x12, 0x04]);
    cpu.freq = 300;
    run(&mut cpu, 1);
    // the cycle that loads the timer is the first one counted
    for k in 1..=25u32 {
        run(&mut cpu, 1);
        assert_eq!(cpu.sound.dt as u32, 5 - k / 5);
    }
    assert_eq!(cpu.sound.dt, 0);
    run(&mut cpu, 10);
    assert_eq!(cpu.sound.dt, 0);
}

#[test]
fn draw_instruction_reads_sprite_from_memory() {
    let mut cpu = machine(&[]);
    cpu.mem.v_regs[0] = 0;
    cpu.execute_op(0xF029, 0);
    cpu.mem.v_regs[1] = 62;
    cpu.mem.v_regs[2] = 30;
    cpu.execute_op(0xD125, 0);
    // glyph 0: F0 90 90 90 F0 at (62, 30), wrapping both ways
    assert!(cpu.disp.pixel(62, 30));
    assert!(cpu.disp.pixel(63, 30));
    assert!(cpu.disp.pixel(0, 30));
    assert!(cpu.disp.pixel(1, 30));
    assert!(!cpu.disp.pixel(2, 30));
    assert!(cpu.disp.pixel(62, 31));
    assert!(!cpu.disp.pixel(63, 31));
    assert!(cpu.disp.pixel(1, 0));
    assert!(cpu.disp.pixel(62, 2));
    assert_eq!(cpu.mem.v_regs[15], 0);
    cpu.execute_op(0xD125, 0);
    assert_eq!(cpu.mem.v_regs[15], 1);
    assert!(!cpu.disp.pixel(62, 30));
    cpu.execute_op(0xD125, 0);
    cpu.execute_op(0x00E0, 0);
    assert!(!cpu.disp.pixel(62, 30));
    assert_eq!(cpu.pc, START_PC + 10);
}

#[test]
fn unknown_words_crash() {
    for op in [0x0123u16, 0x8008, 0x800F, 0xE19F, 0xF0FF, 0x0000] {
        let mut cpu = machine(&[]);
        cpu.execute_op(op, 0);
        assert_eq!(
            cpu.crash,
            Some(Crash { fault: Fault::BadOpcode, op, pc: START_PC })
        );
        assert_eq!(cpu.pc, START_PC);
    }
}

#[test]
fn crashed_machine_stops() {
    let mut cpu = machine(&[0xFF, 0xFF, 0x60, 0x01]);
    run(&mut cpu, 3);
    assert!(cpu.crashed());
    assert_eq!(cpu.pc, START_PC);
    assert_eq!(cpu.mem.v_regs[0], 0);
}

#[test]
fn return_without_call_underflows() {
    let mut cpu = machine(&[0x00, 0xEE]);
    run(&mut cpu, 1);
    assert_eq!(
        cpu.crash,
        Some(Crash { fault: Fault::StackUnderflow, op: 0x00EE, pc: START_PC })
    );
}

#[test]
fn deep_calls_overflow() {
    // calls itself forever
    let mut cpu = machine(&[0x22, 0x00]);
    run(&mut cpu, 16);
    assert!(!cpu.crashed());
    assert_eq!(cpu.mem.sp, 16);
    assert!(cpu.mem.stack.iter().all(|&a| a == 0x202));
    run(&mut cpu, 1);
    assert_eq!(
        cpu.crash,
        Some(Crash { fault: Fault::StackOverflow, op: 0x2200, pc: START_PC })
    );
    assert_eq!(cpu.mem.sp, 16);
}

#[test]
fn accesses_past_memory_crash() {
    let mut cpu = machine(&[]);
    cpu.mem.i = 0xFFE;
    cpu.execute_op(0xF033, 0);
    assert_eq!(cpu.crash.map(|c| c.fault), Some(Fault::AddressOutOfRange));
    assert_eq!(cpu.mem.mem[0xFFE], 0);

    let mut cpu = machine(&[]);
    cpu.mem.i = 0xFFD;
    cpu.execute_op(0xD014, 0);
    assert_eq!(cpu.crash.map(|c| c.fault), Some(Fault::AddressOutOfRange));

    let mut cpu = machine(&[]);
    cpu.mem.i = 0xFFC;
    cpu.execute_op(0xF465, 0);
    assert_eq!(cpu.crash.map(|c| c.fault), Some(Fault::AddressOutOfRange));
    cpu.crash = None;
    cpu.execute_op(0xF365, 0);
    assert_eq!(cpu.crash, None);

    let mut cpu = machine(&[]);
    cpu.mem.v_regs[0] = 16;
    cpu.execute_op(0xE09E, 0);
    assert_eq!(cpu.crash.map(|c| c.fault), Some(Fault::AddressOutOfRange));
}

#[test]
fn fetch_past_memory_crashes() {
    let mut cpu = machine(&[]);
    cpu.pc = 0xFFF;
    run(&mut cpu, 1);
    assert_eq!(
        cpu.crash,
        Some(Crash { fault: Fault::AddressOutOfRange, op: 0, pc: 0xFFF })
    );
}

#[test]
fn fetch_is_big_endian() {
    let cpu = machine(&[0xAB, 0xCD]);
    assert_eq!(cpu.fetch(), 0xABCD);
}

#[test]
fn decode_table() {
    assert_eq!(decode(0x00E0), Some(Instruction::Cls));
    assert_eq!(decode(0x00EE), Some(Instruction::Ret));
    assert_eq!(decode(0x1ABC), Some(Instruction::Jp(0xABC)));
    assert_eq!(decode(0x2ABC), Some(Instruction::Call(0xABC)));
    assert_eq!(decode(0x3A12), Some(Instruction::Sei(0xA, 0x12)));
    assert_eq!(decode(0x8AB6), Some(Instruction::Shr(0xA, 0xB)));
    assert_eq!(decode(0x8ABE), Some(Instruction::Shl(0xA, 0xB)));
    assert_eq!(decode(0xD12F), Some(Instruction::Drw(1, 2, 0xF)));
    assert_eq!(decode(0xE59E), Some(Instruction::Skp(5)));
    assert_eq!(decode(0xE5A1), Some(Instruction::Sknp(5)));
    assert_eq!(decode(0xF50A), Some(Instruction::Ldk(5)));
    assert_eq!(decode(0xF565), Some(Instruction::Ldseq(5)));
    assert_eq!(decode(0x8AB8), None);
    assert_eq!(decode(0xF566), None);
    assert_eq!(decode(0x00E1), None);
}

#[test]
fn init_loads_font_and_program() {
    let mut mem = Memory::new();
    mem.init(&ROM::from_bytes(vec![1, 2, 3]));
    assert_eq!(&mem.mem[0..5], &[0xF0, 0x90, 0x90, 0x90, 0xF0]);
    assert_eq!(&mem.mem[75..80], &[0xF0, 0x80, 0xF0, 0x80, 0x80]);
    assert_eq!(mem.mem[80], 0);
    assert_eq!(&mem.mem[0x200..0x204], &[1, 2, 3, 0]);
    let mut full = Memory::new();
    full.init(&ROM::from_bytes(vec![0xEE; 3584]));
    assert_eq!(full.mem[4095], 0xEE);
}

#[test]
fn cycle_period_follows_rate() {
    let mut cpu = machine(&[]);
    assert_eq!(cpu.cycle_period_ns(), 16_666_666);
    cpu.freq = 500;
    assert_eq!(cpu.cycle_period_ns(), 2_000_000);
}

#[test]
fn sixteen_nested_calls_unwind() {
    let mut cpu = machine(&[]);
    for k in 0..16u16 {
        cpu.pc = 0x300 + 2 * k;
        cpu.execute_op(0x2800, 0);
        assert!(!cpu.crashed());
    }
    assert_eq!(cpu.mem.sp, 16);
    for k in (0..16u16).rev() {
        cpu.execute_op(0x00EE, 0);
        assert_eq!(cpu.pc, 0x302 + 2 * k);
    }
    assert_eq!(cpu.mem.sp, 0);
    cpu.execute_op(0x00EE, 0);
    assert_eq!(cpu.crash.map(|c| c.fault), Some(Fault::StackUnderflow));
}

#[test]
fn crashed_machine_ignores_instructions() {
    let mut cpu = machine(&[]);
    cpu.execute_op(0xFFFF, 0);
    let crash = cpu.crash;
    assert!(crash.is_some());
    cpu.decode_and_execute(0x6005);
    assert_eq!(cpu.mem.v_regs[0], 0);
    assert_eq!(cpu.pc, START_PC);
    cpu.execute_op(0x1400, 0);
    cpu.execute_op(0x00EE, 0);
    assert_eq!(cpu.pc, START_PC);
    assert_eq!(cpu.crash, crash);
}
