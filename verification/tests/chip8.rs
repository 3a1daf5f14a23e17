use chip8::cpu::{Chip8, Fault, FaultKind};
use chip8::gpu::Gpu;
use chip8::keyboard::Keyboard;

fn fresh() -> Chip8 {
    Chip8::new()
}

#[test]
fn new_state_is_powered_on() {
    let c = fresh();
    assert_eq!(c.program_counter, 0x200);
    assert_eq!(c.index_register, 0);
    assert_eq!(c.stack_pointer, 0);
    assert_eq!(c.delay_timer, 0);
    assert_eq!(c.sound_timer, 0);
    assert_eq!(c.memory.len(), 4096);
    assert_eq!(c.value_registers.len(), 16);
    assert_eq!(c.stack.len(), 16);
    for v in c.value_registers.iter() {
        assert_eq!(*v, 0);
    }
    // The font is resident below 0x50: glyph 0 starts 0xF0, glyph F ends 0x80.
    assert_eq!(c.memory[0], 0xF0);
    assert_eq!(c.memory[79], 0x80);
    // Above the font everything is zero.
    assert_eq!(c.memory[80], 0);
    assert_eq!(c.memory[0x200], 0);
}

#[test]
fn load_rom_places_bytes_at_0x200() {
    let mut c = fresh();
    let rom = vec![0xAB, 0xCD, 0x12];
    c.load_rom(&rom);
    assert_eq!(c.memory[0x200], 0xAB);
    assert_eq!(c.memory[0x201], 0xCD);
    assert_eq!(c.memory[0x202], 0x12);
    assert_eq!(c.memory[0x203], 0);
    // The font below stays put.
    assert_eq!(c.memory[0], 0xF0);
}

// Register-to-register add: result (Vx + Vy) mod 256, flag 1 iff the true
// sum reached 256.
#[test]
fn add_vx_vy_wraps_and_sets_flag() {
    let mut c = fresh();
    c.value_registers[1] = 200;
    c.value_registers[2] = 100;
    c.op_add_vx_vy(1, 2);
    assert_eq!(c.value_registers[1], 44); // (200 + 100) % 256
    assert_eq!(c.value_registers[0xF], 1);

    c.value_registers[3] = 20;
    c.value_registers[4] = 30;
    c.op_add_vx_vy(3, 4);
    assert_eq!(c.value_registers[3], 50);
    assert_eq!(c.value_registers[0xF], 0);

    // Exactly 256 overflows to 0 with the flag set.
    c.value_registers[5] = 128;
    c.value_registers[6] = 128;
    c.op_add_vx_vy(5, 6);
    assert_eq!(c.value_registers[5], 0);
    assert_eq!(c.value_registers[0xF], 1);
}

// Immediate add wraps but never touches the flag register.
#[test]
fn add_vx_kk_leaves_flag_alone() {
    let mut c = fresh();
    c.value_registers[0xF] = 7;
    c.value_registers[2] = 250;
    c.op_add_vx_kk(2, 10);
    assert_eq!(c.value_registers[2], 4); // (250 + 10) % 256
    assert_eq!(c.value_registers[0xF], 7); // untouched
}

// Subtract: flag 1 iff Vx > Vy strictly, result wraps modulo 256.
#[test]
fn sub_vx_vy_flag_is_strict_no_borrow() {
    let mut c = fresh();
    c.value_registers[1] = 10;
    c.value_registers[2] = 3;
    c.op_sub_vx_vy(1, 2);
    assert_eq!(c.value_registers[1], 7);
    assert_eq!(c.value_registers[0xF], 1);

    c.value_registers[3] = 3;
    c.value_registers[4] = 10;
    c.op_sub_vx_vy(3, 4);
    assert_eq!(c.value_registers[3], 249); // (3 - 10) mod 256
    assert_eq!(c.value_registers[0xF], 0);

    // Equal operands: flag 0 (not strictly greater), result 0.
    c.value_registers[5] = 42;
    c.value_registers[6] = 42;
    c.op_sub_vx_vy(5, 6);
    assert_eq!(c.value_registers[5], 0);
    assert_eq!(c.value_registers[0xF], 0);
}

#[test]
fn subn_vx_vy_reverses_operands() {
    let mut c = fresh();
    c.value_registers[1] = 3;
    c.value_registers[2] = 10;
    c.op_subn_vx_vy(1, 2);
    assert_eq!(c.value_registers[1], 7); // Vy - Vx
    assert_eq!(c.value_registers[0xF], 1); // Vy > Vx

    c.value_registers[3] = 10;
    c.value_registers[4] = 3;
    c.op_subn_vx_vy(3, 4);
    assert_eq!(c.value_registers[3], 249);
    assert_eq!(c.value_registers[0xF], 0);
}

// Shift right of 0b00000011 gives 0b00000001 with flag 1; shift left of
// 0b10000001 gives 0b00000010 with flag 1.
#[test]
fn shifts_move_the_dropped_bit_into_the_flag() {
    let mut c = fresh();
    c.value_registers[1] = 0b0000_0011;
    c.op_shr_vx(1);
    assert_eq!(c.value_registers[1], 0b0000_0001);
    assert_eq!(c.value_registers[0xF], 1);

    c.value_registers[2] = 0b1000_0001;
    c.op_shl_vx(2);
    assert_eq!(c.value_registers[2], 0b0000_0010);
    assert_eq!(c.value_registers[0xF], 1);

    // And the flag is 0 when the dropped bit is clear.
    c.value_registers[3] = 0b0000_0100;
    c.op_shr_vx(3);
    assert_eq!(c.value_registers[3], 0b0000_0010);
    assert_eq!(c.value_registers[0xF], 0);

    c.value_registers[4] = 0b0100_0000;
    c.op_shl_vx(4);
    assert_eq!(c.value_registers[4], 0b1000_0000);
    assert_eq!(c.value_registers[0xF], 0);
}

#[test]
fn bitwise_ops_leave_flag_alone() {
    let mut c = fresh();
    c.value_registers[0xF] = 9;
    c.value_registers[1] = 0b1010;
    c.value_registers[2] = 0b0110;
    c.op_or_vx_vy(1, 2);
    assert_eq!(c.value_registers[1], 0b1110);
    c.value_registers[1] = 0b1010;
    c.op_and_vx_vy(1, 2);
    assert_eq!(c.value_registers[1], 0b0010);
    c.value_registers[1] = 0b1010;
    c.op_xor_vx_vy(1, 2);
    assert_eq!(c.value_registers[1], 0b1100);
    assert_eq!(c.value_registers[0xF], 9);
}

// Call from 0x202 (the host has already advanced past the call opcode to
// 0x204 when the call executes) then return: the counter comes back to
// 0x204 and the stack depth to its pre-call value.
#[test]
fn call_then_return_restores_the_next_instruction() {
    let mut c = fresh();
    c.program_counter = 0x202;
    // Host fetch: advance past the two opcode bytes, then execute the call.
    c.program_counter += 2;
    assert_eq!(c.execute_op(0x2300), Ok(()));
    assert_eq!(c.program_counter, 0x300);
    assert_eq!(c.stack_pointer, 1);
    // Host fetch of the return at 0x300, then execute it.
    c.program_counter += 2;
    assert_eq!(c.execute_op(0x00EE), Ok(()));
    assert_eq!(c.program_counter, 0x204);
    assert_eq!(c.stack_pointer, 0);
}

#[test]
fn return_on_empty_stack_is_a_fault() {
    let mut c = fresh();
    c.program_counter = 0x220;
    let r = c.execute_op(0x00EE);
    assert_eq!(
        r,
        Err(Fault {
            kind: FaultKind::StackUnderflow,
            op_code: 0x00EE,
            program_counter: 0x220,
        })
    );
    // The fault leaves the state untouched.
    assert_eq!(c.program_counter, 0x220);
    assert_eq!(c.stack_pointer, 0);
}

#[test]
fn call_on_full_stack_is_a_fault() {
    let mut c = fresh();
    for _ in 0..16 {
        assert_eq!(c.execute_op(0x2300), Ok(()));
    }
    assert_eq!(c.stack_pointer, 16);
    let pc = c.program_counter;
    let r = c.execute_op(0x2400);
    assert_eq!(
        r,
        Err(Fault {
            kind: FaultKind::StackOverflow,
            op_code: 0x2400,
            program_counter: pc,
        })
    );
    assert_eq!(c.stack_pointer, 16);
}

// SE Vx, kk: the executor adds 2 when Vx == kk, so with the caller's own
// unconditional +2 the counter nets +4 on a match and +2 otherwise.
#[test]
fn skip_equal_advances_by_four_net() {
    let mut c = fresh();
    c.value_registers[3] = 0x42;

    c.program_counter = 0x200;
    c.program_counter += 2; // the caller's unconditional advance
    assert_eq!(c.execute_op(0x3342), Ok(())); // V3 == 0x42: skip
    assert_eq!(c.program_counter, 0x204);

    c.program_counter = 0x200;
    c.program_counter += 2;
    assert_eq!(c.execute_op(0x3341), Ok(())); // V3 != 0x41: no skip
    assert_eq!(c.program_counter, 0x202);
}

#[test]
fn skip_not_equal_and_register_variants() {
    let mut c = fresh();
    c.value_registers[1] = 5;
    c.value_registers[2] = 5;
    c.value_registers[3] = 9;

    c.program_counter = 0x300;
    assert_eq!(c.execute_op(0x4105), Ok(())); // SNE V1, 05: equal, no skip
    assert_eq!(c.program_counter, 0x300);
    assert_eq!(c.execute_op(0x4106), Ok(())); // not equal: skip
    assert_eq!(c.program_counter, 0x302);

    c.program_counter = 0x300;
    assert_eq!(c.execute_op(0x5120), Ok(())); // SE V1, V2: equal, skip
    assert_eq!(c.program_counter, 0x302);
    assert_eq!(c.execute_op(0x5130), Ok(())); // V1 != V3: no skip
    assert_eq!(c.program_counter, 0x302);

    c.program_counter = 0x300;
    assert_eq!(c.execute_op(0x9130), Ok(())); // SNE V1, V3: differ, skip
    assert_eq!(c.program_counter, 0x302);
    assert_eq!(c.execute_op(0x9120), Ok(())); // equal: no skip
    assert_eq!(c.program_counter, 0x302);
}

#[test]
fn jumps_set_the_counter_directly() {
    let mut c = fresh();
    assert_eq!(c.execute_op(0x1ABC), Ok(()));
    assert_eq!(c.program_counter, 0xABC);

    c.value_registers[0] = 0x10;
    assert_eq!(c.execute_op(0xB200), Ok(()));
    assert_eq!(c.program_counter, 0x210);

    // The 0nnn system jump behaves as a jump too.
    assert_eq!(c.execute_op(0x0456), Ok(()));
    assert_eq!(c.program_counter, 0x456);
}

#[test]
fn loads_and_timers_transfer_directly() {
    let mut c = fresh();
    assert_eq!(c.execute_op(0x6A42), Ok(())); // LD VA, 42
    assert_eq!(c.value_registers[0xA], 0x42);

    assert_eq!(c.execute_op(0x8BA0), Ok(())); // LD VB, VA
    assert_eq!(c.value_registers[0xB], 0x42);

    assert_eq!(c.execute_op(0xABCD), Ok(())); // LD I, BCD
    assert_eq!(c.index_register, 0xBCD);

    assert_eq!(c.execute_op(0xFA15), Ok(())); // LD DT, VA
    assert_eq!(c.delay_timer, 0x42);

    assert_eq!(c.execute_op(0xFA18), Ok(())); // LD ST, VA
    assert_eq!(c.sound_timer, 0x42);

    c.delay_timer = 0x17;
    assert_eq!(c.execute_op(0xF307), Ok(())); // LD V3, DT
    assert_eq!(c.value_registers[3], 0x17);
}

#[test]
fn font_glyph_address_is_five_times_the_digit() {
    let mut c = fresh();
    c.value_registers[4] = 0xA;
    assert_eq!(c.execute_op(0xF429), Ok(()));
    assert_eq!(c.index_register, 50); // glyph A at 5 * 10
    // The glyph rows for 0 sit at offset 0.
    c.value_registers[4] = 0;
    assert_eq!(c.execute_op(0xF429), Ok(()));
    assert_eq!(c.index_register, 0);
    assert_eq!(c.memory[0], 0xF0);
}

#[test]
fn add_i_zero_extends_and_wraps() {
    let mut c = fresh();
    c.index_register = 0xFFF0;
    c.value_registers[1] = 0x20;
    assert_eq!(c.execute_op(0xF11E), Ok(()));
    assert_eq!(c.index_register, 0x0010); // wrapped modulo 0x10000
}

#[test]
fn bcd_writes_three_decimal_digits() {
    let mut c = fresh();
    c.value_registers[7] = 234;
    c.index_register = 0x300;
    assert_eq!(c.execute_op(0xF733), Ok(()));
    assert_eq!(c.memory[0x300], 2);
    assert_eq!(c.memory[0x301], 3);
    assert_eq!(c.memory[0x302], 4);

    c.value_registers[7] = 7;
    assert_eq!(c.execute_op(0xF733), Ok(()));
    assert_eq!(c.memory[0x300], 0);
    assert_eq!(c.memory[0x301], 0);
    assert_eq!(c.memory[0x302], 7);
}

#[test]
fn bcd_past_the_top_of_memory_is_a_fault() {
    let mut c = fresh();
    c.index_register = 4094;
    c.value_registers[0] = 5;
    let pc = c.program_counter;
    assert_eq!(
        c.execute_op(0xF033),
        Err(Fault {
            kind: FaultKind::MemoryOutOfRange,
            op_code: 0xF033,
            program_counter: pc,
        })
    );
    // At 4093 the three bytes still fit.
    c.index_register = 4093;
    assert_eq!(c.execute_op(0xF033), Ok(()));
    assert_eq!(c.memory[4095], 5);
}

// The block transfer moves x + 1 registers, V0 through Vx inclusive.
#[test]
fn register_block_store_and_load_round_trip() {
    let mut c = fresh();
    for k in 0..5 {
        c.value_registers[k] = 10 + k as u8;
    }
    c.index_register = 0x250;
    assert_eq!(c.execute_op(0xF455), Ok(())); // store V0..=V4
    for k in 0..5 {
        assert_eq!(c.memory[0x250 + k], 10 + k as u8);
    }
    assert_eq!(c.memory[0x255], 0); // one past the inclusive window

    // Scramble the registers, then load them back.
    for k in 0..5 {
        c.value_registers[k] = 0xEE;
    }
    c.value_registers[5] = 0x77;
    assert_eq!(c.execute_op(0xF465), Ok(())); // load V0..=V4
    for k in 0..5 {
        assert_eq!(c.value_registers[k], 10 + k as u8);
    }
    assert_eq!(c.value_registers[5], 0x77); // V5 untouched
}

#[test]
fn register_block_transfer_past_memory_is_a_fault() {
    let mut c = fresh();
    c.index_register = 4090;
    let pc = c.program_counter;
    assert_eq!(
        c.execute_op(0xF755), // 8 bytes at 4090 run past 4095
        Err(Fault {
            kind: FaultKind::MemoryOutOfRange,
            op_code: 0xF755,
            program_counter: pc,
        })
    );
    assert_eq!(c.execute_op(0xF555), Ok(())); // 6 bytes at 4090 just fit
}

// Drawing an all-set 8x5 sprite twice at one spot: no collision against a
// cleared buffer, then a collision, and the region is all-off again.
#[test]
fn drawing_a_sprite_twice_erases_it() {
    let mut c = fresh();
    let sprite = [0xFF; 5];
    for (k, b) in sprite.iter().enumerate() {
        c.memory[0x300 + k] = *b;
    }
    c.index_register = 0x300;
    c.value_registers[1] = 8; // x
    c.value_registers[2] = 4; // y

    assert_eq!(c.execute_op(0xD125), Ok(()));
    assert_eq!(c.value_registers[0xF], 0); // no collision on a clear buffer
    for row in 0..5 {
        for col in 0..8 {
            assert!(c.gpu.pixel(8 + col, 4 + row));
        }
    }

    assert_eq!(c.execute_op(0xD125), Ok(()));
    assert_eq!(c.value_registers[0xF], 1); // every pixel collided
    for row in 0..5 {
        for col in 0..8 {
            assert!(!c.gpu.pixel(8 + col, 4 + row));
        }
    }
}

#[test]
fn draw_wraps_around_both_edges() {
    let mut g = Gpu::new();
    let sprite = [0b1000_0001u8];
    // One row at x = 60, y = 31: the leftmost bit lands at (60, 31), the
    // rightmost wraps to (3, 31).
    let collision = g.draw(60, 31, &sprite);
    assert!(!collision);
    assert!(g.pixel(60, 31));
    assert!(g.pixel(3, 31));
    assert!(!g.pixel(61, 31));
    // A second row drawn at y = 31 with a two-row sprite wraps to y = 0.
    let sprite2 = [0u8, 0b1000_0000];
    let collision2 = g.draw(0, 31, &sprite2);
    assert!(!collision2);
    assert!(g.pixel(0, 0));
}

#[test]
fn draw_sprite_past_memory_is_a_fault() {
    let mut c = fresh();
    c.index_register = 4090;
    let pc = c.program_counter;
    assert_eq!(
        c.execute_op(0xD007), // 7 rows at 4090 run past 4095
        Err(Fault {
            kind: FaultKind::MemoryOutOfRange,
            op_code: 0xD007,
            program_counter: pc,
        })
    );
    assert_eq!(c.execute_op(0xD006), Ok(())); // 6 rows just fit
}

#[test]
fn clear_screen_switches_everything_off() {
    let mut c = fresh();
    c.memory[0x300] = 0xFF;
    c.index_register = 0x300;
    assert_eq!(c.execute_op(0xD001), Ok(()));
    assert!(c.gpu.pixel(0, 0));
    assert_eq!(c.execute_op(0x00E0), Ok(()));
    for x in 0..64 {
        for y in 0..32 {
            assert!(!c.gpu.pixel(x, y));
        }
    }
}

#[test]
fn keyboard_queries_read_the_mask() {
    let mut kb = Keyboard::new();
    assert!(!kb.is_any_key_pressed());
    assert_eq!(kb.get_key_pressed_index(), None);

    kb.memory = 1 << 5 | 1 << 9;
    assert!(kb.is_any_key_pressed());
    assert!(kb.is_key_pressed(5));
    assert!(kb.is_key_pressed(9));
    assert!(!kb.is_key_pressed(0));
    assert_eq!(kb.get_key_pressed_index(), Some(5)); // the lowest pressed
}

#[test]
fn skip_on_key_reads_the_latch() {
    let mut c = fresh();
    c.value_registers[1] = 7;
    c.keyboard.memory = 1 << 7;

    c.program_counter = 0x400;
    assert_eq!(c.execute_op(0xE19E), Ok(())); // SKP V1: key 7 down, skip
    assert_eq!(c.program_counter, 0x402);
    assert_eq!(c.execute_op(0xE1A1), Ok(())); // SKPN V1: key down, no skip
    assert_eq!(c.program_counter, 0x402);

    c.keyboard.memory = 0;
    assert_eq!(c.execute_op(0xE19E), Ok(())); // key up: no skip
    assert_eq!(c.program_counter, 0x402);
    assert_eq!(c.execute_op(0xE1A1), Ok(())); // key up: skip
    assert_eq!(c.program_counter, 0x404);

    // A register value of 16 or more selects no key.
    c.value_registers[1] = 200;
    c.keyboard.memory = 0xFFFF;
    assert_eq!(c.execute_op(0xE19E), Ok(()));
    assert_eq!(c.program_counter, 0x404);
}

#[test]
fn key_wait_rewinds_until_a_key_arrives() {
    let mut c = fresh();
    // Host fetched the wait at 0x200 and advanced to 0x202.
    c.program_counter = 0x202;
    assert_eq!(c.execute_op(0xF30A), Ok(())); // no key: rewind
    assert_eq!(c.program_counter, 0x200);
    assert_eq!(c.value_registers[3], 0);

    c.program_counter = 0x202;
    c.keyboard.memory = 1 << 11 | 1 << 2;
    assert_eq!(c.execute_op(0xF30A), Ok(()));
    assert_eq!(c.program_counter, 0x202); // no rewind once a key is down
    assert_eq!(c.value_registers[3], 2); // the lowest pressed index
}

#[test]
fn random_load_respects_the_mask() {
    let mut c = fresh();
    c.value_registers[4] = 0xAA;
    assert_eq!(c.execute_op(0xC400), Ok(())); // mask 00: must become 0
    assert_eq!(c.value_registers[4], 0);
    for _ in 0..32 {
        assert_eq!(c.execute_op(0xC40F), Ok(())); // mask 0F: high nibble clear
        assert!(c.value_registers[4] <= 0x0F);
    }
}

#[test]
fn disassemble_known_opcodes() {
    let c = fresh();
    assert_eq!(c.disassemble(0x00E0), "CLS");
    assert_eq!(c.disassemble(0x00EE), "RET");
    assert!(c.disassemble(0x1234).contains("234"));
    assert_eq!(c.disassemble(0x1234), "JMP  234");
    assert_eq!(c.disassemble(0x2ABC), "CALL ABC");
    assert_eq!(c.disassemble(0x3A7F), "SE   VA, 7F");
    assert_eq!(c.disassemble(0x8AB4), "ADD  VA, VB");
    assert_eq!(c.disassemble(0x8126), "SHR  V1");
    assert_eq!(c.disassemble(0xD125), "DRW  V1, V2, 5");
    assert_eq!(c.disassemble(0xF329), "LD   F, V3");
    assert_eq!(c.disassemble(0xF455), "LD   [I], V4");
    assert_eq!(c.disassemble(0xF465), "LD   V4, [I]");
    assert_eq!(c.disassemble(0xC107), "RND  V1, 7");
    // The shortest-form operand drops leading zeros, like the original's
    // hexadecimal formatting.
    assert_eq!(c.disassemble(0x6005), "LD   V0, 5");
}

#[test]
fn unknown_opcode_disassembles_to_the_sentinel_and_does_nothing() {
    let mut c = fresh();
    assert_eq!(c.disassemble(0x800F), "-- Unknown --");
    assert_eq!(c.disassemble(0xE000), "-- Unknown --");
    assert_eq!(c.disassemble(0xFFFF), "-- Unknown --");

    c.program_counter = 0x321;
    c.index_register = 7;
    c.value_registers[0] = 9;
    assert_eq!(c.execute_op(0x800F), Ok(()));
    assert_eq!(c.program_counter, 0x321);
    assert_eq!(c.index_register, 7);
    assert_eq!(c.value_registers[0], 9);
    assert_eq!(c.stack_pointer, 0);
}

#[test]
fn empty_and_largest_roms_load() {
    let mut c = fresh();
    let empty: Vec<u8> = Vec::new();
    c.load_rom(&empty);
    assert_eq!(c.memory[0x200], 0);

    let big = vec![0x5A; 4096 - 0x200];
    c.load_rom(&big);
    assert_eq!(c.memory[0x200], 0x5A);
    assert_eq!(c.memory[4095], 0x5A);
    assert_eq!(c.memory[0x1FF], 0); // nothing below the program window
}

#[test]
fn zero_row_draw_changes_nothing_but_the_flag() {
    let mut c = fresh();
    c.memory[0x300] = 0xFF;
    c.index_register = 0x300;
    assert_eq!(c.execute_op(0xD001), Ok(())); // light one row
    c.value_registers[0xF] = 1;
    assert_eq!(c.execute_op(0xD120), Ok(())); // zero rows: draws nothing
    assert_eq!(c.value_registers[0xF], 0); // no collision reported
    assert!(c.gpu.pixel(0, 0)); // the earlier row is still lit
}

#[test]
fn program_counter_wraps_at_the_sixteen_bit_edges() {
    let mut c = fresh();
    c.program_counter = 0xFFFF;
    c.value_registers[0] = 1;
    assert_eq!(c.execute_op(0x3001), Ok(())); // SE V0, 01 matches: +2 wraps
    assert_eq!(c.program_counter, 0x0001);

    c.program_counter = 0x0001;
    c.keyboard.memory = 0;
    assert_eq!(c.execute_op(0xF00A), Ok(())); // key wait rewind wraps back
    assert_eq!(c.program_counter, 0xFFFF);
}
