//! The CPU state machine: registers, memory, stack and timers, together with
//! `execute_op`, which applies exactly one decoded instruction's effect.
//!
//! The host fetch-execute loop owns the instruction pointer's baseline
//! advance: it moves the counter past the two opcode bytes when it fetches,
//! before calling `execute_op`. The executor therefore applies only each
//! instruction's own control-flow effect — jumps, calls and returns set the
//! counter absolutely, conditional skips add a further 2, and the blocking
//! key-wait rewinds by 2 so the host re-issues the same instruction on its
//! next cycle.
//!
//! Stack overflow, stack underflow and out-of-range memory accesses are
//! surfaced as explicit `Fault` values carrying the offending opcode and
//! counter; unknown opcodes are a harmless no-op.

use vstd::prelude::*;

use crate::gpu::{blit, blit_collision, Gpu};
use crate::instr::{decode, decode_spec, Instr};
use crate::keyboard::{key_bit_set, lowest_pressed, Keyboard};

verus! {

/// Why an `execute_op` call aborted.
#[derive(Clone, Copy, Debug, PartialEq, Eq, Structural)]
pub enum FaultKind {
    /// A call was made while the stack already held 16 return addresses.
    StackOverflow,
    /// A return was executed with no return address on the stack.
    StackUnderflow,
    /// An instruction addressed memory beyond 0xFFF.
    MemoryOutOfRange,
}

/// A fatal emulation fault, reported with the opcode that caused it and the
/// instruction pointer at the time it was executed.
#[derive(Clone, Copy, Debug, PartialEq, Eq, Structural)]
pub struct Fault {
    pub kind: FaultKind,
    pub op_code: u16,
    pub program_counter: u16,
}

/// The CPU state: 4096 bytes of memory with the font resident below 0x50,
/// sixteen 8-bit registers (register 0xF doubles as the flag output), the
/// 16-bit index register and instruction pointer, a 16-frame call stack, and
/// the two 8-bit timers that the host decrements at its own cadence.
pub struct Chip8 {
    /// 4096 bytes, addressable 0x000-0xFFF; programs load at 0x200.
    pub memory: Vec<u8>,
    /// The instruction pointer.
    pub program_counter: u16,
    /// The sixteen general-purpose registers V0-VF.
    pub value_registers: Vec<u8>,
    /// The 16-bit address register I.
    pub index_register: u16,
    /// Sixteen return-address slots.
    pub stack: Vec<u16>,
    /// How many return addresses are currently on the stack (0-16).
    pub stack_pointer: usize,
    /// Counts down at 60 Hz while nonzero; a tone plays meanwhile.
    pub sound_timer: u8,
    /// Counts down at 60 Hz while nonzero.
    pub delay_timer: u8,
    /// The display collaborator.
    pub gpu: Gpu,
    /// The input latch collaborator.
    pub keyboard: Keyboard,
}

/// The 80-byte built-in font: 16 glyphs of 5 rows each, glyph `g` at offset
/// `5 * g`.
pub open spec fn font_seq() -> Seq<u8> {
    seq![
        0xf0u8, 0x90, 0x90, 0x90, 0xf0, 0x20, 0x60, 0x20, 0x20, 0x70, 0xf0, 0x10, 0xf0, 0x80,
        0xf0, 0xf0, 0x10, 0xf0, 0x10, 0xf0, 0x90, 0x90, 0xf0, 0x10, 0x10, 0xf0, 0x80, 0xf0, 0x10,
        0xf0, 0xf0, 0x80, 0xf0, 0x90, 0xf0, 0xf0, 0x10, 0x20, 0x40, 0x40, 0xf0, 0x90, 0xf0, 0x90,
        0xf0, 0xf0, 0x90, 0xf0, 0x10, 0xf0, 0xf0, 0x90, 0xf0, 0x90, 0x90, 0xe0, 0x90, 0xe0, 0x90,
        0xe0, 0xf0, 0x80, 0x80, 0x80, 0xf0, 0xe0, 0x90, 0x90, 0x90, 0xe0, 0xf0, 0x80, 0xf0, 0x80,
        0xf0, 0xf0, 0x80, 0xf0, 0x80, 0x80,
    ]
}

/// The instruction pointer two bytes ahead, wrapping at the top of the
/// 16-bit range.
pub open spec fn pc_plus_2(pc: u16) -> u16 {
    ((pc + 2) % 0x10000) as u16
}

/// The instruction pointer two bytes back, wrapping at the bottom of the
/// 16-bit range.
pub open spec fn pc_minus_2(pc: u16) -> u16 {
    ((pc + 0xFFFE) % 0x10000) as u16
}

/// The memory contents are unchanged.
pub open spec fn same_memory(pre: Chip8, post: Chip8) -> bool {
    post.memory@ == pre.memory@
}

/// The sixteen general-purpose registers are unchanged.
pub open spec fn same_regs(pre: Chip8, post: Chip8) -> bool {
    post.value_registers@ == pre.value_registers@
}

/// The instruction pointer is unchanged.
pub open spec fn same_pc(pre: Chip8, post: Chip8) -> bool {
    post.program_counter == pre.program_counter
}

/// The index register is unchanged.
pub open spec fn same_index(pre: Chip8, post: Chip8) -> bool {
    post.index_register == pre.index_register
}

/// The call stack and its depth are unchanged.
pub open spec fn same_stack(pre: Chip8, post: Chip8) -> bool {
    post.stack@ == pre.stack@ && post.stack_pointer == pre.stack_pointer
}

/// Both timers are unchanged.
pub open spec fn same_timers(pre: Chip8, post: Chip8) -> bool {
    post.delay_timer == pre.delay_timer && post.sound_timer == pre.sound_timer
}

/// The framebuffer is unchanged.
pub open spec fn same_gpu(pre: Chip8, post: Chip8) -> bool {
    post.gpu.memory@ == pre.gpu.memory@
}

/// The key latch is unchanged.
pub open spec fn same_keyboard(pre: Chip8, post: Chip8) -> bool {
    post.keyboard.memory == pre.keyboard.memory
}

/// Nothing observable changed at all.
pub open spec fn unchanged(pre: Chip8, post: Chip8) -> bool {
    same_memory(pre, post) && same_regs(pre, post) && same_pc(pre, post) && same_index(pre, post)
        && same_stack(pre, post) && same_timers(pre, post) && same_gpu(pre, post) && same_keyboard(
        pre,
        post,
    )
}

/// The register file becomes exactly `regs`; every other component is
/// untouched.
pub open spec fn regs_become(pre: Chip8, post: Chip8, regs: Seq<u8>) -> bool {
    post.value_registers@ == regs && same_memory(pre, post) && same_pc(pre, post) && same_index(
        pre,
        post,
    ) && same_stack(pre, post) && same_timers(pre, post) && same_gpu(pre, post) && same_keyboard(
        pre,
        post,
    )
}

/// The instruction pointer becomes exactly `pc`; every other component is
/// untouched.
pub open spec fn pc_becomes(pre: Chip8, post: Chip8, pc: u16) -> bool {
    post.program_counter == pc && same_memory(pre, post) && same_regs(pre, post) && same_index(
        pre,
        post,
    ) && same_stack(pre, post) && same_timers(pre, post) && same_gpu(pre, post) && same_keyboard(
        pre,
        post,
    )
}

/// The index register becomes exactly `i`; every other component is
/// untouched.
pub open spec fn index_becomes(pre: Chip8, post: Chip8, i: u16) -> bool {
    post.index_register == i && same_memory(pre, post) && same_regs(pre, post) && same_pc(
        pre,
        post,
    ) && same_stack(pre, post) && same_timers(pre, post) && same_gpu(pre, post) && same_keyboard(
        pre,
        post,
    )
}

/// The memory becomes exactly `mem`; every other component is untouched.
pub open spec fn memory_becomes(pre: Chip8, post: Chip8, mem: Seq<u8>) -> bool {
    post.memory@ == mem && same_regs(pre, post) && same_pc(pre, post) && same_index(pre, post)
        && same_stack(pre, post) && same_timers(pre, post) && same_gpu(pre, post) && same_keyboard(
        pre,
        post,
    )
}

/// The display is cleared to all-off; every other component is untouched.
pub open spec fn cls_post(pre: Chip8, post: Chip8) -> bool {
    post.gpu.memory@.len() == 2048 && (forall|p: int| 0 <= p < 2048 ==> !post.gpu.memory@[p])
        && same_memory(pre, post) && same_regs(pre, post) && same_pc(pre, post) && same_index(
        pre,
        post,
    ) && same_stack(pre, post) && same_timers(pre, post) && same_keyboard(pre, post)
}

/// A successful call: the current instruction pointer (already past the call
/// opcode, hence the address of the following instruction) is pushed, and
/// control transfers to `nnn`.
pub open spec fn call_post(pre: Chip8, post: Chip8, nnn: u16) -> bool {
    post.stack@ == pre.stack@.update(pre.stack_pointer as int, pre.program_counter)
        && post.stack_pointer == pre.stack_pointer + 1 && post.program_counter == nnn
        && same_memory(pre, post) && same_regs(pre, post) && same_index(pre, post) && same_timers(
        pre,
        post,
    ) && same_gpu(pre, post) && same_keyboard(pre, post)
}

/// A successful return: the topmost return address is popped into the
/// instruction pointer.
pub open spec fn ret_post(pre: Chip8, post: Chip8) -> bool {
    post.program_counter == pre.stack@[pre.stack_pointer - 1] && post.stack_pointer
        == pre.stack_pointer - 1 && post.stack@ == pre.stack@ && same_memory(pre, post)
        && same_regs(pre, post) && same_index(pre, post) && same_timers(pre, post) && same_gpu(
        pre,
        post,
    ) && same_keyboard(pre, post)
}

/// The delay timer becomes exactly `t`; every other component is untouched.
pub open spec fn delay_becomes(pre: Chip8, post: Chip8, t: u8) -> bool {
    post.delay_timer == t && post.sound_timer == pre.sound_timer && same_memory(pre, post)
        && same_regs(pre, post) && same_pc(pre, post) && same_index(pre, post) && same_stack(
        pre,
        post,
    ) && same_gpu(pre, post) && same_keyboard(pre, post)
}

/// The sound timer becomes exactly `t`; every other component is untouched.
pub open spec fn sound_becomes(pre: Chip8, post: Chip8, t: u8) -> bool {
    post.sound_timer == t && post.delay_timer == pre.delay_timer && same_memory(pre, post)
        && same_regs(pre, post) && same_pc(pre, post) && same_index(pre, post) && same_stack(
        pre,
        post,
    ) && same_gpu(pre, post) && same_keyboard(pre, post)
}

/// Whether the key selected by register `Vx` is currently pressed. Key
/// indices are 0-15; a register value of 16 or more selects no key and
/// counts as not pressed.
pub open spec fn x_key_pressed(pre: Chip8, x: int) -> bool {
    pre.value_registers@[x] < 16 && key_bit_set(pre.keyboard.memory, pre.value_registers@[x])
}

/// Writing the decimal digits of `Vx` (hundreds, tens, ones) to the three
/// bytes at the index register.
pub open spec fn bcd_digits(v: u8, i: int, mem: Seq<u8>) -> Seq<u8> {
    mem.update(i, (v / 100) as u8).update(i + 1, ((v % 100) / 10) as u8).update(
        i + 2,
        (v % 10) as u8,
    )
}

/// The effect of the draw instruction on success: the sprite is XOR-blitted
/// at the coordinates held in `Vx` and `Vy`, and the flag register records
/// whether any lit pixel was turned off.
pub open spec fn drw_post(pre: Chip8, post: Chip8, x: int, y: int, sprite: Seq<u8>) -> bool {
    let vx = pre.value_registers@[x] as int;
    let vy = pre.value_registers@[y] as int;
    let col = blit_collision(pre.gpu.memory@, vx, vy, sprite);
    post.gpu.memory@ == blit(pre.gpu.memory@, vx, vy, sprite) && post.value_registers@
        == pre.value_registers@.update(
        15,
        if col {
            1u8
        } else {
            0u8
        },
    ) && same_memory(pre, post) && same_pc(pre, post) && same_index(pre, post) && same_stack(
        pre,
        post,
    ) && same_timers(pre, post) && same_keyboard(pre, post)
}

impl Chip8 {
    /// The structural invariant: the fixed sizes of memory, register file,
    /// stack and framebuffer, and a stack depth within capacity.
    pub open spec fn wf(self) -> bool {
        self.memory@.len() == 4096 && self.value_registers@.len() == 16 && self.stack@.len() == 16
            && self.stack_pointer <= 16 && self.gpu.wf()
    }

    /// A freshly powered-on CPU: all registers, stack, timers and program
    /// memory zero, the font resident at 0x000-0x04F, and the instruction
    /// pointer at 0x200, where programs load.
    pub fn new() -> (c: Chip8)
        ensures
            c.wf(),
            c.program_counter == 0x200,
            c.index_register == 0,
            c.stack_pointer == 0,
            c.delay_timer == 0,
            c.sound_timer == 0,
            c.keyboard.memory == 0,
            forall|p: int| 0 <= p < 2048 ==> !c.gpu.memory@[p],
            forall|j: int| 0 <= j < 16 ==> c.value_registers@[j] == 0,
            forall|j: int| 0 <= j < 16 ==> c.stack@[j] == 0,
            forall|a: int| 0 <= a < 80 ==> c.memory@[a] == font_seq()[a],
            forall|a: int| 80 <= a < 4096 ==> c.memory@[a] == 0,
    {
        let font = font_set();
        let mut memory: Vec<u8> = Vec::new();
        let mut k: usize = 0;
        while k < 4096
            invariant
                k <= 4096,
                memory@.len() == k,
                forall|a: int| 0 <= a < k ==> memory@[a] == 0,
            decreases 4096 - k,
        {
            memory.push(0);
            k = k + 1;
        }
        let mut a: usize = 0;
        while a < 80
            invariant
                a <= 80,
                font@ == font_seq(),
                memory@.len() == 4096,
                forall|j: int| 0 <= j < a ==> memory@[j] == font_seq()[j],
                forall|j: int| a <= j < 4096 ==> memory@[j] == 0,
            decreases 80 - a,
        {
            memory.set(a, font[a]);
            a = a + 1;
        }
        let mut value_registers: Vec<u8> = Vec::new();
        let mut j: usize = 0;
        while j < 16
            invariant
                j <= 16,
                value_registers@.len() == j,
                forall|t: int| 0 <= t < j ==> value_registers@[t] == 0,
            decreases 16 - j,
        {
            value_registers.push(0);
            j = j + 1;
        }
        let mut stack: Vec<u16> = Vec::new();
        let mut s: usize = 0;
        while s < 16
            invariant
                s <= 16,
                stack@.len() == s,
                forall|t: int| 0 <= t < s ==> stack@[t] == 0,
            decreases 16 - s,
        {
            stack.push(0);
            s = s + 1;
        }
        Chip8 {
            memory,
            program_counter: 0x200,
            value_registers,
            index_register: 0,
            stack,
            stack_pointer: 0,
            sound_timer: 0,
            delay_timer: 0,
            gpu: Gpu::new(),
            keyboard: Keyboard::new(),
        }
    }

    /// Copy a program image into memory starting at 0x200, leaving the rest
    /// of the state alone. The image must fit below the top of memory.
    pub fn load_rom(&mut self, rom: &Vec<u8>)
        requires
            old(self).wf(),
            rom@.len() <= 4096 - 0x200,
        ensures
            final(self).wf(),
            final(self).memory@.len() == 4096,
            forall|j: int| 0 <= j < 0x200 ==> final(self).memory@[j] == old(self).memory@[j],
            forall|j: int|
                0x200 <= j < 0x200 + rom@.len() ==> final(self).memory@[j] == rom@[j - 0x200],
            forall|j: int|
                0x200 + rom@.len() <= j < 4096 ==> final(self).memory@[j] == old(self).memory@[j],
            same_regs(*old(self), *final(self)),
            same_pc(*old(self), *final(self)),
            same_index(*old(self), *final(self)),
            same_stack(*old(self), *final(self)),
            same_timers(*old(self), *final(self)),
            same_gpu(*old(self), *final(self)),
            same_keyboard(*old(self), *final(self)),
    {
        let n = rom.len();
        let mut k: usize = 0;
        while k < n
            invariant
                k <= n,
                n == rom@.len(),
                n <= 4096 - 0x200,
                self.memory@.len() == 4096,
                forall|j: int|
                    0 <= j < 4096 && !(0x200 <= j < 0x200 + k) ==> self.memory@[j] == old(
                        self,
                    ).memory@[j],
                forall|j: int| 0x200 <= j < 0x200 + k ==> self.memory@[j] == rom@[j - 0x200],
                same_regs(*old(self), *self),
                same_pc(*old(self), *self),
                same_index(*old(self), *self),
                same_stack(*old(self), *self),
                same_timers(*old(self), *self),
                same_gpu(*old(self), *self),
                same_keyboard(*old(self), *self),
            decreases n - k,
        {
            self.memory.set(0x200 + k, rom[k]);
            k = k + 1;
        }
    }

    /// System jump (opcode family 0nnn): transfer control to `nnn`.
    pub fn op_sys_nnn(&mut self, nnn: u16)
        requires
            old(self).wf(),
        ensures
            final(self).wf(),
            pc_becomes(*old(self), *final(self), nnn),
    {
        self.program_counter = nnn
    }

    /// Clear the display.
    pub fn op_cls(&mut self)
        requires
            old(self).wf(),
        ensures
            final(self).wf(),
            cls_post(*old(self), *final(self)),
    {
        self.gpu.clear_memory()
    }

    /// Return from a subroutine. Popping an empty stack is a detected fault,
    /// reported with the opcode and current instruction pointer.
    pub fn op_ret(&mut self, op_code: u16) -> (r: Result<(), Fault>)
        requires
            old(self).wf(),
        ensures
            final(self).wf(),
            old(self).stack_pointer == 0 ==> r == Result::<(), Fault>::Err(
                Fault {
                    kind: FaultKind::StackUnderflow,
                    op_code,
                    program_counter: old(self).program_counter,
                },
            ) && unchanged(*old(self), *final(self)),
            old(self).stack_pointer > 0 ==> r is Ok && ret_post(*old(self), *final(self)),
    {
        if self.stack_pointer == 0 {
            return Err(
                Fault {
                    kind: FaultKind::StackUnderflow,
                    op_code,
                    program_counter: self.program_counter,
                },
            );
        }
        self.stack_pointer = self.stack_pointer - 1;
        self.program_counter = self.stack[self.stack_pointer];
        Ok(())
    }

    /// Jump to `nnn`.
    pub fn op_jp_nnn(&mut self, nnn: u16)
        requires
            old(self).wf(),
        ensures
            final(self).wf(),
            pc_becomes(*old(self), *final(self), nnn),
    {
        self.program_counter = nnn
    }

    /// Jump to `nnn + V0`.
    pub fn op_jp_v0_nnn(&mut self, nnn: u16)
        requires
            old(self).wf(),
            nnn < 0x1000,
        ensures
            final(self).wf(),
            pc_becomes(
                *old(self),
                *final(self),
                (nnn + old(self).value_registers@[0]) as u16,
            ),
    {
        self.program_counter = nnn + self.value_registers[0] as u16
    }

    /// Call the subroutine at `nnn`: push the current instruction pointer
    /// (the address of the instruction after the call, since the host has
    /// already advanced past the opcode) and transfer control. Calling with
    /// all 16 stack slots in use is a detected fault.
    pub fn op_call_nnn(&mut self, nnn: u16, op_code: u16) -> (r: Result<(), Fault>)
        requires
            old(self).wf(),
        ensures
            final(self).wf(),
            old(self).stack_pointer == 16 ==> r == Result::<(), Fault>::Err(
                Fault {
                    kind: FaultKind::StackOverflow,
                    op_code,
                    program_counter: old(self).program_counter,
                },
            ) && unchanged(*old(self), *final(self)),
            old(self).stack_pointer < 16 ==> r is Ok && call_post(*old(self), *final(self), nnn),
    {
        if self.stack_pointer == 16 {
            return Err(
                Fault {
                    kind: FaultKind::StackOverflow,
                    op_code,
                    program_counter: self.program_counter,
                },
            );
        }
        self.stack.set(self.stack_pointer, self.program_counter);
        self.stack_pointer = self.stack_pointer + 1;
        self.program_counter = nnn;
        Ok(())
    }

    /// Skip the next instruction (advance by one further opcode) if
    /// `Vx == kk`.
    pub fn op_se_vx_kk(&mut self, x: u8, kk: u8)
        requires
            old(self).wf(),
            x < 16,
        ensures
            final(self).wf(),
            pc_becomes(
                *old(self),
                *final(self),
                if old(self).value_registers@[x as int] == kk {
                    pc_plus_2(old(self).program_counter)
                } else {
                    old(self).program_counter
                },
            ),
    {
        if self.value_registers[x as usize] == kk {
            self.program_counter = pc_add_2(self.program_counter)
        }
    }

    /// Skip the next instruction if `Vx == Vy`.
    pub fn op_se_vx_vy(&mut self, x: u8, y: u8)
        requires
            old(self).wf(),
            x < 16,
            y < 16,
        ensures
            final(self).wf(),
            pc_becomes(
                *old(self),
                *final(self),
                if old(self).value_registers@[x as int] == old(self).value_registers@[y as int] {
                    pc_plus_2(old(self).program_counter)
                } else {
                    old(self).program_counter
                },
            ),
    {
        if self.value_registers[x as usize] == self.value_registers[y as usize] {
            self.program_counter = pc_add_2(self.program_counter)
        }
    }

    /// Skip the next instruction if `Vx != kk`.
    pub fn op_sne_vx_kk(&mut self, x: u8, kk: u8)
        requires
            old(self).wf(),
            x < 16,
        ensures
            final(self).wf(),
            pc_becomes(
                *old(self),
                *final(self),
                if old(self).value_registers@[x as int] != kk {
                    pc_plus_2(old(self).program_counter)
                } else {
                    old(self).program_counter
                },
            ),
    {
        if self.value_registers[x as usize] != kk {
            self.program_counter = pc_add_2(self.program_counter)
        }
    }

    /// Skip the next instruction if `Vx != Vy`.
    pub fn op_sne_vx_vy(&mut self, x: u8, y: u8)
        requires
            old(self).wf(),
            x < 16,
            y < 16,
        ensures
            final(self).wf(),
            pc_becomes(
                *old(self),
                *final(self),
                if old(self).value_registers@[x as int] != old(self).value_registers@[y as int] {
                    pc_plus_2(old(self).program_counter)
                } else {
                    old(self).program_counter
                },
            ),
    {
        if self.value_registers[x as usize] != self.value_registers[y as usize] {
            self.program_counter = pc_add_2(self.program_counter)
        }
    }

    /// Skip the next instruction if the key selected by `Vx` is pressed.
    pub fn op_skp_x(&mut self, x: u8)
        requires
            old(self).wf(),
            x < 16,
        ensures
            final(self).wf(),
            pc_becomes(
                *old(self),
                *final(self),
                if x_key_pressed(*old(self), x as int) {
                    pc_plus_2(old(self).program_counter)
                } else {
                    old(self).program_counter
                },
            ),
    {
        let v = self.value_registers[x as usize];
        if v < 16 && self.keyboard.is_key_pressed(v) {
            self.program_counter = pc_add_2(self.program_counter)
        }
    }

    /// Skip the next instruction if the key selected by `Vx` is not pressed.
    pub fn op_skpn_x(&mut self, x: u8)
        requires
            old(self).wf(),
            x < 16,
        ensures
            final(self).wf(),
            pc_becomes(
                *old(self),
                *final(self),
                if !x_key_pressed(*old(self), x as int) {
                    pc_plus_2(old(self).program_counter)
                } else {
                    old(self).program_counter
                },
            ),
    {
        let v = self.value_registers[x as usize];
        if !(v < 16 && self.keyboard.is_key_pressed(v)) {
            self.program_counter = pc_add_2(self.program_counter)
        }
    }

    /// Load `nnn` into the index register.
    pub fn op_ld_i_nnn(&mut self, nnn: u16)
        requires
            old(self).wf(),
        ensures
            final(self).wf(),
            index_becomes(*old(self), *final(self), nnn),
    {
        self.index_register = nnn
    }

    /// Load the immediate `kk` into `Vx`.
    pub fn op_ld_vx_kk(&mut self, x: u8, kk: u8)
        requires
            old(self).wf(),
            x < 16,
        ensures
            final(self).wf(),
            regs_become(
                *old(self),
                *final(self),
                old(self).value_registers@.update(x as int, kk),
            ),
    {
        self.value_registers.set(x as usize, kk);
    }

    /// Copy `Vy` into `Vx`.
    pub fn op_ld_vx_vy(&mut self, x: u8, y: u8)
        requires
            old(self).wf(),
            x < 16,
            y < 16,
        ensures
            final(self).wf(),
            regs_become(
                *old(self),
                *final(self),
                old(self).value_registers@.update(x as int, old(self).value_registers@[y as int]),
            ),
    {
        let v = self.value_registers[y as usize];
        self.value_registers.set(x as usize, v);
    }

    /// Load the delay timer into `Vx`.
    pub fn op_ld_vx_dt(&mut self, x: u8)
        requires
            old(self).wf(),
            x < 16,
        ensures
            final(self).wf(),
            regs_become(
                *old(self),
                *final(self),
                old(self).value_registers@.update(x as int, old(self).delay_timer),
            ),
    {
        let t = self.delay_timer;
        self.value_registers.set(x as usize, t);
    }

    /// Load `Vx` into the delay timer.
    pub fn op_ld_dt_vx(&mut self, x: u8)
        requires
            old(self).wf(),
            x < 16,
        ensures
            final(self).wf(),
            delay_becomes(*old(self), *final(self), old(self).value_registers@[x as int]),
    {
        self.delay_timer = self.value_registers[x as usize]
    }

    /// Load `Vx` into the sound timer.
    pub fn op_ld_st_vx(&mut self, x: u8)
        requires
            old(self).wf(),
            x < 16,
        ensures
            final(self).wf(),
            sound_becomes(*old(self), *final(self), old(self).value_registers@[x as int]),
    {
        self.sound_timer = self.value_registers[x as usize]
    }

    /// Point the index register at the 5-byte font glyph for the digit held
    /// in `Vx` (meaningful for values 0-15).
    pub fn op_ld_f_vx(&mut self, x: u8)
        requires
            old(self).wf(),
            x < 16,
        ensures
            final(self).wf(),
            index_becomes(
                *old(self),
                *final(self),
                (5 * old(self).value_registers@[x as int]) as u16,
            ),
    {
        self.index_register = self.value_registers[x as usize] as u16 * 5u16
    }

    /// Add the immediate `kk` to `Vx`, wrapping modulo 256. The flag
    /// register is untouched: only the register-to-register add sets it.
    pub fn op_add_vx_kk(&mut self, x: u8, kk: u8)
        requires
            old(self).wf(),
            x < 16,
        ensures
            final(self).wf(),
            regs_become(
                *old(self),
                *final(self),
                old(self).value_registers@.update(
                    x as int,
                    ((old(self).value_registers@[x as int] + kk) % 256) as u8,
                ),
            ),
    {
        let sum: u16 = self.value_registers[x as usize] as u16 + kk as u16;
        self.value_registers.set(x as usize, (sum % 256) as u8);
    }

    /// Add `Vy` into `Vx` modulo 256, then set the flag register to 1 if the
    /// true sum overflowed a byte, else to 0 (so with `x == 0xF` the flag
    /// wins).
    pub fn op_add_vx_vy(&mut self, x: u8, y: u8)
        requires
            old(self).wf(),
            x < 16,
            y < 16,
        ensures
            final(self).wf(),
            regs_become(
                *old(self),
                *final(self),
                old(self).value_registers@.update(
                    x as int,
                    ((old(self).value_registers@[x as int] + old(self).value_registers@[y as int])
                        % 256) as u8,
                ).update(
                    15,
                    if old(self).value_registers@[x as int] + old(self).value_registers@[y as int]
                        >= 256 {
                        1u8
                    } else {
                        0u8
                    },
                ),
            ),
    {
        let sum: u16 = self.value_registers[x as usize] as u16
            + self.value_registers[y as usize] as u16;
        self.value_registers.set(x as usize, (sum % 256) as u8);
        self.value_registers.set(15, if sum >= 256 { 1 } else { 0 });
    }

    /// Add `Vx`, zero-extended, into the 16-bit index register, wrapping.
    pub fn op_add_i_vx(&mut self, x: u8)
        requires
            old(self).wf(),
            x < 16,
        ensures
            final(self).wf(),
            index_becomes(
                *old(self),
                *final(self),
                ((old(self).index_register + old(self).value_registers@[x as int])
                    % 0x10000) as u16,
            ),
    {
        let sum: u32 = self.index_register as u32 + self.value_registers[x as usize] as u32;
        self.index_register = (sum % 0x10000) as u16;
    }

    /// Bitwise OR `Vy` into `Vx`; the flag register is untouched.
    pub fn op_or_vx_vy(&mut self, x: u8, y: u8)
        requires
            old(self).wf(),
            x < 16,
            y < 16,
        ensures
            final(self).wf(),
            regs_become(
                *old(self),
                *final(self),
                old(self).value_registers@.update(
                    x as int,
                    old(self).value_registers@[x as int] | old(self).value_registers@[y as int],
                ),
            ),
    {
        let v = self.value_registers[x as usize] | self.value_registers[y as usize];
        self.value_registers.set(x as usize, v);
    }

    /// Bitwise AND `Vy` into `Vx`; the flag register is untouched.
    pub fn op_and_vx_vy(&mut self, x: u8, y: u8)
        requires
            old(self).wf(),
            x < 16,
            y < 16,
        ensures
            final(self).wf(),
            regs_become(
                *old(self),
                *final(self),
                old(self).value_registers@.update(
                    x as int,
                    old(self).value_registers@[x as int] & old(self).value_registers@[y as int],
                ),
            ),
    {
        let v = self.value_registers[x as usize] & self.value_registers[y as usize];
        self.value_registers.set(x as usize, v);
    }

    /// Bitwise XOR `Vy` into `Vx`; the flag register is untouched.
    pub fn op_xor_vx_vy(&mut self, x: u8, y: u8)
        requires
            old(self).wf(),
            x < 16,
            y < 16,
        ensures
            final(self).wf(),
            regs_become(
                *old(self),
                *final(self),
                old(self).value_registers@.update(
                    x as int,
                    old(self).value_registers@[x as int] ^ old(self).value_registers@[y as int],
                ),
            ),
    {
        let v = self.value_registers[x as usize] ^ self.value_registers[y as usize];
        self.value_registers.set(x as usize, v);
    }

    /// Subtract `Vy` from `Vx` modulo 256. The flag register first receives
    /// 1 if `Vx > Vy` (no borrow) and 0 otherwise, then the difference is
    /// written (so with `x == 0xF` the difference wins).
    pub fn op_sub_vx_vy(&mut self, x: u8, y: u8)
        requires
            old(self).wf(),
            x < 16,
            y < 16,
        ensures
            final(self).wf(),
            regs_become(
                *old(self),
                *final(self),
                old(self).value_registers@.update(
                    15,
                    if old(self).value_registers@[x as int] > old(self).value_registers@[y as int] {
                        1u8
                    } else {
                        0u8
                    },
                ).update(
                    x as int,
                    ((old(self).value_registers@[x as int] + 256
                        - old(self).value_registers@[y as int]) % 256) as u8,
                ),
            ),
    {
        let vx = self.value_registers[x as usize];
        let vy = self.value_registers[y as usize];
        self.value_registers.set(15, if vx > vy { 1 } else { 0 });
        let diff: u16 = (vx as u16 + 256 - vy as u16) % 256;
        self.value_registers.set(x as usize, diff as u8);
    }

    /// Subtract `Vx` from `Vy` modulo 256 and store the difference in `Vx`.
    /// The flag register first receives 1 if `Vy > Vx` and 0 otherwise.
    pub fn op_subn_vx_vy(&mut self, x: u8, y: u8)
        requires
            old(self).wf(),
            x < 16,
            y < 16,
        ensures
            final(self).wf(),
            regs_become(
                *old(self),
                *final(self),
                old(self).value_registers@.update(
                    15,
                    if old(self).value_registers@[y as int] > old(self).value_registers@[x as int] {
                        1u8
                    } else {
                        0u8
                    },
                ).update(
                    x as int,
                    ((old(self).value_registers@[y as int] + 256
                        - old(self).value_registers@[x as int]) % 256) as u8,
                ),
            ),
    {
        let vx = self.value_registers[x as usize];
        let vy = self.value_registers[y as usize];
        self.value_registers.set(15, if vy > vx { 1 } else { 0 });
        let diff: u16 = (vy as u16 + 256 - vx as u16) % 256;
        self.value_registers.set(x as usize, diff as u8);
    }

    /// Shift `Vx` right by one bit. The flag register first receives the
    /// low bit that is shifted out, then the shifted value is written.
    pub fn op_shr_vx(&mut self, x: u8)
        requires
            old(self).wf(),
            x < 16,
        ensures
            final(self).wf(),
            regs_become(
                *old(self),
                *final(self),
                old(self).value_registers@.update(
                    15,
                    old(self).value_registers@[x as int] & 1,
                ).update(x as int, old(self).value_registers@[x as int] >> 1u8),
            ),
    {
        let v = self.value_registers[x as usize];
        self.value_registers.set(15, v & 1);
        self.value_registers.set(x as usize, v >> 1u8);
    }

    /// Shift `Vx` left by one bit, dropping into the byte. The flag register
    /// first receives the high bit that is shifted out (as 0 or 1), then the
    /// shifted value is written.
    pub fn op_shl_vx(&mut self, x: u8)
        requires
            old(self).wf(),
            x < 16,
        ensures
            final(self).wf(),
            regs_become(
                *old(self),
                *final(self),
                old(self).value_registers@.update(
                    15,
                    old(self).value_registers@[x as int] >> 7u8,
                ).update(
                    x as int,
                    ((old(self).value_registers@[x as int] * 2) % 256) as u8,
                ),
            ),
    {
        let v = self.value_registers[x as usize];
        self.value_registers.set(15, v >> 7u8);
        let shifted: u16 = (v as u16 * 2) % 256;
        self.value_registers.set(x as usize, shifted as u8);
    }
}

/// The difference the subtract family stores is the minuend minus the
/// subtrahend modulo 256: shifting the minuend up by one full wrap before
/// subtracting, as the executable code does to stay in unsigned arithmetic,
/// changes nothing modulo 256.
pub proof fn lemma_sub_wraps(vx: u8, vy: u8)
    ensures
        (vx + 256 - vy) % 256 == (vx - vy) % 256,
{
    vstd::arithmetic::div_mod::lemma_mod_add_multiples_vanish(vx - vy, 256);
}

/// A random register load leaves every bit outside the mask clear and
/// touches nothing but `Vx`: the drawn byte itself is not pinned down.
pub open spec fn rnd_post(pre: Chip8, post: Chip8, x: int, kk: u8) -> bool {
    regs_become(pre, post, pre.value_registers@.update(x, post.value_registers@[x]))
        && post.value_registers@[x] & !kk == 0
}

/// The blocking key-wait: with no key down, the instruction pointer is
/// rewound by 2 so the host re-issues the same instruction on its next
/// cycle; otherwise the lowest-indexed pressed key lands in `Vx`.
pub open spec fn ldk_post(pre: Chip8, post: Chip8, x: int) -> bool {
    if pre.keyboard.memory == 0 {
        pc_becomes(pre, post, pc_minus_2(pre.program_counter))
    } else {
        regs_become(
            pre,
            post,
            pre.value_registers@.update(x, lowest_pressed(pre.keyboard.memory)),
        )
    }
}

/// The outcome of a return: a fault on an empty stack, else `ret_post`.
pub open spec fn ret_result(pre: Chip8, post: Chip8, op: u16, r: Result<(), Fault>) -> bool {
    if pre.stack_pointer == 0 {
        r == Result::<(), Fault>::Err(
            Fault {
                kind: FaultKind::StackUnderflow,
                op_code: op,
                program_counter: pre.program_counter,
            },
        ) && unchanged(pre, post)
    } else {
        r is Ok && ret_post(pre, post)
    }
}

/// The outcome of a call: a fault on a full stack, else `call_post`.
pub open spec fn call_result(
    pre: Chip8,
    post: Chip8,
    nnn: u16,
    op: u16,
    r: Result<(), Fault>,
) -> bool {
    if pre.stack_pointer == 16 {
        r == Result::<(), Fault>::Err(
            Fault {
                kind: FaultKind::StackOverflow,
                op_code: op,
                program_counter: pre.program_counter,
            },
        ) && unchanged(pre, post)
    } else {
        r is Ok && call_post(pre, post, nnn)
    }
}

/// The outcome of the BCD instruction: a fault when the three target bytes
/// would run past the top of memory, else the three decimal digits of `Vx`
/// written at the index register.
pub open spec fn bcd_result(pre: Chip8, post: Chip8, x: int, op: u16, r: Result<(), Fault>) -> bool {
    let i = pre.index_register as int;
    if i + 3 > 4096 {
        r == Result::<(), Fault>::Err(
            Fault {
                kind: FaultKind::MemoryOutOfRange,
                op_code: op,
                program_counter: pre.program_counter,
            },
        ) && unchanged(pre, post)
    } else {
        r is Ok && memory_becomes(
            pre,
            post,
            bcd_digits(pre.value_registers@[x], i, pre.memory@),
        )
    }
}

/// The outcome of the register block store: a fault when the `x + 1` target
/// bytes would run past the top of memory, else registers `V0..=Vx`
/// (inclusive, `x + 1` bytes — the canonical transfer count) copied to
/// memory at the index register.
pub open spec fn store_result(
    pre: Chip8,
    post: Chip8,
    x: int,
    op: u16,
    r: Result<(), Fault>,
) -> bool {
    let i = pre.index_register as int;
    if i + x + 1 > 4096 {
        r == Result::<(), Fault>::Err(
            Fault {
                kind: FaultKind::MemoryOutOfRange,
                op_code: op,
                program_counter: pre.program_counter,
            },
        ) && unchanged(pre, post)
    } else {
        r is Ok && post.memory@.len() == 4096 && (forall|j: int|
            0 <= j < 4096 && !(i <= j < i + x + 1) ==> post.memory@[j] == pre.memory@[j]) && (
        forall|j: int| i <= j < i + x + 1 ==> post.memory@[j] == pre.value_registers@[j - i])
            && same_regs(pre, post) && same_pc(pre, post) && same_index(pre, post) && same_stack(
            pre,
            post,
        ) && same_timers(pre, post) && same_gpu(pre, post) && same_keyboard(pre, post)
    }
}

/// The outcome of the register block load: a fault when the `x + 1` source
/// bytes would run past the top of memory, else memory at the index
/// register copied into registers `V0..=Vx` (inclusive, `x + 1` bytes).
pub open spec fn load_result(
    pre: Chip8,
    post: Chip8,
    x: int,
    op: u16,
    r: Result<(), Fault>,
) -> bool {
    let i = pre.index_register as int;
    if i + x + 1 > 4096 {
        r == Result::<(), Fault>::Err(
            Fault {
                kind: FaultKind::MemoryOutOfRange,
                op_code: op,
                program_counter: pre.program_counter,
            },
        ) && unchanged(pre, post)
    } else {
        r is Ok && post.value_registers@.len() == 16 && (forall|j: int|
            0 <= j <= x ==> post.value_registers@[j] == pre.memory@[i + j]) && (forall|j: int|
            x < j < 16 ==> post.value_registers@[j] == pre.value_registers@[j]) && same_memory(
            pre,
            post,
        ) && same_pc(pre, post) && same_index(pre, post) && same_stack(pre, post) && same_timers(
            pre,
            post,
        ) && same_gpu(pre, post) && same_keyboard(pre, post)
    }
}

/// The outcome of the draw instruction: a fault when the `n` sprite bytes
/// would run past the top of memory, else the XOR blit of `drw_post` with
/// the sprite read from memory at the index register.
pub open spec fn drw_result(
    pre: Chip8,
    post: Chip8,
    x: int,
    y: int,
    n: int,
    op: u16,
    r: Result<(), Fault>,
) -> bool {
    let i = pre.index_register as int;
    if n > 0 && i + n > 4096 {
        r == Result::<(), Fault>::Err(
            Fault {
                kind: FaultKind::MemoryOutOfRange,
                op_code: op,
                program_counter: pre.program_counter,
            },
        ) && unchanged(pre, post)
    } else if n == 0 {
        r is Ok && drw_post(pre, post, x, y, Seq::<u8>::empty())
    } else {
        r is Ok && drw_post(pre, post, x, y, pre.memory@.subrange(i, i + n))
    }
}

/// What `execute_op` guarantees for every opcode: the state change and the
/// success-or-fault outcome of the one instruction the opcode decodes to.
pub open spec fn execute_post(pre: Chip8, post: Chip8, op: u16, r: Result<(), Fault>) -> bool {
    match decode_spec(op) {
        Instr::Cls => r is Ok && cls_post(pre, post),
        Instr::Ret => ret_result(pre, post, op, r),
        Instr::Sys(nnn) => r is Ok && pc_becomes(pre, post, nnn),
        Instr::Jp(nnn) => r is Ok && pc_becomes(pre, post, nnn),
        Instr::Call(nnn) => call_result(pre, post, nnn, op, r),
        Instr::SeVxKk(x, kk) => r is Ok && pc_becomes(
            pre,
            post,
            if pre.value_registers@[x as int] == kk {
                pc_plus_2(pre.program_counter)
            } else {
                pre.program_counter
            },
        ),
        Instr::SneVxKk(x, kk) => r is Ok && pc_becomes(
            pre,
            post,
            if pre.value_registers@[x as int] != kk {
                pc_plus_2(pre.program_counter)
            } else {
                pre.program_counter
            },
        ),
        Instr::SeVxVy(x, y) => r is Ok && pc_becomes(
            pre,
            post,
            if pre.value_registers@[x as int] == pre.value_registers@[y as int] {
                pc_plus_2(pre.program_counter)
            } else {
                pre.program_counter
            },
        ),
        Instr::SneVxVy(x, y) => r is Ok && pc_becomes(
            pre,
            post,
            if pre.value_registers@[x as int] != pre.value_registers@[y as int] {
                pc_plus_2(pre.program_counter)
            } else {
                pre.program_counter
            },
        ),
        Instr::LdVxKk(x, kk) => r is Ok && regs_become(
            pre,
            post,
            pre.value_registers@.update(x as int, kk),
        ),
        Instr::AddVxKk(x, kk) => r is Ok && regs_become(
            pre,
            post,
            pre.value_registers@.update(
                x as int,
                ((pre.value_registers@[x as int] + kk) % 256) as u8,
            ),
        ),
        Instr::LdVxVy(x, y) => r is Ok && regs_become(
            pre,
            post,
            pre.value_registers@.update(x as int, pre.value_registers@[y as int]),
        ),
        Instr::OrVxVy(x, y) => r is Ok && regs_become(
            pre,
            post,
            pre.value_registers@.update(
                x as int,
                pre.value_registers@[x as int] | pre.value_registers@[y as int],
            ),
        ),
        Instr::AndVxVy(x, y) => r is Ok && regs_become(
            pre,
            post,
            pre.value_registers@.update(
                x as int,
                pre.value_registers@[x as int] & pre.value_registers@[y as int],
            ),
        ),
        Instr::XorVxVy(x, y) => r is Ok && regs_become(
            pre,
            post,
            pre.value_registers@.update(
                x as int,
                pre.value_registers@[x as int] ^ pre.value_registers@[y as int],
            ),
        ),
        Instr::AddVxVy(x, y) => r is Ok && regs_become(
            pre,
            post,
            pre.value_registers@.update(
                x as int,
                ((pre.value_registers@[x as int] + pre.value_registers@[y as int]) % 256) as u8,
            ).update(
                15,
                if pre.value_registers@[x as int] + pre.value_registers@[y as int] >= 256 {
                    1u8
                } else {
                    0u8
                },
            ),
        ),
        Instr::SubVxVy(x, y) => r is Ok && regs_become(
            pre,
            post,
            pre.value_registers@.update(
                15,
                if pre.value_registers@[x as int] > pre.value_registers@[y as int] {
                    1u8
                } else {
                    0u8
                },
            ).update(
                x as int,
                ((pre.value_registers@[x as int] + 256 - pre.value_registers@[y as int])
                    % 256) as u8,
            ),
        ),
        Instr::ShrVx(x) => r is Ok && regs_become(
            pre,
            post,
            pre.value_registers@.update(15, pre.value_registers@[x as int] & 1).update(
                x as int,
                pre.value_registers@[x as int] >> 1u8,
            ),
        ),
        Instr::SubnVxVy(x, y) => r is Ok && regs_become(
            pre,
            post,
            pre.value_registers@.update(
                15,
                if pre.value_registers@[y as int] > pre.value_registers@[x as int] {
                    1u8
                } else {
                    0u8
                },
            ).update(
                x as int,
                ((pre.value_registers@[y as int] + 256 - pre.value_registers@[x as int])
                    % 256) as u8,
            ),
        ),
        Instr::ShlVx(x) => r is Ok && regs_become(
            pre,
            post,
            pre.value_registers@.update(15, pre.value_registers@[x as int] >> 7u8).update(
                x as int,
                ((pre.value_registers@[x as int] * 2) % 256) as u8,
            ),
        ),
        Instr::LdINnn(nnn) => r is Ok && index_becomes(pre, post, nnn),
        Instr::JpV0Nnn(nnn) => r is Ok && pc_becomes(
            pre,
            post,
            (nnn + pre.value_registers@[0]) as u16,
        ),
        Instr::RndVxKk(x, kk) => r is Ok && rnd_post(pre, post, x as int, kk),
        Instr::DrwVxVyN(x, y, n) => drw_result(pre, post, x as int, y as int, n as int, op, r),
        Instr::SkpVx(x) => r is Ok && pc_becomes(
            pre,
            post,
            if x_key_pressed(pre, x as int) {
                pc_plus_2(pre.program_counter)
            } else {
                pre.program_counter
            },
        ),
        Instr::SknpVx(x) => r is Ok && pc_becomes(
            pre,
            post,
            if !x_key_pressed(pre, x as int) {
                pc_plus_2(pre.program_counter)
            } else {
                pre.program_counter
            },
        ),
        Instr::LdVxDt(x) => r is Ok && regs_become(
            pre,
            post,
            pre.value_registers@.update(x as int, pre.delay_timer),
        ),
        Instr::LdVxK(x) => r is Ok && ldk_post(pre, post, x as int),
        Instr::LdDtVx(x) => r is Ok && delay_becomes(pre, post, pre.value_registers@[x as int]),
        Instr::LdStVx(x) => r is Ok && sound_becomes(pre, post, pre.value_registers@[x as int]),
        Instr::AddIVx(x) => r is Ok && index_becomes(
            pre,
            post,
            ((pre.index_register + pre.value_registers@[x as int]) % 0x10000) as u16,
        ),
        Instr::LdFVx(x) => r is Ok && index_becomes(
            pre,
            post,
            (5 * pre.value_registers@[x as int]) as u16,
        ),
        Instr::LdBVx(x) => bcd_result(pre, post, x as int, op, r),
        Instr::LdIVx(x) => store_result(pre, post, x as int, op, r),
        Instr::LdVxI(x) => load_result(pre, post, x as int, op, r),
        Instr::Unknown => r is Ok && unchanged(pre, post),
    }
}

impl Chip8 {
    /// Load a random byte, masked by `kk`, into `Vx`.
    pub fn op_rnd_vx_kk(&mut self, x: u8, kk: u8)
        requires
            old(self).wf(),
            x < 16,
        ensures
            final(self).wf(),
            rnd_post(*old(self), *final(self), x as int, kk),
    {
        let b = random_byte();
        self.apply_random(x, kk, b);
    }

    /// The masking step of the random load: write `b & kk` into `Vx`.
    /// Taking the drawn byte as an argument keeps this step checked for
    /// every byte the generator can hand back.
    pub fn apply_random(&mut self, x: u8, kk: u8, b: u8)
        requires
            old(self).wf(),
            x < 16,
        ensures
            final(self).wf(),
            regs_become(
                *old(self),
                *final(self),
                old(self).value_registers@.update(x as int, b & kk),
            ),
            rnd_post(*old(self), *final(self), x as int, kk),
    {
        self.value_registers.set(x as usize, b & kk);
        proof {
            assert(b & kk & !kk == 0) by (bit_vector);
        }
    }

    /// Block until a key is pressed: with none down, rewind the instruction
    /// pointer by 2 so the host re-issues this instruction next cycle; once
    /// one is down, store the lowest-indexed pressed key into `Vx`.
    pub fn op_ld_vx_k(&mut self, x: u8)
        requires
            old(self).wf(),
            x < 16,
        ensures
            final(self).wf(),
            ldk_post(*old(self), *final(self), x as int),
    {
        if !self.keyboard.is_any_key_pressed() {
            self.program_counter = pc_sub_2(self.program_counter);
            return;
        }
        let key_index = self.keyboard.get_key_pressed_index();
        match key_index {
            Some(index) => self.value_registers.set(x as usize, index),
            None => (),
        }
    }

    /// Write the decimal digits of `Vx` — hundreds, tens, ones — into the
    /// three bytes at the index register. Running past the top of memory is
    /// a detected fault.
    pub fn op_ld_b_vx(&mut self, x: u8, op_code: u16) -> (r: Result<(), Fault>)
        requires
            old(self).wf(),
            x < 16,
        ensures
            final(self).wf(),
            bcd_result(*old(self), *final(self), x as int, op_code, r),
    {
        let i = self.index_register as usize;
        if i + 3 > 4096 {
            return Err(
                Fault {
                    kind: FaultKind::MemoryOutOfRange,
                    op_code,
                    program_counter: self.program_counter,
                },
            );
        }
        let v = self.value_registers[x as usize];
        self.memory.set(i, v / 100);
        self.memory.set(i + 1, (v % 100) / 10);
        self.memory.set(i + 2, v % 10);
        Ok(())
    }

    /// Store registers `V0..=Vx` — `x + 1` bytes, the inclusive canonical
    /// transfer — to memory starting at the index register. Running past
    /// the top of memory is a detected fault.
    pub fn op_ld_i_vx(&mut self, x: u8, op_code: u16) -> (r: Result<(), Fault>)
        requires
            old(self).wf(),
            x < 16,
        ensures
            final(self).wf(),
            store_result(*old(self), *final(self), x as int, op_code, r),
    {
        let i = self.index_register as usize;
        let cnt = x as usize + 1;
        if i + cnt > 4096 {
            return Err(
                Fault {
                    kind: FaultKind::MemoryOutOfRange,
                    op_code,
                    program_counter: self.program_counter,
                },
            );
        }
        let mut k: usize = 0;
        while k < cnt
            invariant
                k <= cnt,
                cnt == x as usize + 1,
                x < 16,
                i + cnt <= 4096,
                i == self.index_register as usize,
                self.memory@.len() == 4096,
                self.value_registers@.len() == 16,
                forall|j: int|
                    0 <= j < 4096 && !(i <= j < i + k) ==> self.memory@[j] == old(self).memory@[j],
                forall|j: int|
                    i <= j < i + k ==> self.memory@[j] == old(self).value_registers@[j - i],
                same_regs(*old(self), *self),
                same_pc(*old(self), *self),
                same_index(*old(self), *self),
                same_stack(*old(self), *self),
                same_timers(*old(self), *self),
                same_gpu(*old(self), *self),
                same_keyboard(*old(self), *self),
            decreases cnt - k,
        {
            let v = self.value_registers[k];
            self.memory.set(i + k, v);
            k = k + 1;
        }
        Ok(())
    }

    /// Load `x + 1` bytes from memory starting at the index register into
    /// registers `V0..=Vx` (the inclusive canonical transfer). Running past
    /// the top of memory is a detected fault.
    pub fn op_ld_vx_i(&mut self, x: u8, op_code: u16) -> (r: Result<(), Fault>)
        requires
            old(self).wf(),
            x < 16,
        ensures
            final(self).wf(),
            load_result(*old(self), *final(self), x as int, op_code, r),
    {
        let i = self.index_register as usize;
        let cnt = x as usize + 1;
        if i + cnt > 4096 {
            return Err(
                Fault {
                    kind: FaultKind::MemoryOutOfRange,
                    op_code,
                    program_counter: self.program_counter,
                },
            );
        }
        let mut k: usize = 0;
        while k < cnt
            invariant
                k <= cnt,
                cnt == x as usize + 1,
                x < 16,
                i + cnt <= 4096,
                i == self.index_register as usize,
                self.value_registers@.len() == 16,
                self.memory@.len() == 4096,
                forall|j: int|
                    0 <= j < k ==> self.value_registers@[j] == self.memory@[i + j],
                forall|j: int|
                    k <= j < 16 ==> self.value_registers@[j] == old(self).value_registers@[j],
                same_memory(*old(self), *self),
                same_pc(*old(self), *self),
                same_index(*old(self), *self),
                same_stack(*old(self), *self),
                same_timers(*old(self), *self),
                same_gpu(*old(self), *self),
                same_keyboard(*old(self), *self),
            decreases cnt - k,
        {
            let v = self.memory[i + k];
            self.value_registers.set(k, v);
            k = k + 1;
        }
        Ok(())
    }

    /// Draw the `n`-row sprite stored at the index register at the
    /// coordinates held in `Vx` and `Vy`, XOR-wise with wraparound, and set
    /// the flag register to 1 iff a lit pixel was turned off. Reading the
    /// sprite past the top of memory is a detected fault.
    pub fn op_drw_vx_vy_n(&mut self, x: u8, y: u8, n: u8, op_code: u16) -> (r: Result<(), Fault>)
        requires
            old(self).wf(),
            x < 16,
            y < 16,
            n < 16,
        ensures
            final(self).wf(),
            drw_result(*old(self), *final(self), x as int, y as int, n as int, op_code, r),
    {
        let i = self.index_register as usize;
        let rows = n as usize;
        if rows > 0 && i + rows > 4096 {
            return Err(
                Fault {
                    kind: FaultKind::MemoryOutOfRange,
                    op_code,
                    program_counter: self.program_counter,
                },
            );
        }
        let mut sprite: Vec<u8> = Vec::new();
        let mut k: usize = 0;
        while k < rows
            invariant
                k <= rows,
                rows < 16,
                rows > 0 ==> i + rows <= 4096,
                i == self.index_register as usize,
                self.memory@.len() == 4096,
                sprite@.len() == k,
                rows > 0 ==> sprite@ == self.memory@.subrange(i as int, i + k),
            decreases rows - k,
        {
            let b = self.memory[i + k];
            sprite.push(b);
            proof {
                assert(self.memory@.subrange(i as int, i + k + 1) =~= self.memory@.subrange(
                    i as int,
                    i as int + k,
                ).push(b));
            }
            k = k + 1;
        }
        let vx = self.value_registers[x as usize];
        let vy = self.value_registers[y as usize];
        let col = self.gpu.draw(vx, vy, sprite.as_slice());
        self.value_registers.set(15, if col { 1 } else { 0 });
        proof {
            if n == 0 {
                assert(sprite@ =~= Seq::<u8>::empty());
            }
        }
        Ok(())
    }

    /// Apply exactly one instruction's effect to the state. The opcode is
    /// decoded and dispatched; the contract `execute_post` pins down the
    /// state change of every instruction, the inputs on which a stack or
    /// memory fault is reported instead, and that unknown bit patterns
    /// change nothing.
    pub fn execute_op(&mut self, op_code: u16) -> (r: Result<(), Fault>)
        requires
            old(self).wf(),
        ensures
            final(self).wf(),
            execute_post(*old(self), *final(self), op_code, r),
    {
        let instr = decode(op_code);
        match instr {
            Instr::Cls => {
                self.op_cls();
                Ok(())
            },
            Instr::Ret => self.op_ret(op_code),
            Instr::Sys(nnn) => {
                self.op_sys_nnn(nnn);
                Ok(())
            },
            Instr::Jp(nnn) => {
                self.op_jp_nnn(nnn);
                Ok(())
            },
            Instr::Call(nnn) => self.op_call_nnn(nnn, op_code),
            Instr::SeVxKk(x, kk) => {
                self.op_se_vx_kk(x, kk);
                Ok(())
            },
            Instr::SneVxKk(x, kk) => {
                self.op_sne_vx_kk(x, kk);
                Ok(())
            },
            Instr::SeVxVy(x, y) => {
                self.op_se_vx_vy(x, y);
                Ok(())
            },
            Instr::SneVxVy(x, y) => {
                self.op_sne_vx_vy(x, y);
                Ok(())
            },
            Instr::LdVxKk(x, kk) => {
                self.op_ld_vx_kk(x, kk);
                Ok(())
            },
            Instr::AddVxKk(x, kk) => {
                self.op_add_vx_kk(x, kk);
                Ok(())
            },
            Instr::LdVxVy(x, y) => {
                self.op_ld_vx_vy(x, y);
                Ok(())
            },
            Instr::OrVxVy(x, y) => {
                self.op_or_vx_vy(x, y);
                Ok(())
            },
            Instr::AndVxVy(x, y) => {
                self.op_and_vx_vy(x, y);
                Ok(())
            },
            Instr::XorVxVy(x, y) => {
                self.op_xor_vx_vy(x, y);
                Ok(())
            },
            Instr::AddVxVy(x, y) => {
                self.op_add_vx_vy(x, y);
                Ok(())
            },
            Instr::SubVxVy(x, y) => {
                self.op_sub_vx_vy(x, y);
                Ok(())
            },
            Instr::ShrVx(x) => {
                self.op_shr_vx(x);
                Ok(())
            },
            Instr::SubnVxVy(x, y) => {
                self.op_subn_vx_vy(x, y);
                Ok(())
            },
            Instr::ShlVx(x) => {
                self.op_shl_vx(x);
                Ok(())
            },
            Instr::LdINnn(nnn) => {
                self.op_ld_i_nnn(nnn);
                Ok(())
            },
            Instr::JpV0Nnn(nnn) => {
                self.op_jp_v0_nnn(nnn);
                Ok(())
            },
            Instr::RndVxKk(x, kk) => {
                self.op_rnd_vx_kk(x, kk);
                Ok(())
            },
            Instr::DrwVxVyN(x, y, n) => self.op_drw_vx_vy_n(x, y, n, op_code),
            Instr::SkpVx(x) => {
                self.op_skp_x(x);
                Ok(())
            },
            Instr::SknpVx(x) => {
                self.op_skpn_x(x);
                Ok(())
            },
            Instr::LdVxDt(x) => {
                self.op_ld_vx_dt(x);
                Ok(())
            },
            Instr::LdVxK(x) => {
                self.op_ld_vx_k(x);
                Ok(())
            },
            Instr::LdDtVx(x) => {
                self.op_ld_dt_vx(x);
                Ok(())
            },
            Instr::LdStVx(x) => {
                self.op_ld_st_vx(x);
                Ok(())
            },
            Instr::AddIVx(x) => {
                self.op_add_i_vx(x);
                Ok(())
            },
            Instr::LdFVx(x) => {
                self.op_ld_f_vx(x);
                Ok(())
            },
            Instr::LdBVx(x) => self.op_ld_b_vx(x, op_code),
            Instr::LdIVx(x) => self.op_ld_i_vx(x, op_code),
            Instr::LdVxI(x) => self.op_ld_vx_i(x, op_code),
            Instr::Unknown => Ok(()),
        }
    }
}

/// Relies on `rand::random::<u8>()`: draws one byte from the thread-local
/// generator. Nothing is assumed of its value; every caller's contract
/// holds whatever byte comes back.
#[verifier::external_body]
fn random_byte() -> u8 {
    rand::random::<u8>()
}

/// The instruction pointer two bytes ahead, wrapping at the top of the
/// 16-bit range.
fn pc_add_2(pc: u16) -> (r: u16)
    ensures
        r == pc_plus_2(pc),
{
    if pc <= 0xFFFD {
        pc + 2
    } else {
        pc - 0xFFFE
    }
}

/// The instruction pointer two bytes back, wrapping at the bottom of the
/// 16-bit range.
fn pc_sub_2(pc: u16) -> (r: u16)
    ensures
        r == pc_minus_2(pc),
{
    if pc >= 2 {
        pc - 2
    } else {
        pc + 0xFFFE
    }
}

/// Build the 80-byte font table.
#[verifier::rlimit(100)]
fn font_set() -> (v: Vec<u8>)
    ensures
        v@ == font_seq(),
{
    let mut v: Vec<u8> = Vec::new();
    v.push(0xf0);
    v.push(0x90);
    v.push(0x90);
    v.push(0x90);
    v.push(0xf0);
    v.push(0x20);
    v.push(0x60);
    v.push(0x20);
    v.push(0x20);
    v.push(0x70);
    v.push(0xf0);
    v.push(0x10);
    v.push(0xf0);
    v.push(0x80);
    v.push(0xf0);
    v.push(0xf0);
    v.push(0x10);
    v.push(0xf0);
    v.push(0x10);
    v.push(0xf0);
    v.push(0x90);
    v.push(0x90);
    v.push(0xf0);
    v.push(0x10);
    v.push(0x10);
    v.push(0xf0);
    v.push(0x80);
    v.push(0xf0);
    v.push(0x10);
    v.push(0xf0);
    v.push(0xf0);
    v.push(0x80);
    v.push(0xf0);
    v.push(0x90);
    v.push(0xf0);
    v.push(0xf0);
    v.push(0x10);
    v.push(0x20);
    v.push(0x40);
    v.push(0x40);
    v.push(0xf0);
    v.push(0x90);
    v.push(0xf0);
    v.push(0x90);
    v.push(0xf0);
    v.push(0xf0);
    v.push(0x90);
    v.push(0xf0);
    v.push(0x10);
    v.push(0xf0);
    v.push(0xf0);
    v.push(0x90);
    v.push(0xf0);
    v.push(0x90);
    v.push(0x90);
    v.push(0xe0);
    v.push(0x90);
    v.push(0xe0);
    v.push(0x90);
    v.push(0xe0);
    v.push(0xf0);
    v.push(0x80);
    v.push(0x80);
    v.push(0x80);
    v.push(0xf0);
    v.push(0xe0);
    v.push(0x90);
    v.push(0x90);
    v.push(0x90);
    v.push(0xe0);
    v.push(0xf0);
    v.push(0x80);
    v.push(0xf0);
    v.push(0x80);
    v.push(0xf0);
    v.push(0xf0);
    v.push(0x80);
    v.push(0xf0);
    v.push(0x80);
    v.push(0x80);
    proof {
        assert(v@ =~= font_seq());
    }
    v
}

} // verus!
