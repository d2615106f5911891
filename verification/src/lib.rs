use vstd::prelude::*;

pub mod register;
pub mod gpu;
pub mod memory;
pub mod alu;
pub mod cpu;
pub mod instructions;
pub mod debug;
pub mod domain;
pub mod behaviour;

verus! {

use crate::cpu::Cpu;
use crate::memory::MemoryView;
use crate::register::Registers;

/// The processor as it is set up for a disassembly listing: boot register
/// values and memory made from the two images with the I/O registers given
/// their values after boot.
pub fn disassembly(bios_image: &Vec<u8>, rom_image: &Vec<u8>) -> (cpu: Cpu)
    requires
        bios_image.len() <= 0x100,
        rom_image.len() <= 0x10000,
    ensures
        cpu.wf(),
        cpu.registers == Registers::after_boot(),
        cpu.memory@ == MemoryView::initial(bios_image@, rom_image@).setup(),
        cpu.memory@.vram.tiles_decoded(),
        !cpu.halted && !cpu.stopped && cpu.interrupts_enabled,
        cpu.unknown_opcode is None,
{
    let mut cpu = Cpu::new(bios_image, rom_image);
    cpu.memory.memory_setup();
    cpu
}

} // verus!
