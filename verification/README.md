# rustyboy

A Game Boy emulator core whose behaviour is stated in contracts and proved
with Verus.

- `src/register.rs` — the register file, register pairs and flag bits.
- `src/alu.rs` — what each arithmetic, logic, rotate and shift operation does
  to the registers.
- `src/instructions.rs` — what each instruction does to the machine state,
  and where its integer arithmetic stays in range.
- `src/cpu.rs` — the processor: fetch, decode and execute, and one step of
  the emulation loop.
- `src/domain.rs` — tests for whether the next instruction or step stays in
  range.
- `src/memory.rs` — the address space and its memory-mapped registers.
- `src/gpu.rs` — video memory, the decoded tile set, the LCD timing state
  machine and the scan-line renderer.
- `src/debug.rs` — the debugger's command language and state.
- `app/main.rs` — the program: files, window, keyboard and debugger prompt.
