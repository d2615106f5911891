use rustyboy::debug::{parse_debug_command, DebugCommand, DebugError, DebugMode, DebugReply};

#[test]
fn parses_commands() {
    assert_eq!(parse_debug_command(b"r\n"), Ok(DebugCommand::Run));
    assert_eq!(parse_debug_command(b"  s  extra"), Ok(DebugCommand::Step));
    assert_eq!(parse_debug_command(b"b 1234"), Ok(DebugCommand::Break(1234)));
    assert_eq!(parse_debug_command(b"b\t+5\r\n"), Ok(DebugCommand::Break(5)));
    assert_eq!(parse_debug_command(b"b 65535"), Ok(DebugCommand::Break(65535)));
    assert_eq!(parse_debug_command(b"printbreak"), Ok(DebugCommand::PrintBreak));
}

#[test]
fn rejects_bad_lines() {
    assert_eq!(parse_debug_command(b""), Err(DebugError::NoCommand));
    assert_eq!(parse_debug_command(b"   \n"), Err(DebugError::NoCommand));
    assert_eq!(parse_debug_command(b"x"), Err(DebugError::InvalidCommand));
    assert_eq!(parse_debug_command(b"rr"), Err(DebugError::InvalidCommand));
    assert_eq!(parse_debug_command(b"b"), Err(DebugError::MissingAddress));
    assert_eq!(parse_debug_command(b"b 65536"), Err(DebugError::InvalidAddress));
    assert_eq!(parse_debug_command(b"b 0x10"), Err(DebugError::InvalidAddress));
    assert_eq!(parse_debug_command(b"b +"), Err(DebugError::InvalidAddress));
    assert_eq!(parse_debug_command(b"b -1"), Err(DebugError::InvalidAddress));
}

#[test]
fn apply_commands() {
    let mut debug = DebugMode::new();
    assert_eq!(debug.apply(DebugCommand::PrintBreak), DebugReply::PrintBreakpoints);
    assert_eq!(debug.apply(DebugCommand::Break(5)), DebugReply::BreakpointSet(5));
    assert!(debug.is_breakpoint);
    assert_eq!(debug.breakpoints, vec![5]);
    assert_eq!(debug.apply(DebugCommand::Break(5)), DebugReply::Nothing);
    assert_eq!(debug.breakpoints, vec![5]);
    assert_eq!(debug.apply(DebugCommand::Break(7)), DebugReply::BreakpointSet(7));
    assert_eq!(debug.breakpoints, vec![5, 7]);
    assert!(debug.has_breakpoint(7));
    assert!(!debug.has_breakpoint(6));
    assert_eq!(debug.apply(DebugCommand::Run), DebugReply::Resume);
    assert!(debug.run && !debug.is_breakpoint);
    assert_eq!(debug.apply(DebugCommand::Step), DebugReply::Resume);
    assert!(debug.step);
}

#[test]
fn disassembly_prepares_cpu() {
    let cpu = rustyboy::disassembly(&Vec::new(), &vec![0u8; 0x150]);
    assert_eq!(cpu.registers.pc, 0x100);
    assert_eq!(cpu.memory.read_byte(0xFF26), 0xF1);
    assert!(cpu.memory.vram.lcd_control.display);
}
