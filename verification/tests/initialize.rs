use buy_cofee::id::{declared_id, ProgramId};
use buy_cofee::program::{initialize, Context};

const DECLARED_TEXT: &str = "GRAhvAGfjdQK6nMEYbpziQhpmFJhdxtJZWbgN2rC6mpC";

#[test]
fn initialize_succeeds_and_logs_greeting() {
    let mut ctx = Context::new(declared_id());
    let r = initialize(&mut ctx);
    assert!(r.is_ok());
    assert_eq!(ctx.logs.len(), 1);
    assert_eq!(
        ctx.logs[0],
        format!("Greetings from: {}", DECLARED_TEXT)
    );
}

#[test]
fn log_contains_declared_id() {
    let mut ctx = Context::new(declared_id());
    initialize(&mut ctx).unwrap();
    assert!(ctx.logs[0].contains(DECLARED_TEXT));
}

#[test]
fn zero_address_renders_as_ones() {
    // Base-58 keeps leading zero bytes as the digit `1`, one per byte.
    let mut ctx = Context::new(ProgramId::new([0u8; 32]));
    initialize(&mut ctx).unwrap();
    assert_eq!(
        ctx.logs[0],
        "Greetings from: 11111111111111111111111111111111"
    );
}

#[test]
fn initialize_succeeds_for_any_address() {
    let mut ctx = Context::new(ProgramId::new([7u8; 32]));
    assert!(initialize(&mut ctx).is_ok());
    let mut ctx = Context::new(ProgramId::new([255u8; 32]));
    assert!(initialize(&mut ctx).is_ok());
}

#[test]
fn initialize_modifies_nothing_but_the_log() {
    let id = declared_id();
    let mut ctx = Context::new(id);
    let before_accounts = ctx.accounts;
    initialize(&mut ctx).unwrap();
    assert_eq!(ctx.program_id, id);
    assert_eq!(ctx.accounts, before_accounts);
}

#[test]
fn earlier_log_lines_are_kept() {
    let mut ctx = Context::new(declared_id());
    initialize(&mut ctx).unwrap();
    let first = ctx.logs[0].clone();
    initialize(&mut ctx).unwrap();
    assert_eq!(ctx.logs.len(), 2);
    assert_eq!(ctx.logs[0], first);
    assert_eq!(ctx.logs[1], first);
}

#[test]
fn rendering_matches_the_runtime_crate() {
    // The logged address must be exactly what the runtime itself renders.
    let bytes = [7u8; 32];
    let expected = format!("{}", anchor_lang::prelude::Pubkey::new_from_array(bytes));
    let mut ctx = Context::new(ProgramId::new(bytes));
    initialize(&mut ctx).unwrap();
    assert_eq!(ctx.logs[0], format!("Greetings from: {}", expected));
}

#[test]
fn new_program_id_keeps_its_bytes() {
    let bytes = [42u8; 32];
    let id = ProgramId::new(bytes);
    assert_eq!(id.bytes, bytes);
}

#[test]
fn fresh_context_has_no_logs() {
    let ctx = Context::new(declared_id());
    assert!(ctx.logs.is_empty());
}
