//! The program's single instruction, `initialize`, modelled over an explicit
//! execution context.

use vstd::prelude::*;
use crate::id::{base58_of, base58_text, ProgramId};

verus! {

/// The accounts that `initialize` declares: none.
///
/// A value of this type carries no data at all, so an invocation has no
/// account state it could read or write.
#[derive(Clone, Copy, PartialEq, Eq, Structural, Debug)]
pub struct Initialize {}

/// What the runtime hands an instruction: the calling program's address, the
/// declared accounts, and the transaction log that `msg`-style output is
/// appended to.
pub struct Context {
    /// The address of the program being executed.
    pub program_id: ProgramId,
    /// The accounts the instruction declared (here: none).
    pub accounts: Initialize,
    /// The log lines emitted so far in this transaction.
    pub logs: Vec<String>,
}

impl Context {
    /// A fresh context for one instruction call: no log lines yet.
    pub fn new(program_id: ProgramId) -> (r: Context)
        ensures
            r.program_id@ == program_id@,
            r.accounts == (Initialize {}),
            r.logs@ =~= Seq::<String>::empty(),
    {
        Context { program_id, accounts: Initialize {}, logs: Vec::new() }
    }
}

/// The instruction has no failure path: no code path produces this value.
/// It exists only to give the handler the usual `Result` shape.
#[derive(Clone, Copy, PartialEq, Eq, Structural, Debug)]
pub struct InstructionError;

/// The line logged for a program whose address renders as `id_text`.
pub open spec fn greeting_of(id_text: Seq<char>) -> Seq<char> {
    "Greetings from: "@ + id_text
}

/// `hay` holds `needle` whole and contiguous somewhere.
pub open spec fn text_contains(hay: Seq<char>, needle: Seq<char>) -> bool {
    exists|i: int|
        0 <= i && i + needle.len() <= hay.len() && #[trigger] hay.subrange(
            i,
            i + needle.len(),
        ) == needle
}

/// Build the greeting line around the rendered address.
fn greeting_message(id_text: &str) -> (r: String)
    ensures
        r@ == greeting_of(id_text@),
{
    let mut m = String::from_str("Greetings from: ");
    m.append(id_text);
    m
}

/// The one instruction of this program.
///
/// It appends the greeting — the program's base-58 address behind a fixed
/// prefix — to the transaction log and succeeds; nothing else in the context
/// changes. There is no input on which it fails.
pub fn initialize(ctx: &mut Context) -> (r: Result<(), InstructionError>)
    ensures
        r is Ok,
        final(ctx).program_id == old(ctx).program_id,
        final(ctx).accounts == old(ctx).accounts,
        final(ctx).logs@.len() == old(ctx).logs@.len() + 1,
        final(ctx).logs@.subrange(0, old(ctx).logs@.len() as int) == old(ctx).logs@,
        final(ctx).logs@.last()@ == greeting_of(base58_of(old(ctx).program_id@)),
{
    let id_text = base58_text(&ctx.program_id);
    let line = greeting_message(id_text.as_str());
    ctx.logs.push(line);
    proof {
        assert(ctx.logs@.subrange(0, old(ctx).logs@.len() as int) =~= old(ctx).logs@);
    }
    Ok(())
}

/// Law: the greeting built for a rendered address contains that address's
/// text, whole and contiguous, right after the 16-character prefix.
pub proof fn lemma_greeting_contains_id(id_text: Seq<char>)
    ensures
        greeting_of(id_text).len() == 16 + id_text.len(),
        greeting_of(id_text).subrange(16, greeting_of(id_text).len() as int) == id_text,
        text_contains(greeting_of(id_text), id_text),
{
    reveal_strlit("Greetings from: ");
    assert(greeting_of(id_text).subrange(16, greeting_of(id_text).len() as int) =~= id_text);
}

/// Law: the line `initialize` appends for a program with address bytes
/// `id_bytes` contains that program's rendered address.
pub proof fn lemma_log_line_contains_program_id(id_bytes: Seq<u8>)
    ensures
        text_contains(greeting_of(base58_of(id_bytes)), base58_of(id_bytes)),
{
    lemma_greeting_contains_id(base58_of(id_bytes));
}

/// Law: an `Initialize` value carries no account data at all — any two such
/// values are equal — so no invocation has account state it could modify.
pub proof fn lemma_no_account_state(a: Initialize, b: Initialize)
    ensures
        a == b,
{
}

} // verus!
