//! The second program: one entry point, `initialize`.
use vstd::prelude::*;
use anchor_lang::error::Error;
use crate::address::{address_text, ProgramId};
use crate::context::Context;
use crate::message::{compose, line};

verus! {

/// The address this program is declared under,
/// `3s8r3yo4zxrPDG88E1TurPC5EiPzphnbF9Dvv6kBRhAL` in base 58.
pub const ID: [u8; 32] = [
    42, 143, 73, 21, 100, 48, 0, 202, 157, 200, 40, 52, 227, 65, 35, 182,
    90, 128, 92, 144, 22, 101, 225, 189, 223, 70, 16, 62, 74, 32, 112, 189,
];

/// What every `initialize` line starts with.
pub const INITIALIZE_PREFIX: &'static str = "Greetings from: ";

/// Accounts of `initialize`: none.
pub struct Initialize {}

/// The line that `initialize` logs when invoked as program `id`.
pub open spec fn initialize_line(id: Seq<u8>) -> Seq<char> {
    line(INITIALIZE_PREFIX@, address_text(id))
}

/// The declared address of this program.
pub fn id() -> (id: ProgramId)
    ensures
        id@ == ID@,
{
    ProgramId::new_from_array(ID)
}

/// Whether `id` is the declared address of this program.
pub fn check_id(id: &ProgramId) -> (ok: bool)
    ensures
        ok <==> id@ == ID@,
{
    id.same(&self::id())
}

/// Entry point `initialize`. Always succeeds, with the line to log: the
/// greeting followed by the text of the invoked program's identifier.
pub fn initialize(ctx: Context<Initialize>) -> (res: Result<String, Error>)
    ensures
        res is Ok,
        res->Ok_0@ == initialize_line(ctx.program_id@),
{
    let id_text = ctx.program_id.to_text();
    Ok(compose(INITIALIZE_PREFIX, id_text.as_str()))
}

/// However often `initialize` is called under one identifier, every call logs
/// the same line: given the lines of any number of calls, any two are equal.
pub proof fn lemma_initialize_repeatable(id: Seq<u8>, lines: Seq<Seq<char>>)
    requires
        forall|i: int| 0 <= i < lines.len() ==> lines[i] == initialize_line(id),
    ensures
        forall|i: int, j: int| 0 <= i < lines.len() && 0 <= j < lines.len() ==> lines[i] == lines[j],
{
}

} // verus!
