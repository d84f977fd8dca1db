//! The third program: two independent entry points, `initialize` and `update`.
use vstd::prelude::*;
use anchor_lang::error::Error;
use crate::address::{address_text, ProgramId};
use crate::context::Context;
use crate::message::{compose, line};

verus! {

/// The address this program is declared under,
/// `H8tcHEeEPueCctQgsXGJ3CVuWppquHySRWUTou1xi7G` in base 58.
pub const ID: [u8; 32] = [
    4, 34, 54, 198, 156, 64, 53, 132, 145, 182, 106, 72, 240, 217, 195, 74,
    162, 37, 99, 146, 97, 165, 18, 109, 69, 146, 153, 238, 85, 211, 132, 199,
];

/// What every `initialize` line starts with.
pub const INITIALIZE_PREFIX: &'static str = "Smell Panty: ";

/// What every `update` line starts with.
pub const UPDATE_PREFIX: &'static str = "LickPussy: ";

/// Accounts of `initialize`: none.
pub struct Initialize {}

/// Accounts of `update`: none.
pub struct Update {}

/// The line that `initialize` logs when invoked as program `id`.
pub open spec fn initialize_line(id: Seq<u8>) -> Seq<char> {
    line(INITIALIZE_PREFIX@, address_text(id))
}

/// The line that `update` logs when invoked as program `id`.
pub open spec fn update_line(id: Seq<u8>) -> Seq<char> {
    line(UPDATE_PREFIX@, address_text(id))
}

/// The declared address of this program.
pub fn id() -> (id: ProgramId)
    ensures
        id@ == ID@,
{
    ProgramId::new_from_array(ID)
}

/// Whether `id` is the declared address of this program.
pub fn check_id(id: &ProgramId) -> (ok: bool)
    ensures
        ok <==> id@ == ID@,
{
    id.same(&self::id())
}

/// Entry point `initialize`. Always succeeds, with the line to log: the
/// initialize prefix followed by the text of the invoked program's identifier.
pub fn initialize(ctx: Context<Initialize>) -> (res: Result<String, Error>)
    ensures
        res is Ok,
        res->Ok_0@ == initialize_line(ctx.program_id@),
{
    let id_text = ctx.program_id.to_text();
    Ok(compose(INITIALIZE_PREFIX, id_text.as_str()))
}

/// Entry point `update`. Always succeeds, with the line to log: the update
/// prefix followed by the text of the invoked program's identifier.
pub fn update(ctx: Context<Update>) -> (res: Result<String, Error>)
    ensures
        res is Ok,
        res->Ok_0@ == update_line(ctx.program_id@),
{
    let id_text = ctx.program_id.to_text();
    Ok(compose(UPDATE_PREFIX, id_text.as_str()))
}

/// However often `initialize` is called under one identifier, every call logs
/// the same line: given the lines of any number of calls, any two are equal.
pub proof fn lemma_initialize_repeatable(id: Seq<u8>, lines: Seq<Seq<char>>)
    requires
        forall|i: int| 0 <= i < lines.len() ==> lines[i] == initialize_line(id),
    ensures
        forall|i: int, j: int| 0 <= i < lines.len() && 0 <= j < lines.len() ==> lines[i] == lines[j],
{
}

/// An `update` line begins with the update prefix and is never an `initialize`
/// line, whatever identifiers the two calls ran under: the two prefixes already
/// differ in their first character.
pub proof fn lemma_update_line_distinct(update_id: Seq<u8>, initialize_id: Seq<u8>)
    ensures
        update_line(update_id) != initialize_line(initialize_id),
        UPDATE_PREFIX@.is_prefix_of(update_line(update_id)),
        INITIALIZE_PREFIX@.is_prefix_of(initialize_line(initialize_id)),
{
    reveal_strlit("Smell Panty: ");
    reveal_strlit("LickPussy: ");
    assert(update_line(update_id)[0] == 'L');
    assert(initialize_line(initialize_id)[0] == 'S');
}

} // verus!
