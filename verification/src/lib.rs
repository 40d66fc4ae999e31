//! A minimal on-chain program: one instruction, `initialize`, which needs no
//! accounts, emits a greeting naming the executing program's identifier, and
//! succeeds unconditionally.

use vstd::prelude::*;
use vstd::string::StringExecFns;

verus! {

/// The identifier under which the program is deployed, in the text form the
/// host runtime displays: a fixed address assigned at deployment time.
pub open spec fn id_text() -> Seq<char> {
    "Hk2WUmpA3T4gzwQfi7DeWSFo3kTvrLjUWZTsQxnfokgw"@
}

/// The declared program identifier.
pub fn declared_id() -> (r: &'static str)
    ensures
        r@ == id_text(),
{
    "Hk2WUmpA3T4gzwQfi7DeWSFo3kTvrLjUWZTsQxnfokgw"
}

/// A failure status as the host ABI carries one: a numeric code. The
/// program's own logic never constructs a value of this type; it exists so
/// the handler has the success-or-error shape the entry point expects.
#[derive(Clone, Copy, PartialEq, Eq, Structural, Debug)]
pub struct ProgramError {
    pub code: u32,
}

/// The accounts an `initialize` invocation declares it needs: none.
pub struct Initialize {}

impl Initialize {
    /// Validates the accounts supplied with an invocation against this
    /// declaration. Nothing is declared, so every supply is accepted — an
    /// empty one as well as any larger one — and no count is ever rejected.
    pub fn try_accounts(supplied: usize) -> (r: Result<Initialize, ProgramError>)
        ensures
            r is Ok,
    {
        Ok(Initialize {})
    }
}

/// The execution context the host runtime hands the handler: the identifier
/// of the program being executed, in its displayed text form, and the
/// validated accounts of the invocation.
pub struct Context {
    pub program_id: String,
    pub accounts: Initialize,
}

/// The diagnostic line `initialize` emits for a program identifier: a fixed
/// salutation followed by the identifier itself, verbatim.
pub open spec fn greeting(id: Seq<char>) -> Seq<char> {
    "Greetings from: "@ + id
}

/// One sequence occurs inside another, verbatim, at some offset.
pub open spec fn contains_seq(hay: Seq<char>, needle: Seq<char>) -> bool {
    exists|i: int|
        0 <= i && i + needle.len() <= hay.len() && #[trigger] hay.subrange(
            i,
            i + needle.len() as int,
        ) == needle
}

/// The greeting line carries the identifier it was built for, verbatim: the
/// identifier is exactly the tail of the line after the fixed salutation.
pub proof fn lemma_greeting_contains_id(id: Seq<char>)
    ensures
        greeting(id).len() == 16 + id.len(),
        greeting(id).subrange(16, greeting(id).len() as int) == id,
        contains_seq(greeting(id), id),
{
    reveal_strlit("Greetings from: ");
    assert(greeting(id).subrange(16, greeting(id).len() as int) =~= id);
}

/// For the deployed program the host runtime hands the handler the
/// program's own declared identifier, so the line the handler emits carries
/// the declared identifier verbatim.
pub proof fn lemma_log_contains_declared_id(ctx: Context)
    requires
        ctx.program_id@ == id_text(),
    ensures
        contains_seq(greeting(ctx.program_id@), id_text()),
{
    lemma_greeting_contains_id(ctx.program_id@);
}

/// Builds the greeting line for a program identifier.
pub fn greeting_line(program_id: &str) -> (r: String)
    ensures
        r@ == greeting(program_id@),
{
    let mut line = String::from_str("Greetings from: ");
    line.append(program_id);
    line
}

/// The `initialize` instruction handler. From the execution context it
/// produces the diagnostic line to emit — the greeting naming the executing
/// program's identifier — and succeeds on every invocation: no input is
/// rejected and no error is ever returned.
pub fn initialize(ctx: &Context) -> (r: Result<String, ProgramError>)
    ensures
        r is Ok,
        r->Ok_0@ == greeting(ctx.program_id@),
        contains_seq(r->Ok_0@, ctx.program_id@),
{
    let line = greeting_line(ctx.program_id.as_str());
    proof {
        lemma_greeting_contains_id(ctx.program_id@);
    }
    Ok(line)
}

/// Processes one `initialize` instruction the way the entry point dispatches
/// it: validates the (empty) accounts declaration against the accounts
/// supplied with the invocation, builds the execution context, and runs the
/// handler. It succeeds for every identifier and every supply of accounts.
pub fn process_instruction(program_id: &str, supplied: usize) -> (r: Result<String, ProgramError>)
    ensures
        r is Ok,
        r->Ok_0@ == greeting(program_id@),
{
    let accounts = match Initialize::try_accounts(supplied) {
        Ok(accounts) => accounts,
        Err(rejection) => {
            return Err(rejection);
        },
    };
    let ctx = Context { program_id: String::from_str(program_id), accounts };
    initialize(&ctx)
}

/// Runs `count` consecutive invocations of `initialize` from one context and
/// collects the emitted lines. Invocation is idempotent: no state survives an
/// invocation, so every step of the run succeeds, every line is the one the
/// context alone determines, and all `count` outcomes are identical.
pub fn invoke_repeatedly(ctx: &Context, count: usize) -> (logs: Vec<String>)
    ensures
        logs@.len() == count,
        forall|k: int| 0 <= k < count ==> (#[trigger] logs@[k])@ == greeting(ctx.program_id@),
        forall|j: int, k: int|
            0 <= j < count && 0 <= k < count ==> (#[trigger] logs@[j])@ == (#[trigger] logs@[k])@,
{
    let mut logs: Vec<String> = Vec::new();
    let mut done: usize = 0;
    while done < count
        invariant
            done <= count,
            logs@.len() == done,
            forall|k: int| 0 <= k < done ==> (#[trigger] logs@[k])@ == greeting(ctx.program_id@),
        decreases count - done,
    {
        match initialize(ctx) {
            Ok(line) => {
                logs.push(line);
            },
            Err(_) => {
                proof {
                    assert(false);
                }
            },
        }
        done = done + 1;
    }
    logs
}

} // verus!
