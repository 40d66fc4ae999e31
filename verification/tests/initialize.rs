use contract::{
    declared_id, greeting_line, initialize, invoke_repeatedly, process_instruction, Context,
    Initialize,
};

const ID: &str = "Hk2WUmpA3T4gzwQfi7DeWSFo3kTvrLjUWZTsQxnfokgw";
const LINE: &str = "Greetings from: Hk2WUmpA3T4gzwQfi7DeWSFo3kTvrLjUWZTsQxnfokgw";

fn deployed_context() -> Context {
    Context {
        program_id: declared_id().to_string(),
        accounts: Initialize {},
    }
}

#[test]
fn declared_id_is_the_deployed_address() {
    assert_eq!(declared_id(), ID);
}

#[test]
fn initialize_succeeds() {
    let r = initialize(&deployed_context());
    assert!(r.is_ok());
}

#[test]
fn initialize_logs_the_exact_greeting() {
    let line = initialize(&deployed_context()).unwrap();
    assert_eq!(line, LINE);
}

#[test]
fn log_line_contains_the_id_verbatim() {
    let line = initialize(&deployed_context()).unwrap();
    assert!(line.contains(ID));
}

#[test]
fn greeting_line_for_an_arbitrary_id() {
    assert_eq!(greeting_line("AB"), "Greetings from: AB");
}

#[test]
fn greeting_line_for_an_empty_id() {
    assert_eq!(greeting_line(""), "Greetings from: ");
}

#[test]
fn zero_accounts_are_accepted() {
    assert!(Initialize::try_accounts(0).is_ok());
}

#[test]
fn no_account_count_is_rejected() {
    assert!(Initialize::try_accounts(1).is_ok());
    assert!(Initialize::try_accounts(7).is_ok());
    assert!(Initialize::try_accounts(usize::MAX).is_ok());
}

#[test]
fn a_second_invocation_gives_the_identical_outcome() {
    let ctx = deployed_context();
    let first = initialize(&ctx);
    let second = initialize(&ctx);
    assert!(first.is_ok());
    assert_eq!(first.unwrap(), second.unwrap());
}

#[test]
fn a_run_of_invocations_logs_one_identical_line_each() {
    let logs = invoke_repeatedly(&deployed_context(), 3);
    assert_eq!(logs.len(), 3);
    assert!(logs.iter().all(|line| line == LINE));
}

#[test]
fn a_run_of_no_invocations_logs_nothing() {
    let logs = invoke_repeatedly(&deployed_context(), 0);
    assert!(logs.is_empty());
}

#[test]
fn dispatch_with_no_accounts_succeeds() {
    let r = process_instruction(declared_id(), 0);
    assert_eq!(r.unwrap(), LINE);
}

#[test]
fn dispatch_with_extra_accounts_still_succeeds() {
    let r = process_instruction(declared_id(), 4);
    assert_eq!(r.unwrap(), LINE);
}
