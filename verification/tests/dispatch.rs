//! Scenario tests driving the dispatcher session exactly as the unverified
//! driver does: read the next action, hand back an outcome, repeat.

use doit::session::{Action, Session, Shutdown, Subcommand, EXIT_FAILURE, EXIT_OK};
use doit::step::Step;

#[test]
fn new_runs_create_start_install_in_order_then_exits_ok() {
    let mut s = Session::new(Subcommand::New { name: String::from("mybox") });
    assert_eq!(s.next_action(), Action::Run(Step::Create));
    s.report(true);
    assert_eq!(s.next_action(), Action::Run(Step::Start));
    s.report(true);
    assert_eq!(s.next_action(), Action::Run(Step::BaseInstall));
    s.report(true);
    assert_eq!(s.next_action(), Action::Exit(EXIT_OK));
}

#[test]
fn work_runs_start_then_attach_then_exits_ok() {
    let mut s = Session::new(Subcommand::Work {
        name: String::from("mybox"),
        shutdown: Shutdown::No,
    });
    assert_eq!(s.next_action(), Action::Run(Step::Start));
    s.report(true);
    assert_eq!(s.next_action(), Action::Run(Step::Attach));
    s.report(true);
    assert_eq!(s.next_action(), Action::Exit(EXIT_OK));
}

#[test]
fn list_runs_one_listing_call() {
    let mut s = Session::new(Subcommand::List);
    assert_eq!(s.next_action(), Action::Run(Step::ListAll));
    s.report(true);
    assert_eq!(s.next_action(), Action::Exit(EXIT_OK));
}

#[test]
fn destroy_asks_before_anything_else() {
    let s = Session::new(Subcommand::Destroy { name: String::from("mybox") });
    assert_eq!(s.next_action(), Action::AskConfirm);
}

#[test]
fn destroy_accepted_runs_stop_then_delete() {
    let mut s = Session::new(Subcommand::Destroy { name: String::from("mybox") });
    assert_eq!(s.next_action(), Action::AskConfirm);
    s.answer(true);
    assert_eq!(s.next_action(), Action::Run(Step::Stop));
    s.report(true);
    assert_eq!(s.next_action(), Action::Run(Step::Delete));
    s.report(true);
    assert_eq!(s.next_action(), Action::Exit(EXIT_OK));
}

#[test]
fn destroy_declined_runs_nothing_and_exits_with_failure_code() {
    let mut s = Session::new(Subcommand::Destroy { name: String::from("mybox") });
    assert_eq!(s.next_action(), Action::AskConfirm);
    s.answer(false);
    assert_eq!(s.next_action(), Action::Exit(EXIT_FAILURE));
}

#[test]
fn new_stops_at_failing_create() {
    let mut s = Session::new(Subcommand::New { name: String::from("mybox") });
    assert_eq!(s.next_action(), Action::Run(Step::Create));
    s.report(false);
    assert_eq!(s.next_action(), Action::Exit(EXIT_FAILURE));
}

#[test]
fn new_stops_at_failing_start() {
    let mut s = Session::new(Subcommand::New { name: String::from("mybox") });
    s.report(true);
    assert_eq!(s.next_action(), Action::Run(Step::Start));
    s.report(false);
    assert_eq!(s.next_action(), Action::Exit(EXIT_FAILURE));
}

#[test]
fn new_stops_at_failing_install() {
    let mut s = Session::new(Subcommand::New { name: String::from("mybox") });
    s.report(true);
    s.report(true);
    assert_eq!(s.next_action(), Action::Run(Step::BaseInstall));
    s.report(false);
    assert_eq!(s.next_action(), Action::Exit(EXIT_FAILURE));
}

#[test]
fn work_stops_at_failing_start() {
    let mut s = Session::new(Subcommand::Work {
        name: String::from("mybox"),
        shutdown: Shutdown::Yes,
    });
    s.report(false);
    assert_eq!(s.next_action(), Action::Exit(EXIT_FAILURE));
}

#[test]
fn work_propagates_attach_failure() {
    let mut s = Session::new(Subcommand::Work {
        name: String::from("mybox"),
        shutdown: Shutdown::No,
    });
    s.report(true);
    assert_eq!(s.next_action(), Action::Run(Step::Attach));
    s.report(false);
    assert_eq!(s.next_action(), Action::Exit(EXIT_FAILURE));
}

#[test]
fn list_propagates_failure() {
    let mut s = Session::new(Subcommand::List);
    s.report(false);
    assert_eq!(s.next_action(), Action::Exit(EXIT_FAILURE));
}

#[test]
fn destroy_stops_at_failing_stop_and_never_deletes() {
    let mut s = Session::new(Subcommand::Destroy { name: String::from("mybox") });
    s.answer(true);
    assert_eq!(s.next_action(), Action::Run(Step::Stop));
    s.report(false);
    assert_eq!(s.next_action(), Action::Exit(EXIT_FAILURE));
}

#[test]
fn destroy_propagates_delete_failure() {
    let mut s = Session::new(Subcommand::Destroy { name: String::from("mybox") });
    s.answer(true);
    s.report(true);
    assert_eq!(s.next_action(), Action::Run(Step::Delete));
    s.report(false);
    assert_eq!(s.next_action(), Action::Exit(EXIT_FAILURE));
}

#[test]
fn exit_codes_are_zero_and_two() {
    assert_eq!(EXIT_OK, 0);
    assert_eq!(EXIT_FAILURE, 2);
}

#[test]
fn shutdown_flag_accepts_the_three_documented_values() {
    assert_eq!(Shutdown::parse("yes"), Some(Shutdown::Yes));
    assert_eq!(Shutdown::parse("no"), Some(Shutdown::No));
    assert_eq!(Shutdown::parse("hell no"), Some(Shutdown::HellNo));
}

#[test]
fn shutdown_flag_rejects_anything_else() {
    assert_eq!(Shutdown::parse(""), None);
    assert_eq!(Shutdown::parse("maybe"), None);
    assert_eq!(Shutdown::parse("YES"), None);
    assert_eq!(Shutdown::parse("hell  no"), None);
}

#[test]
fn shutdown_flag_does_not_change_the_work_plan() {
    for shutdown in [Shutdown::Yes, Shutdown::No, Shutdown::HellNo] {
        let mut s = Session::new(Subcommand::Work {
            name: String::from("mybox"),
            shutdown,
        });
        assert_eq!(s.next_action(), Action::Run(Step::Start));
        s.report(true);
        assert_eq!(s.next_action(), Action::Run(Step::Attach));
        s.report(true);
        assert_eq!(s.next_action(), Action::Exit(EXIT_OK));
    }
}
