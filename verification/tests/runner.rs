use example_runner::runner::run_action;
use example_runner::runner::run_all;
use example_runner::runner::Action;
use example_runner::runner::Fault;
use example_runner::runner::OutputItem;
use example_runner::runner::Registry;

fn num(n: i64) -> OutputItem {
    OutputItem::Num(n)
}

fn text(s: &str) -> OutputItem {
    OutputItem::Text(s.to_string())
}

#[test]
fn empty_registry_is_a_no_op() {
    let registry = Registry::new();
    let report = run_all(&registry);
    assert_eq!(report.items, Vec::<OutputItem>::new());
    assert_eq!(report.fault, None);
}

#[test]
fn every_example_runs_once_in_order() {
    let mut registry = Registry::new();
    registry.register(String::from("first"), Action::Echo { x: 1, y: 1 });
    registry.register(String::from("second"), Action::Echo { x: 2, y: 2 });
    registry.register(String::from("third"), Action::Echo { x: 3, y: 3 });
    let report = run_all(&registry);
    assert_eq!(
        report.items,
        vec![num(1), num(1), num(2), num(2), num(3), num(3)]
    );
    assert_eq!(report.fault, None);
}

#[test]
fn loop_demo_then_while_demo() {
    let mut registry = Registry::new();
    registry.register(String::from("loop_demo"), Action::LoopDouble);
    registry.register(String::from("while_demo"), Action::Countdown { start: 3 });
    let report = run_all(&registry);
    assert_eq!(
        report.items,
        vec![num(20), num(3), num(2), num(1), text("LIFTOFF!!!")]
    );
    assert_eq!(report.fault, None);
}

#[test]
fn fault_stops_the_run_after_earlier_examples() {
    let mut registry = Registry::new();
    registry.register(String::from("echo"), Action::Echo { x: 7, y: 8 });
    registry.register(String::from("bad_index"), Action::IndexDemo { index: 9 });
    registry.register(String::from("never_runs"), Action::FiveDemo);
    let report = run_all(&registry);
    assert_eq!(report.items, vec![num(7), num(8)]);
    assert_eq!(report.fault, Some(Fault { index: 9, bound: 5 }));
}

#[test]
fn fault_in_first_example_leaves_no_output() {
    let mut registry = Registry::new();
    registry.register(String::from("bad_index"), Action::IndexDemo { index: 5 });
    registry.register(String::from("never_runs"), Action::FiveDemo);
    let report = run_all(&registry);
    assert_eq!(report.items, Vec::<OutputItem>::new());
    assert_eq!(report.fault, Some(Fault { index: 5, bound: 5 }));
}

#[test]
fn two_runs_agree_byte_for_byte() {
    let mut registry = Registry::new();
    registry.register(String::from("branch"), Action::Branch { num: 7 });
    registry.register(String::from("pick"), Action::PickValue { condition: true });
    registry.register(String::from("loop_demo"), Action::LoopDouble);
    registry.register(String::from("walk"), Action::ArrayWalk);
    registry.register(String::from("greeting"), Action::Greeting);
    registry.register(String::from("rev"), Action::RevCount { lo: 1, hi: 4 });
    let first = run_all(&registry);
    let second = run_all(&registry);
    assert_eq!(first, second);
}

#[test]
fn branch_demo_reports_the_false_branch() {
    let mut registry = Registry::new();
    registry.register(String::from("branch"), Action::Branch { num: 7 });
    let report = run_all(&registry);
    assert_eq!(report.items, vec![text("Condition is false")]);
    assert_eq!(report.fault, None);
}

#[test]
fn branch_demo_reports_the_true_branch() {
    let mut registry = Registry::new();
    registry.register(String::from("branch"), Action::Branch { num: 3 });
    let report = run_all(&registry);
    assert_eq!(report.items, vec![text("Condition is true")]);
    assert_eq!(report.fault, None);
}

#[test]
fn string_demos_produce_their_greetings() {
    let mut registry = Registry::new();
    registry.register(String::from("greeting"), Action::Greeting);
    registry.register(String::from("move_demo"), Action::MoveDemo);
    registry.register(String::from("clone_demo"), Action::CloneDemo);
    registry.register(String::from("ownership"), Action::OwnershipDemo);
    let report = run_all(&registry);
    assert_eq!(
        report.items,
        vec![
            text("hello, world!"),
            text("hello"),
            text("hello"),
            text("hello"),
            text("hello"),
            text("hello"),
        ]
    );
    assert_eq!(report.fault, None);
}

#[test]
fn arithmetic_demos_produce_their_constants() {
    let mut registry = Registry::new();
    registry.register(String::from("five"), Action::FiveDemo);
    registry.register(String::from("plus_one"), Action::PlusOneDemo);
    registry.register(String::from("add"), Action::AddDemo);
    registry.register(String::from("scope"), Action::ScopeDemo);
    registry.register(String::from("pick"), Action::PickValue { condition: false });
    let report = run_all(&registry);
    assert_eq!(report.items, vec![num(5), num(6), num(4), num(4), num(6)]);
    assert_eq!(report.fault, None);
}

#[test]
fn array_walks_match_the_array() {
    let mut registry = Registry::new();
    registry.register(String::from("walk"), Action::ArrayWalk);
    registry.register(String::from("iter"), Action::ArrayIter);
    let report = run_all(&registry);
    assert_eq!(
        report.items,
        vec![
            num(10), num(20), num(30), num(40), num(50),
            num(10), num(20), num(30), num(40), num(50),
        ]
    );
    assert_eq!(report.fault, None);
}

#[test]
fn empty_countdown_lifts_off_at_once() {
    let mut registry = Registry::new();
    registry.register(String::from("countdown"), Action::Countdown { start: 0 });
    registry.register(String::from("rev"), Action::RevCount { lo: 4, hi: 4 });
    let report = run_all(&registry);
    assert_eq!(report.items, vec![text("LIFTOFF!!!"), text("LIFTOFF!!!")]);
    assert_eq!(report.fault, None);
}

#[test]
fn index_action_reads_in_bounds() {
    let mut registry = Registry::new();
    registry.register(String::from("index"), Action::IndexDemo { index: 2 });
    let report = run_all(&registry);
    assert_eq!(report.items, vec![num(30)]);
    assert_eq!(report.fault, None);
}

#[test]
fn single_action_succeeds_directly() {
    match run_action(&Action::LoopDouble) {
        Ok(items) => assert_eq!(items, vec![num(20)]),
        Err(_) => panic!("the loop demo must not fault"),
    }
}

#[test]
fn single_action_faults_directly() {
    match run_action(&Action::IndexDemo { index: 6 }) {
        Ok(_) => panic!("an out-of-bounds index must fault"),
        Err(fault) => assert_eq!(fault, Fault { index: 6, bound: 5 }),
    }
}

#[test]
fn registry_reports_its_length() {
    let mut registry = Registry::new();
    assert_eq!(registry.len(), 0);
    registry.register(String::from("five"), Action::FiveDemo);
    registry.register(String::from("add"), Action::AddDemo);
    assert_eq!(registry.len(), 2);
}
