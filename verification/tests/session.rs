use bill_manager::flow::{init_program, Event, Mode, OutLine, Session};
use bill_manager::store::Bill;

fn ev(text: &str) -> Event {
    Event { line: text.to_string(), parsed: text.parse::<f64>().ok().map(f64::to_bits) }
}

fn text(line: &str) -> OutLine {
    OutLine::Text(line.to_string())
}

fn menu_text() -> Vec<OutLine> {
    vec![
        text(""),
        text("-----Bill Manager-----"),
        text("1. Add Bill"),
        text("2. View Bill"),
        text("3. Delete Bill"),
        text("4. Edit Bill"),
        text(""),
        text("Enter the selection: "),
    ]
}

fn drive(session: Session, lines: &[&str]) -> Session {
    let mut session = session;
    for line in lines {
        let (next, _) = session.step(ev(line));
        session = next;
    }
    session
}

#[test]
fn blank_selection_ends_the_session() {
    let session = init_program();
    let (session, out) = session.step(ev(""));
    assert!(matches!(session.mode, Mode::Done));
    assert!(out.is_empty());
}

#[test]
fn unrecognized_selection_ends_the_session() {
    let session = init_program();
    let (session, out) = session.step(ev("9"));
    assert!(matches!(session.mode, Mode::Done));
    assert!(out.is_empty());
}

#[test]
fn add_flow_stores_a_bill_and_reprompts() {
    let session = init_program();
    let (session, out) = session.step(ev("1"));
    assert_eq!(out, vec![text("Bill Name: ")]);
    let (session, out) = session.step(ev("rent"));
    assert_eq!(out, vec![text("Amount:")]);
    let (session, out) = session.step(ev("1200"));
    let mut expected = vec![text("Bills Added")];
    expected.extend(menu_text());
    assert_eq!(out, expected);
    assert!(matches!(session.mode, Mode::Menu));
    let all = session.bills.get_all();
    assert_eq!(all.len(), 1);
    assert_eq!(all[0].name, "rent");
    assert_eq!(all[0].amount, 1200.0f64.to_bits());
}

#[test]
fn view_flow_lists_the_store_then_shows_the_menu() {
    let session = drive(init_program(), &["1", "rent", "1200"]);
    let (session, out) = session.step(ev("2"));
    let mut expected = vec![OutLine::Record(Bill {
        name: "rent".to_string(),
        amount: 1200.0f64.to_bits(),
    })];
    expected.extend(menu_text());
    assert_eq!(out, expected);
    assert!(matches!(session.mode, Mode::Menu));
}

#[test]
fn unparseable_amount_is_rejected_and_reprompted() {
    let session = drive(init_program(), &["1", "bread"]);
    let (session, out) = session.step(ev("abc"));
    assert_eq!(out, vec![text("Please enter a number")]);
    assert!(matches!(session.mode, Mode::AddAmount { .. }));
    let (session, _) = session.step(ev("150.5"));
    let all = session.bills.get_all();
    assert_eq!(all.len(), 1);
    assert_eq!(all[0].name, "bread");
    assert_eq!(all[0].amount, 150.5f64.to_bits());
}

#[test]
fn blank_amount_cancels_without_mutating_the_store() {
    let session = drive(init_program(), &["1", "milk"]);
    let (session, out) = session.step(ev(""));
    assert_eq!(out, menu_text());
    assert!(matches!(session.mode, Mode::Menu));
    assert!(session.bills.get_all().is_empty());
}

#[test]
fn blank_name_cancels_the_add_flow() {
    let session = init_program();
    let (session, _) = session.step(ev("1"));
    let (session, out) = session.step(ev(""));
    assert_eq!(out, menu_text());
    assert!(matches!(session.mode, Mode::Menu));
    assert!(session.bills.get_all().is_empty());
}

#[test]
fn remove_unknown_prints_not_found() {
    let session = init_program();
    let (session, out) = session.step(ev("3"));
    assert_eq!(out, vec![text("Enter bill name to remove: ")]);
    let (session, out) = session.step(ev("electric"));
    let mut expected = vec![text("Bill Not Found!")];
    expected.extend(menu_text());
    assert_eq!(out, expected);
    assert!(session.bills.get_all().is_empty());
}

#[test]
fn remove_flow_deletes_a_stored_bill() {
    let session = drive(init_program(), &["1", "rent", "1200"]);
    let (session, out) = session.step(ev("3"));
    let mut expected = vec![OutLine::Record(Bill {
        name: "rent".to_string(),
        amount: 1200.0f64.to_bits(),
    })];
    expected.push(text("Enter bill name to remove: "));
    assert_eq!(out, expected);
    let (session, out) = session.step(ev("rent"));
    let mut expected = vec![text("Bill removed!")];
    expected.extend(menu_text());
    assert_eq!(out, expected);
    assert!(session.bills.get_all().is_empty());
}

#[test]
fn edit_flow_replaces_the_amount() {
    let session = drive(init_program(), &["1", "water", "40"]);
    let (session, out) = session.step(ev("4"));
    let mut expected = vec![OutLine::Record(Bill {
        name: "water".to_string(),
        amount: 40.0f64.to_bits(),
    })];
    expected.push(text("Enter bill name to Edit: "));
    assert_eq!(out, expected);
    let (session, out) = session.step(ev("water"));
    assert_eq!(out, vec![text("Amount:")]);
    let (session, out) = session.step(ev("75"));
    let mut expected = vec![OutLine::Edited(Bill {
        name: "water".to_string(),
        amount: 75.0f64.to_bits(),
    })];
    expected.extend(menu_text());
    assert_eq!(out, expected);
    let all = session.bills.get_all();
    assert_eq!(all.len(), 1);
    assert_eq!(all[0].name, "water");
    assert_eq!(all[0].amount, 75.0f64.to_bits());
}

#[test]
fn edit_unknown_prints_not_found_and_keeps_the_store() {
    let session = drive(init_program(), &["4", "ghost"]);
    let (session, out) = session.step(ev("10"));
    let mut expected = vec![text("Bill not found!")];
    expected.extend(menu_text());
    assert_eq!(out, expected);
    assert!(session.bills.get_all().is_empty());
    assert!(matches!(session.mode, Mode::Menu));
}
