//! The interactive session as a state machine.
//!
//! The terminal front end owns the input and output streams; everything
//! it must decide is here. It reads one line at a time, trims it, tries
//! to read a number out of it, and hands both to [`Session::step`],
//! which answers with the lines to print and the next state. Amounts
//! travel as the 64 raw bits of the number the front end parsed.

use crate::menu::{MainMenu, menu_lines, selection_of};
use crate::store::{Bill, Bills};
use vstd::prelude::*;

verus! {

/// One line for the front end to print.
#[derive(Debug, PartialEq)]
pub enum OutLine {
    /// Plain text, printed as it stands.
    Text(String),
    /// One stored bill, shown while listing the store.
    Record(Bill),
    /// A bill whose amount was just replaced, with its new amount.
    Edited(Bill),
}

/// The abstract value of an [`OutLine`].
pub enum OutV {
    Text(Seq<char>),
    Record(Seq<char>, u64),
    Edited(Seq<char>, u64),
}

impl View for OutLine {
    type V = OutV;

    open spec fn view(&self) -> OutV {
        match self {
            OutLine::Text(t) => OutV::Text(t@),
            OutLine::Record(b) => OutV::Record(b.name@, b.amount),
            OutLine::Edited(b) => OutV::Edited(b.name@, b.amount),
        }
    }
}

impl DeepView for OutLine {
    type V = OutV;

    open spec fn deep_view(&self) -> OutV {
        self@
    }
}

/// The given lines as text output, one entry per line.
pub open spec fn texts(lines: Seq<Seq<char>>) -> Seq<OutV> {
    lines.map_values(|t: Seq<char>| OutV::Text(t))
}

/// The menu text as output lines.
pub open spec fn menu_out() -> Seq<OutV> {
    texts(menu_lines())
}

/// `out` lists the store `m`: one record line per stored name, each with
/// its stored amount, no name twice, in unspecified order.
pub open spec fn is_listing(out: Seq<OutV>, m: Map<Seq<char>, u64>) -> bool {
    &&& forall|i: int|
        0 <= i < out.len() ==> ((#[trigger] out[i]) matches OutV::Record(n, a)
            && m.contains_key(n) && m[n] == a)
    &&& forall|i: int, j: int| 0 <= i < j < out.len() ==> out[i] != out[j]
    &&& forall|n: Seq<char>|
        #[trigger] m.contains_key(n) ==> out.contains(OutV::Record(n, m[n]))
}

/// `out` is a listing of the store `m` followed by exactly `tail`.
pub open spec fn listing_then(out: Seq<OutV>, m: Map<Seq<char>, u64>, tail: Seq<OutV>) -> bool {
    exists|k: int|
        0 <= k <= out.len() && is_listing(#[trigger] out.take(k), m) && out.skip(k) == tail
}

/// A single line of plain text as output.
fn text_line(t: &str) -> (out: Vec<OutLine>)
    ensures
        out.deep_view() == seq![OutV::Text(t@)],
{
    let mut out: Vec<OutLine> = Vec::new();
    out.push(OutLine::Text(t.to_owned()));
    proof {
        assert(out.deep_view() =~= seq![OutV::Text(t@)]);
    }
    out
}

/// Appends the menu text to the lines about to be printed: the session
/// shows the menu again whenever it returns to the selection prompt.
fn append_menu(out: &mut Vec<OutLine>)
    ensures
        final(out).deep_view() == old(out).deep_view() + menu_out(),
{
    let lines = MainMenu::show();
    let ghost start = out.deep_view();
    let mut i: usize = 0;
    while i < lines.len()
        invariant
            i <= lines@.len(),
            lines.deep_view() == menu_lines(),
            out.deep_view() == start + texts(menu_lines().take(i as int)),
        decreases lines@.len() - i,
    {
        let ghost before = out.deep_view();
        out.push(OutLine::Text(lines[i].clone()));
        proof {
            assert(out.deep_view() =~= before.push(OutV::Text(lines@[i as int]@)));
            assert(start + texts(menu_lines().take(i as int + 1)) =~= before.push(
                OutV::Text(lines@[i as int]@),
            ));
        }
        i += 1;
    }
    proof {
        assert(menu_lines().take(menu_lines().len() as int) =~= menu_lines());
        assert(out.deep_view() == start + menu_out());
    }
}

/// The menu text alone, as the lines about to be printed.
fn menu_only() -> (out: Vec<OutLine>)
    ensures
        out.deep_view() == menu_out(),
{
    let mut out: Vec<OutLine> = Vec::new();
    proof {
        assert(out.deep_view() =~= Seq::<OutV>::empty());
    }
    append_menu(&mut out);
    proof {
        assert(Seq::<OutV>::empty() + menu_out() =~= menu_out());
    }
    out
}

/// The view flow: every bill of the store, as record lines to print,
/// one per stored name, in unspecified order.
pub fn view_bills(bills: &Bills) -> (out: Vec<OutLine>)
    ensures
        is_listing(out.deep_view(), bills@),
{
    let all = bills.get_all();
    let mut out: Vec<OutLine> = Vec::new();
    let mut i: usize = 0;
    while i < all.len()
        invariant
            i <= all@.len(),
            out.deep_view().len() == i,
            forall|j: int|
                0 <= j < i ==> out.deep_view()[j] == OutV::Record(
                    all@[j].name@,
                    all@[j].amount,
                ),
            forall|p: int|
                0 <= p < all@.len() ==> bills@.contains_key(#[trigger] all@[p].name@)
                    && bills@[all@[p].name@] == all@[p].amount,
            forall|p: int, q: int|
                0 <= p < q < all@.len() ==> all@[p].name@ != all@[q].name@,
            forall|n: Seq<char>|
                #[trigger] bills@.contains_key(n) ==> exists|p: int|
                    0 <= p < all@.len() && all@[p].name@ == n,
        decreases all@.len() - i,
    {
        let ghost before = out.deep_view();
        out.push(OutLine::Record(all[i].duplicate()));
        proof {
            assert(out.deep_view() =~= before.push(
                OutV::Record(all@[i as int].name@, all@[i as int].amount),
            ));
        }
        i += 1;
    }
    proof {
        assert forall|p: int, q: int|
            0 <= p < q < out.deep_view().len() implies out.deep_view()[p]
            != out.deep_view()[q] by {
            assert(all@[p].name@ != all@[q].name@);
        }
        assert forall|n: Seq<char>| #[trigger]
            bills@.contains_key(n) implies out.deep_view().contains(
            OutV::Record(n, bills@[n]),
        ) by {
            let p = choose|p: int| 0 <= p < all@.len() && all@[p].name@ == n;
            assert(out.deep_view()[p] == OutV::Record(n, bills@[n]));
        }
    }
    out
}

/// The tail of the add flow, once both prompts were answered: stores the
/// bill under its name, overwriting any bill of that name, and says so.
pub fn add_bill(bills: &mut Bills, bill: Bill) -> (out: Vec<OutLine>)
    ensures
        final(bills)@ == old(bills)@.insert(bill.name@, bill.amount),
        out.deep_view() == seq![OutV::Text("Bills Added"@)],
{
    bills.add(bill);
    text_line("Bills Added")
}

/// The tail of the remove flow, once a name was read: deletes the bill
/// stored under that name, if any, and reports which outcome occurred.
pub fn remove_bill(bills: &mut Bills, name: &str) -> (out: Vec<OutLine>)
    ensures
        final(bills)@ == old(bills)@.remove(name@),
        out.deep_view() == if old(bills)@.contains_key(name@) {
            seq![OutV::Text("Bill removed!"@)]
        } else {
            seq![OutV::Text("Bill Not Found!"@)]
        },
{
    if bills.remove(name) {
        text_line("Bill removed!")
    } else {
        text_line("Bill Not Found!")
    }
}

/// The tail of the edit flow, once a name and a new amount were read:
/// replaces the stored amount if the name is stored, leaves the store
/// unchanged otherwise, and reports the outcome.
pub fn update_bills(bills: &mut Bills, name: &str, amount: u64) -> (out: Vec<OutLine>)
    ensures
        final(bills)@ == if old(bills)@.contains_key(name@) {
            old(bills)@.insert(name@, amount)
        } else {
            old(bills)@
        },
        out.deep_view() == if old(bills)@.contains_key(name@) {
            seq![OutV::Edited(name@, amount)]
        } else {
            seq![OutV::Text("Bill not found!"@)]
        },
{
    if bills.update(name, amount) {
        let mut out: Vec<OutLine> = Vec::new();
        out.push(OutLine::Edited(Bill { name: name.to_owned(), amount }));
        proof {
            assert(out.deep_view() =~= seq![OutV::Edited(name@, amount)]);
        }
        out
    } else {
        text_line("Bill not found!")
    }
}

/// Where a session stands: which prompt its next input line answers.
#[derive(Debug, PartialEq)]
pub enum Mode {
    /// The menu was shown; the next line picks an action.
    Menu,
    /// The add flow asked for a name.
    AddName,
    /// The add flow asked for the amount of the named bill.
    AddAmount { name: String },
    /// The remove flow asked for a name.
    RemoveName,
    /// The edit flow asked for a name.
    EditName,
    /// The edit flow asked for the new amount of the named bill.
    EditAmount { name: String },
    /// The session ended; no more input is read.
    Done,
}

/// The abstract value of a [`Mode`].
pub enum ModeV {
    Menu,
    AddName,
    AddAmount { name: Seq<char> },
    RemoveName,
    EditName,
    EditAmount { name: Seq<char> },
    Done,
}

impl View for Mode {
    type V = ModeV;

    open spec fn view(&self) -> ModeV {
        match self {
            Mode::Menu => ModeV::Menu,
            Mode::AddName => ModeV::AddName,
            Mode::AddAmount { name } => ModeV::AddAmount { name: name@ },
            Mode::RemoveName => ModeV::RemoveName,
            Mode::EditName => ModeV::EditName,
            Mode::EditAmount { name } => ModeV::EditAmount { name: name@ },
            Mode::Done => ModeV::Done,
        }
    }
}

/// What the front end hands the session for one read line: the line,
/// trimmed of surrounding whitespace, and the number it parses to, as
/// raw bits, where it parses to one.
pub struct Event {
    pub line: String,
    pub parsed: Option<u64>,
}

/// One interactive session: the record store it owns and where it
/// stands.
pub struct Session {
    pub bills: Bills,
    pub mode: Mode,
}

/// How one step of the session relates its new state and its output to
/// the old state and the event: the store `m0` and mode `mode0` before,
/// the trimmed `line` and its `parsed` number, the store `m1` and mode
/// `mode1` after, and the printed lines `out`. A blank line cancels the
/// flow it reaches — the whole session when it reaches the menu — and
/// never changes the store; an unparseable amount is asked for again.
pub open spec fn step_spec(
    m0: Map<Seq<char>, u64>,
    mode0: ModeV,
    line: Seq<char>,
    parsed: Option<u64>,
    m1: Map<Seq<char>, u64>,
    mode1: ModeV,
    out: Seq<OutV>,
) -> bool {
    match mode0 {
        ModeV::Menu => {
            if line.len() == 0 {
                m1 == m0 && mode1 == ModeV::Done && out == Seq::<OutV>::empty()
            } else {
                match selection_of(line) {
                    Some(MainMenu::AddBill) => m1 == m0 && mode1 == ModeV::AddName && out
                        == seq![OutV::Text("Bill Name: "@)],
                    Some(MainMenu::ViewBill) => m1 == m0 && mode1 == ModeV::Menu
                        && listing_then(out, m0, menu_out()),
                    Some(MainMenu::RemoveBill) => m1 == m0 && mode1 == ModeV::RemoveName
                        && listing_then(
                        out,
                        m0,
                        seq![OutV::Text("Enter bill name to remove: "@)],
                    ),
                    Some(MainMenu::EditBill) => m1 == m0 && mode1 == ModeV::EditName
                        && listing_then(
                        out,
                        m0,
                        seq![OutV::Text("Enter bill name to Edit: "@)],
                    ),
                    None => m1 == m0 && mode1 == ModeV::Done && out == Seq::<
                        OutV,
                    >::empty(),
                }
            }
        },
        ModeV::AddName => {
            if line.len() == 0 {
                m1 == m0 && mode1 == ModeV::Menu && out == menu_out()
            } else {
                m1 == m0 && mode1 == (ModeV::AddAmount { name: line }) && out
                    == seq![OutV::Text("Amount:"@)]
            }
        },
        ModeV::AddAmount { name } => {
            if line.len() == 0 {
                m1 == m0 && mode1 == ModeV::Menu && out == menu_out()
            } else {
                match parsed {
                    None => m1 == m0 && mode1 == (ModeV::AddAmount { name }) && out
                        == seq![OutV::Text("Please enter a number"@)],
                    Some(a) => m1 == m0.insert(name, a) && mode1 == ModeV::Menu && out
                        == seq![OutV::Text("Bills Added"@)] + menu_out(),
                }
            }
        },
        ModeV::RemoveName => {
            if line.len() == 0 {
                m1 == m0 && mode1 == ModeV::Menu && out == menu_out()
            } else {
                m1 == m0.remove(line) && mode1 == ModeV::Menu && out == (
                if m0.contains_key(line) {
                    seq![OutV::Text("Bill removed!"@)]
                } else {
                    seq![OutV::Text("Bill Not Found!"@)]
                }) + menu_out()
            }
        },
        ModeV::EditName => {
            if line.len() == 0 {
                m1 == m0 && mode1 == ModeV::Menu && out == menu_out()
            } else {
                m1 == m0 && mode1 == (ModeV::EditAmount { name: line }) && out
                    == seq![OutV::Text("Amount:"@)]
            }
        },
        ModeV::EditAmount { name } => {
            if line.len() == 0 {
                m1 == m0 && mode1 == ModeV::Menu && out == menu_out()
            } else {
                match parsed {
                    None => m1 == m0 && mode1 == (ModeV::EditAmount { name }) && out
                        == seq![OutV::Text("Please enter a number"@)],
                    Some(a) => m1 == (
                    if m0.contains_key(name) {
                        m0.insert(name, a)
                    } else {
                        m0
                    }) && mode1 == ModeV::Menu && out == (
                    if m0.contains_key(name) {
                        seq![OutV::Edited(name, a)]
                    } else {
                        seq![OutV::Text("Bill not found!"@)]
                    }) + menu_out(),
                }
            }
        },
        ModeV::Done => m1 == m0 && mode1 == ModeV::Done && out == Seq::<OutV>::empty(),
    }
}

/// A blank input line never changes the store, wherever the session
/// stands: it only cancels the flow it reaches — the whole session when
/// it reaches the menu — and otherwise returns to the menu.
pub proof fn lemma_blank_line_preserves_store(
    m0: Map<Seq<char>, u64>,
    mode0: ModeV,
    line: Seq<char>,
    parsed: Option<u64>,
    m1: Map<Seq<char>, u64>,
    mode1: ModeV,
    out: Seq<OutV>,
)
    requires
        line.len() == 0,
        step_spec(m0, mode0, line, parsed, m1, mode1, out),
    ensures
        m1 == m0,
        mode1 == ModeV::Done || mode1 == ModeV::Menu,
{
}

/// An amount line that parses to no number never changes the store or
/// the state of the session: the amount is simply asked for again.
pub proof fn lemma_unparseable_amount_reprompts(
    m0: Map<Seq<char>, u64>,
    mode0: ModeV,
    line: Seq<char>,
    m1: Map<Seq<char>, u64>,
    mode1: ModeV,
    out: Seq<OutV>,
)
    requires
        line.len() > 0,
        mode0 matches ModeV::AddAmount { .. } || mode0 matches ModeV::EditAmount { .. },
        step_spec(m0, mode0, line, None, m1, mode1, out),
    ensures
        m1 == m0,
        mode1 == mode0,
        out == seq![OutV::Text("Please enter a number"@)],
{
}

/// Sets up a fresh session: an empty store, standing at the menu. The
/// front end shows the menu once and then feeds the session one event
/// per line it reads, until the session is done.
pub fn init_program() -> (session: Session)
    ensures
        session.bills@ == Map::<Seq<char>, u64>::empty(),
        session.mode@ == ModeV::Menu,
{
    Session { bills: Bills::new(), mode: Mode::Menu }
}

impl Session {
    /// Takes one read line and answers with the next state of the
    /// session and the lines to print, as [`step_spec`] describes.
    pub fn step(self, event: Event) -> (r: (Session, Vec<OutLine>))
        ensures
            step_spec(
                self.bills@,
                self.mode@,
                event.line@,
                event.parsed,
                r.0.bills@,
                r.0.mode@,
                r.1.deep_view(),
            ),
    {
        let Session { mut bills, mode } = self;
        match mode {
            Mode::Menu => {
                if event.line.as_str().is_empty() {
                    let out: Vec<OutLine> = Vec::new();
                    proof {
                        assert(out.deep_view() =~= Seq::<OutV>::empty());
                    }
                    (Session { bills, mode: Mode::Done }, out)
                } else {
                    match MainMenu::from_str(event.line.as_str()) {
                        Some(MainMenu::AddBill) => {
                            (Session { bills, mode: Mode::AddName }, text_line("Bill Name: "))
                        },
                        Some(MainMenu::ViewBill) => {
                            let mut out = view_bills(&bills);
                            let ghost l = out.deep_view();
                            append_menu(&mut out);
                            proof {
                                assert(out.deep_view().take(l.len() as int) =~= l);
                                assert(out.deep_view().skip(l.len() as int) =~= menu_out());
                            }
                            (Session { bills, mode: Mode::Menu }, out)
                        },
                        Some(MainMenu::RemoveBill) => {
                            let mut out = view_bills(&bills);
                            let ghost l = out.deep_view();
                            out.push(OutLine::Text("Enter bill name to remove: ".to_owned()));
                            proof {
                                assert(out.deep_view().take(l.len() as int) =~= l);
                                assert(out.deep_view().skip(l.len() as int)
                                    =~= seq![OutV::Text("Enter bill name to remove: "@)]);
                            }
                            (Session { bills, mode: Mode::RemoveName }, out)
                        },
                        Some(MainMenu::EditBill) => {
                            let mut out = view_bills(&bills);
                            let ghost l = out.deep_view();
                            out.push(OutLine::Text("Enter bill name to Edit: ".to_owned()));
                            proof {
                                assert(out.deep_view().take(l.len() as int) =~= l);
                                assert(out.deep_view().skip(l.len() as int)
                                    =~= seq![OutV::Text("Enter bill name to Edit: "@)]);
                            }
                            (Session { bills, mode: Mode::EditName }, out)
                        },
                        None => {
                            let out: Vec<OutLine> = Vec::new();
                            proof {
                                assert(out.deep_view() =~= Seq::<OutV>::empty());
                            }
                            (Session { bills, mode: Mode::Done }, out)
                        },
                    }
                }
            },
            Mode::AddName => {
                if event.line.as_str().is_empty() {
                    (Session { bills, mode: Mode::Menu }, menu_only())
                } else {
                    (Session { bills, mode: Mode::AddAmount { name: event.line } }, text_line(
                        "Amount:",
                    ))
                }
            },
            Mode::AddAmount { name } => {
                if event.line.as_str().is_empty() {
                    (Session { bills, mode: Mode::Menu }, menu_only())
                } else {
                    match event.parsed {
                        None => {
                            (Session { bills, mode: Mode::AddAmount { name } }, text_line(
                                "Please enter a number",
                            ))
                        },
                        Some(amount) => {
                            let mut out = add_bill(&mut bills, Bill { name, amount });
                            append_menu(&mut out);
                            (Session { bills, mode: Mode::Menu }, out)
                        },
                    }
                }
            },
            Mode::RemoveName => {
                if event.line.as_str().is_empty() {
                    (Session { bills, mode: Mode::Menu }, menu_only())
                } else {
                    let mut out = remove_bill(&mut bills, event.line.as_str());
                    append_menu(&mut out);
                    (Session { bills, mode: Mode::Menu }, out)
                }
            },
            Mode::EditName => {
                if event.line.as_str().is_empty() {
                    (Session { bills, mode: Mode::Menu }, menu_only())
                } else {
                    (Session { bills, mode: Mode::EditAmount { name: event.line } }, text_line(
                        "Amount:",
                    ))
                }
            },
            Mode::EditAmount { name } => {
                if event.line.as_str().is_empty() {
                    (Session { bills, mode: Mode::Menu }, menu_only())
                } else {
                    match event.parsed {
                        None => {
                            (Session { bills, mode: Mode::EditAmount { name } }, text_line(
                                "Please enter a number",
                            ))
                        },
                        Some(amount) => {
                            let mut out = update_bills(&mut bills, name.as_str(), amount);
                            append_menu(&mut out);
                            (Session { bills, mode: Mode::Menu }, out)
                        },
                    }
                }
            },
            Mode::Done => {
                let out: Vec<OutLine> = Vec::new();
                proof {
                    assert(out.deep_view() =~= Seq::<OutV>::empty());
                }
                (Session { bills, mode: Mode::Done }, out)
            },
        }
    }
}

} // verus!
