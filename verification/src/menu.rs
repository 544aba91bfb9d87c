//! The main menu of the terminal interface: its text and the reading of
//! a selection.

use vstd::prelude::*;

verus! {

/// The four actions the main menu offers.
#[derive(Debug, Clone, Copy, PartialEq, Eq, Structural)]
pub enum MainMenu {
    AddBill,
    ViewBill,
    RemoveBill,
    EditBill,
}

/// The action a selection line stands for: the digits 1 to 4 pick an
/// action, every other text picks none.
pub open spec fn selection_of(s: Seq<char>) -> Option<MainMenu> {
    if s == "1"@ {
        Some(MainMenu::AddBill)
    } else if s == "2"@ {
        Some(MainMenu::ViewBill)
    } else if s == "3"@ {
        Some(MainMenu::RemoveBill)
    } else if s == "4"@ {
        Some(MainMenu::EditBill)
    } else {
        None
    }
}

/// The lines of the menu, shown before each selection is read.
pub open spec fn menu_lines() -> Seq<Seq<char>> {
    seq![
        ""@,
        "-----Bill Manager-----"@,
        "1. Add Bill"@,
        "2. View Bill"@,
        "3. Delete Bill"@,
        "4. Edit Bill"@,
        ""@,
        "Enter the selection: "@,
    ]
}

impl MainMenu {
    /// Reads a menu selection from the given text.
    pub fn from_str(input: &str) -> (selection: Option<MainMenu>)
        ensures
            selection == selection_of(input@),
    {
        let s: String = input.to_owned();
        if s == "1".to_owned() {
            Some(MainMenu::AddBill)
        } else if s == "2".to_owned() {
            Some(MainMenu::ViewBill)
        } else if s == "3".to_owned() {
            Some(MainMenu::RemoveBill)
        } else if s == "4".to_owned() {
            Some(MainMenu::EditBill)
        } else {
            None
        }
    }

    /// The menu text, one entry per line to print.
    pub fn show() -> (lines: Vec<String>)
        ensures
            lines.deep_view() == menu_lines(),
    {
        let mut lines: Vec<String> = Vec::new();
        lines.push("".to_owned());
        lines.push("-----Bill Manager-----".to_owned());
        lines.push("1. Add Bill".to_owned());
        lines.push("2. View Bill".to_owned());
        lines.push("3. Delete Bill".to_owned());
        lines.push("4. Edit Bill".to_owned());
        lines.push("".to_owned());
        lines.push("Enter the selection: ".to_owned());
        proof {
            assert(lines.deep_view() =~= menu_lines());
        }
        lines
    }
}

} // verus!
