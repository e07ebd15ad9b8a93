//! The main window's menu entries and what each one asks of the focused
//! view. Building the native menus and accelerator tables is the window
//! host's work; the decisions behind them are made here.

use vstd::prelude::*;
use crate::edit_view::EditViewCommands;

verus! {

/// The entries of the main window's menus.
pub enum MenuEntries {
    Exit,
    Open,
    Save,
    SaveAs,
    Undo,
    Redo,
    Copy,
    Cut,
    Paste,
    UpperCase,
    LowerCase,
    Transpose,
    SingleSelection,
    AddCursorAbove,
    AddCursorBelow,
    SelectAll,
}

/// The outcome of choosing a save entry: where to write now, if anywhere,
/// and which filename to remember afterwards.
pub struct SavePlan {
    /// The file to write now, if any.
    pub target: Option<String>,
    /// The filename remembered for the next save.
    pub remembered: Option<String>,
}

/// Whether choosing this entry must ask the user for a path first: Save As
/// always asks, Save asks only when no filename is remembered yet, and no
/// other entry asks.
pub fn save_needs_dialog(entry: &MenuEntries, remembered: &Option<String>) -> (r: bool)
    ensures
        r == (entry is SaveAs || (entry is Save && remembered is None)),
{
    match entry {
        MenuEntries::SaveAs => true,
        MenuEntries::Save => remembered.is_none(),
        _ => false,
    }
}

/// The save decision. `dialog_answer` is the path the file dialog
/// returned, `None` both when no dialog was needed and when the user
/// canceled it. Save writes to the remembered path and asks only when
/// there is none; Save As writes to the dialog's answer; a canceled
/// dialog writes nothing and forgets nothing; the path written to becomes
/// the remembered path.
pub fn plan_save(
    entry: &MenuEntries,
    remembered: Option<String>,
    dialog_answer: Option<String>,
) -> (r: SavePlan)
    ensures
        entry is Save && remembered is Some ==> r.target == remembered && r.remembered
            == remembered,
        entry is Save && remembered is None ==> r.target == dialog_answer && r.remembered
            == dialog_answer,
        entry is SaveAs && dialog_answer is Some ==> r.target == dialog_answer && r.remembered
            == dialog_answer,
        entry is SaveAs && dialog_answer is None ==> r.target is None && r.remembered
            == remembered,
        !(entry is Save || entry is SaveAs) ==> r.target is None && r.remembered == remembered,
{
    match entry {
        MenuEntries::Save => match remembered {
            Some(path) => SavePlan { target: Some(path.clone()), remembered: Some(path) },
            None => match dialog_answer {
                Some(path) => SavePlan { target: Some(path.clone()), remembered: Some(path) },
                None => SavePlan { target: None, remembered: None },
            },
        },
        MenuEntries::SaveAs => match dialog_answer {
            Some(path) => SavePlan { target: Some(path.clone()), remembered: Some(path) },
            None => SavePlan { target: None, remembered },
        },
        _ => SavePlan { target: None, remembered },
    }
}

/// The view command a menu entry maps to. Entries that open dialogs or
/// act on the window itself — exit, the file entries, and the clipboard
/// entries that still await a pasteboard — are the host's to handle and
/// map to no view command.
pub fn view_command_for_entry(entry: &MenuEntries) -> (r: Option<EditViewCommands>)
    ensures
        match entry {
            MenuEntries::Undo => r matches Some(c) && c is Undo,
            MenuEntries::Redo => r matches Some(c) && c is Redo,
            MenuEntries::UpperCase => r matches Some(c) && c is UpperCase,
            MenuEntries::LowerCase => r matches Some(c) && c is LowerCase,
            MenuEntries::Transpose => r matches Some(c) && c is Transpose,
            MenuEntries::SingleSelection => r matches Some(c) && c is SingleSelection,
            MenuEntries::AddCursorAbove => r matches Some(c) && c is AddCursorAbove,
            MenuEntries::AddCursorBelow => r matches Some(c) && c is AddCursorBelow,
            MenuEntries::SelectAll => r matches Some(c) && c is SelectAll,
            _ => r is None,
        },
{
    match entry {
        MenuEntries::Undo => Some(EditViewCommands::Undo),
        MenuEntries::Redo => Some(EditViewCommands::Redo),
        MenuEntries::UpperCase => Some(EditViewCommands::UpperCase),
        MenuEntries::LowerCase => Some(EditViewCommands::LowerCase),
        MenuEntries::Transpose => Some(EditViewCommands::Transpose),
        MenuEntries::SingleSelection => Some(EditViewCommands::SingleSelection),
        MenuEntries::AddCursorAbove => Some(EditViewCommands::AddCursorAbove),
        MenuEntries::AddCursorBelow => Some(EditViewCommands::AddCursorBelow),
        MenuEntries::SelectAll => Some(EditViewCommands::SelectAll),
        _ => None,
    }
}

} // verus!
