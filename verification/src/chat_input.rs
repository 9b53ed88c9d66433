//! The list of context sources that the chat input offers.

use vstd::prelude::*;

verus! {

/// One source of context: its label and the name of its icon.
#[derive(Clone, Copy, Debug, PartialEq, Eq)]
pub struct ContextItem {
    pub name: &'static str,
    pub icon: &'static str,
}

/// What a [`ContextItem`] holds, as a mathematical value.
pub struct ContextItemModel {
    pub name: Seq<char>,
    pub icon: Seq<char>,
}

impl View for ContextItem {
    type V = ContextItemModel;

    open spec fn view(&self) -> ContextItemModel {
        ContextItemModel { name: self.name@, icon: self.icon@ }
    }
}

/// The sources that the list offers, in the order in which it shows them.
pub open spec fn context_sources() -> Seq<ContextItemModel> {
    seq![
        ContextItemModel { name: "Files"@, icon: "file"@ },
        ContextItemModel { name: "Folders"@, icon: "folder"@ },
        ContextItemModel { name: "Code"@, icon: "code"@ },
        ContextItemModel { name: "Git Changes"@, icon: "git-branch"@ },
        ContextItemModel { name: "Terminal"@, icon: "terminal"@ },
        ContextItemModel { name: "Problems"@, icon: "alert-circle"@ },
        ContextItemModel { name: "URLs"@, icon: "link"@ },
    ]
}

/// Delegate for the context list in the chat input popover.
#[derive(Clone, Debug, PartialEq, Eq)]
pub struct ContextListDelegate {
    pub items: Vec<ContextItem>,
}

impl View for ContextListDelegate {
    type V = Seq<ContextItemModel>;

    open spec fn view(&self) -> Seq<ContextItemModel> {
        self.items@.map_values(|i: ContextItem| i@)
    }
}

impl ContextListDelegate {
    /// The list of the seven sources of context.
    pub fn new() -> (list: ContextListDelegate)
        ensures
            list@ == context_sources(),
    {
        let list = ContextListDelegate {
            items: vec![
                ContextItem { name: "Files", icon: "file" },
                ContextItem { name: "Folders", icon: "folder" },
                ContextItem { name: "Code", icon: "code" },
                ContextItem { name: "Git Changes", icon: "git-branch" },
                ContextItem { name: "Terminal", icon: "terminal" },
                ContextItem { name: "Problems", icon: "alert-circle" },
                ContextItem { name: "URLs", icon: "link" },
            ],
        };
        assert(list@ =~= context_sources());
        list
    }

    /// How many rows the list has.
    pub fn items_count(&self) -> (n: usize)
        ensures
            n == self@.len(),
    {
        self.items.len()
    }

    /// The label of the row at `row`, if the list has such a row.
    pub fn render_item(&self, row: usize) -> (label: Option<&'static str>)
        ensures
            row < self@.len() ==> label is Some && label->Some_0@ == self@[row as int].name,
            row >= self@.len() ==> label is None,
    {
        if row < self.items.len() {
            Some(self.items[row].name)
        } else {
            None
        }
    }
}

} // verus!
