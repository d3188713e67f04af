//! The menu's application state: the fixed list of entries, the selected
//! index, and the two display strings (current description, last result),
//! together with the canned lookup tables that drive them.

use vstd::prelude::*;

verus! {

/// The fixed description shown for a menu entry, keyed by its label.
/// Unrecognized labels fall back to a placeholder; with the fixed list
/// built by [`App::new`] that branch is unreachable.
pub open spec fn description_of(label: Seq<char>) -> Seq<char> {
    if label == "Item 1"@ {
        " You have selected Item 1 You have selected Item 1"@
    } else if label == "Item 2"@ {
        " You have selected Item 2 You have selected Item 2"@
    } else if label == "Item 3"@ {
        " You have selected Item 3 You have selected Item 3"@
    } else if label == "Item 4"@ {
        " You have selected Item 4 You have selected Item 4"@
    } else if label == "Item 5"@ {
        " You have selected Item 5 You have selected Item 5"@
    } else if label == "Quit"@ {
        "You have selected Quit"@
    } else {
        "Unknown selection"@
    }
}

/// The fixed result string produced by activating a menu entry, keyed by
/// its label, with the same defensive fallback as [`description_of`].
pub open spec fn result_of(label: Seq<char>) -> Seq<char> {
    if label == "Item 1"@ {
        "Result of Item 1: This is a detailed description of what happens when Item 1 is selected."@
    } else if label == "Item 2"@ {
        "Result of Item 2: This is a detailed description of what happens when Item 2 is selected."@
    } else if label == "Item 3"@ {
        "Result of Item 3: This is a detailed description of what happens when Item 3 is selected."@
    } else if label == "Item 4"@ {
        "Result of Item 4: This is a detailed description of what happens when Item 4 is selected."@
    } else if label == "Item 5"@ {
        "Result of Item 5: This is a detailed description of what happens when Item 5 is selected."@
    } else if label == "Quit"@ {
        "Quitting the application..."@
    } else {
        "Unknown Item"@
    }
}

/// The labels of the menu built by [`App::new`]: five generic items and a
/// terminal "Quit" entry, in display order.
pub open spec fn initial_items() -> Seq<Seq<char>> {
    seq!["Item 1"@, "Item 2"@, "Item 3"@, "Item 4"@, "Item 5"@, "Quit"@]
}

/// The six canned labels are pairwise distinct, so exactly one branch of
/// each lookup table applies to each of them.
pub proof fn lemma_canned_labels_distinct()
    ensures
        "Item 2"@ != "Item 1"@,
        "Item 3"@ != "Item 1"@ && "Item 3"@ != "Item 2"@,
        "Item 4"@ != "Item 1"@ && "Item 4"@ != "Item 2"@ && "Item 4"@ != "Item 3"@,
        "Item 5"@ != "Item 1"@ && "Item 5"@ != "Item 2"@ && "Item 5"@ != "Item 3"@
            && "Item 5"@ != "Item 4"@,
        "Quit"@ != "Item 1"@ && "Quit"@ != "Item 2"@ && "Quit"@ != "Item 3"@
            && "Quit"@ != "Item 4"@ && "Quit"@ != "Item 5"@,
{
    reveal_strlit("Item 1");
    reveal_strlit("Item 2");
    reveal_strlit("Item 3");
    reveal_strlit("Item 4");
    reveal_strlit("Item 5");
    reveal_strlit("Quit");
    assert("Item 1"@[5] == '1');
    assert("Item 2"@[5] == '2');
    assert("Item 3"@[5] == '3');
    assert("Item 4"@[5] == '4');
    assert("Item 5"@[5] == '5');
    assert("Item 1"@.len() == 6);
    assert("Item 2"@.len() == 6);
    assert("Item 3"@.len() == 6);
    assert("Item 4"@.len() == 6);
    assert("Item 5"@.len() == 6);
    assert("Quit"@.len() == 4);
}

/// The mathematical model of an [`App`]: labels, selection, and the two
/// display strings, all as sequences of characters.
#[verifier::ext_equal]
pub struct AppView {
    pub items: Seq<Seq<char>>,
    pub selected: int,
    pub result: Seq<char>,
    pub selected_text: Seq<char>,
}

impl AppView {
    /// Structural invariant: the list is non-empty and the selection is in
    /// bounds. It holds from construction on and every operation keeps it.
    pub open spec fn inv(self) -> bool {
        &&& self.items.len() > 0
        &&& 0 <= self.selected < self.items.len()
    }

    /// The label of the currently selected entry.
    pub open spec fn current_label(self) -> Seq<char> {
        self.items[self.selected]
    }

    /// The description shown always mirrors the selected entry.
    pub open spec fn consistent(self) -> bool {
        self.selected_text == description_of(self.current_label())
    }

    /// Well-formed: invariant plus a description matching the selection.
    pub open spec fn wf(self) -> bool {
        self.inv() && self.consistent()
    }

    /// The state after moving the selection one entry down, wrapping past
    /// the end, with the description recomputed.
    pub open spec fn advanced(self) -> AppView {
        let s = (self.selected + 1) % (self.items.len() as int);
        AppView { selected: s, selected_text: description_of(self.items[s]), ..self }
    }

    /// The state after moving the selection one entry up, wrapping past the
    /// start, with the description recomputed.
    pub open spec fn retreated(self) -> AppView {
        let s = (self.selected - 1 + self.items.len()) % (self.items.len() as int);
        AppView { selected: s, selected_text: description_of(self.items[s]), ..self }
    }

    /// The state after activating the selected entry: only the result string
    /// changes, to the canned string for the current label.
    pub open spec fn activated(self) -> AppView {
        AppView { result: result_of(self.current_label()), ..self }
    }

    /// Whether the terminal "Quit" entry is the one selected.
    pub open spec fn quit_selected(self) -> bool {
        self.current_label() == "Quit"@
    }
}

/// The application state behind the menu. Mutated only by the key-event
/// handler; rendering reads it and draws one frame per event.
pub struct App {
    pub items: Vec<String>,
    pub selected: usize,
    pub result: String,
    pub selected_text: String,
}

impl View for App {
    type V = AppView;

    open spec fn view(&self) -> AppView {
        AppView {
            items: self.items.deep_view(),
            selected: self.selected as int,
            result: self.result@,
            selected_text: self.selected_text@,
        }
    }
}

/// Compares a stored label against a literal, without peeking into either.
pub fn label_is(label: &String, lit: &str) -> (r: bool)
    ensures
        r == (label@ == lit@),
{
    let other: String = lit.to_owned();
    *label == other
}

/// The fixed label-to-description lookup table of the menu.
pub fn description_for(label: &String) -> (r: String)
    ensures
        r@ == description_of(label@),
{
    if label_is(label, "Item 1") {
        " You have selected Item 1 You have selected Item 1".to_owned()
    } else if label_is(label, "Item 2") {
        " You have selected Item 2 You have selected Item 2".to_owned()
    } else if label_is(label, "Item 3") {
        " You have selected Item 3 You have selected Item 3".to_owned()
    } else if label_is(label, "Item 4") {
        " You have selected Item 4 You have selected Item 4".to_owned()
    } else if label_is(label, "Item 5") {
        " You have selected Item 5 You have selected Item 5".to_owned()
    } else if label_is(label, "Quit") {
        "You have selected Quit".to_owned()
    } else {
        "Unknown selection".to_owned()
    }
}

/// The canned result for the first menu item.
pub fn item_1_function() -> (r: &'static str)
    ensures
        r@ == result_of("Item 1"@),
{
    "Result of Item 1: This is a detailed description of what happens when Item 1 is selected."
}

/// The canned result for the second menu item.
pub fn item_2_function() -> (r: &'static str)
    ensures
        r@ == result_of("Item 2"@),
{
    proof {
        lemma_canned_labels_distinct();
    }
    "Result of Item 2: This is a detailed description of what happens when Item 2 is selected."
}

/// The canned result for the third menu item.
pub fn item_3_function() -> (r: &'static str)
    ensures
        r@ == result_of("Item 3"@),
{
    proof {
        lemma_canned_labels_distinct();
    }
    "Result of Item 3: This is a detailed description of what happens when Item 3 is selected."
}

/// The canned result for the fourth menu item.
pub fn item_4_function() -> (r: &'static str)
    ensures
        r@ == result_of("Item 4"@),
{
    proof {
        lemma_canned_labels_distinct();
    }
    "Result of Item 4: This is a detailed description of what happens when Item 4 is selected."
}

/// The canned result for the fifth menu item.
pub fn item_5_function() -> (r: &'static str)
    ensures
        r@ == result_of("Item 5"@),
{
    proof {
        lemma_canned_labels_distinct();
    }
    "Result of Item 5: This is a detailed description of what happens when Item 5 is selected."
}

/// The fixed label-to-result lookup table used on activation.
pub fn result_for(label: &String) -> (r: String)
    ensures
        r@ == result_of(label@),
{
    if label_is(label, "Item 1") {
        item_1_function().to_owned()
    } else if label_is(label, "Item 2") {
        item_2_function().to_owned()
    } else if label_is(label, "Item 3") {
        item_3_function().to_owned()
    } else if label_is(label, "Item 4") {
        item_4_function().to_owned()
    } else if label_is(label, "Item 5") {
        item_5_function().to_owned()
    } else if label_is(label, "Quit") {
        "Quitting the application...".to_owned()
    } else {
        "Unknown Item".to_owned()
    }
}

impl App {
    /// Builds the fixed menu: five generic items plus the "Quit" entry,
    /// selection at the top, an empty result, and the description already
    /// matching the selection.
    pub fn new() -> (app: App)
        ensures
            app@.wf(),
            app@.items == initial_items(),
            app@.selected == 0,
            app@.result == Seq::<char>::empty(),
    {
        let mut items: Vec<String> = Vec::new();
        items.push("Item 1".to_owned());
        items.push("Item 2".to_owned());
        items.push("Item 3".to_owned());
        items.push("Item 4".to_owned());
        items.push("Item 5".to_owned());
        items.push("Quit".to_owned());
        let selected_text = description_for(&items[0]);
        let app = App { items, selected: 0, result: String::new(), selected_text };
        proof {
            assert(app@.items =~= initial_items());
        }
        app
    }

    /// Recomputes the description from the currently selected label.
    pub fn update_selected_text(&mut self)
        requires
            old(self)@.inv(),
        ensures
            final(self).items == old(self).items,
            final(self).selected == old(self).selected,
            final(self).result == old(self).result,
            final(self)@.selected_text == description_of(old(self)@.current_label()),
    {
        let d = description_for(&self.items[self.selected]);
        self.selected_text = d;
    }

    /// Moves the selection one entry down, wrapping to the top past the
    /// last entry, and recomputes the description.
    pub fn next(&mut self)
        requires
            old(self)@.inv(),
        ensures
            final(self)@ == old(self)@.advanced(),
            final(self)@.inv(),
            final(self)@.consistent(),
    {
        let len = self.items.len();
        self.selected = (self.selected + 1) % len;
        self.update_selected_text();
        proof {
            assert(self@ =~= old(self)@.advanced());
        }
    }

    /// Moves the selection one entry up, wrapping to the bottom at the
    /// first entry, and recomputes the description.
    pub fn previous(&mut self)
        requires
            old(self)@.inv(),
        ensures
            final(self)@ == old(self)@.retreated(),
            final(self)@.inv(),
            final(self)@.consistent(),
    {
        if self.selected > 0 {
            self.selected = self.selected - 1;
        } else {
            self.selected = self.items.len() - 1;
        }
        proof {
            let len: int = old(self)@.items.len() as int;
            let sel: int = old(self)@.selected;
            vstd::arithmetic::div_mod::lemma_mod_add_multiples_vanish(sel - 1, len);
            vstd::arithmetic::div_mod::lemma_small_mod((len - 1) as nat, len as nat);
            if sel > 0 {
                vstd::arithmetic::div_mod::lemma_small_mod((sel - 1) as nat, len as nat);
            }
        }
        self.update_selected_text();
        proof {
            assert(self@ =~= old(self)@.retreated());
        }
    }

    /// Returns the currently selected entry's label.
    pub fn selected_item(&self) -> (r: &String)
        requires
            self@.inv(),
        ensures
            r@ == self@.current_label(),
    {
        &self.items[self.selected]
    }

    /// Sets the result to the canned string for the selected entry via the
    /// fixed label-to-result lookup. Selection and description are untouched.
    /// Activating the terminal "Quit" entry never sets a result: the key
    /// handler signals termination instead of calling this, so that state is
    /// excluded here.
    pub fn execute_selected_item(&mut self)
        requires
            old(self)@.inv(),
            !old(self)@.quit_selected(),
        ensures
            final(self)@ == old(self)@.activated(),
            final(self)@.inv(),
    {
        let r = result_for(&self.items[self.selected]);
        self.result = r;
        proof {
            assert(self@ =~= old(self)@.activated());
        }
    }
}

} // verus!
