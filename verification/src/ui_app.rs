//! The interactive terminal browser's state: the screen tabs, the index
//! table's selection, the filter input, the key handling that drives them,
//! and the filtering of the index table. Drawing and terminal I/O sit with
//! the caller, which feeds key presses in and renders the state after each.

use vstd::prelude::*;
use vstd::string::StringExecFns;
use crate::text::{
    decimal_digits,
    has_substring,
    lower_of,
    lowercase,
    pop_char,
    push_char,
    str_contains,
    usize_to_string,
};

verus! {

/// Whether keys navigate or type into the filter.
#[derive(Debug, Clone, Copy, PartialEq, Eq, Structural)]
pub enum InputMode {
    Normal,
    Filtering,
}

/// A table with one selectable row.
pub struct StatefulTable<T> {
    pub items: Vec<T>,
    pub selected: Option<usize>,
}

impl<T> StatefulTable<T> {
    /// A table over `items` with nothing selected.
    pub fn with_items(items: Vec<T>) -> (t: StatefulTable<T>)
        ensures
            t.items == items,
            t.selected is None,
    {
        StatefulTable { items, selected: Option::None }
    }

    /// The row that selecting the next one reaches: the first row from
    /// nothing, the top again past the last row, else one further down.
    pub open spec fn spec_next(self) -> usize {
        match self.selected {
            Option::None => 0,
            Option::Some(i) => if i + 1 >= self.items@.len() {
                0
            } else {
                (i + 1) as usize
            },
        }
    }

    /// The row that selecting the previous one reaches: the first row from
    /// nothing, the bottom from the first row, else one further up.
    pub open spec fn spec_previous(self) -> usize {
        match self.selected {
            Option::None => 0,
            Option::Some(i) => if i == 0 {
                (self.items@.len() - 1) as usize
            } else {
                (i - 1) as usize
            },
        }
    }

    /// Moves the selection one row down, wrapping at the bottom.
    pub fn next(&mut self)
        requires
            old(self).selected is Some ==> old(self).items@.len() > 0,
        ensures
            final(self).items == old(self).items,
            final(self).selected == Option::Some(old(self).spec_next()),
    {
        let i: usize = match self.selected {
            Option::Some(i) => if i >= self.items.len() - 1 {
                0
            } else {
                i + 1
            },
            Option::None => 0,
        };
        self.selected = Option::Some(i);
    }

    /// Moves the selection one row up, wrapping at the top.
    pub fn previous(&mut self)
        requires
            old(self).selected is Some ==> old(self).items@.len() > 0,
        ensures
            final(self).items == old(self).items,
            final(self).selected == Option::Some(old(self).spec_previous()),
    {
        let i: usize = match self.selected {
            Option::Some(i) => if i == 0 {
                self.items.len() - 1
            } else {
                i - 1
            },
            Option::None => 0,
        };
        self.selected = Option::Some(i);
    }

    /// Clears the selection.
    pub fn unselect(&mut self)
        ensures
            final(self).items == old(self).items,
            final(self).selected is None,
    {
        self.selected = Option::None;
    }
}

/// One key press, as the browser reads it. Presses the browser ignores
/// arrive as `Other`.
#[derive(Debug, Clone, Copy, PartialEq, Eq, Structural)]
pub enum KeyInput {
    Char(char),
    Esc,
    Backspace,
    Left,
    Down,
    Up,
    Other,
}

/// This struct holds the current state of the browser.
pub struct UiApp {
    pub selected_screen_idx: usize,
    /// Current value of the filter indices input.
    pub indices_filter: String,
    pub input_mode: InputMode,
    pub indices: StatefulTable<String>,
}

/// The browser starts on the first screen, unfiltered, navigating, with
/// nothing selected, over eleven numbered placeholder names.
pub open spec fn is_initial(app: UiApp) -> bool {
    &&& app.selected_screen_idx == 0
    &&& app.indices_filter@.len() == 0
    &&& app.input_mode == InputMode::Normal
    &&& app.indices.selected is None
    &&& app.indices.items@.len() == 11
    &&& forall|i: int|
        0 <= i < 11 ==> (#[trigger] app.indices.items@[i])@ == "Indice "@ + decimal_digits(i as nat)
}

/// Everything but the input mode is as it was.
pub open spec fn same_but_mode(pre: UiApp, post: UiApp, mode: InputMode) -> bool {
    &&& post.input_mode == mode
    &&& post.indices_filter == pre.indices_filter
    &&& post.indices == pre.indices
    &&& post.selected_screen_idx == pre.selected_screen_idx
}

/// Everything but the filter text is as it was.
pub open spec fn same_but_filter(pre: UiApp, post: UiApp, filter: Seq<char>) -> bool {
    &&& post.input_mode == pre.input_mode
    &&& post.indices_filter@ == filter
    &&& post.indices == pre.indices
    &&& post.selected_screen_idx == pre.selected_screen_idx
}

/// Everything but the table selection is as it was.
pub open spec fn same_but_selection(pre: UiApp, post: UiApp, selected: Option<usize>) -> bool {
    &&& post.input_mode == pre.input_mode
    &&& post.indices_filter == pre.indices_filter
    &&& post.indices.items == pre.indices.items
    &&& post.indices.selected == selected
    &&& post.selected_screen_idx == pre.selected_screen_idx
}

/// How one key press moves the browser's state, and whether it ends the
/// session: in navigation mode `q` quits, `f` opens the filter and the
/// arrows move the selection; in filter mode escape returns to navigation,
/// a character extends the filter and backspace shortens it. Everything
/// else changes nothing.
pub open spec fn key_transition(pre: UiApp, post: UiApp, key: KeyInput, quit: bool) -> bool {
    match pre.input_mode {
        InputMode::Normal => match key {
            KeyInput::Char(c) => if c == 'q' {
                post == pre && quit
            } else if c == 'f' {
                same_but_mode(pre, post, InputMode::Filtering) && !quit
            } else {
                post == pre && !quit
            },
            KeyInput::Left => same_but_selection(pre, post, Option::None) && !quit,
            KeyInput::Down => same_but_selection(
                pre,
                post,
                Option::Some(pre.indices.spec_next()),
            ) && !quit,
            KeyInput::Up => same_but_selection(
                pre,
                post,
                Option::Some(pre.indices.spec_previous()),
            ) && !quit,
            _ => post == pre && !quit,
        },
        InputMode::Filtering => match key {
            KeyInput::Esc => same_but_mode(pre, post, InputMode::Normal) && !quit,
            KeyInput::Char(c) => same_but_filter(pre, post, pre.indices_filter@.push(c)) && !quit,
            KeyInput::Backspace => same_but_filter(
                pre,
                post,
                if pre.indices_filter@.len() == 0 {
                    pre.indices_filter@
                } else {
                    pre.indices_filter@.drop_last()
                },
            ) && !quit,
            _ => post == pre && !quit,
        },
    }
}

impl UiApp {
    /// A fresh browser over the placeholder index names.
    pub fn new() -> (app: Self)
        ensures
            is_initial(app),
    {
        let mut items: Vec<String> = Vec::new();
        let mut i: usize = 0;
        while i <= 10
            invariant
                i <= 11,
                items@.len() == i,
                forall|j: int|
                    0 <= j < i ==> (#[trigger] items@[j])@ == "Indice "@ + decimal_digits(j as nat),
            decreases 11 - i,
        {
            let mut s = String::from_str("Indice ");
            let num = usize_to_string(i);
            s.append(num.as_str());
            items.push(s);
            i = i + 1;
        }
        UiApp {
            selected_screen_idx: 0,
            indices_filter: String::new(),
            input_mode: InputMode::Normal,
            indices: StatefulTable::with_items(items),
        }
    }

    /// Applies one key press, as [`key_transition`] describes, and says
    /// whether the session ends.
    pub fn handle_key(&mut self, key: KeyInput) -> (quit: bool)
        requires
            old(self).input_mode == InputMode::Normal && old(self).indices.selected is Some
                ==> old(self).indices.items@.len() > 0,
        ensures
            key_transition(*old(self), *final(self), key, quit),
    {
        let mode = self.input_mode;
        match mode {
            InputMode::Normal => match key {
                KeyInput::Char(c) => {
                    if c == 'q' {
                        true
                    } else {
                        if c == 'f' {
                            self.input_mode = InputMode::Filtering;
                        }
                        false
                    }
                },
                KeyInput::Left => {
                    self.indices.unselect();
                    false
                },
                KeyInput::Down => {
                    self.indices.next();
                    false
                },
                KeyInput::Up => {
                    self.indices.previous();
                    false
                },
                _ => false,
            },
            InputMode::Filtering => match key {
                KeyInput::Esc => {
                    self.input_mode = InputMode::Normal;
                    false
                },
                KeyInput::Char(c) => {
                    push_char(&mut self.indices_filter, c);
                    false
                },
                KeyInput::Backspace => {
                    pop_char(&mut self.indices_filter);
                    false
                },
                _ => false,
            },
        }
    }
}

impl Default for UiApp {
    /// A fresh browser, as [`UiApp::new`] builds it.
    fn default() -> (app: Self)
        ensures
            is_initial(app),
    {
        UiApp::new()
    }
}

/// The names that pass the filter, in order: those whose case-folded text
/// contains the filter.
pub open spec fn filtered_names(names: Seq<Seq<char>>, filter: Seq<char>) -> Seq<Seq<char>>
    decreases names.len(),
{
    if names.len() == 0 {
        Seq::empty()
    } else {
        (if has_substring(lower_of(names[0]), filter) {
            seq![names[0]]
        } else {
            Seq::empty()
        }) + filtered_names(names.skip(1), filter)
    }
}

/// Filtering distributes over concatenation.
proof fn lemma_filtered_names_concat(a: Seq<Seq<char>>, b: Seq<Seq<char>>, filter: Seq<char>)
    ensures
        filtered_names(a + b, filter) == filtered_names(a, filter) + filtered_names(b, filter),
    decreases a.len(),
{
    if a.len() == 0 {
        assert(a + b =~= b);
        assert(filtered_names(a, filter) + filtered_names(b, filter) =~= filtered_names(
            b,
            filter,
        ));
    } else {
        assert((a + b).skip(1) =~= a.skip(1) + b);
        lemma_filtered_names_concat(a.skip(1), b, filter);
        assert((if has_substring(lower_of((a + b)[0]), filter) {
            seq![(a + b)[0]]
        } else {
            Seq::<Seq<char>>::empty()
        }) + (filtered_names(a.skip(1), filter) + filtered_names(b, filter)) =~= filtered_names(
            a,
            filter,
        ) + filtered_names(b, filter));
    }
}

/// Whether one index name passes the filter, as the browser's table applies
/// it: the case-folded name must contain the filter text.
pub fn index_matches_filter(name: &str, filter: &str) -> (r: bool)
    ensures
        r == has_substring(lower_of(name@), filter@),
{
    let lowered = lowercase(name);
    str_contains(lowered.as_str(), filter)
}

/// The rows the browser's table shows: the names that pass the filter, in
/// their original order.
pub fn filter_indices(items: &Vec<String>, filter: &str) -> (r: Vec<String>)
    ensures
        r@.map_values(|s: String| s@) == filtered_names(
            items@.map_values(|s: String| s@),
            filter@,
        ),
{
    let ghost names = items@.map_values(|s: String| s@);
    let n = items.len();
    let mut r: Vec<String> = Vec::new();
    let mut i: usize = 0;
    while i < n
        invariant
            i <= n,
            n == items@.len(),
            names == items@.map_values(|s: String| s@),
            r@.map_values(|s: String| s@) == filtered_names(names.take(i as int), filter@),
        decreases n - i,
    {
        proof {
            assert(names.take(i as int) + seq![names[i as int]] =~= names.take(i + 1));
            lemma_filtered_names_concat(names.take(i as int), seq![names[i as int]], filter@);
            assert(seq![names[i as int]].skip(1) =~= Seq::<Seq<char>>::empty());
            assert(filtered_names(Seq::<Seq<char>>::empty(), filter@) =~= Seq::<Seq<char>>::empty());
        }
        if index_matches_filter(items[i].as_str(), filter) {
            r.push(items[i].clone());
            proof {
                assert(filtered_names(seq![names[i as int]], filter@) =~= seq![names[i as int]]);
                assert(r@.map_values(|s: String| s@) =~= filtered_names(
                    names.take(i + 1),
                    filter@,
                ));
            }
        } else {
            proof {
                assert(filtered_names(seq![names[i as int]], filter@) =~= Seq::<Seq<char>>::empty());
                assert(r@.map_values(|s: String| s@) =~= filtered_names(
                    names.take(i + 1),
                    filter@,
                ));
            }
        }
        i = i + 1;
    }
    proof {
        assert(names.take(n as int) =~= names);
    }
    r
}

} // verus!
