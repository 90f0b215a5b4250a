use vstd::prelude::*;

use crate::item::{Item, ItemView};
use crate::keys::{Key, Modifiers};
use crate::text::{pop_char, push_char};

verus! {

/// The field of the dialog that typing goes to.
#[derive(Clone, Copy, Debug, PartialEq, Eq, Structural)]
pub enum Input {
    Title,
    Desc,
}

/// Whether the dialog is creating an entry, editing one, or closed.
#[derive(Clone, Copy, Debug, PartialEq, Eq, Structural)]
pub enum DialogState {
    New,
    Edit,
    Hide,
}

/// The overlay in which a group name, or an item's title and description,
/// is typed.
pub struct Dialog {
    pub input: Item,
    pub selected_input: Input,
    pub state: DialogState,
}

/// Abstract state of the dialog.
pub struct DialogView {
    pub input: ItemView,
    pub selected_input: Input,
    pub state: DialogState,
}

impl View for Dialog {
    type V = DialogView;

    open spec fn view(&self) -> DialogView {
        DialogView { input: self.input@, selected_input: self.selected_input, state: self.state }
    }
}

impl DialogView {
    /// Closed, with an empty buffer and the title focused.
    pub open spec fn closed() -> DialogView {
        DialogView { input: ItemView::empty(), selected_input: Input::Title, state: DialogState::Hide }
    }

    pub open spec fn displayed(self) -> bool {
        self.state != DialogState::Hide
    }

    pub open spec fn editing(self) -> bool {
        self.state == DialogState::Edit
    }

    /// The dialog after a key typed into it: escape closes it, tab switches
    /// the focused field, a character is appended to the focused field and
    /// backspace drops that field's last character.
    pub open spec fn process_input(self, key: Key) -> DialogView {
        match key {
            Key::Esc => DialogView::closed(),
            Key::Tab => DialogView {
                selected_input: match self.selected_input {
                    Input::Title => Input::Desc,
                    Input::Desc => Input::Title,
                },
                ..self
            },
            Key::Char(c) => match self.selected_input {
                Input::Title => DialogView {
                    input: ItemView { title: self.input.title.push(c), ..self.input },
                    ..self
                },
                Input::Desc => DialogView {
                    input: ItemView { desc: self.input.desc.push(c), ..self.input },
                    ..self
                },
            },
            Key::Backspace => match self.selected_input {
                Input::Title => DialogView {
                    input: ItemView { title: drop_last_char(self.input.title), ..self.input },
                    ..self
                },
                Input::Desc => DialogView {
                    input: ItemView { desc: drop_last_char(self.input.desc), ..self.input },
                    ..self
                },
            },
            _ => self,
        }
    }
}

/// The text without its last character; an empty text stays empty.
pub open spec fn drop_last_char(s: Seq<char>) -> Seq<char> {
    if s.len() == 0 {
        s
    } else {
        s.drop_last()
    }
}

impl Default for Input {
    fn default() -> (r: Input)
        ensures
            r == Input::Title,
    {
        Input::Title
    }
}

impl Default for Dialog {
    fn default() -> (r: Dialog)
        ensures
            r@ == DialogView::closed(),
    {
        Dialog { input: Item::default(), selected_input: Input::Title, state: DialogState::Hide }
    }
}

impl Dialog {
    /// Route a key to the dialog. The modifiers do not matter here.
    pub fn process_input(&mut self, key: Key, modi: Modifiers)
        ensures
            final(self)@ == old(self)@.process_input(key),
    {
        match key {
            Key::Esc => {
                self.close_dialog();
            },
            Key::Tab => {
                self.selected_input = match self.selected_input {
                    Input::Title => Input::Desc,
                    Input::Desc => Input::Title,
                };
            },
            Key::Char(x) => match self.selected_input {
                Input::Title => push_char(&mut self.input.title, x),
                Input::Desc => push_char(&mut self.input.desc, x),
            },
            Key::Backspace => {
                match self.selected_input {
                    Input::Title => {
                        pop_char(&mut self.input.title);
                    },
                    Input::Desc => {
                        pop_char(&mut self.input.desc);
                    },
                }
            },
            _ => {},
        }
    }

    /// Close the dialog, discarding what was typed.
    pub fn close_dialog(&mut self)
        ensures
            final(self)@ == DialogView::closed(),
    {
        self.state = DialogState::Hide;
        self.input = Item::default();
        self.selected_input = Input::Title;
    }

    pub fn displayed(&self) -> (r: bool)
        ensures
            r == self@.displayed(),
    {
        !matches!(self.state, DialogState::Hide)
    }

    pub fn display(&mut self, state: DialogState)
        ensures
            final(self)@ == (DialogView { state, ..old(self)@ }),
    {
        self.state = state;
    }

    pub fn editing(&self) -> (r: bool)
        ensures
            r == self@.editing(),
    {
        matches!(self.state, DialogState::Edit)
    }
}

} // verus!
