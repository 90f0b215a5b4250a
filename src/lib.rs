mod clock;
mod dialog;
mod item;
mod keys;
mod session;
mod stateful_list;
mod text;

pub use clock::{millis_of, Timestamp};
pub use dialog::{drop_last_char, Dialog, DialogState, DialogView, Input};
pub use item::{
    duration_text, lemma_restart, lemma_tick_sequence, saturating_sum, total, unit_text, Item,
    ItemView, Status, HOUR_MS, MINUTE_MS, SECOND_MS, WEEK_MS,
};
pub use keys::{Key, Modifiers};
pub use session::{
    content, empty_group, group_after_tick, lemma_delete_clears_selection,
    lemma_restart_selected, lemma_restore_keeps_content, lemma_session_tick_sequence, App,
    AppView, GroupList, GroupView,
};
pub use stateful_list::{
    backward, forward, lemma_empty_navigation, lemma_full_cycle, lemma_move_in_pair, Direction,
    ListView, StatefulList,
};
pub use text::{decimal, digit_char};
