use vstd::prelude::*;

use crate::clock::{duration_millis, millis_of, now, Timestamp};
use crate::dialog::{Dialog, DialogState, DialogView};
use crate::item::{lemma_restart, lemma_tick_sequence, total, Item, ItemView};
use crate::keys::{Key, Modifiers};
use crate::stateful_list::{Direction, ListView, StatefulList};

verus! {

/// A named list of entries.
pub struct GroupList<T> {
    pub name: String,
    pub list: StatefulList<T>,
}

/// Abstract state of a group.
pub struct GroupView<V> {
    pub name: Seq<char>,
    pub list: ListView<V>,
}

impl<T: View> View for GroupList<T> {
    type V = GroupView<T::V>;

    open spec fn view(&self) -> GroupView<T::V> {
        GroupView { name: self.name@, list: self.list@ }
    }
}

impl<T: View> GroupList<T> {
    /// A group with the given name and no entries.
    pub fn new(name: String) -> (r: GroupList<T>)
        ensures
            r@ == (GroupView::<T::V> { name: name@, list: ListView { items: Seq::empty(), selected: None } }),
    {
        GroupList { name, list: StatefulList::new() }
    }
}

/// The whole interactive state: the groups, the group drilled into, if any,
/// and the dialog.
pub struct App {
    pub name: String,
    pub group_list: StatefulList<GroupList<Item>>,
    pub active_list: Option<usize>,
    pub dialog: Dialog,
}

/// Abstract state of the session.
pub struct AppView {
    pub name: Seq<char>,
    pub groups: ListView<GroupView<ItemView>>,
    pub active: Option<int>,
    pub dialog: DialogView,
}

impl View for App {
    type V = AppView;

    open spec fn view(&self) -> AppView {
        AppView {
            name: self.name@,
            groups: self.group_list@,
            active: match self.active_list {
                Some(g) => Some(g as int),
                None => None,
            },
            dialog: self.dialog@,
        }
    }
}

/// A group without entries and without a cursor.
pub open spec fn empty_group(name: Seq<char>) -> GroupView<ItemView> {
    GroupView { name, list: ListView { items: Seq::empty(), selected: None } }
}

/// The group after a tick of `ms` milliseconds.
pub open spec fn group_after_tick(group: GroupView<ItemView>, ms: int) -> GroupView<ItemView> {
    GroupView {
        name: group.name,
        list: ListView {
            items: group.list.items.map_values(|it: ItemView| it.after_tick(ms)),
            selected: group.list.selected,
        },
    }
}

impl AppView {
    /// Every cursor points at an element, and the group drilled into exists.
    pub open spec fn wf(self) -> bool {
        &&& self.groups.wf()
        &&& forall|g: int| 0 <= g < self.groups.len() ==> (#[trigger] self.groups.items[g]).list.wf()
        &&& self.active matches Some(g) ==> 0 <= g < self.groups.len()
    }

    pub open spec fn list_of(self, g: int) -> ListView<ItemView> {
        self.groups.items[g].list
    }

    pub open spec fn with_groups(self, groups: ListView<GroupView<ItemView>>) -> AppView {
        AppView { groups, ..self }
    }

    /// The session with the entries and cursor of group `g` replaced.
    pub open spec fn with_list(self, g: int, list: ListView<ItemView>) -> AppView {
        self.with_groups(
            ListView {
                items: self.groups.items.update(g, GroupView { name: self.groups.items[g].name, list }),
                selected: self.groups.selected,
            },
        )
    }

    /// Group and position of the selected item of the group drilled into.
    pub open spec fn selected_item(self) -> Option<(int, int)> {
        match self.active {
            Some(g) => if 0 <= g < self.groups.len() {
                match self.list_of(g).selected {
                    Some(i) => if 0 <= i < self.list_of(g).len() {
                        Some((g, i))
                    } else {
                        None
                    },
                    None => None,
                }
            } else {
                None
            },
            None => None,
        }
    }

    /// The session with the selected item, if any, replaced by `f` of it.
    pub open spec fn update_selected_item(self, f: spec_fn(ItemView) -> ItemView) -> AppView {
        match self.selected_item() {
            Some((g, i)) => self.with_list(
                g,
                ListView {
                    items: self.list_of(g).items.update(i, f(self.list_of(g).items[i])),
                    selected: self.list_of(g).selected,
                },
            ),
            None => self,
        }
    }

    pub open spec fn open_new(self) -> AppView {
        if self.dialog.displayed() {
            self
        } else {
            AppView { dialog: DialogView { state: DialogState::New, ..self.dialog }, ..self }
        }
    }

    /// Open the dialog on a copy of the selected item.
    pub open spec fn open_edit(self) -> AppView {
        if self.dialog.displayed() {
            self
        } else {
            match self.selected_item() {
                Some((g, i)) => AppView {
                    dialog: DialogView {
                        input: self.list_of(g).items[i],
                        state: DialogState::Edit,
                        ..self.dialog
                    },
                    ..self
                },
                None => self,
            }
        }
    }

    /// Remove the selected entry of the list in focus and clear its cursor.
    pub open spec fn delete_selected(self) -> AppView {
        match self.active {
            Some(g) => self.with_list(g, self.list_of(g).remove_selected()),
            None => self.with_groups(self.groups.remove_selected()),
        }
    }

    pub open spec fn move_in_focus(self, direction: Direction) -> AppView {
        match self.active {
            Some(g) => self.with_list(g, self.list_of(g).move_selected(direction)),
            None => self.with_groups(self.groups.move_selected(direction)),
        }
    }

    pub open spec fn previous_in_focus(self) -> AppView {
        match self.active {
            Some(g) => self.with_list(g, self.list_of(g).previous()),
            None => self.with_groups(self.groups.previous()),
        }
    }

    pub open spec fn next_in_focus(self) -> AppView {
        match self.active {
            Some(g) => self.with_list(g, self.list_of(g).next()),
            None => self.with_groups(self.groups.next()),
        }
    }

    /// Drill into the selected group, unless already drilled in.
    pub open spec fn drill_in(self) -> AppView {
        match self.active {
            Some(_) => self,
            None => AppView { active: self.groups.selected, ..self },
        }
    }

    /// Leave the group drilled into, clearing its cursor.
    pub open spec fn drill_out(self) -> AppView {
        match self.active {
            Some(g) => AppView { active: None, ..self.with_list(g, self.list_of(g).with_selected(None)) },
            None => self,
        }
    }

    /// Store what the dialog holds, then close it. Editing overwrites the
    /// title and description of the selected item; creating adds an item
    /// to the group drilled into, or else a new empty group named by the
    /// typed title.
    pub open spec fn commit(self) -> AppView {
        let d = self.dialog;
        let stored = if !d.displayed() {
            self
        } else if d.editing() {
            self.update_selected_item(|it: ItemView| ItemView { title: d.input.title, desc: d.input.desc, ..it })
        } else {
            match self.active {
                Some(g) => self.with_list(g, self.list_of(g).push(d.input)),
                None => self.with_groups(self.groups.push(empty_group(d.input.title))),
            }
        };
        AppView { dialog: DialogView::closed(), ..stored }
    }

    /// The session after one key, with `now` as the current time. While the
    /// dialog is open every key but enter goes to it.
    pub open spec fn step(self, key: Key, modi: Modifiers, now: Timestamp) -> AppView {
        if self.dialog.displayed() && key != Key::Enter {
            AppView { dialog: self.dialog.process_input(key), ..self }
        } else if key == Key::Char('n') && modi.is_control() {
            self.open_new()
        } else if key == Key::Char('e') && modi.is_control() {
            self.open_edit()
        } else if key == Key::Char('d') && modi.is_control() {
            self.delete_selected()
        } else if key == Key::Char('s') && modi.is_alt() {
            self.start_toggled(now)
        } else if key == Key::Char('d') && modi.is_alt() {
            self.end_toggled(now)
        } else if key == Key::Char('p') && modi.is_alt() {
            self.pause_toggled()
        } else if key == Key::Enter {
            self.commit()
        } else if key == Key::Up && modi.is_control() {
            self.move_in_focus(Direction::Down)
        } else if key == Key::Down && modi.is_control() {
            self.move_in_focus(Direction::Up)
        } else if key == Key::Up {
            self.previous_in_focus()
        } else if key == Key::Down {
            self.next_in_focus()
        } else if key == Key::Right {
            self.drill_in()
        } else if key == Key::Left {
            self.drill_out()
        } else {
            self
        }
    }

    pub open spec fn start_toggled(self, now: Timestamp) -> AppView {
        self.update_selected_item(|it: ItemView| it.toggle_start(now))
    }

    pub open spec fn end_toggled(self, now: Timestamp) -> AppView {
        self.update_selected_item(|it: ItemView| it.toggle_end(now))
    }

    pub open spec fn pause_toggled(self) -> AppView {
        self.update_selected_item(|it: ItemView| it.toggle_pause())
    }

    /// The session after a tick of `ms` milliseconds: every running item of
    /// every group accrues them.
    pub open spec fn after_tick(self, ms: int) -> AppView {
        self.with_groups(
            ListView {
                items: self.groups.items.map_values(|g: GroupView<ItemView>| group_after_tick(g, ms)),
                selected: self.groups.selected,
            },
        )
    }

    /// The session after one tick for each element of `ticks`, in order.
    pub open spec fn after_ticks(self, ticks: Seq<int>) -> AppView
        decreases ticks.len(),
    {
        if ticks.len() == 0 {
            self
        } else {
            self.after_tick(ticks[0]).after_ticks(ticks.drop_first())
        }
    }

    /// A session holding `groups` as they were saved: no cursor in any
    /// list, nothing drilled into, the dialog closed.
    pub open spec fn restored(name: Seq<char>, groups: Seq<GroupView<ItemView>>) -> AppView {
        AppView {
            name,
            groups: ListView {
                items: groups.map_values(|g: GroupView<ItemView>| GroupView { name: g.name, list: g.list.with_selected(None) }),
                selected: None,
            },
            active: None,
            dialog: DialogView::closed(),
        }
    }
}

impl App {
    pub open spec fn wf(&self) -> bool {
        self@.wf()
    }

    /// A session with the given title, no groups, nothing selected and the
    /// dialog closed.
    pub fn new(name: String) -> (r: App)
        ensures
            r.wf(),
            r@ == (AppView {
                name: name@,
                groups: ListView { items: Seq::empty(), selected: None },
                active: None,
                dialog: DialogView::closed(),
            }),
    {
        App { name, group_list: StatefulList::new(), active_list: None, dialog: Dialog::default() }
    }

    /// A session holding the saved `groups`, with every cursor cleared,
    /// nothing drilled into and the dialog closed.
    pub fn restore(name: String, groups: Vec<GroupList<Item>>) -> (r: App)
        ensures
            r.wf(),
            r@ == AppView::restored(name@, groups@.map_values(|g: GroupList<Item>| g@)),
    {
        let ghost saved = groups@;
        let mut groups = groups;
        let n = groups.len();
        let mut k: usize = 0;
        while k < n
            invariant
                n == groups.len(),
                n == saved.len(),
                0 <= k <= n,
                forall|j: int|
                    0 <= j < k ==> (#[trigger] groups@[j])@ == (GroupView {
                        name: saved[j]@.name,
                        list: saved[j]@.list.with_selected(None),
                    }),
                forall|j: int| k <= j < n ==> groups@[j] == saved[j],
            decreases n - k,
        {
            groups[k].list.select(None);
            k += 1;
        }
        let r = App {
            name,
            group_list: StatefulList { selected: None, items: groups },
            active_list: None,
            dialog: Dialog::default(),
        };
        assert(r@.groups.items =~= AppView::restored(name@, saved.map_values(|g: GroupList<Item>| g@)).groups.items);
        r
    }

    /// Group and position of the selected item of the group drilled into.
    fn selected_item(&self) -> (r: Option<(usize, usize)>)
        ensures
            r matches Some((g, i)) ==> self@.selected_item() == Some((g as int, i as int)),
            r is None ==> self@.selected_item() is None,
    {
        if let Some(list_index) = self.active_list {
            if list_index < self.group_list.items.len() {
                let list = &self.group_list.items[list_index];
                if let Some(index) = list.list.selected {
                    if index < list.list.items.len() {
                        return Some((list_index, index));
                    }
                }
            }
        }
        None
    }

    fn toggle_start_selected(&mut self, now: Timestamp)
        requires
            old(self).wf(),
        ensures
            final(self).wf(),
            final(self)@ == old(self)@.start_toggled(now),
    {
        if let Some((g, i)) = self.selected_item() {
            self.group_list.items[g].list.items[i].toggle_start(now);
            proof {
                let v = old(self)@;
                let l = v.list_of(g as int);
                assert(self.group_list.items@[g as int].list@.items =~= l.items.update(
                    i as int,
                    l.items[i as int].toggle_start(now),
                ));
                assert(self.group_list@.items =~= v.start_toggled(now).groups.items);
            }
        }
    }
    fn toggle_end_selected(&mut self, now: Timestamp)
        requires
            old(self).wf(),
        ensures
            final(self).wf(),
            final(self)@ == old(self)@.end_toggled(now),
    {
        if let Some((g, i)) = self.selected_item() {
            self.group_list.items[g].list.items[i].toggle_end(now);
            proof {
                let v = old(self)@;
                let l = v.list_of(g as int);
                assert(self.group_list.items@[g as int].list@.items =~= l.items.update(
                    i as int,
                    l.items[i as int].toggle_end(now),
                ));
                assert(self.group_list@.items =~= v.end_toggled(now).groups.items);
            }
        }
    }

    fn toggle_pause_selected(&mut self)
        requires
            old(self).wf(),
        ensures
            final(self).wf(),
            final(self)@ == old(self)@.pause_toggled(),
    {
        if let Some((g, i)) = self.selected_item() {
            self.group_list.items[g].list.items[i].toggle_pause();
            proof {
                let v = old(self)@;
                let l = v.list_of(g as int);
                assert(self.group_list.items@[g as int].list@.items =~= l.items.update(
                    i as int,
                    l.items[i as int].toggle_pause(),
                ));
                assert(self.group_list@.items =~= v.pause_toggled().groups.items);
            }
        }
    }

    /// Open the dialog on a copy of the selected item.
    fn open_edit(&mut self)
        requires
            old(self).wf(),
        ensures
            final(self).wf(),
            final(self)@ == old(self)@.open_edit(),
    {
        if !self.dialog.displayed() {
            if let Some((g, i)) = self.selected_item() {
                self.dialog.input = self.group_list.items[g].list.items[i].clone();
                self.dialog.display(DialogState::Edit);
            }
        }
    }

    /// Remove the selected entry of the list in focus and clear its cursor.
    fn delete_selected(&mut self)
        requires
            old(self).wf(),
        ensures
            final(self).wf(),
            final(self)@ == old(self)@.delete_selected(),
    {
        if let Some(index) = self.active_list {
            self.group_list.items[index].list.remove_selected();
            proof {
                let v = old(self)@;
                assert(self.group_list@.items =~= v.delete_selected().groups.items);
            }
        } else {
            self.group_list.remove_selected();
        }
    }

    fn move_in_focus(&mut self, direction: Direction)
        requires
            old(self).wf(),
        ensures
            final(self).wf(),
            final(self)@ == old(self)@.move_in_focus(direction),
    {
        if let Some(index) = self.active_list {
            self.group_list.items[index].list.move_selected_item(direction);
            proof {
                let v = old(self)@;
                assert(self.group_list@.items =~= v.move_in_focus(direction).groups.items);
            }
        } else {
            self.group_list.move_selected_item(direction);
        }
    }

    fn previous_in_focus(&mut self)
        requires
            old(self).wf(),
        ensures
            final(self).wf(),
            final(self)@ == old(self)@.previous_in_focus(),
    {
        if let Some(pos) = self.active_list {
            self.group_list.items[pos].list.previous();
            proof {
                let v = old(self)@;
                assert(self.group_list@.items =~= v.previous_in_focus().groups.items);
            }
        } else {
            self.group_list.previous();
        }
    }

    fn next_in_focus(&mut self)
        requires
            old(self).wf(),
        ensures
            final(self).wf(),
            final(self)@ == old(self)@.next_in_focus(),
    {
        if let Some(pos) = self.active_list {
            self.group_list.items[pos].list.next();
            proof {
                let v = old(self)@;
                assert(self.group_list@.items =~= v.next_in_focus().groups.items);
            }
        } else {
            self.group_list.next();
        }
    }

    /// Leave the group drilled into, clearing its cursor.
    fn drill_out(&mut self)
        requires
            old(self).wf(),
        ensures
            final(self).wf(),
            final(self)@ == old(self)@.drill_out(),
    {
        if let Some(index) = self.active_list {
            self.group_list.items[index].list.select(None);
            self.active_list = None;
            proof {
                let v = old(self)@;
                assert(self.group_list.items@[index as int].list@.items =~= v.list_of(index as int).items);
                assert(self.group_list@.items =~= v.drill_out().groups.items);
            }
        }
    }
    /// Store what the dialog holds, then close it.
    fn commit(&mut self)
        requires
            old(self).wf(),
        ensures
            final(self).wf(),
            final(self)@ == old(self)@.commit(),
    {
        if self.dialog.displayed() {
            if self.dialog.editing() {
                let title = self.dialog.input.title.clone();
                let desc = self.dialog.input.desc.clone();
                if let Some((g, i)) = self.selected_item() {
                    let item = &mut self.group_list.items[g].list.items[i];
                    item.title = title;
                    item.desc = desc;
                    proof {
                        let v = old(self)@;
                        let l = v.list_of(g as int);
                        let d = v.dialog;
                        assert(self.group_list.items@[g as int].list@.items =~= l.items.update(
                            i as int,
                            ItemView { title: d.input.title, desc: d.input.desc, ..l.items[i as int] },
                        ));
                        assert(self.group_list@.items =~= v.commit().groups.items);
                    }
                }
            } else if let Some(index) = self.active_list {
                let input = self.dialog.input.clone();
                self.group_list.items[index].list.add(input);
                proof {
                    let v = old(self)@;
                    assert(self.group_list@.items =~= v.commit().groups.items);
                }
            } else {
                let name = self.dialog.input.title.clone();
                self.group_list.add(GroupList::new(name));
            }
        }
        self.dialog.close_dialog();
    }

    /// Handle one key, with `now` as the current time.
    pub fn event_at(&mut self, key: Key, modi: Modifiers, now: Timestamp)
        requires
            old(self).wf(),
        ensures
            final(self).wf(),
            final(self)@ == old(self)@.step(key, modi, now),
    {
        let control = modi.control && !modi.shift && !modi.alt && !modi.extra;
        let alt = modi.alt && !modi.shift && !modi.control && !modi.extra;
        if self.dialog.displayed() && key != Key::Enter {
            self.dialog.process_input(key, modi);
        } else {
            match key {
                Key::Char('n') if control => {
                    if !self.dialog.displayed() {
                        self.dialog.display(DialogState::New);
                    }
                },
                Key::Char('e') if control => self.open_edit(),
                Key::Char('d') if control => self.delete_selected(),
                Key::Char('s') if alt => self.toggle_start_selected(now),
                Key::Char('d') if alt => self.toggle_end_selected(now),
                Key::Char('p') if alt => self.toggle_pause_selected(),
                Key::Enter => self.commit(),
                Key::Up if control => self.move_in_focus(Direction::Down),
                Key::Down if control => self.move_in_focus(Direction::Up),
                Key::Up => self.previous_in_focus(),
                Key::Down => self.next_in_focus(),
                Key::Right => {
                    if self.active_list.is_none() {
                        self.active_list = self.group_list.selected;
                    }
                },
                Key::Left => self.drill_out(),
                _ => {},
            }
        }
    }

    /// Handle one key; a timing mark it sets takes the current time.
    pub fn event(&mut self, key: Key, modi: Modifiers)
        requires
            old(self).wf(),
        ensures
            final(self).wf(),
            exists|now: Timestamp| final(self)@ == #[trigger] old(self)@.step(key, modi, now),
    {
        let now = now();
        self.event_at(key, modi, now);
    }
    /// Let every running item of every group accrue `ms` milliseconds.
    pub fn add_millis(&mut self, ms: u64)
        requires
            old(self).wf(),
        ensures
            final(self).wf(),
            final(self)@ == old(self)@.after_tick(ms as int),
    {
        let n = self.group_list.items.len();
        let mut g: usize = 0;
        while g < n
            invariant
                n == self.group_list.items.len(),
                0 <= g <= n,
                self.name == old(self).name,
                self.active_list == old(self).active_list,
                self.dialog == old(self).dialog,
                self.group_list.selected == old(self).group_list.selected,
                forall|k: int|
                    0 <= k < g ==> (#[trigger] self.group_list.items@[k])@ == group_after_tick(
                        old(self).group_list.items@[k]@,
                        ms as int,
                    ),
                forall|k: int| g <= k < n ==> self.group_list.items@[k] == old(self).group_list.items@[k],
            decreases n - g,
        {
            group_add_millis(&mut self.group_list.items[g], ms);
            g += 1;
        }
        assert(self.group_list@.items =~= old(self)@.after_tick(ms as int).groups.items);
    }

    /// Let every running item accrue the elapsed `duration`, in whole
    /// milliseconds. A duration too long to count in milliseconds changes
    /// nothing.
    pub fn add_time(&mut self, duration: std::time::Duration)
        requires
            old(self).wf(),
        ensures
            final(self).wf(),
            match millis_of(duration) {
                Some(ms) => final(self)@ == old(self)@.after_tick(ms as int),
                None => final(self)@ == old(self)@,
            },
    {
        if let Some(ms) = duration_millis(duration) {
            self.add_millis(ms as u64);
        }
    }
}

/// Let every running item of `group` accrue `ms` milliseconds.
fn group_add_millis(group: &mut GroupList<Item>, ms: u64)
    ensures
        final(group)@ == group_after_tick(old(group)@, ms as int),
{
    let n = group.list.items.len();
    let mut i: usize = 0;
    while i < n
        invariant
            n == group.list.items.len(),
            0 <= i <= n,
            group.name == old(group).name,
            group.list.selected == old(group).list.selected,
            forall|k: int|
                0 <= k < i ==> (#[trigger] group.list.items@[k])@ == old(group).list.items@[k]@.after_tick(
                    ms as int,
                ),
            forall|k: int| i <= k < n ==> group.list.items@[k] == old(group).list.items@[k],
        decreases n - i,
    {
        group.list.items[i].add_millis(ms);
        i += 1;
    }
    assert(group@.list.items =~= group_after_tick(old(group)@, ms as int).list.items);
}

/// Group names and entries of a list of groups, without any cursor.
pub open spec fn content(groups: Seq<GroupView<ItemView>>) -> Seq<(Seq<char>, Seq<ItemView>)> {
    groups.map_values(|g: GroupView<ItemView>| (g.name, g.list.items))
}

proof fn lemma_app_tick_sequence_at(app: AppView, ticks: Seq<int>, g: int, i: int)
    requires
        0 <= g < app.groups.len(),
        0 <= i < app.list_of(g).len(),
    ensures
        app.after_ticks(ticks).groups.len() == app.groups.len(),
        app.after_ticks(ticks).list_of(g).len() == app.list_of(g).len(),
        app.after_ticks(ticks).list_of(g).items[i] == app.list_of(g).items[i].after_ticks(ticks),
    decreases ticks.len(),
{
    if ticks.len() > 0 {
        lemma_app_tick_sequence_at(app.after_tick(ticks[0]), ticks.drop_first(), g, i);
    }
}

/// Over any sequence of ticks, each running item of the session accrues
/// exactly their sum (as long as that stays within `i64`), and every other
/// item is left as it was.
pub proof fn lemma_session_tick_sequence(app: AppView, ticks: Seq<int>, g: int, i: int)
    requires
        0 <= g < app.groups.len(),
        0 <= i < app.list_of(g).len(),
        forall|k: int| 0 <= k < ticks.len() ==> ticks[k] >= 0,
        app.list_of(g).items[i].duration + total(ticks) <= i64::MAX,
    ensures
        app.after_ticks(ticks).groups.len() == app.groups.len(),
        app.after_ticks(ticks).list_of(g).len() == app.list_of(g).len(),
        app.list_of(g).items[i].is_running() ==> app.after_ticks(ticks).list_of(g).items[i] == (ItemView {
            duration: app.list_of(g).items[i].duration + total(ticks),
            ..app.list_of(g).items[i]
        }),
        !app.list_of(g).items[i].is_running() ==> app.after_ticks(ticks).list_of(g).items[i]
            == app.list_of(g).items[i],
{
    lemma_app_tick_sequence_at(app, ticks, g, i);
    lemma_tick_sequence(app.list_of(g).items[i], ticks);
}

/// Alt-s on a selected item that is already started restarts it: its
/// accumulated time is zero and its start and end marks are cleared.
pub proof fn lemma_restart_selected(app: AppView, now: Timestamp)
    requires
        app.wf(),
        !app.dialog.displayed(),
        app.selected_item() is Some,
        app.list_of(app.selected_item().unwrap().0).items[app.selected_item().unwrap().1].is_started(),
    ensures
        ({
            let (g, i) = app.selected_item().unwrap();
            let after = app.step(Key::Char('s'), Modifiers { shift: false, control: false, alt: true, extra: false }, now);
            &&& after.list_of(g).items[i].duration == 0
            &&& after.list_of(g).items[i].end_at is None
            &&& after.list_of(g).items[i].start_at is None
        }),
{
    let (g, i) = app.selected_item().unwrap();
    lemma_restart(app.list_of(g).items[i], now);
}

/// Ctrl-d with the dialog closed always leaves the list in focus without a
/// selection, whichever entry was removed.
pub proof fn lemma_delete_clears_selection(app: AppView)
    requires
        app.wf(),
        !app.dialog.displayed(),
    ensures
        ({
            let after = app.step(Key::Char('d'), Modifiers { shift: false, control: true, alt: false, extra: false }, Timestamp { millis: 0 });
            match app.active {
                Some(g) => after.list_of(g).selected is None,
                None => after.groups.selected is None,
            }
        }),
{
}

/// Restoring saved groups keeps the title, the group names and every item,
/// in order, and starts with no cursor anywhere, nothing drilled into and
/// the dialog closed.
pub proof fn lemma_restore_keeps_content(app: AppView)
    requires
        app.wf(),
    ensures
        ({
            let r = AppView::restored(app.name, app.groups.items);
            &&& r.wf()
            &&& r.name == app.name
            &&& content(r.groups.items) == content(app.groups.items)
            &&& r.groups.selected is None
            &&& forall|g: int| 0 <= g < r.groups.len() ==> (#[trigger] r.groups.items[g]).list.selected is None
            &&& r.active is None
            &&& r.dialog == DialogView::closed()
        }),
{
    let r = AppView::restored(app.name, app.groups.items);
    assert(content(r.groups.items) =~= content(app.groups.items));
}

} // verus!