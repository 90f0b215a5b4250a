use vstd::arithmetic::div_mod::{lemma_add_mod_noop, lemma_add_mod_noop_right, lemma_mod_self_0, lemma_small_mod};
use vstd::prelude::*;

verus! {

/// Direction of a reorder step. `Down` moves the selected element towards
/// the front of the list, `Up` towards the back; both wrap at the ends.
pub enum Direction {
    Up,
    Down,
}

/// Abstract state of a selectable list: its elements, in display order, and
/// the cursor.
pub struct ListView<V> {
    pub items: Seq<V>,
    pub selected: Option<int>,
}

/// Index reached by one step forward from `i` in a list of length `len`.
pub open spec fn forward(i: int, len: int) -> int {
    if i + 1 >= len {
        0
    } else {
        i + 1
    }
}

/// Index reached by one step backward from `i` in a list of length `len`.
pub open spec fn backward(i: int, len: int) -> int {
    if i == 0 {
        len - 1
    } else {
        i - 1
    }
}

impl<V> ListView<V> {
    pub open spec fn len(self) -> int {
        self.items.len() as int
    }

    /// The cursor, when set, points at an element.
    pub open spec fn wf(self) -> bool {
        match self.selected {
            Some(i) => 0 <= i < self.len(),
            None => true,
        }
    }

    pub open spec fn with_selected(self, selected: Option<int>) -> ListView<V> {
        ListView { items: self.items, selected }
    }

    pub open spec fn next(self) -> ListView<V> {
        if self.len() == 0 {
            self
        } else {
            match self.selected {
                Some(i) => self.with_selected(Some(forward(i, self.len()))),
                None => self.with_selected(Some(0)),
            }
        }
    }

    pub open spec fn previous(self) -> ListView<V> {
        if self.len() == 0 {
            self
        } else {
            match self.selected {
                Some(i) => self.with_selected(Some(backward(i, self.len()))),
                None => self.with_selected(Some(0)),
            }
        }
    }

    /// `next` applied `k` times.
    pub open spec fn next_n(self, k: nat) -> ListView<V>
        decreases k,
    {
        if k == 0 {
            self
        } else {
            self.next_n((k - 1) as nat).next()
        }
    }

    /// `previous` applied `k` times.
    pub open spec fn previous_n(self, k: nat) -> ListView<V>
        decreases k,
    {
        if k == 0 {
            self
        } else {
            self.previous_n((k - 1) as nat).previous()
        }
    }

    pub open spec fn push(self, v: V) -> ListView<V> {
        ListView { items: self.items.push(v), selected: self.selected }
    }

    /// Position that the selected element at `i` is swapped with.
    pub open spec fn move_target(self, i: int, direction: Direction) -> int {
        match direction {
            Direction::Down => backward(i, self.len()),
            Direction::Up => forward(i, self.len()),
        }
    }

    /// Swap the selected element with its neighbour in `direction`, wrapping
    /// at the ends, and let the cursor follow it.
    pub open spec fn move_selected(self, direction: Direction) -> ListView<V> {
        match self.selected {
            Some(i) => {
                let t = self.move_target(i, direction);
                ListView {
                    items: self.items.update(i, self.items[t]).update(t, self.items[i]),
                    selected: Some(t),
                }
            },
            None => self,
        }
    }

    /// Drop the selected element, if any, and clear the cursor.
    pub open spec fn remove_selected(self) -> ListView<V> {
        match self.selected {
            Some(i) => ListView { items: self.items.remove(i), selected: None },
            None => self,
        }
    }
}

/// After `k` forward steps from position `i` the cursor is at `(i + k) % len`.
proof fn lemma_next_n_position<V>(l: ListView<V>, k: nat)
    requires
        l.wf(),
        l.len() > 0,
        l.selected is Some,
    ensures
        l.next_n(k) == l.with_selected(Some((l.selected.unwrap() + k) % l.len())),
    decreases k,
{
    let n = l.len();
    let i = l.selected.unwrap();
    if k == 0 {
        lemma_small_mod(i as nat, n as nat);
    } else {
        lemma_next_n_position(l, (k - 1) as nat);
        let x = (i + k - 1) % n;
        lemma_add_mod_noop_right(1, i + k - 1, n);
        if x + 1 < n {
            lemma_small_mod((x + 1) as nat, n as nat);
        } else {
            lemma_mod_self_0(n);
        }
    }
}

/// After `k` backward steps from position `i` the cursor is at
/// `(i + len - k % len) % len`.
proof fn lemma_previous_n_position<V>(l: ListView<V>, k: nat)
    requires
        l.wf(),
        l.len() > 0,
        l.selected is Some,
        k <= l.len(),
    ensures
        l.previous_n(k) == l.with_selected(Some((l.selected.unwrap() + l.len() - k) % l.len())),
    decreases k,
{
    let n = l.len();
    let i = l.selected.unwrap();
    if k == 0 {
        lemma_add_mod_noop(i, n, n);
        lemma_mod_self_0(n);
        lemma_small_mod(i as nat, n as nat);
    } else {
        lemma_previous_n_position(l, (k - 1) as nat);
        let y = i + n - k;
        let x = (y + 1) % n;
        if y + 1 < n {
            lemma_small_mod((y + 1) as nat, n as nat);
            lemma_small_mod(y as nat, n as nat);
        } else {
            lemma_add_mod_noop(y + 1 - n, n, n);
            lemma_mod_self_0(n);
            lemma_small_mod((y + 1 - n) as nat, n as nat);
            if y >= n {
                lemma_add_mod_noop(y - n, n, n);
                lemma_small_mod((y - n) as nat, n as nat);
            } else {
                lemma_small_mod(y as nat, n as nat);
            }
        }
    }
}

/// On a non-empty list with a selection, stepping forward as many times as
/// the list is long brings the cursor back to where it started, and so does
/// stepping backward as many times.
pub proof fn lemma_full_cycle<V>(l: ListView<V>)
    requires
        l.wf(),
        l.len() > 0,
        l.selected is Some,
    ensures
        l.next_n(l.len() as nat) == l,
        l.previous_n(l.len() as nat) == l,
{
    let n = l.len();
    let i = l.selected.unwrap();
    lemma_next_n_position(l, n as nat);
    lemma_previous_n_position(l, n as nat);
    lemma_add_mod_noop(i, n, n);
    lemma_mod_self_0(n);
    lemma_small_mod(i as nat, n as nat);
}

/// Stepping either way through an empty list changes nothing, and the
/// cursor stays unset.
pub proof fn lemma_empty_navigation<V>(l: ListView<V>)
    requires
        l.wf(),
        l.len() == 0,
    ensures
        l.next() == l,
        l.previous() == l,
        l.next().selected is None,
        l.previous().selected is None,
{
}

/// In a list of two elements, a reorder step in either direction exchanges
/// the two elements, and the cursor follows the moved element to the other
/// position.
pub proof fn lemma_move_in_pair<V>(l: ListView<V>, direction: Direction)
    requires
        l.wf(),
        l.len() == 2,
        l.selected is Some,
    ensures
        l.move_selected(direction).items == seq![l.items[1], l.items[0]],
        l.move_selected(direction).selected == Some(1 - l.selected.unwrap()),
        l.move_selected(direction).items[1 - l.selected.unwrap()] == l.items[l.selected.unwrap()],
{
    let m = l.move_selected(direction);
    assert(m.items =~= seq![l.items[1], l.items[0]]);
}

/// An ordered list with at most one selected position.
pub struct StatefulList<T> {
    pub selected: Option<usize>,
    pub items: Vec<T>,
}

impl<T: View> View for StatefulList<T> {
    type V = ListView<T::V>;

    open spec fn view(&self) -> ListView<T::V> {
        ListView {
            items: self.items@.map_values(|t: T| t@),
            selected: match self.selected {
                Some(i) => Some(i as int),
                None => None,
            },
        }
    }
}

impl<T: View> StatefulList<T> {
    pub open spec fn wf(&self) -> bool {
        self@.wf()
    }

    pub fn new() -> (r: StatefulList<T>)
        ensures
            r.wf(),
            r@.items == Seq::<T::V>::empty(),
            r@.selected is None,
    {
        let r = StatefulList { selected: None, items: Vec::new() };
        assert(r@.items =~= Seq::<T::V>::empty());
        r
    }

    pub fn selected(&self) -> (r: Option<usize>)
        ensures
            r == self.selected,
    {
        self.selected
    }

    pub fn select(&mut self, index: Option<usize>)
        requires
            index matches Some(i) ==> i < old(self).items@.len(),
        ensures
            final(self).wf(),
            final(self).selected == index,
            final(self).items == old(self).items,
    {
        self.selected = index;
    }

    pub fn next(&mut self)
        requires
            old(self).wf(),
        ensures
            final(self).wf(),
            final(self)@ == old(self)@.next(),
            final(self).items == old(self).items,
    {
        let len = self.items.len();
        if len == 0 {
            return;
        }
        let i: usize = match self.selected {
            Some(i) => if i >= len - 1 {
                0
            } else {
                i + 1
            },
            None => 0,
        };
        self.selected = Some(i);
    }

    pub fn previous(&mut self)
        requires
            old(self).wf(),
        ensures
            final(self).wf(),
            final(self)@ == old(self)@.previous(),
            final(self).items == old(self).items,
    {
        let len = self.items.len();
        if len == 0 {
            return;
        }
        let i: usize = match self.selected {
            Some(i) => if i == 0 {
                len - 1
            } else {
                i - 1
            },
            None => 0,
        };
        self.selected = Some(i);
    }

    pub fn add(&mut self, item: T)
        requires
            old(self).wf(),
        ensures
            final(self).wf(),
            final(self)@ == old(self)@.push(item@),
            final(self).items@ == old(self).items@.push(item),
    {
        self.items.push(item);
        assert(self@.items =~= old(self)@.items.push(item@));
    }

    pub fn move_selected_item(&mut self, direction: Direction)
        requires
            old(self).wf(),
        ensures
            final(self).wf(),
            final(self)@ == old(self)@.move_selected(direction),
            old(self).selected matches Some(i) ==> final(self).items@ == old(self).items@.update(
                i as int,
                old(self).items@[old(self)@.move_target(i as int, direction)],
            ).update(old(self)@.move_target(i as int, direction), old(self).items@[i as int]),
            old(self).selected is None ==> final(self).items@ == old(self).items@,
    {
        if let Some(index) = self.selected {
            let len = self.items.len();
            match direction {
                Direction::Down => {
                    let target = if index == 0 {
                        len - 1
                    } else {
                        index - 1
                    };
                    swap_items(&mut self.items, index, target);
                    self.previous();
                },
                Direction::Up => {
                    let target = if index == len - 1 {
                        0
                    } else {
                        index + 1
                    };
                    swap_items(&mut self.items, index, target);
                    self.next();
                },
            }
            let ghost t = old(self)@.move_target(index as int, direction);
            assert(self@.items =~= old(self)@.items.update(index as int, old(self)@.items[t]).update(
                t,
                old(self)@.items[index as int],
            ));
        }
    }

    /// Remove the selected element, if any, and clear the selection.
    pub fn remove_selected(&mut self)
        requires
            old(self).wf(),
        ensures
            final(self).wf(),
            final(self)@ == old(self)@.remove_selected(),
            old(self).selected matches Some(i) ==> final(self).items@ == old(self).items@.remove(i as int),
            old(self).selected is None ==> final(self).items@ == old(self).items@,
    {
        if let Some(index) = self.selected {
            self.items.remove(index);
            self.selected = None;
            assert(self@.items =~= old(self)@.items.remove(index as int));
        }
    }
}

/// Exchange the elements at `i` and `j`.
fn swap_items<T>(v: &mut Vec<T>, i: usize, j: usize)
    requires
        i < old(v)@.len(),
        j < old(v)@.len(),
    ensures
        final(v)@ == old(v)@.update(i as int, old(v)@[j as int]).update(j as int, old(v)@[i as int]),
{
    if i == j {
        assert(v@ =~= old(v)@.update(i as int, old(v)@[j as int]).update(j as int, old(v)@[i as int]));
        return;
    }
    let (lo, hi) = if i < j {
        (i, j)
    } else {
        (j, i)
    };
    let b = v.remove(hi);
    let a = v.remove(lo);
    v.insert(lo, b);
    v.insert(hi, a);
    assert(v@ =~= old(v)@.update(i as int, old(v)@[j as int]).update(j as int, old(v)@[i as int]));
}

} // verus!
