//! Reusable move lists: a growable list of actions with swap-removal, and
//! a stack of such lists, one per search depth, so that recursion levels
//! never alias each other's scratch space.
use crate::action::Action;
use vstd::prelude::*;

verus! {

/// The most actions any position can have: five piece kinds on each of the
/// 91 board cells.
pub const MAX_ACTIONS: usize = 455;

/// A list of actions; the backing store is reused across searches.
#[derive(Clone)]
pub struct ActionList {
    actions: Vec<Action>,
}

impl View for ActionList {
    type V = Seq<Action>;

    closed spec fn view(&self) -> Seq<Action> {
        self.actions@
    }
}

impl ActionList {
    /// An empty action list.
    pub fn new() -> (r: ActionList)
        ensures
            r@ == Seq::<Action>::empty(),
    {
        ActionList { actions: Vec::new() }
    }

    /// How many actions the list holds.
    pub fn size(&self) -> (r: usize)
        ensures
            r == self@.len(),
    {
        self.actions.len()
    }

    /// The action at `index`.
    pub fn get(&self, index: usize) -> (r: Action)
        requires
            index < self@.len(),
        ensures
            r == self@[index as int],
    {
        self.actions[index]
    }

    /// The position of `action` in the list, when it is there.
    pub fn find_action(&self, action: Action) -> (r: Option<usize>)
        ensures
            match r {
                Some(i) => i < self@.len() && self@[i as int] == action,
                None => !self@.contains(action),
            },
    {
        let n = self.actions.len();
        let mut i: usize = 0;
        while i < n
            invariant
                0 <= i <= n == self@.len(),
                forall|j: int| 0 <= j < i ==> self@[j] != action,
            decreases n - i,
        {
            if self.actions[i] == action {
                return Some(i);
            }
            i = i + 1;
        }
        proof {
            assert(forall|j: int| 0 <= j < self@.len() ==> self@[j] != action);
        }
        None
    }

    /// Whether `action` is in the list.
    pub fn contains_action(&self, action: Action) -> (r: bool)
        ensures
            r == self@.contains(action),
    {
        self.find_action(action).is_some()
    }

    /// Replaces the action at `index`.
    pub fn overwrite(&mut self, index: usize, action: Action)
        requires
            index < old(self)@.len(),
        ensures
            final(self)@ == old(self)@.update(index as int, action),
    {
        self.actions[index] = action;
    }

    /// Removes `action` by swapping the last action into its place.
    pub fn remove(&mut self, action: Action)
        requires
            old(self)@.contains(action),
        ensures
            final(self)@.len() == old(self)@.len() - 1,
            final(self)@.to_multiset() == old(self)@.to_multiset().remove(action),
    {
        let i = match self.find_action(action) {
            Some(i) => i,
            None => {
                proof {
                    assert(false);
                }
                0
            },
        };
        self.remove_index(i);
        proof {
            assert(old(self)@[i as int] == action);
        }
    }

    /// Removes the action at `index` by swapping the last action into its
    /// place; the order of the rest is not kept.
    pub fn remove_index(&mut self, index: usize)
        requires
            index < old(self)@.len(),
        ensures
            final(self)@.len() == old(self)@.len() - 1,
            final(self)@.to_multiset() == old(self)@.to_multiset().remove(
                old(self)@[index as int],
            ),
    {
        let last = self.actions.len() - 1;
        let x = self.actions[last];
        let y = self.actions[index];
        self.actions[index] = x;
        self.actions[last] = y;
        self.actions.pop();
        proof {
            broadcast use
                vstd::seq_lib::to_multiset_update,
                vstd::seq_lib::to_multiset_remove,
                vstd::seq_lib::to_multiset_contains,
                vstd::multiset::group_multiset_axioms,
                vstd::multiset::group_multiset_properties;

            let before = old(self)@;
            let ll = before.len() - 1;
            let removed = before[index as int];
            assert(self@ =~= before.update(index as int, before[ll]).remove(ll));
            if index as int == ll {
                assert(before.update(index as int, before[ll]) =~= before);
            } else {
                assert(before.update(index as int, before[ll]).to_multiset()
                    == before.to_multiset().insert(before[ll]).remove(removed));
                assert(before.update(index as int, before[ll])[ll] == before[ll]);
                assert(self@.to_multiset() =~= before.to_multiset().remove(removed));
            }
        }
    }

    /// Swaps the actions at `a` and `b`.
    pub fn swap(&mut self, a: usize, b: usize)
        requires
            a < old(self)@.len(),
            b < old(self)@.len(),
        ensures
            final(self)@ == old(self)@.update(a as int, old(self)@[b as int]).update(
                b as int,
                old(self)@[a as int],
            ),
    {
        let x = self.actions[a];
        let y = self.actions[b];
        self.actions[a] = y;
        self.actions[b] = x;
        proof {
            assert(self@ =~= old(self)@.update(a as int, old(self)@[b as int]).update(
                b as int,
                old(self)@[a as int],
            ));
        }
    }

    /// Whether `index` is a filled slot of the list.
    pub fn has_action(&self, index: usize) -> (r: bool)
        ensures
            r == (index < self@.len()),
    {
        index < self.actions.len()
    }

    /// Appends an action.
    pub fn push(&mut self, action: Action)
        ensures
            final(self)@ == old(self)@.push(action),
    {
        self.actions.push(action);
    }

    /// Empties the list, keeping its backing store.
    pub fn clear(&mut self)
        ensures
            final(self)@ == Seq::<Action>::empty(),
    {
        self.actions.truncate(0);
        proof {
            assert(self@ =~= Seq::<Action>::empty());
        }
    }

    /// Makes this list hold the same actions as `other`.
    pub fn copy_from(&mut self, other: &ActionList)
        ensures
            final(self)@ == other@,
    {
        self.actions.truncate(0);
        let n = other.actions.len();
        let mut i: usize = 0;
        while i < n
            invariant
                0 <= i <= n == other@.len(),
                self@ == other@.take(i as int),
            decreases n - i,
        {
            self.actions.push(other.actions[i]);
            proof {
                assert(self@ =~= other@.take(i as int + 1));
            }
            i = i + 1;
        }
        proof {
            assert(other@.take(n as int) =~= other@);
        }
    }
}

impl Default for ActionList {
    fn default() -> (r: ActionList)
        ensures
            r@ == Seq::<Action>::empty(),
    {
        ActionList::new()
    }
}

/// One action list per search depth.
pub struct ActionListStack {
    lists: Vec<ActionList>,
}

impl View for ActionListStack {
    type V = Seq<Seq<Action>>;

    closed spec fn view(&self) -> Seq<Seq<Action>> {
        self.lists@.map_values(|l: ActionList| l@)
    }
}

impl ActionListStack {
    /// A stack of `size` empty action lists.
    pub fn with_size(size: usize) -> (r: ActionListStack)
        ensures
            r@.len() == size,
            forall|i: int| 0 <= i < size ==> #[trigger] r@[i] == Seq::<Action>::empty(),
    {
        let mut lists: Vec<ActionList> = Vec::new();
        let mut i: usize = 0;
        while i < size
            invariant
                0 <= i <= size,
                lists@.len() == i,
                forall|j: int| 0 <= j < i ==> #[trigger] lists@[j]@ == Seq::<Action>::empty(),
            decreases size - i,
        {
            lists.push(ActionList::new());
            i = i + 1;
        }
        ActionListStack { lists }
    }

    /// How many levels the stack holds.
    pub fn len(&self) -> (r: usize)
        ensures
            r == self@.len(),
    {
        self.lists.len()
    }

    /// A borrow of the list at `level`.
    pub fn level(&self, level: usize) -> (r: &ActionList)
        requires
            level < self@.len(),
        ensures
            r@ == self@[level as int],
    {
        &self.lists[level]
    }

    /// Takes the list at `level` out, leaving an empty one there.
    pub fn take_level(&mut self, level: usize) -> (r: ActionList)
        requires
            level < old(self)@.len(),
        ensures
            r@ == old(self)@[level as int],
            final(self)@ == old(self)@.update(level as int, Seq::<Action>::empty()),
    {
        let mut tmp = ActionList::new();
        let slot = &mut self.lists[level];
        core::mem::swap(&mut tmp, slot);
        proof {
            assert(final(self)@ =~~= old(self)@.update(level as int, Seq::<Action>::empty()));
        }
        tmp
    }

    /// Puts `list` back at `level`.
    pub fn put_level(&mut self, level: usize, list: ActionList)
        requires
            level < old(self)@.len(),
        ensures
            final(self)@ == old(self)@.update(level as int, list@),
    {
        let slot = &mut self.lists[level];
        *slot = list;
        proof {
            assert(final(self)@ =~~= old(self)@.update(level as int, list@));
        }
    }
}

} // verus!
