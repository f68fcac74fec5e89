use vstd::prelude::*;

verus! {

/// A selectable item in a `Menu`.
#[derive(Debug, PartialEq)]
pub struct MenuItem<T> {
    pub label: &'static str,
    pub event: T,
}

impl<T> MenuItem<T> {
    pub fn new(label: &'static str, event: T) -> (r: Self)
        ensures
            r.label == label,
            r.event == event,
    {
        MenuItem { label, event }
    }
}

/// A user menu: a list of items and the index of the selected one.
#[derive(Debug, PartialEq)]
pub struct Menu<T> {
    selection: usize,
    pub menu_items: Vec<MenuItem<T>>,
}

impl<T> Menu<T> {
    /// The items, in order.
    pub closed spec fn items(&self) -> Seq<MenuItem<T>> {
        self.menu_items@
    }

    /// The index of the selected item.
    pub closed spec fn sel(&self) -> usize {
        self.selection
    }

    /// Inputs on which moving the selection is defined.
    pub open spec fn movable(&self) -> bool {
        0 < self.items().len() <= i32::MAX && self.sel() < i32::MAX
    }

    /// A menu of `menu_items` with the first one selected.
    pub fn new(menu_items: Vec<MenuItem<T>>) -> (r: Self)
        ensures
            r.items() == menu_items@,
            r.sel() == 0,
    {
        Menu { menu_items, selection: 0 }
    }

    /// The index of the selected item.
    pub fn selection(&self) -> (r: usize)
        ensures
            r == self.sel(),
    {
        self.selection
    }

    /// Moves the selection by `change`: the sum is reduced modulo the number of
    /// items, and a negative result becomes 0.
    fn update_selection(&mut self, change: i32)
        requires
            old(self).movable(),
        ensures
            final(self).items() == old(self).items(),
            final(self).sel() == (if change + old(self).sel() >= 0 {
                ((change + old(self).sel()) % (old(self).items().len() as int)) as usize
            } else {
                0usize
            }),
    {
        let i: i64 = change as i64 + self.selection as i64;
        if i >= 0 {
            let n = self.menu_items.len() as u64;
            let r = (i as u64) % n;
            assert(r < n);
            self.selection = r as usize;
        } else {
            self.selection = 0;
        }
    }

    /// Selects the next item, wrapping round to the first.
    pub fn inc_selection(&mut self)
        requires
            old(self).movable(),
        ensures
            final(self).items() == old(self).items(),
            final(self).sel() == (old(self).sel() + 1) % (old(self).items().len() as int),
    {
        self.update_selection(1);
    }

    /// Selects the previous item, staying on the first.
    pub fn dec_selection(&mut self)
        requires
            old(self).movable(),
        ensures
            final(self).items() == old(self).items(),
            final(self).sel() == (if old(self).sel() == 0 {
                0
            } else {
                (old(self).sel() - 1) % (old(self).items().len() as int)
            }),
    {
        self.update_selection(-1);
    }

    /// The event of the selected item.
    pub fn select_item(&self) -> (r: &T)
        requires
            self.sel() < self.items().len(),
        ensures
            *r == self.items()[self.sel() as int].event,
    {
        &self.menu_items[self.selection].event
    }
}

} // verus!
