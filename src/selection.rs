use vstd::prelude::*;

verus! {

/// The cursor after one step forward over `n` items, wrapping from the last
/// index to the first.
pub open spec fn step_forward(c: Option<int>, n: int) -> Option<int> {
    match c {
        None => None,
        Some(i) => Some(if i + 1 >= n { 0 } else { i + 1 }),
    }
}

/// The cursor after one step back over `n` items, wrapping from the first
/// index to the last.
pub open spec fn step_back(c: Option<int>, n: int) -> Option<int> {
    match c {
        None => None,
        Some(i) => Some(if i == 0 { n - 1 } else { i - 1 }),
    }
}

/// The cursor after `k` steps forward.
pub open spec fn steps_forward(c: Option<int>, n: int, k: nat) -> Option<int>
    decreases k,
{
    if k == 0 {
        c
    } else {
        step_forward(steps_forward(c, n, (k - 1) as nat), n)
    }
}

/// A cursor that is absent exactly when there are no items, and otherwise
/// points at one of the `n` items.
pub open spec fn cursor_valid(c: Option<int>, n: int) -> bool {
    match c {
        None => n == 0,
        Some(i) => 0 <= i < n,
    }
}

/// An ordered sequence of items with at most one of them highlighted.
pub struct StatefulList<T> {
    items: Vec<T>,
    selected: Option<usize>,
}

impl<T> StatefulList<T> {
    /// The items, in order.
    pub closed spec fn entries(&self) -> Seq<T> {
        self.items@
    }

    /// The index of the highlighted item.
    pub closed spec fn cursor(&self) -> Option<int> {
        match self.selected {
            None => None,
            Some(i) => Some(i as int),
        }
    }

    pub open spec fn wf(&self) -> bool {
        cursor_valid(self.cursor(), self.entries().len() as int)
    }

    /// Highlights the first item, if there is one.
    pub fn with_items(items: Vec<T>) -> (r: StatefulList<T>)
        ensures
            r.wf(),
            r.entries() == items@,
            r.entries().len() <= usize::MAX,
            r.cursor() == (if items@.len() == 0 { None::<int> } else { Some(0int) }),
    {
        let empty = items.len() == 0;
        StatefulList { items, selected: if empty { None } else { Some(0) } }
    }

    /// Moves the highlight one item forward, from the last item to the first.
    pub fn next(&mut self)
        requires
            old(self).wf(),
        ensures
            final(self).wf(),
            final(self).entries() == old(self).entries(),
            final(self).cursor() == step_forward(old(self).cursor(), old(self).entries().len() as int),
            old(self).entries().len() == 0 ==> final(self).cursor() is None,
    {
        if let Some(i) = self.selected {
            self.selected = Some(if i >= self.items.len() - 1 { 0 } else { i + 1 });
        }
    }

    /// Moves the highlight one item back, from the first item to the last.
    pub fn previous(&mut self)
        requires
            old(self).wf(),
        ensures
            final(self).wf(),
            final(self).entries() == old(self).entries(),
            final(self).cursor() == step_back(old(self).cursor(), old(self).entries().len() as int),
            old(self).entries().len() == 0 ==> final(self).cursor() is None,
    {
        if let Some(i) = self.selected {
            self.selected = Some(if i == 0 { self.items.len() - 1 } else { i - 1 });
        }
    }

    /// The index of the highlighted item.
    pub fn selected_index(&self) -> (r: Option<usize>)
        ensures
            match r {
                None => self.cursor() is None,
                Some(i) => self.cursor() == Some(i as int),
            },
    {
        self.selected
    }

    /// The number of items.
    pub fn len(&self) -> (r: usize)
        ensures
            r == self.entries().len(),
    {
        self.items.len()
    }

    /// The item at index `i`.
    pub fn item(&self, i: usize) -> (r: &T)
        requires
            i < self.entries().len(),
        ensures
            *r == self.entries()[i as int],
    {
        &self.items[i]
    }

    /// All items, in order.
    pub fn items(&self) -> (r: &Vec<T>)
        ensures
            r@ == self.entries(),
    {
        &self.items
    }
}

impl<T: Clone> StatefulList<T> {
    /// A clone of the highlighted item.
    pub fn selected(&self) -> (r: Option<T>)
        requires
            self.wf(),
        ensures
            self.entries().len() == 0 ==> r is None,
            match self.cursor() {
                None => r is None,
                Some(i) => r is Some && cloned(self.entries()[i], r->Some_0),
            },
    {
        match self.selected {
            None => None,
            Some(i) => Some(self.items[i].clone()),
        }
    }
}

/// Going `a` steps forward and then `b` more is going `a + b` steps.
pub proof fn lemma_steps_add(c: Option<int>, n: int, a: nat, b: nat)
    ensures
        steps_forward(steps_forward(c, n, a), n, b) == steps_forward(c, n, a + b),
    decreases b,
{
    if b > 0 {
        lemma_steps_add(c, n, a, (b - 1) as nat);
        assert(steps_forward(c, n, a + b) == step_forward(steps_forward(c, n, (a + b - 1) as nat), n));
    }
}

/// Below the last item, `k` steps forward move the cursor by `k`.
proof fn lemma_steps_no_wrap(i: int, n: int, k: nat)
    requires
        0 <= i,
        i + k < n,
    ensures
        steps_forward(Some(i), n, k) == Some(i + k),
    decreases k,
{
    if k > 0 {
        lemma_steps_no_wrap(i, n, (k - 1) as nat);
    }
}

/// On a non-empty list, a step forward followed by a step back, or a step back
/// followed by a step forward, leaves the highlight where it was.
pub proof fn lemma_next_previous_inverse<T>(l: StatefulList<T>)
    requires
        l.wf(),
        l.entries().len() > 0,
    ensures
        step_back(step_forward(l.cursor(), l.entries().len() as int), l.entries().len() as int)
            == l.cursor(),
        step_forward(step_back(l.cursor(), l.entries().len() as int), l.entries().len() as int)
            == l.cursor(),
{
}

/// On a list of `n >= 1` items, `n` steps forward bring the highlight back to
/// where it started.
pub proof fn lemma_full_cycle<T>(l: StatefulList<T>)
    requires
        l.wf(),
        l.entries().len() > 0,
    ensures
        steps_forward(l.cursor(), l.entries().len() as int, l.entries().len()) == l.cursor(),
{
    let n = l.entries().len() as int;
    let i = l.cursor()->Some_0;
    let a = (n - 1 - i) as nat;
    lemma_steps_no_wrap(i, n, a);
    lemma_steps_add(l.cursor(), n, a, 1);
    assert(steps_forward(Some(n - 1), n, 1) == Some(0int));
    lemma_steps_no_wrap(0, n, i as nat);
    lemma_steps_add(l.cursor(), n, a + 1, i as nat);
}

} // verus!
