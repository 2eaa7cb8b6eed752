use vstd::prelude::*;

verus! {

/// The state of the cell: a slot that, at every instant, is in exactly one of
/// two states — Empty (`None`) or Full with exactly one value (`Some`).
///
/// Every operation of the cell boils down to one of the transitions below,
/// performed while the cell's lock is held; the slot itself is sequential and
/// fully verified.
pub struct Slot<T> {
    value: Option<T>,
}

impl<T> View for Slot<T> {
    type V = Option<T>;

    closed spec fn view(&self) -> Option<T> {
        self.value
    }
}

/// What taking does to a slot: the slot is left Empty, and the taker receives
/// exactly what the slot held — the value if it was Full, nothing if it was
/// already Empty.
pub open spec fn take_transition<T>(s: Option<T>) -> (Option<T>, Option<T>) {
    (None, s)
}

/// What a non-blocking put does to a slot: an Empty slot accepts the value
/// and reports success; a Full slot declines, keeps what it holds, and the
/// offered value is not stored.
pub open spec fn put_transition<T>(s: Option<T>, v: T) -> (Option<T>, bool) {
    match s {
        None => (Some(v), true),
        Some(w) => (Some(w), false),
    }
}

/// What a swap does once it goes through: the new value goes in, the old
/// contents come out, and the slot ends Full — never Empty.
pub open spec fn swap_transition<T>(s: Option<T>, v: T) -> (Option<T>, Option<T>) {
    (Some(v), s)
}

/// What a read may hand back: nothing from an Empty slot, and from a Full
/// slot a duplicate of the held value, as `T`'s own `clone` produces it.
pub open spec fn read_transition<T: Clone>(s: Option<T>, r: Option<T>) -> bool {
    match s {
        None => r is None,
        Some(v) => r matches Some(c) && cloned::<T>(v, c),
    }
}

impl<T> Slot<T> {
    /// A slot in the Empty state.
    pub fn empty() -> (s: Self)
        ensures
            s@ is None,
    {
        Slot { value: None }
    }

    /// A slot in the Full state, holding `value`.
    pub fn full(value: T) -> (s: Self)
        ensures
            s@ == Some(value),
    {
        Slot { value: Some(value) }
    }

    /// Whether the slot is Empty.
    pub fn is_empty(&self) -> (r: bool)
        ensures
            r == (self@ is None),
    {
        self.value.is_none()
    }

    /// Whether the slot is Full.
    pub fn is_full(&self) -> (r: bool)
        ensures
            r == (self@ is Some),
    {
        self.value.is_some()
    }

    /// Removes the contents, leaving the slot Empty: the consuming step of
    /// `take` and `try_take`.
    pub fn take_value(&mut self) -> (r: Option<T>)
        ensures
            (final(self)@, r) == take_transition(old(self)@),
    {
        self.value.take()
    }

    /// Stores `value` if the slot is Empty and reports whether it did: the
    /// step of `put` and `try_put`. A Full slot is left untouched and the
    /// offered value is dropped, not stored.
    pub fn fill(&mut self, value: T) -> (r: bool)
        ensures
            (final(self)@, r) == put_transition(old(self)@, value),
    {
        if self.value.is_some() {
            false
        } else {
            self.value = Some(value);
            true
        }
    }

    /// Stores `value` and returns the previous contents in one step: the
    /// filling half of `swap`. The slot ends Full whatever it held before.
    pub fn replace_value(&mut self, value: T) -> (r: Option<T>)
        ensures
            (final(self)@, r) == swap_transition(old(self)@, value),
    {
        let r = self.value.take();
        self.value = Some(value);
        r
    }
}

impl<T: Clone> Slot<T> {
    /// Duplicates the contents without consuming them: the step of `read` and
    /// `try_read`. The slot is borrowed immutably, so its state cannot change.
    pub fn read_value(&self) -> (r: Option<T>)
        ensures
            read_transition(self@, r),
    {
        self.value.clone()
    }
}

} // verus!
