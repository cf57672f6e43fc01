//! A memory cell with a runtime borrow tracker: any number of shared
//! borrows, or one exclusive borrow, never both.
use vstd::prelude::*;

verus! {

/// The borrow state of a cell.
#[derive(Clone, Copy, PartialEq, Eq, Structural, Debug)]
pub enum BorrowState {
    Unborrowed,
    /// `n` shared borrows are alive, `n >= 1`.
    Shared(usize),
    Exclusive,
}

impl BorrowState {
    pub open spec fn wf(self) -> bool {
        match self {
            BorrowState::Shared(n) => n >= 1,
            _ => true,
        }
    }

    /// A shared borrow can be taken: no exclusive borrow is alive.
    pub open spec fn can_read(self) -> bool {
        !(self is Exclusive)
    }

    /// An exclusive borrow can be taken: no borrow at all is alive.
    pub open spec fn can_write(self) -> bool {
        self is Unborrowed
    }

    pub open spec fn shared_count(self) -> nat {
        match self {
            BorrowState::Shared(n) => n as nat,
            _ => 0,
        }
    }
}

/// A value together with its borrow state.
pub struct StateCell<V> {
    value: V,
    borrow: BorrowState,
}

impl<V> StateCell<V> {
    pub closed spec fn spec_value(&self) -> V {
        self.value
    }

    pub closed spec fn spec_borrow(&self) -> BorrowState {
        self.borrow
    }

    pub open spec fn wf(&self) -> bool {
        self.spec_borrow().wf()
    }

    pub fn new(value: V) -> (r: StateCell<V>)
        ensures
            r.spec_value() == value,
            r.spec_borrow() == BorrowState::Unborrowed,
    {
        StateCell { value, borrow: BorrowState::Unborrowed }
    }

    pub fn borrow_state(&self) -> (r: BorrowState)
        ensures
            r == self.spec_borrow(),
    {
        self.borrow
    }

    /// Takes one more shared borrow. Taking it while an exclusive borrow is
    /// alive is a programmer error, left out by the precondition.
    pub fn begin_read(&mut self)
        requires
            old(self).wf(),
            old(self).spec_borrow().can_read(),
            old(self).spec_borrow().shared_count() < usize::MAX,
        ensures
            final(self).wf(),
            final(self).spec_value() == old(self).spec_value(),
            final(self).spec_borrow() == BorrowState::Shared(
                (old(self).spec_borrow().shared_count() + 1) as usize,
            ),
    {
        self.borrow = match self.borrow {
            BorrowState::Shared(n) => BorrowState::Shared(n + 1),
            _ => BorrowState::Shared(1),
        };
    }

    /// Gives back one shared borrow.
    pub fn end_read(&mut self)
        requires
            old(self).wf(),
            old(self).spec_borrow() is Shared,
        ensures
            final(self).wf(),
            final(self).spec_value() == old(self).spec_value(),
            old(self).spec_borrow().shared_count() == 1 ==> final(self).spec_borrow()
                == BorrowState::Unborrowed,
            old(self).spec_borrow().shared_count() > 1 ==> final(self).spec_borrow()
                == BorrowState::Shared((old(self).spec_borrow().shared_count() - 1) as usize),
    {
        self.borrow = match self.borrow {
            BorrowState::Shared(n) => if n > 1 {
                BorrowState::Shared(n - 1)
            } else {
                BorrowState::Unborrowed
            },
            other => other,
        };
    }

    /// Takes the exclusive borrow. Taking it while any borrow is alive is a
    /// programmer error, left out by the precondition.
    pub fn begin_write(&mut self)
        requires
            old(self).spec_borrow().can_write(),
        ensures
            final(self).wf(),
            final(self).spec_value() == old(self).spec_value(),
            final(self).spec_borrow() == BorrowState::Exclusive,
    {
        self.borrow = BorrowState::Exclusive;
    }

    /// Gives back the exclusive borrow.
    pub fn end_write(&mut self)
        requires
            old(self).spec_borrow() is Exclusive,
        ensures
            final(self).wf(),
            final(self).spec_value() == old(self).spec_value(),
            final(self).spec_borrow() == BorrowState::Unborrowed,
    {
        self.borrow = BorrowState::Unborrowed;
    }

    /// The value, read under a live shared borrow.
    pub fn value(&self) -> (r: &V)
        ensures
            *r == self.spec_value(),
    {
        &self.value
    }

    /// The value, written under the live exclusive borrow.
    pub fn value_mut(&mut self) -> (r: &mut V)
        requires
            old(self).spec_borrow() is Exclusive,
        ensures
            *r == old(self).spec_value(),
            final(self).spec_value() == *final(r),
            final(self).spec_borrow() == old(self).spec_borrow(),
    {
        &mut self.value
    }

    /// The value, once no borrow is alive.
    pub fn into_inner(self) -> (r: V)
        requires
            self.spec_borrow() is Unborrowed,
        ensures
            r == self.spec_value(),
    {
        self.value
    }
}

} // verus!
