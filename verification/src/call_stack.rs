//! The bounded stack of subroutine return addresses. Capacity is fixed at
//! twelve entries, the nested-subroutine limit of the reference architecture;
//! pushing a thirteenth address or popping an empty stack fails.

use crate::memory::Address;
use vstd::prelude::*;

verus! {

/// Greatest number of return addresses the stack can hold.
pub const STACK_CAPACITY: usize = 12;

/// Failures of stack operations.
#[derive(Clone, Copy, Debug, PartialEq, Eq, Structural)]
pub enum Error {
    /// A push onto a full stack.
    Overflow,
    /// A pop from an empty stack.
    Underflow,
}

/// The call stack; its view is the sequence of live entries, oldest first.
pub struct CallStack {
    stack: [Address; STACK_CAPACITY],
    top: usize,
}

impl View for CallStack {
    type V = Seq<Address>;

    closed spec fn view(&self) -> Seq<Address> {
        self.stack@.take(self.top as int)
    }
}

impl CallStack {
    #[verifier::type_invariant]
    spec fn inv(&self) -> bool {
        self.top <= STACK_CAPACITY
    }

    /// An empty call stack.
    pub fn new() -> (s: CallStack)
        ensures
            s@ == Seq::<Address>::empty(),
    {
        let s = CallStack { stack: [0; STACK_CAPACITY], top: 0 };
        proof {
            assert(s@ =~= Seq::<Address>::empty());
        }
        s
    }

    /// Push a return address; fails with `Overflow`, leaving the stack
    /// unchanged, exactly when twelve entries are already present.
    pub fn push(&mut self, addr: Address) -> (r: Result<(), Error>)
        ensures
            old(self)@.len() < STACK_CAPACITY ==> r == Ok::<(), Error>(()) && final(self)@
                == old(self)@.push(addr),
            old(self)@.len() >= STACK_CAPACITY ==> r == Err::<(), Error>(Error::Overflow)
                && final(self)@ == old(self)@,
    {
        proof {
            use_type_invariant(&*self);
        }
        if self.top < STACK_CAPACITY {
            self.stack[self.top] = addr;
            self.top = self.top + 1;
            proof {
                assert(self@ =~= old(self)@.push(addr));
            }
            Ok(())
        } else {
            Err(Error::Overflow)
        }
    }

    /// Pop the most recently pushed address; fails with `Underflow` exactly
    /// when the stack is empty.
    pub fn pop(&mut self) -> (r: Result<Address, Error>)
        ensures
            old(self)@.len() > 0 ==> r == Ok::<Address, Error>(old(self)@.last()) && final(self)@
                == old(self)@.drop_last(),
            old(self)@.len() == 0 ==> r == Err::<Address, Error>(Error::Underflow) && final(self)@
                == old(self)@,
    {
        proof {
            use_type_invariant(&*self);
        }
        if self.top > 0 {
            self.top = self.top - 1;
            proof {
                assert(self@ =~= old(self)@.drop_last());
            }
            Ok(self.stack[self.top])
        } else {
            Err(Error::Underflow)
        }
    }
}

/// The addresses a run of pops returns, newest first: popping `n` times from
/// a stack holding `s` yields this sequence.
pub open spec fn popped_values(s: Seq<Address>, n: int) -> Seq<Address>
    decreases n,
{
    if n <= 0 || s.len() == 0 {
        Seq::empty()
    } else {
        seq![s.last()] + popped_values(s.drop_last(), n - 1)
    }
}

/// Round-trip law: pushing the addresses of `addrs` in order onto an empty
/// stack leaves the stack holding exactly `addrs`, and popping them all
/// returns them in reverse order.
pub proof fn lemma_round_trip(addrs: Seq<Address>)
    ensures
        popped_values(addrs, addrs.len() as int) == addrs.reverse(),
    decreases addrs.len(),
{
    if addrs.len() == 0 {
        assert(popped_values(addrs, 0) =~= addrs.reverse());
    } else {
        lemma_round_trip(addrs.drop_last());
        assert(popped_values(addrs, addrs.len() as int) =~= addrs.reverse());
    }
}

} // verus!
