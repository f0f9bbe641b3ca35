use vstd::prelude::*;

verus! {

/// Why a push or a pop on a [`CallStack`] was refused.
#[derive(Debug, PartialEq, Eq, Structural, Clone, Copy)]
pub enum CallStackErr {
    StackOverflow,
    StackEmpty,
}

/// A last-in first-out stack of return addresses with a fixed capacity.
pub struct CallStack {
    arr: Vec<u16>,
    top: usize,
}

/// The values that `n` successive pops take off a stack whose contents are
/// `s` (bottom first), in the order they come off, together with what is
/// left on the stack afterwards.
pub open spec fn pop_n(s: Seq<u16>, n: nat) -> (Seq<u16>, Seq<u16>)
    decreases n,
{
    if n == 0 || s.len() == 0 {
        (Seq::empty(), s)
    } else {
        let rest = pop_n(s.drop_last(), (n - 1) as nat);
        (seq![s.last()] + rest.0, rest.1)
    }
}

impl View for CallStack {
    type V = Seq<u16>;

    /// The stored addresses, oldest first.
    closed spec fn view(&self) -> Seq<u16> {
        self.arr@.subrange(0, self.top as int)
    }
}

impl CallStack {
    #[verifier::type_invariant]
    spec fn inv(self) -> bool {
        self.top <= self.arr@.len()
    }

    /// The greatest number of addresses the stack holds.
    pub closed spec fn capacity(self) -> nat {
        self.arr@.len()
    }

    pub fn new(size: usize) -> (r: CallStack)
        ensures
            r@ == Seq::<u16>::empty(),
            r.capacity() == size,
            r@.len() <= r.capacity(),
    {
        let r = CallStack { arr: vec![0; size], top: 0 };
        assert(r@ =~= Seq::<u16>::empty());
        r
    }

    pub fn is_empty(&self) -> (r: bool)
        ensures
            r == (self@.len() == 0),
            self@.len() <= self.capacity(),
        no_unwind
    {
        proof {
            use_type_invariant(self);
        }
        self.top == 0
    }

    pub fn is_full(&self) -> (r: bool)
        ensures
            r == (self@.len() == self.capacity()),
            self@.len() <= self.capacity(),
        no_unwind
    {
        proof {
            use_type_invariant(self);
        }
        self.top == self.arr.len()
    }

    pub fn push(&mut self, addr: u16) -> (r: Result<(), CallStackErr>)
        ensures
            final(self).capacity() == old(self).capacity(),
            final(self)@.len() <= final(self).capacity(),
            old(self)@.len() < old(self).capacity() ==> {
                &&& r is Ok
                &&& final(self)@ == old(self)@.push(addr)
            },
            old(self)@.len() >= old(self).capacity() ==> {
                &&& r == Err::<(), CallStackErr>(CallStackErr::StackOverflow)
                &&& final(self)@ == old(self)@
            },
        no_unwind
    {
        proof {
            use_type_invariant(&*self);
        }
        if self.is_full() {
            return Err(CallStackErr::StackOverflow);
        }
        let ghost before = self@;
        let top = self.top;
        let len = self.arr.len();
        assert(top < len);
        self.arr[top] = addr;
        self.top = top + 1;
        assert(self@ =~= before.push(addr));
        Ok(())
    }

    pub fn pop(&mut self) -> (r: Result<u16, CallStackErr>)
        ensures
            final(self).capacity() == old(self).capacity(),
            final(self)@.len() <= final(self).capacity(),
            old(self)@.len() > 0 ==> {
                &&& r == Ok::<u16, CallStackErr>(old(self)@.last())
                &&& final(self)@ == old(self)@.drop_last()
            },
            old(self)@.len() == 0 ==> {
                &&& r == Err::<u16, CallStackErr>(CallStackErr::StackEmpty)
                &&& final(self)@ == old(self)@
            },
    {
        proof {
            use_type_invariant(&*self);
        }
        if self.is_empty() {
            return Err(CallStackErr::StackEmpty);
        }
        let ghost before = self@;
        let addr = self.arr[self.top - 1];
        self.top = self.top - 1;
        assert(self@ =~= before.drop_last());
        Ok(addr)
    }

    /// The stored addresses, oldest first, or `None` when nothing is stored.
    pub fn snapshot(&self) -> (r: Option<Vec<u16>>)
        ensures
            self@.len() == 0 ==> r.is_none(),
            self@.len() > 0 ==> r.is_some() && r.unwrap()@ == self@,
            self@.len() <= self.capacity(),
    {
        proof {
            use_type_invariant(self);
        }
        if self.is_empty() {
            return None;
        }
        let mut snapshot: Vec<u16> = Vec::new();
        let mut idx: usize = 0;
        while idx < self.top
            invariant
                idx <= self.top,
                self.top <= self.arr@.len(),
                snapshot@ == self.arr@.subrange(0, idx as int),
            decreases self.top - idx,
        {
            snapshot.push(self.arr[idx]);
            idx = idx + 1;
        }
        Some(snapshot)
    }
}

/// Popping as many times as there were pushes hands the pushed values back
/// in reverse order and leaves the stack as it was before the pushes.
pub proof fn lemma_pops_reverse_pushes(s: Seq<u16>, pushed: Seq<u16>)
    ensures
        pop_n(s + pushed, pushed.len()) == (pushed.reverse(), s),
    decreases pushed.len(),
{
    if pushed.len() == 0 {
        assert(s + pushed =~= s);
        assert(pushed.reverse() =~= Seq::<u16>::empty());
    } else {
        let all = s + pushed;
        let front = pushed.drop_last();
        lemma_pops_reverse_pushes(s, front);
        assert(all.drop_last() =~= s + front);
        assert(all.last() == pushed.last());
        assert(pushed.reverse() =~= seq![pushed.last()] + front.reverse());
    }
}

} // verus!
