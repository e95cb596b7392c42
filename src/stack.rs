use vstd::prelude::*;

verus! {

/// What the stack holds after `v` is pushed onto contents `s`.
pub open spec fn after_push<T>(s: Seq<T>, v: T) -> Seq<T> {
    s.push(v)
}

/// What the stack holds after one `pop` on contents `s`: the top is gone, and an
/// empty stack stays empty.
pub open spec fn after_pop<T>(s: Seq<T>) -> Seq<T> {
    if s.len() == 0 {
        s
    } else {
        s.drop_last()
    }
}

/// The top of contents `s`, the element that the next `pop` hands back, or
/// `None` when there is none.
pub open spec fn top<T>(s: Seq<T>) -> Option<T> {
    if s.len() == 0 {
        None
    } else {
        Some(s.last())
    }
}

/// The contents after pushing each element of `vs` onto `s`, first to last.
pub open spec fn push_all<T>(s: Seq<T>, vs: Seq<T>) -> Seq<T>
    decreases vs.len(),
{
    if vs.len() == 0 {
        s
    } else {
        after_push(push_all(s, vs.drop_last()), vs.last())
    }
}

/// The contents after `k` calls of `pop` on `s`.
pub open spec fn pop_times<T>(s: Seq<T>, k: nat) -> Seq<T>
    decreases k,
{
    if k == 0 {
        s
    } else {
        after_pop(pop_times(s, (k - 1) as nat))
    }
}

/// A mutating call on a stack.
pub enum Op<T> {
    Push(T),
    Pop,
}

/// The contents after the single call `op` on `s`.
pub open spec fn apply<T>(s: Seq<T>, op: Op<T>) -> Seq<T> {
    match op {
        Op::Push(v) => after_push(s, v),
        Op::Pop => after_pop(s),
    }
}

/// The contents after the calls `ops` on `s`, first to last.
pub open spec fn run<T>(s: Seq<T>, ops: Seq<Op<T>>) -> Seq<T>
    decreases ops.len(),
{
    if ops.len() == 0 {
        s
    } else {
        apply(run(s, ops.drop_last()), ops.last())
    }
}

/// Pushes completed by `ops` minus the pops that removed an element: a pop on
/// an empty stack counts as zero.
pub open spec fn net_pushes<T>(ops: Seq<Op<T>>) -> nat
    decreases ops.len(),
{
    if ops.len() == 0 {
        0
    } else {
        let n = net_pushes(ops.drop_last());
        match ops.last() {
            Op::Push(_) => n + 1,
            Op::Pop => if n == 0 { 0 } else { (n - 1) as nat },
        }
    }
}

proof fn lemma_push_all_empty<T>(vs: Seq<T>)
    ensures
        push_all(Seq::<T>::empty(), vs) == vs,
    decreases vs.len(),
{
    if vs.len() > 0 {
        lemma_push_all_empty(vs.drop_last());
        assert(vs.drop_last().push(vs.last()) =~= vs);
    }
}

proof fn lemma_pop_times_prefix<T>(s: Seq<T>, k: nat)
    requires
        k <= s.len(),
    ensures
        pop_times(s, k) == s.subrange(0, s.len() - k),
    decreases k,
{
    if k == 0 {
        assert(s.subrange(0, s.len() as int) =~= s);
    } else {
        lemma_pop_times_prefix(s, (k - 1) as nat);
        assert(s.subrange(0, s.len() - (k - 1)).drop_last() =~= s.subrange(0, s.len() - k));
    }
}

/// Pushing `v1, ..., vn` onto a new stack and then popping `n` times hands
/// back `vn, ..., v1` in that order; one more pop hands back `None`.
pub proof fn lemma_pops_reverse_pushes<T>(vs: Seq<T>)
    ensures
        forall|i: int|
            0 <= i < vs.len() ==> #[trigger] top(pop_times(push_all(Seq::<T>::empty(), vs), i as nat))
                == Some(vs[vs.len() - 1 - i]),
        top(pop_times(push_all(Seq::<T>::empty(), vs), vs.len())) == None::<T>,
{
    lemma_push_all_empty(vs);
    assert forall|i: int| 0 <= i < vs.len() implies #[trigger] top(
        pop_times(push_all(Seq::<T>::empty(), vs), i as nat),
    ) == Some(vs[vs.len() - 1 - i]) by {
        lemma_pop_times_prefix(vs, i as nat);
    }
    lemma_pop_times_prefix(vs, vs.len());
}

/// After any calls on a new stack, it is empty exactly when the pushes minus
/// the pops that removed an element come to zero.
pub proof fn lemma_empty_iff_no_net_pushes<T>(ops: Seq<Op<T>>)
    ensures
        run(Seq::<T>::empty(), ops).len() == net_pushes(ops),
        (run(Seq::<T>::empty(), ops).len() == 0) == (net_pushes(ops) == 0),
    decreases ops.len(),
{
    if ops.len() > 0 {
        lemma_empty_iff_no_net_pushes(ops.drop_last());
    }
}

/// On a non-empty stack, `peek` sees the value that the next `pop` hands back,
/// and that pop leaves one element fewer.
pub proof fn lemma_peek_is_next_pop<T>(s: Seq<T>)
    requires
        s.len() > 0,
    ensures
        top(s) == Some(s.last()),
        after_pop(s).len() == s.len() - 1,
        after_push(after_pop(s), s.last()) == s,
{
    assert(s.drop_last().push(s.last()) =~= s);
}

/// On a new stack, `peek` and `pop` both find nothing, and `pop` leaves it
/// empty.
pub proof fn lemma_new_stack_has_no_top<T>()
    ensures
        top(Seq::<T>::empty()) == None::<T>,
        after_pop(Seq::<T>::empty()) == Seq::<T>::empty(),
{
}

/// A last-in-first-out stack. Its view is the sequence of its elements in the
/// order they were pushed: the last one is the top.
pub struct Stack<T> {
    stack: Vec<T>,
}

impl<T> View for Stack<T> {
    type V = Seq<T>;

    closed spec fn view(&self) -> Seq<T> {
        self.stack@
    }
}

impl<T> Default for Stack<T> {
    fn default() -> (r: Self)
        ensures
            r@ == Seq::<T>::empty(),
    {
        Stack { stack: Vec::new() }
    }
}

impl<T> Stack<T> {
    /// Creates an empty stack.
    pub fn new() -> (r: Self)
        ensures
            r@ == Seq::<T>::empty(),
    {
        Self::default()
    }

    /// Pushes `item` onto the stack; it becomes the new top.
    pub fn push(&mut self, item: T)
        ensures
            final(self)@ == after_push(old(self)@, item),
    {
        self.stack.push(item);
    }

    /// Removes and returns the top of the stack, or `None` if the stack is empty.
    pub fn pop(&mut self) -> (r: Option<T>)
        ensures
            r == top(old(self)@),
            final(self)@ == after_pop(old(self)@),
    {
        self.stack.pop()
    }

    /// Returns a reference to the top of the stack without removing it, or
    /// `None` if the stack is empty.
    pub fn peek(&self) -> (r: Option<&T>)
        ensures
            match r {
                Some(x) => top(self@) == Some(*x),
                None => top(self@) == None::<T>,
            },
    {
        self.stack.last()
    }

    /// Returns whether the stack holds no element.
    pub fn is_empty(&self) -> (r: bool)
        ensures
            r == (self@.len() == 0),
    {
        self.stack.is_empty()
    }
}

} // verus!
