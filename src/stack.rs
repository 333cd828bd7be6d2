use vstd::prelude::*;

use crate::register::Id;

verus! {

/// The path of focus: the root first, the focused entity last.
#[derive(Clone, Debug)]
pub struct ContentStack {
    stack: Vec<Id>,
}

/// The frames and the popped handle after a pop: the root is never popped.
pub open spec fn pop_model(s: Seq<Id>) -> (Seq<Id>, Option<Id>) {
    if s.len() > 1 {
        (s.drop_last(), Some(s.last()))
    } else {
        (s, None)
    }
}

impl View for ContentStack {
    type V = Seq<Id>;

    closed spec fn view(&self) -> Seq<Id> {
        self.stack@
    }
}

impl ContentStack {
    pub open spec fn wf(&self) -> bool {
        self@.len() >= 1
    }

    pub fn new(main_provider: Id) -> (r: Self)
        ensures
            r.wf(),
            r@ == seq![main_provider],
    {
        ContentStack { stack: vec![main_provider] }
    }

    pub fn main_provider(&self) -> (r: Id)
        requires
            self.wf(),
        ensures
            r == self@[0],
    {
        self.stack[0]
    }

    pub fn push(&mut self, id: Id)
        ensures
            final(self)@ == old(self)@.push(id),
    {
        self.stack.push(id);
    }

    pub fn pop(&mut self) -> (r: Option<Id>)
        ensures
            (final(self)@, r) == pop_model(old(self)@),
    {
        if self.stack.len() > 1 {
            self.stack.pop()
        } else {
            None
        }
    }

    pub fn last(&self) -> (r: Id)
        requires
            self.wf(),
        ensures
            r == self@.last(),
    {
        self.stack[self.stack.len() - 1]
    }

    pub fn len(&self) -> (r: usize)
        ensures
            r == self@.len(),
    {
        self.stack.len()
    }

    pub fn get(&self, index: usize) -> (r: Id)
        requires
            index < self@.len(),
        ensures
            r == self@[index as int],
    {
        self.stack[index]
    }
}

/// Popping a stack that holds only its root changes nothing; pushing and then
/// popping gives back the stack as it was, with the pushed handle; neither
/// ever leaves the stack empty.
pub proof fn lemma_stack_laws(s: Seq<Id>, id: Id)
    requires
        s.len() >= 1,
    ensures
        s.len() == 1 ==> pop_model(s) == (s, None::<Id>),
        pop_model(s.push(id)) == (s, Some(id)),
        pop_model(s).0.len() >= 1,
        s.push(id).len() >= 1,
{
    assert(s.push(id).drop_last() =~= s);
}

} // verus!
