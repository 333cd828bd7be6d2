use vstd::prelude::*;

verus! {

/// The numeric identity of an entity: the slot it lives in and the epoch
/// at which it was issued.
#[derive(Clone, Copy, Debug, PartialEq, Eq, Structural, Hash)]
pub struct ContentID {
    pub id: u64,
    pub generation: u64,
}

/// A value that stands for an entity of the registry.
pub trait Handle: Sized + Copy {
    spec fn spec_cid(&self) -> ContentID;

    fn from_content_id(id: ContentID) -> (r: Self)
        ensures
            r.spec_cid() == id,
    ;

    fn content_id(&self) -> (r: ContentID)
        ensures
            r == self.spec_cid(),
    ;
}

impl Handle for ContentID {
    open spec fn spec_cid(&self) -> ContentID {
        *self
    }

    fn from_content_id(id: ContentID) -> (r: Self) {
        id
    }

    fn content_id(&self) -> (r: ContentID) {
        *self
    }
}

/// The handle of a content entity.
#[derive(Clone, Copy, Debug, PartialEq, Eq, Structural, Hash)]
pub struct Id(pub ContentID);

impl Id {
    pub fn from_id(id: ContentID) -> (r: Self)
        ensures
            r.0 == id,
    {
        Id(id)
    }
}

impl Handle for Id {
    open spec fn spec_cid(&self) -> ContentID {
        self.0
    }

    fn from_content_id(id: ContentID) -> (r: Self) {
        Id::from_id(id)
    }

    fn content_id(&self) -> (r: ContentID) {
        self.0
    }
}

/// One stored entity with its epoch and its count of owners.
pub struct ContentEntry<T> {
    pub val: T,
    pub generation: u64,
    pub id_counter: u32,
}

/// What a register holds: slot `i` is the entity issued with id `i`, or
/// `None` once it was released.
pub type Slots<T> = Seq<Option<ContentEntry<T>>>;

/// The slots are consistent: the entry in slot `i` was issued at epoch `i`,
/// and every stored entity has at least one owner.
pub open spec fn slots_wf<T>(s: Slots<T>) -> bool {
    forall|i: int|
        0 <= i < s.len() && #[trigger] s[i] is Some ==> s[i]->Some_0.generation == i && s[i]->Some_0.id_counter
            >= 1
}

/// `k` names a live entity of `s`.
pub open spec fn slots_live<T>(s: Slots<T>, k: ContentID) -> bool {
    &&& k.id < s.len()
    &&& s[k.id as int] is Some
    &&& s[k.id as int]->Some_0.generation == k.generation
}

pub open spec fn slot_entry<T>(s: Slots<T>, k: ContentID) -> ContentEntry<T> {
    s[k.id as int]->Some_0
}

/// The handle issued by the next allocation.
pub open spec fn next_cid<T>(s: Slots<T>) -> ContentID {
    ContentID { id: s.len() as u64, generation: s.len() as u64 }
}

pub open spec fn alloc_slots<T>(s: Slots<T>, v: T) -> Slots<T> {
    s.push(Some(ContentEntry { val: v, generation: s.len() as u64, id_counter: 1 }))
}

pub open spec fn register_slots<T>(s: Slots<T>, k: ContentID) -> Slots<T> {
    let e = slot_entry(s, k);
    s.update(
        k.id as int,
        Some(ContentEntry { val: e.val, generation: e.generation, id_counter: (e.id_counter + 1) as u32 }),
    )
}

pub open spec fn unregister_slots<T>(s: Slots<T>, k: ContentID) -> Slots<T> {
    let e = slot_entry(s, k);
    if e.id_counter <= 1 {
        s.update(k.id as int, None)
    } else {
        s.update(
            k.id as int,
            Some(ContentEntry { val: e.val, generation: e.generation, id_counter: (e.id_counter - 1) as u32 }),
        )
    }
}

/// An arena of entities addressed by handles of type `P`, each kept alive by
/// a count of owners.
pub struct ContentRegister<T, P> {
    items: Vec<Option<ContentEntry<T>>>,
    generation: u64,
    _phantom: core::marker::PhantomData<P>,
}

impl<T, P> View for ContentRegister<T, P> {
    type V = Slots<T>;

    closed spec fn view(&self) -> Slots<T> {
        self.items@
    }
}

impl<T, P: Handle> ContentRegister<T, P> {
    pub closed spec fn wf(&self) -> bool {
        &&& self.generation == self.items@.len()
        &&& slots_wf(self.items@)
    }

    pub open spec fn contains(&self, id: P) -> bool {
        slots_live(self@, id.spec_cid())
    }

    pub open spec fn value(&self, id: P) -> T {
        slot_entry(self@, id.spec_cid()).val
    }

    pub open spec fn count(&self, id: P) -> u32 {
        slot_entry(self@, id.spec_cid()).id_counter
    }

    pub fn new() -> (r: Self)
        ensures
            r.wf(),
            r@ == Seq::<Option<ContentEntry<T>>>::empty(),
    {
        ContentRegister { items: Vec::new(), generation: 0, _phantom: core::marker::PhantomData }
    }

    /// Rebuilds a register from its slots, if they are consistent.
    pub fn restore(items: Vec<Option<ContentEntry<T>>>) -> (r: Option<Self>)
        ensures
            r is Some <==> slots_wf(items@),
            r is Some ==> r->Some_0.wf() && r->Some_0@ == items@,
    {
        let n = items.len();
        let mut i: usize = 0;
        while i < n
            invariant
                n == items@.len(),
                i <= n,
                forall|j: int|
                    0 <= j < i && #[trigger] items@[j] is Some ==> items@[j]->Some_0.generation == j
                        && items@[j]->Some_0.id_counter >= 1,
            decreases n - i,
        {
            match &items[i] {
                Some(e) => {
                    if e.generation != i as u64 || e.id_counter == 0 {
                        return None;
                    }
                },
                None => {},
            }
            i = i + 1;
        }
        Some(ContentRegister { items, generation: n as u64, _phantom: core::marker::PhantomData })
    }

    /// Every slot, in order of issue.
    pub fn slots(&self) -> (r: &Vec<Option<ContentEntry<T>>>)
        ensures
            r@ == self@,
    {
        &self.items
    }

    fn dealloc(&mut self, id: P) -> (r: Option<T>)
        requires
            old(self).wf(),
        ensures
            final(self).wf(),
            old(self).contains(id) ==> r == Some(old(self).value(id)) && final(self)@ == old(self)@.update(
                id.spec_cid().id as int,
                None,
            ),
            !old(self).contains(id) ==> r is None && final(self)@ == old(self)@,
    {
        let k = id.content_id();
        if k.id < self.items.len() as u64 {
            let i = k.id as usize;
            let live = match &self.items[i] {
                Some(e) => e.generation == k.generation,
                None => false,
            };
            if live {
                let old_entry = self.items[i].take();
                assert(slots_wf(self.items@));
                match old_entry {
                    Some(e) => Some(e.val),
                    None => None,
                }
            } else {
                None
            }
        } else {
            None
        }
    }

    pub fn get(&self, id: P) -> (r: Option<&T>)
        ensures
            self.contains(id) ==> r == Some(&self.value(id)),
            !self.contains(id) ==> r is None,
    {
        let k = id.content_id();
        if k.id < self.items.len() as u64 {
            match &self.items[k.id as usize] {
                Some(e) => {
                    if e.generation == k.generation {
                        Some(&e.val)
                    } else {
                        None
                    }
                },
                None => None,
            }
        } else {
            None
        }
    }

    pub fn get_mut(&mut self, id: P) -> (r: Option<&mut T>)
        ensures
            match r {
                Some(v) => {
                    &&& old(self).contains(id)
                    &&& *v == old(self).value(id)
                    &&& final(self)@ == old(self)@.update(
                        id.spec_cid().id as int,
                        Some(
                            ContentEntry {
                                val: *final(v),
                                generation: id.spec_cid().generation,
                                id_counter: old(self).count(id),
                            },
                        ),
                    )
                },
                None => !old(self).contains(id) && final(self)@ == old(self)@,
            },
            old(self).wf() ==> final(self).wf(),
    {
        let k = id.content_id();
        if k.id < self.items.len() as u64 {
            match self.items[k.id as usize].as_mut() {
                Some(e) => {
                    if e.generation == k.generation {
                        Some(&mut e.val)
                    } else {
                        None
                    }
                },
                None => None,
            }
        } else {
            None
        }
    }

    pub fn allocate(&mut self, item: T) -> (r: P)
        requires
            old(self).wf(),
            old(self)@.len() < u64::MAX,
        ensures
            final(self).wf(),
            r.spec_cid() == next_cid(old(self)@),
            !old(self).contains(r),
            final(self)@ == alloc_slots(old(self)@, item),
    {
        let id = self.set(item, self.generation);
        self.generation = self.generation + 1;
        id
    }

    /// Adds an owner to `id`.
    pub fn register(&mut self, id: P)
        requires
            old(self).wf(),
            old(self).contains(id),
            old(self).count(id) < u32::MAX,
        ensures
            final(self).wf(),
            final(self)@ == register_slots(old(self)@, id.spec_cid()),
    {
        let k = id.content_id();
        let n = self.items.len();
        assert(k.id < n);
        let i = k.id as usize;
        let entry = self.items[i].as_mut();
        match entry {
            Some(e) => {
                e.id_counter = e.id_counter + 1;
            },
            None => {},
        }
        assert(slots_wf(self.items@));
    }

    /// Drops one owner of `id`: the last owner's unregistration removes the
    /// entity and hands it back.
    pub fn unregister(&mut self, id: P) -> (r: Option<T>)
        requires
            old(self).wf(),
            old(self).contains(id),
        ensures
            final(self).wf(),
            final(self)@ == unregister_slots(old(self)@, id.spec_cid()),
            r == (if old(self).count(id) <= 1 {
                Some(old(self).value(id))
            } else {
                None
            }),
    {
        let k = id.content_id();
        let n = self.items.len();
        assert(k.id < n);
        let i = k.id as usize;
        let last_owner = match &self.items[i] {
            Some(e) => e.id_counter <= 1,
            None => false,
        };
        if last_owner {
            self.dealloc(id)
        } else {
            let entry = self.items[i].as_mut();
            match entry {
                Some(e) => {
                    e.id_counter = e.id_counter - 1;
                },
                None => {},
            }
            assert(slots_wf(self.items@));
            None
        }
    }

    fn set(&mut self, item: T, id: u64) -> (r: P)
        requires
            old(self).wf(),
            id == old(self).generation,
            old(self)@.len() < u64::MAX,
        ensures
            final(self).generation == old(self).generation,
            final(self)@ == alloc_slots(old(self)@, item),
            r.spec_cid() == next_cid(old(self)@),
    {
        let entry = ContentEntry { val: item, generation: self.generation, id_counter: 1 };
        let cid = ContentID { id, generation: self.generation };
        self.items.push(Some(entry));
        P::from_content_id(cid)
    }
}

/// One call made on a register.
pub enum RegisterOp<T> {
    Allocate(T),
    Register(ContentID),
    Unregister(ContentID),
}

/// The call may be made on a register holding `s`: the entity it names is live,
/// and its count has room to grow.
pub open spec fn op_ok<T>(s: Slots<T>, op: RegisterOp<T>) -> bool {
    match op {
        RegisterOp::Allocate(_) => s.len() < u64::MAX,
        RegisterOp::Register(k) => slots_live(s, k) && slot_entry(s, k).id_counter < u32::MAX,
        RegisterOp::Unregister(k) => slots_live(s, k),
    }
}

pub open spec fn op_step<T>(s: Slots<T>, op: RegisterOp<T>) -> Slots<T> {
    match op {
        RegisterOp::Allocate(v) => alloc_slots(s, v),
        RegisterOp::Register(k) => register_slots(s, k),
        RegisterOp::Unregister(k) => unregister_slots(s, k),
    }
}

/// The slots of a new register after the calls `ops`, in order.
pub open spec fn run_ops<T>(ops: Seq<RegisterOp<T>>) -> Slots<T>
    decreases ops.len(),
{
    if ops.len() == 0 {
        Seq::empty()
    } else {
        op_step(run_ops(ops.drop_last()), ops.last())
    }
}

/// Every call of `ops` may be made where it stands.
pub open spec fn ops_ok<T>(ops: Seq<RegisterOp<T>>) -> bool
    decreases ops.len(),
{
    ops.len() == 0 || (ops_ok(ops.drop_last()) && op_ok(run_ops(ops.drop_last()), ops.last()))
}

pub open spec fn count_allocs<T>(ops: Seq<RegisterOp<T>>) -> nat
    decreases ops.len(),
{
    if ops.len() == 0 {
        0
    } else {
        count_allocs(ops.drop_last()) + if ops.last() is Allocate { 1nat } else { 0nat }
    }
}

pub open spec fn count_registers<T>(ops: Seq<RegisterOp<T>>, k: ContentID) -> nat
    decreases ops.len(),
{
    if ops.len() == 0 {
        0
    } else {
        count_registers(ops.drop_last(), k) + if ops.last() == RegisterOp::<T>::Register(k) { 1nat } else { 0nat }
    }
}

pub open spec fn count_unregisters<T>(ops: Seq<RegisterOp<T>>, k: ContentID) -> nat
    decreases ops.len(),
{
    if ops.len() == 0 {
        0
    } else {
        count_unregisters(ops.drop_last(), k) + if ops.last() == RegisterOp::<T>::Unregister(k) { 1nat } else { 0nat }
    }
}

/// `k` was issued by one of the allocations of `ops`: the `i`-th allocation
/// issues the handle with id and epoch `i`.
pub open spec fn issued<T>(ops: Seq<RegisterOp<T>>, k: ContentID) -> bool {
    k.id == k.generation && k.id < count_allocs(ops)
}

/// Over any sequence of allocations, registrations and unregistrations made on
/// a new register, an entity is retrievable exactly while it has been issued
/// and its count, one plus its registrations minus its unregistrations, is at
/// least one; while it lives, its count is that number. Handles are issued
/// once each, in increasing order.
pub proof fn lemma_register_trace<T>(ops: Seq<RegisterOp<T>>, k: ContentID)
    requires
        ops_ok(ops),
    ensures
        run_ops(ops).len() == count_allocs(ops),
        slots_wf(run_ops(ops)),
        slots_live(run_ops(ops), k) <==> issued(ops, k) && 1 + count_registers(ops, k) - count_unregisters(
            ops,
            k,
        ) >= 1,
        slots_live(run_ops(ops), k) ==> slot_entry(run_ops(ops), k).id_counter == 1 + count_registers(
            ops,
            k,
        ) - count_unregisters(ops, k),
        !issued(ops, k) ==> count_registers(ops, k) == 0 && count_unregisters(ops, k) == 0,
    decreases ops.len(),
{
    if ops.len() > 0 {
        let pre = ops.drop_last();
        lemma_register_trace(pre, k);
        let s = run_ops(pre);
        match ops.last() {
            RegisterOp::Allocate(v) => {
                assert(run_ops(ops) == alloc_slots(s, v));
            },
            RegisterOp::Register(j) => {
                lemma_register_trace(pre, j);
                assert(run_ops(ops) == register_slots(s, j));
            },
            RegisterOp::Unregister(j) => {
                lemma_register_trace(pre, j);
                assert(run_ops(ops) == unregister_slots(s, j));
            },
        }
    }
}

} // verus!
