use crate::ids::IdAllocator;
use std::marker::PhantomData;
use vstd::prelude::*;
use wasmer_types::{Features, VMExternRef};
use wasmer_vm::{InstanceHandle, VMFunction, VMGlobal, VMMemory, VMTable};

verus! {

#[verifier::external_type_specification]
#[verifier::external_body]
pub struct ExVMMemory(VMMemory);

#[verifier::external_type_specification]
#[verifier::external_body]
pub struct ExVMTable(VMTable);

#[verifier::external_type_specification]
#[verifier::external_body]
pub struct ExVMGlobal(VMGlobal);

#[verifier::external_type_specification]
#[verifier::external_body]
pub struct ExVMFunction(VMFunction);

#[verifier::external_type_specification]
#[verifier::external_body]
pub struct ExInstanceHandle(InstanceHandle);

#[verifier::external_type_specification]
#[verifier::external_body]
pub struct ExVMExternRef(VMExternRef);

/// Unique identifier of a context.
///
/// Every handle to an object managed by a context carries the identifier of
/// that context, so that a handle is only ever resolved against it.
#[derive(Clone, Copy, PartialEq, Eq, Structural, Debug)]
pub struct ContextId {
    id: u64,
}

impl ContextId {
    /// The identifier as a number.
    pub closed spec fn spec_value(&self) -> nat {
        self.id as nat
    }

    /// The identifier as a number.
    pub fn value(&self) -> (r: u64)
        ensures
            r == self.spec_value(),
    {
        self.id
    }
}

/// The kinds of object that a context owns, one list each.
#[derive(Clone, Copy, PartialEq, Eq, Structural, Debug)]
pub enum Category {
    Memory,
    Table,
    Global,
    HostFunction,
    Instance,
    ExternRef,
}

/// `b` starts with all of `a`.
pub open spec fn extends<A>(a: Seq<A>, b: Seq<A>) -> bool {
    a.len() <= b.len() && b.subrange(0, a.len() as int) == a
}

/// Set of objects managed by a context: one append-only list per category.
pub struct ContextObjects {
    id: ContextId,
    memories: Vec<VMMemory>,
    tables: Vec<VMTable>,
    globals: Vec<VMGlobal>,
    host_funcs: Vec<VMFunction>,
    instances: Vec<InstanceHandle>,
    extern_vals: Vec<VMExternRef>,
}

impl ContextObjects {
    pub closed spec fn spec_id(&self) -> ContextId {
        self.id
    }

    pub closed spec fn memories(&self) -> Seq<VMMemory> {
        self.memories@
    }

    pub closed spec fn tables(&self) -> Seq<VMTable> {
        self.tables@
    }

    pub closed spec fn globals(&self) -> Seq<VMGlobal> {
        self.globals@
    }

    pub closed spec fn host_funcs(&self) -> Seq<VMFunction> {
        self.host_funcs@
    }

    pub closed spec fn instances(&self) -> Seq<InstanceHandle> {
        self.instances@
    }

    pub closed spec fn extern_vals(&self) -> Seq<VMExternRef> {
        self.extern_vals@
    }

    /// The lists of every category but `c` are the same in `self` and `o`.
    pub open spec fn same_except(&self, o: &ContextObjects, c: Category) -> bool {
        &&& self.spec_id() == o.spec_id()
        &&& c != Category::Memory ==> self.memories() == o.memories()
        &&& c != Category::Table ==> self.tables() == o.tables()
        &&& c != Category::Global ==> self.globals() == o.globals()
        &&& c != Category::HostFunction ==> self.host_funcs() == o.host_funcs()
        &&& c != Category::Instance ==> self.instances() == o.instances()
        &&& c != Category::ExternRef ==> self.extern_vals() == o.extern_vals()
    }

    /// `self` is `before` with objects appended, none moved or removed.
    pub open spec fn grows_from(&self, before: &ContextObjects) -> bool {
        &&& self.spec_id() == before.spec_id()
        &&& extends(before.memories(), self.memories())
        &&& extends(before.tables(), self.tables())
        &&& extends(before.globals(), self.globals())
        &&& extends(before.host_funcs(), self.host_funcs())
        &&& extends(before.instances(), self.instances())
        &&& extends(before.extern_vals(), self.extern_vals())
    }

    /// No list holds an object.
    pub open spec fn is_empty(&self) -> bool {
        &&& self.memories().len() == 0
        &&& self.tables().len() == 0
        &&& self.globals().len() == 0
        &&& self.host_funcs().len() == 0
        &&& self.instances().len() == 0
        &&& self.extern_vals().len() == 0
    }

    /// An empty set of objects for the context `id`.
    pub(crate) fn new(id: ContextId) -> (r: ContextObjects)
        ensures
            r.spec_id() == id,
            r.is_empty(),
    {
        ContextObjects {
            id,
            memories: Vec::new(),
            tables: Vec::new(),
            globals: Vec::new(),
            host_funcs: Vec::new(),
            instances: Vec::new(),
            extern_vals: Vec::new(),
        }
    }

    /// The identifier of the context that owns these objects.
    pub fn id(&self) -> (r: ContextId)
        ensures
            r == self.spec_id(),
    {
        self.id
    }
}

/// An object managed by a context: each kind lives in its own list of
/// [`ContextObjects`].
pub trait ContextObject: Sized {
    /// The category whose list holds objects of this kind.
    spec fn category() -> Category;

    /// The list of `ctx` that holds objects of this kind.
    spec fn spec_list(ctx: &ContextObjects) -> Seq<Self>;

    fn list(ctx: &ContextObjects) -> (r: &Vec<Self>)
        ensures
            r@ == Self::spec_list(ctx),
    ;

    fn list_mut(ctx: &mut ContextObjects) -> (r: &mut Vec<Self>)
        ensures
            r@ == Self::spec_list(old(ctx)),
            Self::spec_list(final(ctx)) == final(r)@,
            final(ctx).same_except(old(ctx), Self::category()),
    ;

    /// Growth of a whole set of objects is growth of this kind's list.
    proof fn lemma_list_grows(before: &ContextObjects, after: &ContextObjects)
        requires
            after.grows_from(before),
        ensures
            extends(Self::spec_list(before), Self::spec_list(after)),
    ;

    /// Growth of this kind's list alone is growth of the whole set.
    proof fn lemma_set_grows(before: &ContextObjects, after: &ContextObjects)
        requires
            after.same_except(before, Self::category()),
            extends(Self::spec_list(before), Self::spec_list(after)),
        ensures
            after.grows_from(before),
    ;
}

impl ContextObject for VMMemory {
    open spec fn category() -> Category {
        Category::Memory
    }

    open spec fn spec_list(ctx: &ContextObjects) -> Seq<Self> {
        ctx.memories()
    }

    fn list(ctx: &ContextObjects) -> (r: &Vec<Self>) {
        &ctx.memories
    }

    fn list_mut(ctx: &mut ContextObjects) -> (r: &mut Vec<Self>) {
        &mut ctx.memories
    }

    proof fn lemma_list_grows(before: &ContextObjects, after: &ContextObjects) {
    }

    proof fn lemma_set_grows(before: &ContextObjects, after: &ContextObjects) {
        lemma_lists_extend_themselves(before);
    }
}

impl ContextObject for VMTable {
    open spec fn category() -> Category {
        Category::Table
    }

    open spec fn spec_list(ctx: &ContextObjects) -> Seq<Self> {
        ctx.tables()
    }

    fn list(ctx: &ContextObjects) -> (r: &Vec<Self>) {
        &ctx.tables
    }

    fn list_mut(ctx: &mut ContextObjects) -> (r: &mut Vec<Self>) {
        &mut ctx.tables
    }

    proof fn lemma_list_grows(before: &ContextObjects, after: &ContextObjects) {
    }

    proof fn lemma_set_grows(before: &ContextObjects, after: &ContextObjects) {
        lemma_lists_extend_themselves(before);
    }
}

impl ContextObject for VMGlobal {
    open spec fn category() -> Category {
        Category::Global
    }

    open spec fn spec_list(ctx: &ContextObjects) -> Seq<Self> {
        ctx.globals()
    }

    fn list(ctx: &ContextObjects) -> (r: &Vec<Self>) {
        &ctx.globals
    }

    fn list_mut(ctx: &mut ContextObjects) -> (r: &mut Vec<Self>) {
        &mut ctx.globals
    }

    proof fn lemma_list_grows(before: &ContextObjects, after: &ContextObjects) {
    }

    proof fn lemma_set_grows(before: &ContextObjects, after: &ContextObjects) {
        lemma_lists_extend_themselves(before);
    }
}

impl ContextObject for VMFunction {
    open spec fn category() -> Category {
        Category::HostFunction
    }

    open spec fn spec_list(ctx: &ContextObjects) -> Seq<Self> {
        ctx.host_funcs()
    }

    fn list(ctx: &ContextObjects) -> (r: &Vec<Self>) {
        &ctx.host_funcs
    }

    fn list_mut(ctx: &mut ContextObjects) -> (r: &mut Vec<Self>) {
        &mut ctx.host_funcs
    }

    proof fn lemma_list_grows(before: &ContextObjects, after: &ContextObjects) {
    }

    proof fn lemma_set_grows(before: &ContextObjects, after: &ContextObjects) {
        lemma_lists_extend_themselves(before);
    }
}

impl ContextObject for InstanceHandle {
    open spec fn category() -> Category {
        Category::Instance
    }

    open spec fn spec_list(ctx: &ContextObjects) -> Seq<Self> {
        ctx.instances()
    }

    fn list(ctx: &ContextObjects) -> (r: &Vec<Self>) {
        &ctx.instances
    }

    fn list_mut(ctx: &mut ContextObjects) -> (r: &mut Vec<Self>) {
        &mut ctx.instances
    }

    proof fn lemma_list_grows(before: &ContextObjects, after: &ContextObjects) {
    }

    proof fn lemma_set_grows(before: &ContextObjects, after: &ContextObjects) {
        lemma_lists_extend_themselves(before);
    }
}

impl ContextObject for VMExternRef {
    open spec fn category() -> Category {
        Category::ExternRef
    }

    open spec fn spec_list(ctx: &ContextObjects) -> Seq<Self> {
        ctx.extern_vals()
    }

    fn list(ctx: &ContextObjects) -> (r: &Vec<Self>) {
        &ctx.extern_vals
    }

    fn list_mut(ctx: &mut ContextObjects) -> (r: &mut Vec<Self>) {
        &mut ctx.extern_vals
    }

    proof fn lemma_list_grows(before: &ContextObjects, after: &ContextObjects) {
    }

    proof fn lemma_set_grows(before: &ContextObjects, after: &ContextObjects) {
        lemma_lists_extend_themselves(before);
    }
}

proof fn lemma_lists_extend_themselves(o: &ContextObjects)
    ensures
        extends(o.memories(), o.memories()),
        extends(o.tables(), o.tables()),
        extends(o.globals(), o.globals()),
        extends(o.host_funcs(), o.host_funcs()),
        extends(o.instances(), o.instances()),
        extends(o.extern_vals(), o.extern_vals()),
{
    lemma_extends_refl(o.memories());
    lemma_extends_refl(o.tables());
    lemma_extends_refl(o.globals());
    lemma_extends_refl(o.host_funcs());
    lemma_extends_refl(o.instances());
    lemma_extends_refl(o.extern_vals());
}

proof fn lemma_extends_refl<A>(a: Seq<A>)
    ensures
        extends(a, a),
{
    assert(a.subrange(0, a.len() as int) =~= a);
}

proof fn lemma_extends_trans<A>(a: Seq<A>, b: Seq<A>, c: Seq<A>)
    requires
        extends(a, b),
        extends(b, c),
    ensures
        extends(a, c),
{
    assert(c.subrange(0, a.len() as int) =~= b.subrange(0, a.len() as int));
}

/// Handle to an object managed by a context.
///
/// It holds the context's identifier and an index into the list of its kind;
/// a reference to the context must be passed in separately to reach the object.
pub struct ContextHandle<T: ContextObject> {
    id: ContextId,
    idx: usize,
    marker: PhantomData<T>,
}

impl<T: ContextObject> ContextHandle<T> {
    /// The identifier of the context that the handle belongs to.
    pub closed spec fn spec_id(&self) -> ContextId {
        self.id
    }

    /// The position of the object in the list of its kind.
    pub closed spec fn spec_index(&self) -> nat {
        self.idx as nat
    }

    /// The handle may be resolved against `ctx`: it was made by `ctx`'s context
    /// and the object is there.
    pub open spec fn valid_in(&self, ctx: &ContextObjects) -> bool {
        self.spec_id() == ctx.spec_id() && self.spec_index() < T::spec_list(ctx).len()
    }

    /// The object that the handle designates in `ctx`.
    pub open spec fn resolves_to(&self, ctx: &ContextObjects) -> T {
        T::spec_list(ctx)[self.spec_index() as int]
    }

    /// Moves `val` into the context and returns a handle to it.
    pub fn new(ctx: &mut ContextObjects, val: T) -> (r: ContextHandle<T>)
        ensures
            r.spec_id() == old(ctx).spec_id(),
            r.spec_index() == T::spec_list(old(ctx)).len(),
            T::spec_list(final(ctx)) == T::spec_list(old(ctx)).push(val),
            final(ctx).same_except(old(ctx), T::category()),
            final(ctx).grows_from(old(ctx)),
            r.valid_in(final(ctx)),
            r.resolves_to(final(ctx)) == val,
    {
        let id = ctx.id;
        let ghost before = *ctx;
        let list = T::list_mut(ctx);
        let idx = list.len();
        list.push(val);
        proof {
            assert(extends(T::spec_list(&before), T::spec_list(ctx))) by {
                assert(T::spec_list(ctx).subrange(0, idx as int) =~= T::spec_list(&before));
            }
            T::lemma_set_grows(&before, ctx);
        }
        ContextHandle { id, idx, marker: PhantomData }
    }

    /// The object that this handle designates.
    pub fn get<'a>(&self, ctx: &'a ContextObjects) -> (r: &'a T)
        requires
            self.valid_in(ctx),
        ensures
            *r == self.resolves_to(ctx),
    {
        &T::list(ctx)[self.idx]
    }

    /// The object that this handle designates, for modification.
    pub fn get_mut<'a>(&'a self, ctx: &'a mut ContextObjects) -> (r: &'a mut T)
        requires
            self.valid_in(old(ctx)),
        ensures
            *r == self.resolves_to(old(ctx)),
            T::spec_list(final(ctx)) == T::spec_list(old(ctx)).update(
                self.spec_index() as int,
                *final(r),
            ),
            final(ctx).same_except(old(ctx), T::category()),
    {
        let list = T::list_mut(ctx);
        &mut list[self.idx]
    }

    /// Whether the handle may be resolved against `ctx`.
    pub fn is_valid_in(&self, ctx: &ContextObjects) -> (r: bool)
        ensures
            r == self.valid_in(ctx),
    {
        self.id == ctx.id && self.idx < T::list(ctx).len()
    }

    /// The identifier of the context that the handle belongs to.
    pub fn context_id(&self) -> (r: ContextId)
        ensures
            r == self.spec_id(),
    {
        self.id
    }

    /// The position of the object in the list of its kind.
    pub fn index(&self) -> (r: usize)
        ensures
            r == self.spec_index(),
    {
        self.idx
    }
}

/// A handle made by one context is never valid in another context, whatever
/// the kind of object it designates.
pub proof fn lemma_handle_isolation<T: ContextObject>(
    h: ContextHandle<T>,
    owner: &ContextObjects,
    other: &ContextObjects,
)
    requires
        h.valid_in(owner),
        owner.spec_id() != other.spec_id(),
    ensures
        !h.valid_in(other),
{
}

/// Objects appended to a context, of any kind and in any number, neither
/// invalidate a handle nor change what it designates.
pub proof fn lemma_append_stability<T: ContextObject>(
    h: ContextHandle<T>,
    before: &ContextObjects,
    after: &ContextObjects,
)
    requires
        h.valid_in(before),
        after.grows_from(before),
    ensures
        h.valid_in(after),
        h.resolves_to(after) == h.resolves_to(before),
{
    T::lemma_list_grows(before, after);
    assert(T::spec_list(after).subrange(0, T::spec_list(before).len() as int)[h.spec_index() as int]
        == T::spec_list(after)[h.spec_index() as int]);
}

/// Growth is transitive, so a run of allocations grows the set as one does.
pub proof fn lemma_grows_trans(a: &ContextObjects, b: &ContextObjects, c: &ContextObjects)
    requires
        b.grows_from(a),
        c.grows_from(b),
    ensures
        c.grows_from(a),
{
    lemma_extends_trans(a.memories(), b.memories(), c.memories());
    lemma_extends_trans(a.tables(), b.tables(), c.tables());
    lemma_extends_trans(a.globals(), b.globals(), c.globals());
    lemma_extends_trans(a.host_funcs(), b.host_funcs(), c.host_funcs());
    lemma_extends_trans(a.instances(), b.instances(), c.instances());
    lemma_extends_trans(a.extern_vals(), b.extern_vals(), c.extern_vals());
}

/// The state of a context; boxed so that its address never changes, since
/// parts of the VM hold raw pointers back to it.
pub struct ContextInner<T> {
    objects: ContextObjects,
    config: Features,
    data: T,
}

/// A context containing a set of WebAssembly instances, along with host state.
///
/// All WebAssembly instances, memories, tables, globals and functions live in
/// a context, and their backing memory is only freed with it. The `T`
/// parameter is arbitrary host data attached to the context.
pub struct Context<T> {
    inner: Box<ContextInner<T>>,
}

impl<T> Context<T> {
    /// The identifier of the context.
    pub closed spec fn spec_id(&self) -> ContextId {
        self.inner.objects.id
    }

    /// The host state.
    pub closed spec fn spec_data(&self) -> T {
        self.inner.data
    }

    /// The objects that the context owns.
    pub closed spec fn spec_objects(&self) -> ContextObjects {
        self.inner.objects
    }

    /// The compilation configuration of the engine the context runs on.
    pub closed spec fn spec_config(&self) -> Features {
        self.inner.config
    }

    /// Creates a context holding `data` and no objects, with an identifier
    /// taken from `ids`; `None` once `ids` has no identifier left.
    pub fn new(ids: &mut IdAllocator, config: Features, data: T) -> (r: Option<Context<T>>)
        requires
            old(ids).wf(),
        ensures
            final(ids).wf(),
            r is Some ==> final(ids).issued() == old(ids).issued().push(old(ids).next_id() as u64),
            r is None ==> final(ids).issued() == old(ids).issued(),
            old(ids).next_id() < u64::MAX ==> r is Some && final(ids).next_id() == old(
                ids,
            ).next_id() + 1,
            old(ids).next_id() == u64::MAX ==> r is None && final(ids).next_id() == old(
                ids,
            ).next_id(),
            r matches Some(c) ==> c.spec_id().spec_value() == old(ids).next_id(),
            r matches Some(c) ==> c.spec_data() == data,
            r matches Some(c) ==> c.spec_config() == config,
            r matches Some(c) ==> c.spec_objects().spec_id() == c.spec_id(),
            r matches Some(c) ==> c.spec_objects().is_empty(),
    {
        match ids.allocate() {
            Some(id) => {
                let objects = ContextObjects::new(ContextId { id });
                Some(Context { inner: Box::new(ContextInner { objects, config, data }) })
            },
            None => None,
        }
    }

    /// The identifier of the context.
    pub fn id(&self) -> (r: ContextId)
        ensures
            r == self.spec_id(),
    {
        self.inner.objects.id
    }

    /// The host state in this context.
    pub fn data(&self) -> (r: &T)
        ensures
            *r == self.spec_data(),
    {
        &self.inner.data
    }

    /// The host state in this context, for modification.
    pub fn data_mut(&mut self) -> (r: &mut T)
        ensures
            *r == old(self).spec_data(),
            final(self).spec_data() == *final(r),
            final(self).spec_objects() == old(self).spec_objects(),
    {
        &mut self.inner.data
    }

    /// Drops the context and returns the host state that was stored in it.
    pub fn into_data(self) -> (r: T)
        ensures
            r == self.spec_data(),
    {
        self.inner.data
    }

    /// The objects that the context owns.
    pub fn objects(&self) -> (r: &ContextObjects)
        ensures
            *r == self.spec_objects(),
    {
        &self.inner.objects
    }

    /// The compilation configuration of the engine the context runs on.
    pub fn config(&self) -> (r: &Features)
        ensures
            *r == self.spec_config(),
    {
        &self.inner.config
    }

    /// Moves `val` into the context and returns a handle to it.
    pub fn allocate<O: ContextObject>(&mut self, val: O) -> (r: ContextHandle<O>)
        ensures
            r.spec_id() == old(self).spec_id(),
            r.spec_index() == O::spec_list(&old(self).spec_objects()).len(),
            O::spec_list(&final(self).spec_objects()) == O::spec_list(
                &old(self).spec_objects(),
            ).push(val),
            final(self).spec_objects().same_except(&old(self).spec_objects(), O::category()),
            final(self).spec_objects().grows_from(&old(self).spec_objects()),
            r.valid_in(&final(self).spec_objects()),
            r.resolves_to(&final(self).spec_objects()) == val,
            final(self).spec_data() == old(self).spec_data(),
            final(self).spec_config() == old(self).spec_config(),
    {
        ContextHandle::new(&mut self.inner.objects, val)
    }

    /// The object that `h` designates, for modification.
    pub fn get_mut<'a, O: ContextObject>(&'a mut self, h: &'a ContextHandle<O>) -> (r: &'a mut O)
        requires
            h.valid_in(&old(self).spec_objects()),
        ensures
            *r == h.resolves_to(&old(self).spec_objects()),
            O::spec_list(&final(self).spec_objects()) == O::spec_list(
                &old(self).spec_objects(),
            ).update(h.spec_index() as int, *final(r)),
            final(self).spec_objects().same_except(&old(self).spec_objects(), O::category()),
            final(self).spec_data() == old(self).spec_data(),
            final(self).spec_config() == old(self).spec_config(),
    {
        h.get_mut(&mut self.inner.objects)
    }
}

/// A temporary shared handle to a [`Context`].
pub struct ContextRef<'a, T> {
    inner: &'a ContextInner<T>,
}

impl<'a, T> ContextRef<'a, T> {
    /// The host state.
    pub closed spec fn spec_data(&self) -> T {
        self.inner.data
    }

    /// The objects of the context.
    pub closed spec fn spec_objects(&self) -> ContextObjects {
        self.inner.objects
    }

    /// The host state in this context.
    pub fn data(&self) -> (r: &T)
        ensures
            *r == self.spec_data(),
    {
        &self.inner.data
    }

    /// The objects of the context.
    pub fn objects(&self) -> (r: &ContextObjects)
        ensures
            *r == self.spec_objects(),
    {
        &self.inner.objects
    }
}

/// A temporary exclusive handle to a [`Context`].
pub struct ContextRefMut<'a, T> {
    inner: &'a mut ContextInner<T>,
}

impl<'a, T> ContextRefMut<'a, T> {
    /// The host state.
    pub closed spec fn spec_data(&self) -> T {
        self.inner.data
    }

    /// The objects of the context.
    pub closed spec fn spec_objects(&self) -> ContextObjects {
        self.inner.objects
    }

    /// The host state in this context.
    pub fn data(&self) -> (r: &T)
        ensures
            *r == self.spec_data(),
    {
        &self.inner.data
    }

    /// The host state in this context, for modification.
    pub fn data_mut(&mut self) -> (r: &mut T)
        ensures
            *r == old(self).spec_data(),
            final(self).spec_data() == *final(r),
            final(self).spec_objects() == old(self).spec_objects(),
    {
        &mut self.inner.data
    }
}

/// A value that can lend a [`ContextRef`].
pub trait AsContextRef {
    type Data;

    /// The host state of the context that the value stands for.
    spec fn context_data(&self) -> Self::Data;

    /// The objects of the context that the value stands for.
    spec fn context_objects(&self) -> ContextObjects;

    fn as_context_ref(&self) -> (r: ContextRef<'_, Self::Data>)
        ensures
            r.spec_data() == self.context_data(),
            r.spec_objects() == self.context_objects(),
    ;
}

/// A value that can lend a [`ContextRefMut`].
pub trait AsContextRefMut: AsContextRef {
    fn as_context_ref_mut(&mut self) -> (r: ContextRefMut<'_, Self::Data>)
        ensures
            r.spec_data() == old(self).context_data(),
            r.spec_objects() == old(self).context_objects(),
    ;
}

impl<T> AsContextRef for Context<T> {
    type Data = T;

    open spec fn context_data(&self) -> T {
        self.spec_data()
    }

    open spec fn context_objects(&self) -> ContextObjects {
        self.spec_objects()
    }

    fn as_context_ref(&self) -> (r: ContextRef<'_, T>) {
        ContextRef { inner: &self.inner }
    }
}

impl<T> AsContextRefMut for Context<T> {
    fn as_context_ref_mut(&mut self) -> (r: ContextRefMut<'_, T>) {
        ContextRefMut { inner: &mut self.inner }
    }
}

impl<'a, T> AsContextRef for ContextRef<'a, T> {
    type Data = T;

    open spec fn context_data(&self) -> T {
        self.spec_data()
    }

    open spec fn context_objects(&self) -> ContextObjects {
        self.spec_objects()
    }

    fn as_context_ref(&self) -> (r: ContextRef<'_, T>) {
        ContextRef { inner: self.inner }
    }
}

impl<'a, T> AsContextRef for ContextRefMut<'a, T> {
    type Data = T;

    open spec fn context_data(&self) -> T {
        self.spec_data()
    }

    open spec fn context_objects(&self) -> ContextObjects {
        self.spec_objects()
    }

    fn as_context_ref(&self) -> (r: ContextRef<'_, T>) {
        ContextRef { inner: self.inner }
    }
}

impl<'a, T> AsContextRefMut for ContextRefMut<'a, T> {
    fn as_context_ref_mut(&mut self) -> (r: ContextRefMut<'_, T>) {
        ContextRefMut { inner: self.inner }
    }
}

} // verus!