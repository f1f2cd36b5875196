use std::sync::Arc;
use wasmer_artifact_core::context::{AsContextRef, AsContextRefMut, Context};
use wasmer_artifact_core::ids::IdAllocator;
use wasmer_types::{Features, GlobalType, Mutability, Type, VMExternRef};
use wasmer_vm::{Global, VMGlobal};

fn global() -> VMGlobal {
    VMGlobal {
        from: Arc::new(Global::new(GlobalType::new(Type::I32, Mutability::Const))),
        instance_ref: None,
    }
}

#[test]
fn context_holds_host_state() {
    let mut ids = IdAllocator::new();
    let mut ctx = Context::new(&mut ids, Features::new(), String::from("host")).unwrap();
    assert_eq!(ctx.data(), "host");
    ctx.data_mut().push_str(" state");
    assert_eq!(ctx.data(), "host state");
    assert_eq!(ctx.as_context_ref().data(), "host state");
    ctx.as_context_ref_mut().data_mut().push('!');
    assert_eq!(ctx.as_context_ref_mut().data(), "host state!");
    assert_eq!(ctx.into_data(), "host state!");
}

#[test]
fn context_starts_without_objects_and_with_its_id() {
    let mut ids = IdAllocator::new();
    let a = Context::new(&mut ids, Features::new(), ()).unwrap();
    let b = Context::new(&mut ids, Features::new(), ()).unwrap();
    assert_eq!(a.id().value(), 0);
    assert_eq!(b.id().value(), 1);
    assert_eq!(a.objects().id(), a.id());
    assert_ne!(a.id(), b.id());
}

#[test]
fn handle_resolves_to_the_allocated_object() {
    let mut ids = IdAllocator::new();
    let mut ctx = Context::new(&mut ids, Features::new(), ()).unwrap();
    let g = global();
    let from = g.from.clone();
    let h = ctx.allocate(g);
    assert_eq!(h.index(), 0);
    assert_eq!(h.context_id(), ctx.id());
    assert!(Arc::ptr_eq(&h.get(ctx.objects()).from, &from));
}

#[test]
fn extern_refs_get_consecutive_indices() {
    let mut ctx = Context::new(&mut IdAllocator::new(), Features::new(), ()).unwrap();
    let h0 = ctx.allocate(VMExternRef::null());
    let h1 = ctx.allocate(VMExternRef::null());
    assert_eq!(h0.index(), 0);
    assert_eq!(h1.index(), 1);
    assert_eq!(*h1.get(ctx.objects()), VMExternRef::null());
}

#[test]
fn context_keeps_its_configuration() {
    let mut features = Features::new();
    features.multi_value(false);
    let ctx = Context::new(&mut IdAllocator::new(), features.clone(), 5u8).unwrap();
    assert_eq!(ctx.config(), &features);
    assert_ne!(ctx.config(), &Features::new());
}

#[test]
fn resolved_object_stays_put_while_others_are_added() {
    let mut ids = IdAllocator::new();
    let mut ctx = Context::new(&mut ids, Features::new(), ()).unwrap();
    let first = global();
    let from = first.from.clone();
    let h = ctx.allocate(first);
    for _ in 0..100 {
        ctx.allocate(global());
        ctx.allocate(VMExternRef::null());
    }
    assert_eq!(h.index(), 0);
    assert!(Arc::ptr_eq(&h.get(ctx.objects()).from, &from));
}

#[test]
fn get_mut_replaces_the_object() {
    let mut ids = IdAllocator::new();
    let mut ctx = Context::new(&mut ids, Features::new(), ()).unwrap();
    let h = ctx.allocate(global());
    let other = global();
    let from = other.from.clone();
    *ctx.get_mut(&h) = other;
    assert!(Arc::ptr_eq(&h.get(ctx.objects()).from, &from));
}

#[test]
fn handles_of_two_contexts_carry_different_ids() {
    let mut ids = IdAllocator::new();
    let mut a = Context::new(&mut ids, Features::new(), ()).unwrap();
    let b = Context::new(&mut ids, Features::new(), ()).unwrap();
    let h = a.allocate(global());
    assert_eq!(h.context_id(), a.id());
    assert_ne!(h.context_id(), b.objects().id());
}

#[test]
fn handle_is_valid_only_in_its_own_context() {
    let mut ids = IdAllocator::new();
    let mut a = Context::new(&mut ids, Features::new(), ()).unwrap();
    let mut b = Context::new(&mut ids, Features::new(), ()).unwrap();
    let h = a.allocate(global());
    let e = a.allocate(VMExternRef::null());
    b.allocate(global());
    b.allocate(VMExternRef::null());
    assert!(h.is_valid_in(a.objects()));
    assert!(e.is_valid_in(a.objects()));
    assert!(!h.is_valid_in(b.objects()));
    assert!(!e.is_valid_in(b.objects()));
}
