use thin_trait_object::ast::{
    FnArg, MethodSig, Path, Receiver, TraitDecl, TraitItemDecl, TypeParamBound, Visibility,
};
use thin_trait_object::attr::attribute_main;
use thin_trait_object::handle_model::{ModelHandle, ModelHeap};
use thin_trait_object::marker_traits::{default_marker_filter, MarkerTrait};
use thin_trait_object::names::{numbered_arg_name, usize_decimal};
use thin_trait_object::options::{RawOption, RawValue};

fn receiver_arg(span: usize) -> FnArg {
    FnArg::Receiver(Receiver { reference: true, mutable: false, span })
}

fn plain_method(name: &str, span: usize) -> TraitItemDecl {
    TraitItemDecl::Method(MethodSig {
        asyncness: None,
        unsafety: false,
        abi: None,
        name: name.to_string(),
        generics: Vec::new(),
        where_clause: None,
        inputs: vec![receiver_arg(span)],
        variadic: false,
        output: None,
        span,
    })
}

fn trait_with_supertraits(name: &str, supertraits: Vec<TypeParamBound>) -> TraitDecl {
    TraitDecl {
        name: name.to_string(),
        vis: Visibility::Public,
        generics: Vec::new(),
        supertraits,
        items: vec![plain_method("my_method", 1)],
        span: 0,
    }
}

fn single_path(name: &str) -> Path {
    Path { leading_colon: false, segments: vec![name.to_string()] }
}

fn full_path(a: &str, b: &str, c: &str) -> Path {
    Path {
        leading_colon: true,
        segments: vec![a.to_string(), b.to_string(), c.to_string()],
    }
}

#[test]
fn no_capability_supertrait_emits_no_marker() {
    let input = trait_with_supertraits("Foo", Vec::new());
    let out = attribute_main(Vec::new(), input, false).unwrap();
    assert!(out.trait_object.markers.is_empty());
}

#[test]
fn send_supertrait_emits_exactly_one_unsafe_marker() {
    let bounds = vec![TypeParamBound::TraitBound { path: single_path("Send"), span: 2 }];
    let input = trait_with_supertraits("Foo", bounds);
    let out = attribute_main(Vec::new(), input, false).unwrap();
    assert_eq!(out.trait_object.markers.len(), 1);
    let marker = &out.trait_object.markers[0];
    assert!(marker.unsafety);
    assert_eq!(marker.trait_path.segments, vec!["Send".to_string()]);
    assert_eq!(marker.implementor.primary_name, "BoxedFoo");
}

#[test]
fn fully_qualified_sync_is_recognized() {
    let bounds = vec![TypeParamBound::TraitBound {
        path: full_path("core", "marker", "Sync"),
        span: 2,
    }];
    let input = trait_with_supertraits("Foo", bounds);
    let out = attribute_main(Vec::new(), input, false).unwrap();
    assert_eq!(out.trait_object.markers.len(), 1);
    assert!(out.trait_object.markers[0].unsafety);
}

#[test]
fn unwind_safety_tags_are_safe_markers() {
    let bounds = vec![
        TypeParamBound::TraitBound { path: single_path("UnwindSafe"), span: 2 },
        TypeParamBound::TraitBound { path: single_path("RefUnwindSafe"), span: 3 },
        TypeParamBound::TraitBound { path: single_path("Unpin"), span: 4 },
    ];
    let input = trait_with_supertraits("Foo", bounds);
    let out = attribute_main(Vec::new(), input, false).unwrap();
    assert_eq!(out.trait_object.markers.len(), 3);
    for marker in &out.trait_object.markers {
        assert!(!marker.unsafety);
    }
}

#[test]
fn unrecognized_supertrait_is_dropped() {
    let bounds = vec![TypeParamBound::TraitBound { path: single_path("Debug"), span: 2 }];
    let input = trait_with_supertraits("Foo", bounds);
    let out = attribute_main(Vec::new(), input, false).unwrap();
    assert!(out.trait_object.markers.is_empty());
}

#[test]
fn static_bound_removes_the_lifetime_parameter() {
    let bounds = vec![TypeParamBound::LifetimeBound { name: "static".to_string(), span: 2 }];
    let input = trait_with_supertraits("Foo", bounds);
    let out = attribute_main(Vec::new(), input, false).unwrap();
    assert!(!out.trait_object.has_lifetime_param);
    assert!(!out.trait_object.name.elided_lifetime);
    assert!(out.trait_object.markers.is_empty());
}

#[test]
fn marker_override_replaces_the_default_table() {
    let override_list = vec![MarkerTrait { unsafety: false, path: single_path("MyMarker") }];
    let options = vec![RawOption {
        name: "marker_traits".to_string(),
        value: RawValue::Markers(override_list),
        span: 1,
    }];
    let bounds = vec![
        TypeParamBound::TraitBound { path: single_path("MyMarker"), span: 2 },
        // Under an explicit override, the default capability names are no
        // longer recognized.
        TypeParamBound::TraitBound { path: single_path("Send"), span: 3 },
    ];
    let input = trait_with_supertraits("Foo", bounds);
    let out = attribute_main(options, input, false).unwrap();
    assert_eq!(out.trait_object.markers.len(), 1);
    let marker = &out.trait_object.markers[0];
    assert!(!marker.unsafety);
    assert_eq!(marker.trait_path.segments, vec!["MyMarker".to_string()]);
}

#[test]
fn default_filter_table() {
    assert_eq!(default_marker_filter(&single_path("Send")), Some(true));
    assert_eq!(default_marker_filter(&single_path("Sync")), Some(true));
    assert_eq!(default_marker_filter(&single_path("Unpin")), Some(false));
    assert_eq!(default_marker_filter(&full_path("std", "panic", "UnwindSafe")), Some(false));
    assert_eq!(default_marker_filter(&full_path("std", "panic", "RefUnwindSafe")), Some(false));
    assert_eq!(default_marker_filter(&single_path("Debug")), None);
    // The fully qualified form requires the right crate root.
    assert_eq!(default_marker_filter(&full_path("std", "marker", "Send")), None);
}

#[test]
fn raw_round_trip_destroys_exactly_once() {
    let mut heap = ModelHeap::new();
    let handle = heap.new_handle();
    let addr = handle.addr;
    // intoRaw, fromRaw, then normal teardown: destruction runs exactly once.
    let raw = handle.into_raw();
    assert_eq!(raw.addr, addr);
    let handle2 = ModelHandle::from_raw(raw);
    assert_eq!(handle2.addr, addr);
    heap.drop_handle(handle2);
    assert_eq!(heap.allocs[addr].drops, 1);
    assert!(!heap.allocs[addr].live);
}

#[test]
fn as_raw_keeps_ownership() {
    let mut heap = ModelHeap::new();
    let handle = heap.new_handle();
    let addr = handle.addr;
    let raw = handle.as_raw();
    assert_eq!(raw.addr, addr);
    // The handle still owns the allocation and tears it down normally.
    heap.drop_handle(handle);
    assert_eq!(heap.allocs[addr].drops, 1);
}

#[test]
fn each_handle_owns_its_own_allocation() {
    let mut heap = ModelHeap::new();
    let a = heap.new_handle();
    let b = heap.new_handle();
    assert_ne!(a.addr, b.addr);
    heap.drop_handle(a);
    assert_eq!(heap.allocs[0].drops, 1);
    assert_eq!(heap.allocs[1].drops, 0);
    heap.drop_handle(b);
    assert_eq!(heap.allocs[1].drops, 1);
}

#[test]
fn decimal_rendering_is_exact() {
    assert_eq!(usize_decimal(0), "0");
    assert_eq!(usize_decimal(7), "7");
    assert_eq!(usize_decimal(10), "10");
    assert_eq!(usize_decimal(905), "905");
    assert_eq!(usize_decimal(1234567890), "1234567890");
    assert_eq!(numbered_arg_name("__arg", 12), "__arg12");
    assert_eq!(
        numbered_arg_name("__thintraitobjectmacro_arg", 0),
        "__thintraitobjectmacro_arg0"
    );
}
