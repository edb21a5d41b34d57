use simpl_actor::codegen::actor_plan::{
    enum_arguments, enum_generics, mailbox_arguments, plan_methods, plan_names, GenericArgument,
    GenericParam, PlanError,
};
use simpl_actor::codegen::attrs::{extract_messages, scan_attrs, AttrShape, ImplFn};
use simpl_actor::codegen::lifetimes::{name_lifetimes, GenericArg, Segment, TypeShape};
use simpl_actor::codegen::message::{plan_message, FieldSig, MessageSig, ReceiverKind};

fn chars(s: &str) -> Vec<char> {
    s.chars().collect()
}

fn text(v: &[char]) -> String {
    v.iter().collect()
}

fn slots(base: &str, ty: &TypeShape) -> Vec<String> {
    name_lifetimes(&chars(base), ty).iter().map(|v| text(v)).collect()
}

fn path(ident: &str, args: Option<Vec<GenericArg>>) -> TypeShape {
    TypeShape::Path(vec![Segment { ident: chars(ident), args }])
}

#[test]
fn reference_gets_slot_zero() {
    assert_eq!(slots("'borrow_data__s", &TypeShape::Reference), vec!["'borrow_data__s_0"]);
}

#[test]
fn reference_inside_a_path_argument() {
    let ty = path("Vec", Some(vec![GenericArg::Type(TypeShape::Reference)]));
    assert_eq!(slots("'m__v", &ty), vec!["'m__v_0"]);
}

#[test]
fn tuple_elements_are_numbered() {
    let ty = TypeShape::Tuple(vec![TypeShape::Reference, TypeShape::Other, TypeShape::Reference]);
    assert_eq!(slots("'m__t", &ty), vec!["'m__t_0", "'m__t_1"]);
}

#[test]
fn lifetime_argument_is_named() {
    let ty = path(
        "Cow",
        Some(vec![GenericArg::Lifetime, GenericArg::Type(path("str", None))]),
    );
    assert_eq!(slots("'m__c", &ty), vec!["'m__c_0"]);
}

#[test]
fn array_slice_group_paren_suffixes() {
    assert_eq!(slots("'m__a", &TypeShape::Array(Box::new(TypeShape::Reference))), vec!["'m__a_0"]);
    assert_eq!(slots("'m__a", &TypeShape::Slice(Box::new(TypeShape::Reference))), vec!["'m__a_0"]);
    assert_eq!(slots("'m__a", &TypeShape::Group(Box::new(TypeShape::Reference))), vec!["'m__a_0"]);
    assert_eq!(slots("'m__a", &TypeShape::Paren(Box::new(TypeShape::Reference))), vec!["'m__a_0"]);
}

#[test]
fn slots_are_numbered_across_nested_types() {
    let ty = TypeShape::Tuple(vec![
        path("Vec", Some(vec![GenericArg::Type(TypeShape::Reference)])),
        TypeShape::Reference,
    ]);
    assert_eq!(slots("'f__x", &ty), vec!["'f__x_0", "'f__x_1"]);
}

#[test]
fn nested_tuples_get_distinct_names() {
    let inner = TypeShape::Tuple(vec![TypeShape::Reference, TypeShape::Reference]);
    let ty = TypeShape::Tuple(vec![inner, TypeShape::Reference]);
    assert_eq!(slots("'t__x", &ty), vec!["'t__x_0", "'t__x_1", "'t__x_2"]);
    let sig = MessageSig {
        name: "t".to_string(),
        receiver: ReceiverKind::Shared,
        fields: vec![FieldSig {
            ident: Some("x".to_string()),
            ty: TypeShape::Tuple(vec![
                TypeShape::Tuple(vec![TypeShape::Reference, TypeShape::Reference]),
                TypeShape::Reference,
            ]),
        }],
        type_params: vec![],
    };
    let p = plan_message(&sig);
    let names: Vec<String> = p.lifetimes.iter().map(|v| text(v)).collect();
    assert_eq!(names, vec!["'t__x_0", "'t__x_1", "'t__x_2"]);
}

#[test]
fn many_slots_use_several_digits() {
    let ty = TypeShape::Tuple((0..12).map(|_| TypeShape::Reference).collect());
    let names = slots("'m__w", &ty);
    assert_eq!(names.len(), 12);
    assert_eq!(names[10], "'m__w_10");
    assert_eq!(names[11], "'m__w_11");
}

#[test]
fn other_arguments_are_not_counted() {
    let ty = path(
        "Map",
        Some(vec![GenericArg::Other, GenericArg::Lifetime, GenericArg::Other, GenericArg::Lifetime]),
    );
    assert_eq!(slots("'m__k", &ty), vec!["'m__k_0", "'m__k_1"]);
}

#[test]
fn types_without_slots_get_no_names() {
    assert!(slots("'m__n", &TypeShape::Other).is_empty());
    assert!(slots("'m__n", &path("u64", None)).is_empty());
}

fn attr_path(name: &str) -> AttrShape {
    AttrShape::Path(vec![name.to_string()])
}

#[test]
fn message_attribute_is_found_and_removed() {
    let f = ImplFn { attrs: vec![attr_path("doc"), attr_path("message"), attr_path("inline")], returns: true };
    let s = scan_attrs(&f);
    assert!(s.is_message);
    assert_eq!(s.keep, vec![true, false, true]);
    assert!(!s.infallible);
    assert!(s.bad_args.is_empty());
}

#[test]
fn infallible_argument() {
    let f = ImplFn {
        attrs: vec![AttrShape::List { path: vec!["message".to_string()], infallible_arg: true }],
        returns: true,
    };
    let s = scan_attrs(&f);
    assert!(s.is_message);
    assert!(s.infallible);
}

#[test]
fn no_return_type_is_infallible() {
    let f = ImplFn { attrs: vec![attr_path("message")], returns: false };
    assert!(scan_attrs(&f).infallible);
    let plain = ImplFn { attrs: vec![attr_path("doc")], returns: true };
    let s = scan_attrs(&plain);
    assert!(!s.is_message);
    assert_eq!(s.keep, vec![true]);
}

#[test]
fn only_the_first_marker_counts() {
    let f = ImplFn { attrs: vec![attr_path("message"), attr_path("message")], returns: true };
    let s = scan_attrs(&f);
    assert_eq!(s.keep, vec![false, true]);
    let multi = ImplFn { attrs: vec![AttrShape::Path(vec!["a".to_string(), "message".to_string()])], returns: true };
    assert!(!scan_attrs(&multi).is_message);
}

#[test]
fn bad_arguments_are_reported_last_first() {
    let bad = |returns| ImplFn {
        attrs: vec![attr_path("doc"), AttrShape::List { path: vec!["message".to_string()], infallible_arg: false }],
        returns,
    };
    let fns = vec![bad(true), ImplFn { attrs: vec![attr_path("message")], returns: true }, bad(false)];
    let x = extract_messages(&fns);
    assert_eq!(x.messages, vec![0, 1, 2]);
    assert_eq!(x.errors, vec![(2, 1), (0, 1)]);
    assert_eq!(x.scans.len(), 3);
}

#[test]
fn message_plan() {
    let sig = MessageSig {
        name: "borrow_data".to_string(),
        receiver: ReceiverKind::Shared,
        fields: vec![
            FieldSig { ident: Some("s".to_string()), ty: TypeShape::Reference },
            FieldSig { ident: None, ty: path("u8", None) },
        ],
        type_params: vec!["T".to_string()],
    };
    let p = plan_message(&sig);
    assert_eq!(p.variant, "BorrowData");
    assert_eq!(text(&p.fields[0].ident), "s");
    assert_eq!(text(&p.fields[1].ident), "__field1");
    assert_eq!(p.lifetimes.iter().map(|v| text(v)).collect::<Vec<_>>(), vec!["'borrow_data__s_0"]);
    assert_eq!(p.type_params.iter().map(|v| text(v)).collect::<Vec<_>>(), vec!["T"]);
    assert!(p.read_only);
    let m = plan_methods("borrow_data", &p);
    assert_eq!(m.async_name, None);
    assert_eq!(m.after_name, None);
    assert_eq!(m.async_after_name, None);
    assert!(m.deadlock_message.starts_with(
        "cannot call non-async messages on self as this would deadlock - please use the borrow_data_async variant instead\n"
    ));
}

#[test]
fn only_shared_receivers_are_read_only() {
    let plan = |receiver| {
        plan_message(&MessageSig { name: "m".to_string(), receiver, fields: vec![], type_params: vec![] })
            .read_only
    };
    assert!(plan(ReceiverKind::Shared));
    assert!(!plan(ReceiverKind::Exclusive));
    assert!(!plan(ReceiverKind::Owned));
    assert!(!plan(ReceiverKind::Absent));
}

#[test]
fn variant_names_are_upper_camel_case() {
    let sig = MessageSig { name: "inc_myself".to_string(), receiver: ReceiverKind::Exclusive, fields: vec![], type_params: vec![] };
    let p = plan_message(&sig);
    assert_eq!(p.variant, "IncMyself");
    let m = plan_methods("inc_myself", &p);
    assert_eq!(m.async_name, Some("inc_myself_async".to_string()));
    assert_eq!(m.after_name, Some("inc_myself_after".to_string()));
    assert_eq!(m.async_after_name, Some("inc_myself_async_after".to_string()));
}

#[test]
fn actor_names() {
    let p = vec!["crate".to_string(), "CounterActor".to_string()];
    let n = plan_names(Some(&p)).ok().unwrap();
    assert_eq!(n.ident, "CounterActor");
    assert_eq!(n.msg_ident, "CounterActorMsg");
    assert_eq!(n.ref_ident, "CounterActorRef");
    assert_eq!(n.ref_global_ident, "COUNTER_ACTOR_ACTOR_REF");
    assert_eq!(plan_names(None).err(), Some(PlanError::NotAPath));
    assert_eq!(plan_names(Some(&vec![])).err(), Some(PlanError::MissingIdent));
}

fn names_of_params(v: &[GenericParam]) -> Vec<String> {
    v.iter()
        .map(|p| match p {
            GenericParam::Lifetime(n) => format!("L:{}", text(n)),
            GenericParam::Type(n) => format!("T:{}", text(n)),
        })
        .collect()
}

fn names_of_args(v: &[GenericArgument]) -> Vec<String> {
    v.iter()
        .map(|a| match a {
            GenericArgument::Lifetime(n) => text(n),
            GenericArgument::Static => "'static".to_string(),
            GenericArgument::Type(n) => text(n),
            GenericArgument::Unit => "()".to_string(),
        })
        .collect()
}

#[test]
fn generics_of_the_message_enum() {
    let a = plan_message(&MessageSig {
        name: "a".to_string(),
        receiver: ReceiverKind::Shared,
        fields: vec![FieldSig { ident: Some("x".to_string()), ty: TypeShape::Reference }],
        type_params: vec![],
    });
    let b = plan_message(&MessageSig { name: "b".to_string(), receiver: ReceiverKind::Owned, fields: vec![], type_params: vec![] });
    let c = plan_message(&MessageSig {
        name: "c".to_string(),
        receiver: ReceiverKind::Exclusive,
        fields: vec![FieldSig { ident: Some("y".to_string()), ty: TypeShape::Reference }],
        type_params: vec!["U".to_string()],
    });
    let ms = vec![a, b, c];
    let params = enum_generics(&ms);
    assert_eq!(names_of_params(&params), vec!["L:'a__x_0", "L:'c__y_0", "T:U"]);
    assert_eq!(names_of_args(&enum_arguments(&params).unwrap()), vec!["'static", "'static", "()"]);
    assert_eq!(names_of_args(&mailbox_arguments(&ms, 0).unwrap()), vec!["'a__x_0", "'static", "()"]);
    assert_eq!(names_of_args(&mailbox_arguments(&ms, 2).unwrap()), vec!["'static", "'c__y_0", "U"]);
    assert_eq!(names_of_args(&mailbox_arguments(&ms, 1).unwrap()), vec!["'static", "'static", "()"]);
}

#[test]
fn no_generics_at_all() {
    let b = plan_message(&MessageSig { name: "b".to_string(), receiver: ReceiverKind::Owned, fields: vec![], type_params: vec![] });
    let ms = vec![b];
    let params = enum_generics(&ms);
    assert!(params.is_empty());
    assert!(enum_arguments(&params).is_none());
    assert!(mailbox_arguments(&ms, 0).is_none());
}
