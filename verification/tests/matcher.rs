use redundant_closure::{
    any_adjusted, compare_inputs, get_ufcs_type_name, is_forwarded, Expr, ExprKind, Method, Param,
    TypeDescriptor, TypeKind,
};

fn ty(kind: TypeKind, name: &str) -> TypeDescriptor {
    TypeDescriptor { kind, name: name.to_string() }
}

fn reference(inner: TypeDescriptor) -> TypeDescriptor {
    let name = format!("&{}", inner.name);
    ty(TypeKind::Ref(Box::new(inner)), &name)
}

fn expr(kind: ExprKind) -> Expr {
    Expr { kind, ty: ty(TypeKind::Other, "()"), adjusted: false, source: None }
}

fn path(segments: &[&str]) -> Expr {
    expr(ExprKind::Path { segments: segments.iter().map(|s| s.to_string()).collect() })
}

fn binding(name: &str) -> Param {
    Param::Binding(name.to_string())
}

fn method(self_ty: TypeDescriptor, trait_path: Option<&str>, inherent: bool) -> Method {
    Method {
        name: "m".to_string(),
        is_unsafe: false,
        self_ty,
        trait_path: trait_path.map(|p| p.to_string()),
        inherent,
    }
}

fn typed(ty: TypeDescriptor) -> Expr {
    Expr { kind: ExprKind::Path { segments: vec!["s".to_string()] }, ty, adjusted: false, source: None }
}

#[test]
fn a_name_forwards_the_binding_of_that_name() {
    assert!(is_forwarded(&binding("x"), &path(&["x"])));
    assert!(!is_forwarded(&binding("x"), &path(&["y"])));
    assert!(!is_forwarded(&binding("x"), &path(&["X"])));
}

#[test]
fn a_pattern_is_never_forwarded() {
    assert!(!is_forwarded(&Param::Pattern, &path(&["x"])));
}

#[test]
fn a_longer_path_is_no_local_name() {
    assert!(!is_forwarded(&binding("x"), &path(&["m", "x"])));
    assert!(!is_forwarded(&binding("x"), &path(&["x", "x"])));
    assert!(!is_forwarded(&binding("x"), &path(&[])));
}

#[test]
fn only_a_plain_path_forwards() {
    assert!(!is_forwarded(&binding("x"), &expr(ExprKind::TypePath)));
    assert!(!is_forwarded(&binding("x"), &expr(ExprKind::Other)));
    let call = expr(ExprKind::Call { callee: Box::new(path(&["x"])), args: vec![] });
    assert!(!is_forwarded(&binding("x"), &call));
}

#[test]
fn forwarding_goes_by_name_not_by_type() {
    let mut arg = path(&["x"]);
    arg.ty = ty(TypeKind::Adt(4), "a::B");
    assert!(is_forwarded(&binding("x"), &arg));
}

#[test]
fn inputs_match_in_order() {
    let params = vec![binding("a"), binding("b"), binding("c")];
    let args = vec![path(&["a"]), path(&["b"]), path(&["c"])];
    assert!(compare_inputs(&params, None, &args));
}

#[test]
fn inputs_out_of_order_do_not_match() {
    let params = vec![binding("a"), binding("b")];
    let args = vec![path(&["b"]), path(&["a"])];
    assert!(!compare_inputs(&params, None, &args));
}

#[test]
fn one_bad_pair_fails_the_whole() {
    let params = vec![binding("a"), Param::Pattern, binding("c")];
    let args = vec![path(&["a"]), path(&["b"]), path(&["c"])];
    assert!(!compare_inputs(&params, None, &args));
    let params = vec![binding("a"), binding("b"), binding("c")];
    let args = vec![path(&["a"]), path(&["b"]), expr(ExprKind::Other)];
    assert!(!compare_inputs(&params, None, &args));
}

#[test]
fn empty_inputs_match() {
    assert!(compare_inputs(&vec![], None, &vec![]));
}

#[test]
fn only_pairs_are_compared() {
    let params = vec![binding("a")];
    let args = vec![path(&["a"]), path(&["zzz"])];
    assert!(compare_inputs(&params, None, &args));
    let params = vec![binding("a"), Param::Pattern];
    let args = vec![path(&["a"])];
    assert!(compare_inputs(&params, None, &args));
    assert!(compare_inputs(&params, None, &vec![]));
}

#[test]
fn the_receiver_is_the_first_argument() {
    let params = vec![binding("s"), binding("n")];
    let receiver = path(&["s"]);
    let args = vec![path(&["n"])];
    assert!(compare_inputs(&params, Some(&receiver), &args));
    let other = path(&["t"]);
    assert!(!compare_inputs(&params, Some(&other), &args));
    assert!(!compare_inputs(&params, Some(&receiver), &vec![path(&["s"])]));
    let swapped = vec![binding("n"), binding("s")];
    assert!(!compare_inputs(&swapped, Some(&receiver), &args));
}

#[test]
fn adjustment_is_found_at_any_position() {
    let mut args = vec![path(&["a"]), path(&["b"]), path(&["c"])];
    assert!(!any_adjusted(&args));
    args[2].adjusted = true;
    assert!(any_adjusted(&args));
    args[2].adjusted = false;
    args[0].adjusted = true;
    assert!(any_adjusted(&args));
    assert!(!any_adjusted(&vec![]));
}

#[test]
fn a_trait_method_is_named_through_the_trait() {
    let m = method(reference(ty(TypeKind::Other, "Self")), Some("std::string::ToString"), false);
    let receiver = typed(reference(ty(TypeKind::Adt(1), "a::B")));
    assert_eq!(get_ufcs_type_name(&m, &receiver), Some("std::string::ToString".to_string()));
}

#[test]
fn a_trait_method_needs_the_same_borrow_depth() {
    let m = method(reference(ty(TypeKind::Other, "Self")), Some("std::string::ToString"), false);
    let receiver = typed(ty(TypeKind::Adt(1), "a::B"));
    assert_eq!(get_ufcs_type_name(&m, &receiver), None);
    let twice = typed(reference(reference(ty(TypeKind::Adt(1), "a::B"))));
    assert_eq!(get_ufcs_type_name(&m, &twice), None);
}

#[test]
fn an_impl_method_is_named_through_the_receiver_type() {
    let m = method(reference(ty(TypeKind::Adt(10), "std::string::String")), None, true);
    let receiver = typed(reference(ty(TypeKind::Adt(10), "std::string::String")));
    assert_eq!(get_ufcs_type_name(&m, &receiver), Some("std::string::String".to_string()));
}

#[test]
fn an_impl_method_reached_by_deref_has_no_name() {
    let declared = reference(ty(TypeKind::Slice(Box::new(ty(TypeKind::Uint, "u8"))), "[u8]"));
    let m = method(declared, None, true);
    let receiver = typed(reference(ty(TypeKind::Adt(11), "std::vec::Vec")));
    assert_eq!(get_ufcs_type_name(&m, &receiver), None);
}

#[test]
fn a_method_of_neither_trait_nor_impl_has_no_name() {
    let m = method(ty(TypeKind::Bool, "bool"), None, false);
    let receiver = typed(ty(TypeKind::Bool, "bool"));
    assert_eq!(get_ufcs_type_name(&m, &receiver), None);
}

#[test]
fn a_trait_method_with_the_wrong_depth_gets_no_name_from_the_impl() {
    let m = method(ty(TypeKind::Adt(5), "a::S"), Some("a::T"), true);
    let receiver = typed(ty(TypeKind::Adt(5), "a::S"));
    assert_eq!(get_ufcs_type_name(&m, &receiver), Some("a::T".to_string()));
    let m = method(reference(ty(TypeKind::Adt(5), "a::S")), Some("a::T"), true);
    assert_eq!(get_ufcs_type_name(&m, &receiver), None);
    let m = method(reference(ty(TypeKind::Bool, "bool")), Some("a::T"), true);
    let borrowed_twice = typed(reference(reference(ty(TypeKind::Bool, "bool"))));
    assert_eq!(get_ufcs_type_name(&m, &borrowed_twice), None);
}

#[test]
fn the_trait_comes_before_the_impl() {
    let m = method(ty(TypeKind::Int, "i32"), Some("std::ops::Neg"), true);
    let receiver = typed(ty(TypeKind::Int, "i32"));
    assert_eq!(get_ufcs_type_name(&m, &receiver), Some("std::ops::Neg".to_string()));
}
