use substrate_lint::rules::expr_shapes::{
    any_holds_unbounded, any_mentions_type, holds_unbounded, is_ensure_macro, is_error_constructor,
    is_root_check, is_root_guard_callee, is_storage_write_callee, is_unbounded_limit,
    is_validation_callee, mentions_type, LimitShape, TypeModel,
    const_u32_bound_exec, parse_u128_exec,
    h160_param_names, h160_suffix_try_into, half_open_range_has_static_len, risky_divisor_key,
    safe_subtractions_from_condition, safe_subtractions_from_three_way_arm, BigUintScopes,
    CompareOp, ConditionShape, DivisorShape, ParamShape, RangeEnd, RangeShape,
};

fn s(text: &str) -> String {
    text.to_string()
}

fn pair(a: &str, b: &str) -> (String, String) {
    (s(a), s(b))
}

#[test]
fn conditions_give_then_and_else_subtractions() {
    let gt = ConditionShape::Binary { op: CompareOp::Ge, left: s("a"), right: s("b") };
    assert_eq!(safe_subtractions_from_condition(&gt), Some((pair("a", "b"), pair("b", "a"))));
    let lt = ConditionShape::Binary { op: CompareOp::Lt, left: s("a"), right: s("b") };
    assert_eq!(safe_subtractions_from_condition(&lt), Some((pair("b", "a"), pair("a", "b"))));
    let eq = ConditionShape::Binary { op: CompareOp::Other, left: s("a"), right: s("b") };
    assert_eq!(safe_subtractions_from_condition(&eq), None);
    let le = ConditionShape::Method { method: s("le"), receiver: s("x"), arg: s("y") };
    assert_eq!(safe_subtractions_from_condition(&le), Some((pair("y", "x"), pair("x", "y"))));
    let other = ConditionShape::Method { method: s("eq"), receiver: s("x"), arg: s("y") };
    assert_eq!(safe_subtractions_from_condition(&other), None);
    assert_eq!(safe_subtractions_from_condition(&ConditionShape::Other), None);
}

#[test]
fn three_way_arms_give_their_subtractions() {
    let (a, b) = (s("a"), s("b"));
    assert_eq!(safe_subtractions_from_three_way_arm(&a, &b, &Some(s("Greater"))), vec![pair("a", "b")]);
    assert_eq!(safe_subtractions_from_three_way_arm(&a, &b, &Some(s("Less"))), vec![pair("b", "a")]);
    assert_eq!(
        safe_subtractions_from_three_way_arm(&a, &b, &Some(s("Equal"))),
        vec![pair("a", "b"), pair("b", "a")]
    );
    assert!(safe_subtractions_from_three_way_arm(&a, &b, &Some(s("_"))).is_empty());
    assert!(safe_subtractions_from_three_way_arm(&a, &b, &None).is_empty());
}

fn lit(v: usize) -> RangeEnd {
    RangeEnd { literal: Some(v), key: v.to_string(), sum: None }
}

fn name(key: &str) -> RangeEnd {
    RangeEnd { literal: None, key: s(key), sum: None }
}

#[test]
fn range_lengths_fixed_in_the_source() {
    let upto = RangeShape { half_open: true, start: None, end: Some(lit(32)) };
    assert!(half_open_range_has_static_len(&upto));
    let forward = RangeShape { half_open: true, start: Some(lit(4)), end: Some(lit(36)) };
    assert!(half_open_range_has_static_len(&forward));
    let backward = RangeShape { half_open: true, start: Some(lit(36)), end: Some(lit(4)) };
    assert!(!half_open_range_has_static_len(&backward));
    let inclusive = RangeShape { half_open: false, start: Some(lit(4)), end: Some(lit(36)) };
    assert!(!half_open_range_has_static_len(&inclusive));
    let offset_end = RangeEnd {
        literal: None,
        key: s("offset+32"),
        sum: Some(((s("offset"), None), (s("32"), Some(32)))),
    };
    let offset = RangeShape { half_open: true, start: Some(name("offset")), end: Some(offset_end) };
    assert!(half_open_range_has_static_len(&offset));
    let other_end = RangeEnd {
        literal: None,
        key: s("other+32"),
        sum: Some(((s("other"), None), (s("32"), Some(32)))),
    };
    let other = RangeShape { half_open: true, start: Some(name("offset")), end: Some(other_end) };
    assert!(!half_open_range_has_static_len(&other));
    let open = RangeShape { half_open: true, start: Some(lit(4)), end: None };
    assert!(!half_open_range_has_static_len(&open));
}

#[test]
fn h160_parameters_and_their_suffix() {
    let params = vec![
        ParamShape { type_last_ident: Some(s("H160")), name: Some(s("who")) },
        ParamShape { type_last_ident: Some(s("u32")), name: Some(s("n")) },
        ParamShape { type_last_ident: Some(s("H160")), name: None },
        ParamShape { type_last_ident: Some(s("H160")), name: Some(s("to")) },
    ];
    let names = h160_param_names(&params);
    assert_eq!(names, vec![s("who"), s("to")]);
    let suffix = RangeShape { half_open: true, start: Some(lit(12)), end: None };
    assert!(h160_suffix_try_into(&suffix, &Some(s("who")), &names));
    assert!(!h160_suffix_try_into(&suffix, &Some(s("n")), &names));
    assert!(!h160_suffix_try_into(&suffix, &None, &names));
    let other = RangeShape { half_open: true, start: Some(lit(10)), end: None };
    assert!(!h160_suffix_try_into(&other, &Some(s("who")), &names));
}

#[test]
fn divisors_that_can_be_zero() {
    assert_eq!(risky_divisor_key(&DivisorShape::Path { tokens: s("count") }), Some(s("count")));
    let get = DivisorShape::Call { last_ident: Some(s("get")), path_tokens: s("Total :: < T > :: get") };
    assert_eq!(risky_divisor_key(&get), Some(s("Total :: < T > :: get")));
    let new = DivisorShape::Call { last_ident: Some(s("new")), path_tokens: s("X :: new") };
    assert_eq!(risky_divisor_key(&new), None);
    let len = DivisorShape::MethodCall { method: s("len"), tokens: s("items.len()") };
    assert_eq!(risky_divisor_key(&len), Some(s("items.len()")));
    let max = DivisorShape::MethodCall { method: s("max"), tokens: s("a.max(1)") };
    assert_eq!(risky_divisor_key(&max), None);
    assert_eq!(risky_divisor_key(&DivisorShape::Other), None);
}

#[test]
fn biguint_bounded_by_a_rejecting_if() {
    let mut scopes = BigUintScopes::new();
    scopes.enter();
    scopes.declare(s("n"), Some(None));
    scopes.declare(s("small"), Some(Some(7)));
    scopes.declare(s("plain"), None);
    assert!(!scopes.is_bounded(&s("n")));
    assert!(scopes.is_bounded(&s("small")));
    // `if n > small { return Err(..) }`: the bound is `small`'s value.
    let bound = scopes.bound_value(None, &Some(s("small")), None);
    assert_eq!(bound, Some(7));
    scopes.rejecting_if(Some(s("n")), bound);
    assert!(scopes.is_bounded(&s("n")));
    // a bound above `u32` does not count, nor does a variable that is no `BigUint`
    scopes.declare(s("m"), Some(None));
    scopes.rejecting_if(Some(s("m")), Some(u32::MAX as u128 + 1));
    assert!(!scopes.is_bounded(&s("m")));
    scopes.rejecting_if(Some(s("plain")), Some(3));
    assert!(!scopes.is_bounded(&s("plain")));
    // an inner block's knowledge ends with it
    scopes.enter();
    scopes.rejecting_if(Some(s("m")), Some(10));
    assert!(scopes.is_bounded(&s("m")));
    scopes.leave();
    assert!(!scopes.is_bounded(&s("m")));
    scopes.leave();
    assert!(!scopes.is_bounded(&s("n")));
}

#[test]
fn const_u32_bounds_from_tokens() {
    let consts = vec![(s("MAX_ITEMS"), 16u128), (s("LIMIT"), 3), (s("MAX_ITEMS"), 32)];
    assert_eq!(const_u32_bound_exec("BoundedVec<u8,ConstU32<64>>::try_from", &consts), Some(64));
    assert_eq!(const_u32_bound_exec("BoundedVec<u8,ConstU32<MAX_ITEMS>>::try_from", &consts), Some(32));
    assert_eq!(const_u32_bound_exec("BoundedVec<u8,ConstU32<+7>>", &consts), Some(7));
    assert_eq!(const_u32_bound_exec("BoundedVec<u8,ConstU32<OTHER>>", &consts), None);
    assert_eq!(const_u32_bound_exec("BoundedVec<u8,T::MaxLen>", &consts), None);
    assert_eq!(const_u32_bound_exec("BoundedVec<u8,ConstU32<", &consts), None);
    let digits = |t: &str| parse_u128_exec(&t.chars().collect());
    assert_eq!(digits("340282366920938463463374607431768211455"), Some(u128::MAX));
    assert_eq!(digits("340282366920938463463374607431768211456"), None);
    assert_eq!(digits("+"), None);
    assert_eq!(digits(""), None);
    assert_eq!(digits("-1"), None);
    assert_eq!(digits("0012"), Some(12));
    for t in ["0", "+5", "12a", "++5", "99999999999999999999999999999999999999999"] {
        assert_eq!(digits(t), t.parse::<u128>().ok());
    }
}

#[test]
fn rule_vocabulary() {
    assert!(is_validation_callee("ensure_signed") && is_validation_callee("ensure_none"));
    assert!(!is_validation_callee("ensure"));
    assert!(is_ensure_macro("ensure") && !is_ensure_macro("ensure_eq"));
    for w in ["put", "insert", "mutate", "set", "append"] {
        assert!(is_storage_write_callee(w));
    }
    assert!(!is_storage_write_callee("get"));
    assert!(is_root_guard_callee("ensure_root") && !is_root_guard_callee("ensure_signed"));
    assert!(is_root_check("is_ok", &Some(s("ensure_root"))));
    assert!(!is_root_check("is_err", &Some(s("ensure_root"))));
    assert!(!is_root_check("is_ok", &Some(s("ensure_signed"))));
    assert!(!is_root_check("is_ok", &None));
    assert!(is_error_constructor("Err") && !is_error_constructor("Ok"));
}

fn path(name: &str) -> LimitShape {
    LimitShape::Path { last_ident: Some(s(name)) }
}

#[test]
fn clear_prefix_limits() {
    assert!(is_unbounded_limit(&path("None")));
    assert!(is_unbounded_limit(&path("MAX")));
    let some_max = LimitShape::Call { name: Some(s("Some")), first_arg: Some(Box::new(path("MAX"))) };
    assert!(is_unbounded_limit(&some_max));
    let some_n = LimitShape::Call { name: Some(s("Some")), first_arg: Some(Box::new(path("limit"))) };
    assert!(!is_unbounded_limit(&some_n));
    let other = LimitShape::Call { name: Some(s("Wrap")), first_arg: Some(Box::new(path("None"))) };
    assert!(!is_unbounded_limit(&other));
    assert!(!is_unbounded_limit(&LimitShape::Other));
}

fn ty(name: &str, args: Vec<TypeModel>) -> TypeModel {
    TypeModel { last_ident: Some(s(name)), args }
}

#[test]
fn unbounded_collections_in_types() {
    let vec_in_bounded = ty("BoundedVec", vec![ty("Vec", vec![]), ty("ConstU32", vec![])]);
    assert!(!holds_unbounded(&vec_in_bounded));
    let vec_in_option = ty("Option", vec![ty("Vec", vec![ty("u8", vec![])])]);
    assert!(holds_unbounded(&vec_in_option));
    assert!(!holds_unbounded(&ty("u32", vec![])));
    assert!(any_holds_unbounded(&vec![ty("u32", vec![]), ty("BTreeMap", vec![])]));
    assert!(!any_holds_unbounded(&vec![]));
    assert!(mentions_type(&vec_in_bounded, "Vec"));
    assert!(!mentions_type(&ty("u32", vec![]), "Vec"));
    assert!(any_mentions_type(&vec![ty("u8", vec![]), vec_in_option], "u8"));
}
