use script_module::combine_hashes;
use script_module::hash_native_args;
use script_module::hash_script;
use script_module::TypeId;

#[test]
fn script_hash_has_the_expected_value() {
    assert_eq!(hash_script(&[], "f", 1), 42559341508369376);
    assert_eq!(hash_script(&["root"], "answer", 0), 8142964373321117886);
    assert_eq!(hash_script(&["root", "m"], "f", 1), 17390655011913548626);
}

#[test]
fn script_hash_is_the_same_on_every_call() {
    let first = hash_script(&["root", "a", "b"], "calc", 3);
    let second = hash_script(&["root", "a", "b"], "calc", 3);
    assert_eq!(first, second);
    let owned_name = String::from("calc");
    let owned_path = vec![String::from("root"), String::from("a"), String::from("b")];
    let path: Vec<&str> = owned_path.iter().map(|s| s.as_str()).collect();
    assert_eq!(hash_script(&path, &owned_name, 3), first);
}

#[test]
fn script_hash_is_never_zero() {
    assert_ne!(hash_script(&[], "", 0), 0);
    assert_ne!(hash_script(&["root"], "x", 0), 0);
}

#[test]
fn script_hash_tells_name_arity_and_path_apart() {
    let base = hash_script(&["root", "m"], "f", 1);
    assert_ne!(base, hash_script(&["root", "m"], "g", 1));
    assert_ne!(base, hash_script(&["root", "m"], "f", 2));
    assert_ne!(base, hash_script(&["root", "n"], "f", 1));
    assert_ne!(base, hash_script(&["root"], "f", 1));
    assert_ne!(base, hash_script(&[], "f", 1));
    assert_ne!(
        hash_script(&["root", "ab", "c"], "f", 1),
        hash_script(&["root", "a", "bc"], "f", 1)
    );
}

#[test]
fn script_hash_does_not_depend_on_the_name_of_the_root() {
    assert_eq!(hash_script(&["x", "m"], "f", 1), hash_script(&["root", "m"], "f", 1));
    assert_eq!(hash_script(&["x", "m"], "f", 1), 17390655011913548626);
    assert_eq!(hash_script(&["anything"], "v", 0), hash_script(&["root"], "v", 0));
}

#[test]
fn native_hash_has_the_expected_value() {
    assert_eq!(hash_native_args("calc", &[]), 7695342328237064778);
    assert_eq!(hash_native_args("f", &[TypeId::integer()]), 42561540531625798);
    assert_eq!(
        hash_native_args("f", &[TypeId::integer(), TypeId::integer()]),
        8939411714793153087
    );
    assert_eq!(hash_native_args("f", &[TypeId::immutable_string()]), 42565938578138642);
}

#[test]
fn native_hash_tells_overloads_apart() {
    let one = hash_native_args("f", &[TypeId::integer()]);
    let two = hash_native_args("f", &[TypeId::integer(), TypeId::integer()]);
    let text = hash_native_args("f", &[TypeId::immutable_string()]);
    assert_ne!(one, two);
    assert_ne!(one, text);
    assert_ne!(two, text);
    assert_ne!(one, 0);
}

#[test]
fn combined_hash_has_the_expected_value() {
    assert_eq!(combine_hashes(1, 2), 2);
    assert_eq!(combine_hashes(2, 1), 3);
    assert_eq!(combine_hashes(5, u64::MAX), 8);
    assert_eq!(combine_hashes(u64::MAX, u64::MAX), 18446744073709551613);
}

#[test]
fn combined_hash_depends_on_the_order() {
    assert_ne!(combine_hashes(1, 2), combine_hashes(2, 1));
    let a = hash_script(&["root"], "f", 1);
    let b = hash_native_args("f", &[TypeId::integer()]);
    assert_ne!(combine_hashes(a, b), combine_hashes(b, a));
}

#[test]
fn combined_hash_is_never_zero_and_separates_its_arguments() {
    let a = hash_script(&["root"], "f", 1);
    let b1 = hash_native_args("f", &[TypeId::integer()]);
    let b2 = hash_native_args("f", &[TypeId::immutable_string()]);
    assert_ne!(combine_hashes(a, b1), 0);
    assert_ne!(combine_hashes(a, b1), combine_hashes(a, b2));
    assert_ne!(combine_hashes(b1, a), combine_hashes(b2, a));
    assert_ne!(combine_hashes(a, b1), a);
}

#[test]
fn type_ids_of_strings_are_normalized() {
    assert_eq!(TypeId::string().normalized(), TypeId::immutable_string());
    assert_eq!(TypeId::string_slice().normalized(), TypeId::immutable_string());
    assert_eq!(TypeId::immutable_string().normalized(), TypeId::immutable_string());
    assert_eq!(TypeId::integer().normalized(), TypeId::integer());
    assert_eq!(TypeId::array().normalized(), TypeId::array());
}

#[test]
fn sequences_maps_and_strings_are_indexed_by_the_runtime() {
    assert!(TypeId::array().has_intrinsic_indexing());
    assert!(TypeId::object_map().has_intrinsic_indexing());
    assert!(TypeId::string().has_intrinsic_indexing());
    assert!(TypeId::string_slice().has_intrinsic_indexing());
    assert!(TypeId::immutable_string().has_intrinsic_indexing());
    assert!(!TypeId::integer().has_intrinsic_indexing());
    assert!(!TypeId::boolean().has_intrinsic_indexing());
    assert!(!TypeId::unit().has_intrinsic_indexing());
    assert!(!TypeId { id: 1000 }.has_intrinsic_indexing());
}
