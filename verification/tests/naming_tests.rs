use hookpoints::naming::{
    camel_case_to_kebab, camel_to_snake, get_default_for_ink_type, get_default_ink_type_for_test,
    ink_primitive_list, ink_type_list,
};

#[test]
fn snake_case_of_camel_case_name() {
    assert_eq!(camel_to_snake("MyContract"), "my_contract");
    assert_eq!(camel_to_snake("DAOVoting"), "d_a_o_voting");
    assert_eq!(camel_to_snake("lower"), "lower");
    assert_eq!(camel_to_snake(""), "");
    assert_eq!(camel_to_snake("A"), "a");
}

#[test]
fn kebab_case_of_camel_case_name() {
    assert_eq!(camel_case_to_kebab("MyContract"), "my-contract");
    assert_eq!(camel_case_to_kebab("Genesis2Dao"), "genesis2-dao");
    assert_eq!(camel_case_to_kebab(""), "");
}

#[test]
fn case_conversion_keeps_non_ascii_letters() {
    assert_eq!(camel_to_snake("ÄpfelBaum"), "Äpfel_baum");
}

#[test]
fn case_conversion_is_idempotent() {
    for name in ["MyContract", "XYZ", "already_snake", "Mixed_CaseName"] {
        let once = camel_to_snake(name);
        assert_eq!(camel_to_snake(&once), once);
        let once = camel_case_to_kebab(name);
        assert_eq!(camel_case_to_kebab(&once), once);
    }
}

#[test]
fn kebab_and_snake_names_agree_up_to_hyphens() {
    for name in ["MyContract", "Genesis2Dao", "XYZ"] {
        assert_eq!(camel_case_to_kebab(name).replace('-', "_"), camel_to_snake(name));
    }
}

#[test]
fn default_values_of_known_types() {
    assert_eq!(get_default_for_ink_type("bool"), "false");
    assert_eq!(get_default_for_ink_type("u32"), "0");
    assert_eq!(get_default_for_ink_type("i128"), "0");
    assert_eq!(get_default_for_ink_type("Balance"), "0");
    assert_eq!(get_default_for_ink_type("AccountId"), "AccountId::from([0x0; 32])");
    assert_eq!(get_default_for_ink_type("Hash"), "Hash::from([0x0; 32])");
    assert_eq!(get_default_for_ink_type("Vec<u8>"), "Vec::new()");
    assert_eq!(get_default_for_ink_type("Vec<Hash>"), "Vec::new()");
    assert_eq!(get_default_for_ink_type("Option<u8>"), "Default::default()");
}

#[test]
fn test_values_of_known_types() {
    assert_eq!(get_default_ink_type_for_test("bool"), "false");
    assert_eq!(get_default_ink_type_for_test("u32"), "0u32");
    assert_eq!(get_default_ink_type_for_test("i8"), "0i8");
    assert_eq!(get_default_ink_type_for_test("Balance"), "0");
    assert_eq!(get_default_ink_type_for_test("AccountId"), "AccountId::from([0x0; 32])");
    assert_eq!(get_default_ink_type_for_test("Hash"), "Hash::from([0x0; 32])");
    assert_eq!(get_default_ink_type_for_test("Vec<AccountId>"), "Vec::new()");
    assert_eq!(get_default_ink_type_for_test("String"), "Default::default()");
}

#[test]
fn type_tables() {
    assert_eq!(ink_primitive_list(), vec!["AccountId", "Hash"]);
    let types = ink_type_list();
    assert_eq!(types.len(), 17);
    assert_eq!(types[0], "bool");
    assert!(types.contains(&"Vec<u8>"));
    assert!(types.contains(&"Balance"));
}
