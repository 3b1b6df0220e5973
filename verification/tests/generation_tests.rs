use hookpoints::manifest::{
    accept_checked_toml, generate_contract_toml, generate_contract_trait_toml,
    generate_dependencies_toml, ManifestError,
};
use hookpoints::models::{Definitions, FunctionArgument, InkDependencies, Pallet, PalletFunction, ReturnValue};
use hookpoints::scaffold::{
    collect_functions, generate_contract_functions, generate_e2e_test_functions,
    generate_function_body, generate_ink_contract, generate_ink_test_functions, generate_ink_trait,
    generate_test_function, generate_trait_function_signature,
};

fn arg(name: &str, type_: &str) -> FunctionArgument {
    FunctionArgument { name: name.to_string(), type_: type_.to_string() }
}

fn ret(default: &str, type_: &str) -> Option<ReturnValue> {
    Some(ReturnValue { default: default.to_string(), type_: type_.to_string() })
}

fn function(hook_point: &str, arguments: Vec<FunctionArgument>, returns: Option<ReturnValue>) -> PalletFunction {
    PalletFunction { hook_point: hook_point.to_string(), arguments, returns }
}

fn deps() -> InkDependencies {
    InkDependencies {
        ink_version: "4.3.0".to_string(),
        ink_primitives_version: "4.3.1".to_string(),
        scale_version: "3.6.5".to_string(),
        scale_info_version: "2.10.0".to_string(),
    }
}

fn transfer() -> PalletFunction {
    function("on_transfer", vec![arg("from", "AccountId"), arg("amount", "Balance")], ret("amount", "Balance"))
}

fn ping() -> PalletFunction {
    function("on_ping", vec![], None)
}

fn definitions() -> Definitions {
    Definitions {
        name: "MyContract".to_string(),
        ink_dependencies: deps(),
        pallets: vec![Pallet { name: "assets".to_string(), functions: vec![transfer(), ping()] }],
    }
}

fn plain_definitions() -> Definitions {
    Definitions {
        name: "Counter".to_string(),
        ink_dependencies: deps(),
        pallets: vec![Pallet {
            name: "system".to_string(),
            functions: vec![function("on_block", vec![arg("number", "u32")], ret("u32", "u32"))],
        }],
    }
}

const TRANSFER_SIGNATURE: &str = "    /// hook point for `on_transfer` pallet
    #[ink(message)]
    fn on_transfer(&self, from: AccountId, amount: Balance) -> Balance;";

const PING_SIGNATURE: &str = "    /// hook point for `on_ping` pallet
    #[ink(message)]
    fn on_ping(&self);";

const TRANSFER_BODY: &str = "/// hook point for `on_transfer` pallet
        #[ink(message)]
        fn on_transfer(&self, _from: AccountId, amount: Balance) -> Balance {
            amount
        }";

const PING_BODY: &str = "/// hook point for `on_ping` pallet
        #[ink(message)]
        fn on_ping(&self) {
            // do nothing
        }";

const TRANSFER_TEST: &str = "
        #[ink::test]
        fn test_on_transfer_hookpoint() {
            let my_contract = MyContract::new();
            assert_eq!(my_contract.on_transfer(AccountId::from([0x0; 32]), 0), 0);
        }";

const PING_TEST: &str = "
        #[ink::test]
        fn test_on_ping_hookpoint() {
            let my_contract = MyContract::new();
            assert_eq!(my_contract.on_ping(), ());
        }";

const TRANSFER_E2E: &str = r#"
        #[ink_e2e::test]
        async fn e2e_test_on_transfer(mut client: ink_e2e::Client<C, E>) -> E2EResult<()> {
            let constructor = MyContractRef::new();

            let contract_account_id = client
                .instantiate("my_contract", &ink_e2e::alice(), constructor, 0, None)
                .await
                .expect("instantiate failed")
                .account_id;

            let on_transfer = build_message::<MyContractRef>(contract_account_id.clone())
                .call(|assets| assets.on_transfer(AccountId::from([0x0; 32]), 0));

            let result = client
                .call_dry_run(&ink_e2e::alice(), &on_transfer, 0, None)
                .await;

            if let Some(ret) = &function.returns {
                assert_eq!(result.return_value(), 0);
            }
            Ok(())
        }
"#;

const PING_E2E: &str = r#"
        #[ink_e2e::test]
        async fn e2e_test_on_ping(mut client: ink_e2e::Client<C, E>) -> E2EResult<()> {
            let constructor = MyContractRef::new();

            let contract_account_id = client
                .instantiate("my_contract", &ink_e2e::alice(), constructor, 0, None)
                .await
                .expect("instantiate failed")
                .account_id;

            let on_ping = build_message::<MyContractRef>(contract_account_id.clone())
                .call(|assets| assets.on_ping());

            let result = client
                .call_dry_run(&ink_e2e::alice(), &on_ping, 0, None)
                .await;

            if let Some(ret) = &function.returns {
                assert_eq!(result.return_value(), ());
            }
            Ok(())
        }
"#;

fn e2e_module() -> String {
    format!(
        r#"
    #[cfg(all(test, feature = "e2e-tests"))]
    mod e2e_tests {{
        use super::*;
        use my_contract_contract_trait::MyContract as Trait;
        use ink_e2e::build_message;
        type E2EResult<T> = std::result::Result<T, Box<dyn std::error::Error>>;
        {}{}
    }}
"#,
        TRANSFER_E2E, PING_E2E
    )
}

fn contract_head() -> String {
    format!(
        r#"#![cfg_attr(not(feature = "std"), no_std, no_main)]

#[ink::contract]
mod my_contract {{
    #[ink(storage)]
    pub struct MyContract {{}}

    impl MyContract {{
        #[ink(constructor)]
        pub fn new() -> Self {{
            Self {{}}
        }}
    }}

    impl my_contract_contract_trait::MyContract for MyContract {{
        {}

        {}
    }}
"#,
        TRANSFER_BODY, PING_BODY
    )
}

#[test]
fn dependencies_with_prelude_and_primitives() {
    let expected = r#"[dependencies]
ink = { version = "4.3.0", default-features = false }
ink_prelude = { version = "4.3.1", default-features = false }
ink_primitives = { version = "4.3.0", default-features = false }
scale = { package = "parity-scale-codec", version = "3.6.5", default-features = false, features = ["derive"] }
scale-info = { version = "2.10.0", default-features = false, features = ["derive"], optional = true }
"#;
    assert_eq!(generate_dependencies_toml(&definitions(), true), expected);
}

#[test]
fn dependencies_without_prelude_or_primitives() {
    let expected = r#"[dependencies]
ink = { version = "4.3.0", default-features = false }
scale = { package = "parity-scale-codec", version = "3.6.5", default-features = false, features = ["derive"] }
scale-info = { version = "2.10.0", default-features = false, features = ["derive"], optional = true }
"#;
    assert_eq!(generate_dependencies_toml(&plain_definitions(), false), expected);
}

#[test]
fn prelude_only_adds_its_line() {
    for d in [definitions(), plain_definitions()] {
        let with = generate_dependencies_toml(&d, true);
        let without = generate_dependencies_toml(&d, false);
        let line = "\nink_prelude = { version = \"4.3.1\", default-features = false }";
        let at = without.find('}').unwrap() + 1;
        assert_eq!(with, format!("{}{}{}", &without[..at], line, &without[at..]));
    }
}

#[test]
fn contract_manifest_with_tests() {
    let expected = r#"[package]
name = "my-contract-contract"
version = "0.1.0"
edition = "2021"
authors = ["add your name here"]

[dependencies]
ink = { version = "4.3.0", default-features = false }
ink_prelude = { version = "4.3.1", default-features = false }
ink_primitives = { version = "4.3.0", default-features = false }
scale = { package = "parity-scale-codec", version = "3.6.5", default-features = false, features = ["derive"] }
scale-info = { version = "2.10.0", default-features = false, features = ["derive"], optional = true }

my-contract-contract-trait = { package = "my-contract-contract-trait", default-features = false, path = "../my-contract-contract-trait" }

[dev-dependencies]
ink_e2e = "4.3.0"

[lib]
path = "lib.rs"

[features]
default = ["std"]
std = [
    "ink/std",
    "ink_prelude/std",
    "scale/std",
    "scale-info/std",
]
ink-as-dependency = []
e2e-tests = []

[workspace]
"#;
    match generate_contract_toml(&definitions(), true) {
        Ok(text) => assert_eq!(text, expected),
        Err(_) => panic!("the manifest is TOML"),
    }
}

#[test]
fn contract_manifest_without_tests() {
    let expected = r#"[package]
name = "counter-contract"
version = "0.1.0"
edition = "2021"
authors = ["add your name here"]

[dependencies]
ink = { version = "4.3.0", default-features = false }
ink_prelude = { version = "4.3.1", default-features = false }
scale = { package = "parity-scale-codec", version = "3.6.5", default-features = false, features = ["derive"] }
scale-info = { version = "2.10.0", default-features = false, features = ["derive"], optional = true }

counter-contract-trait = { package = "counter-contract-trait", default-features = false, path = "../counter-contract-trait" }

[lib]
path = "lib.rs"

[features]
default = ["std"]
std = [
    "ink/std",
    "ink_prelude/std",
    "scale/std",
    "scale-info/std",
]
ink-as-dependency = []

[workspace]
"#;
    match generate_contract_toml(&plain_definitions(), false) {
        Ok(text) => assert_eq!(text, expected),
        Err(_) => panic!("the manifest is TOML"),
    }
}

#[test]
fn contract_trait_manifest() {
    let expected = r#"[package]
name = "my-contract-contract-trait"
version = "0.1.0"
edition = "2021"

[dependencies]
ink = { version = "4.3.0", default-features = false }
ink_primitives = { version = "4.3.0", default-features = false }
scale = { package = "parity-scale-codec", version = "3.6.5", default-features = false, features = ["derive"] }
scale-info = { version = "2.10.0", default-features = false, features = ["derive"], optional = true }

[lib]
path = "lib.rs"

[features]
default = ["std"]
std = [
    "ink/std",
    "scale/std",
    "scale-info/std",
]
ink-as-dependency = []

[workspace]
"#;
    match generate_contract_trait_toml(&definitions()) {
        Ok(text) => assert_eq!(text, expected),
        Err(_) => panic!("the manifest is TOML"),
    }
}

#[test]
fn manifests_are_valid_toml() {
    for d in [definitions(), plain_definitions()] {
        for tests in [false, true] {
            let text = generate_contract_toml(&d, tests).ok().unwrap();
            assert!(toml::from_str::<toml::Value>(&text).is_ok());
        }
        let text = generate_contract_trait_toml(&d).ok().unwrap();
        assert!(toml::from_str::<toml::Value>(&text).is_ok());
    }
}

#[test]
fn manifest_with_a_quote_in_a_version_is_rejected() {
    let mut d = definitions();
    d.ink_dependencies.scale_version = "3\"6".to_string();
    assert!(matches!(generate_contract_toml(&d, true), Err(ManifestError::InvalidToml(_))));
    assert!(matches!(generate_contract_trait_toml(&d), Err(ManifestError::InvalidToml(_))));
}

#[test]
fn manifest_with_a_quote_in_the_name_is_rejected() {
    let mut d = plain_definitions();
    d.name = "Bad\"Name".to_string();
    assert!(matches!(generate_contract_toml(&d, false), Err(ManifestError::InvalidToml(_))));
    assert!(matches!(generate_contract_trait_toml(&d), Err(ManifestError::InvalidToml(_))));
}

#[test]
fn checked_toml_is_accepted_or_rejected() {
    let text = "a = 1\n".to_string();
    let checked = toml::from_str::<toml::Value>(&text).map(|_| ());
    assert!(matches!(accept_checked_toml(text.clone(), checked), Ok(t) if t == text));
    let bad = "a = \n".to_string();
    let checked = toml::from_str::<toml::Value>(&bad).map(|_| ());
    assert!(matches!(accept_checked_toml(bad, checked), Err(ManifestError::InvalidToml(_))));
}

#[test]
fn trait_signatures() {
    assert_eq!(generate_trait_function_signature(&transfer()), TRANSFER_SIGNATURE);
    assert_eq!(generate_trait_function_signature(&ping()), PING_SIGNATURE);
}

#[test]
fn ink_trait_with_primitives_and_balance() {
    let expected = format!(
        r##"#![cfg_attr(not(feature = "std"), no_std, no_main)]
use ink_primitives::AccountId;

type Balance = <ink::env::DefaultEnvironment as ink::env::Environment>::Balance;

#[ink::trait_definition]
pub trait MyContract {{

{}

{}
}}"##,
        TRANSFER_SIGNATURE, PING_SIGNATURE
    );
    assert_eq!(generate_ink_trait(&definitions()), expected);
}

#[test]
fn ink_trait_with_two_primitives_and_vectors() {
    let d = Definitions {
        name: "Registry".to_string(),
        ink_dependencies: deps(),
        pallets: vec![
            Pallet {
                name: "a".to_string(),
                functions: vec![function("on_hash", vec![arg("h", "Hash")], ret("Vec<u8>", "Vec<u8>"))],
            },
            Pallet {
                name: "b".to_string(),
                functions: vec![function("on_owner", vec![], ret("owner", "AccountId"))],
            },
        ],
    };
    let expected = r##"#![cfg_attr(not(feature = "std"), no_std, no_main)]
use ink_primitives::{AccountId, Hash};

use ink::prelude::vec::Vec;

#[ink::trait_definition]
pub trait Registry {

    /// hook point for `on_hash` pallet
    #[ink(message)]
    fn on_hash(&self, h: Hash) -> Vec<u8>;

    /// hook point for `on_owner` pallet
    #[ink(message)]
    fn on_owner(&self) -> AccountId;
}"##;
    assert_eq!(generate_ink_trait(&d), expected);
}

#[test]
fn ink_trait_without_imports() {
    let expected = r##"#![cfg_attr(not(feature = "std"), no_std, no_main)]

#[ink::trait_definition]
pub trait Counter {

    /// hook point for `on_block` pallet
    #[ink(message)]
    fn on_block(&self, number: u32) -> u32;
}"##;
    assert_eq!(generate_ink_trait(&plain_definitions()), expected);
}

#[test]
fn function_bodies() {
    assert_eq!(generate_function_body(&transfer()), TRANSFER_BODY);
    assert_eq!(generate_function_body(&ping()), PING_BODY);
    let typed = function("on_block", vec![arg("number", "u32")], ret("u32", "u32"));
    assert_eq!(
        generate_function_body(&typed),
        "/// hook point for `on_block` pallet
        #[ink(message)]
        fn on_block(&self, _number: u32) -> u32 {
            0
        }"
    );
    let expression = function("on_fee", vec![], ret("42", "Balance"));
    assert_eq!(
        generate_function_body(&expression),
        "/// hook point for `on_fee` pallet
        #[ink(message)]
        fn on_fee(&self) -> Balance {
            42
        }"
    );
}

#[test]
fn contract_functions_are_indented_and_separated() {
    assert_eq!(
        generate_contract_functions(&definitions()),
        format!("        {}\n\n        {}", TRANSFER_BODY, PING_BODY)
    );
}

#[test]
fn unit_tests() {
    assert_eq!(generate_test_function(&transfer(), "MyContract"), TRANSFER_TEST);
    assert_eq!(generate_test_function(&ping(), "MyContract"), PING_TEST);
    assert_eq!(generate_ink_test_functions(&definitions()), format!("{}\n{}", TRANSFER_TEST, PING_TEST));
    let typed = function("on_block", vec![arg("number", "u32")], ret("u32", "u32"));
    assert_eq!(
        generate_test_function(&typed, "Counter"),
        "
        #[ink::test]
        fn test_on_block_hookpoint() {
            let counter = Counter::new();
            assert_eq!(counter.on_block(0), 0u32);
        }"
    );
}

#[test]
fn e2e_tests() {
    assert_eq!(generate_e2e_test_functions(&definitions()), e2e_module());
}

#[test]
fn contract_without_tests() {
    assert_eq!(generate_ink_contract(&definitions(), false), format!("{}\n}}", contract_head()));
}

#[test]
fn contract_with_tests() {
    let tests = format!(
        r##"
    #[cfg(test)]
    mod tests {{
        use super::*;
        use my_contract_contract_trait::MyContract as Trait;
        {}
    }}
"##,
        format!("{}\n{}", TRANSFER_TEST, PING_TEST)
    );
    assert_eq!(
        generate_ink_contract(&definitions(), true),
        format!("{}{}{}\n}}", contract_head(), tests, e2e_module())
    );
}

#[test]
fn every_hook_point_is_generated() {
    let d = definitions();
    let trait_text = generate_ink_trait(&d);
    let with_tests = generate_ink_contract(&d, true);
    let without_tests = generate_ink_contract(&d, false);
    for f in collect_functions(&d) {
        assert!(trait_text.contains(&generate_trait_function_signature(f)));
        assert!(without_tests.contains(&generate_function_body(f)));
        assert!(with_tests.contains(&generate_function_body(f)));
        assert!(with_tests.contains(&generate_test_function(f, &d.name)));
    }
}

#[test]
fn tests_only_add_test_modules() {
    let d = definitions();
    let with = generate_ink_contract(&d, true);
    let without = generate_ink_contract(&d, false);
    let head = &without[..without.len() - 2];
    assert!(with.starts_with(head));
    assert!(with.ends_with("\n}"));
}

#[test]
fn tests_only_add_e2e_manifest_entries() {
    let d = definitions();
    let with = generate_contract_toml(&d, true).ok().unwrap();
    let without = generate_contract_toml(&d, false).ok().unwrap();
    let stripped = with
        .replace("\n[dev-dependencies]\nink_e2e = \"4.3.0\"\n", "")
        .replace("e2e-tests = []\n", "");
    assert_eq!(stripped, without);
}

#[test]
fn collected_functions_follow_pallet_order() {
    let d = Definitions {
        name: "X".to_string(),
        ink_dependencies: deps(),
        pallets: vec![
            Pallet { name: "p".to_string(), functions: vec![transfer(), ping()] },
            Pallet { name: "q".to_string(), functions: vec![] },
            Pallet { name: "r".to_string(), functions: vec![function("on_last", vec![], None)] },
        ],
    };
    let names: Vec<&str> = collect_functions(&d).iter().map(|f| f.hook_point.as_str()).collect();
    assert_eq!(names, vec!["on_transfer", "on_ping", "on_last"]);
}

#[test]
fn empty_definitions() {
    let d = Definitions { name: "Empty".to_string(), ink_dependencies: deps(), pallets: vec![] };
    assert!(!d.contains_type(&["AccountId", "Hash"]));
    assert_eq!(
        generate_ink_trait(&d),
        "#![cfg_attr(not(feature = \"std\"), no_std, no_main)]\n\n#[ink::trait_definition]\npub trait Empty {\n\n\n}"
    );
    assert_eq!(generate_contract_functions(&d), "");
    assert_eq!(generate_ink_test_functions(&d), "");
}

#[test]
fn contains_type_looks_at_arguments_and_returns() {
    let d = definitions();
    assert!(d.contains_type(&["AccountId"]));
    assert!(d.contains_type(&["Hash", "Balance"]));
    assert!(!d.contains_type(&["Hash"]));
    assert!(!d.contains_type(&[]));
    assert!(plain_definitions().contains_type(&["u32"]));
    assert!(ping().uses_type("u32") == false);
    assert!(transfer().uses_type("Balance"));
}

#[test]
fn distinct_pallet_names() {
    assert!(definitions().has_distinct_pallet_names());
    let mut d = definitions();
    d.pallets.push(Pallet { name: "other".to_string(), functions: vec![] });
    assert!(d.has_distinct_pallet_names());
    d.pallets.push(Pallet { name: "assets".to_string(), functions: vec![] });
    assert!(!d.has_distinct_pallet_names());
    let empty = Definitions { name: "E".to_string(), ink_dependencies: deps(), pallets: vec![] };
    assert!(empty.has_distinct_pallet_names());
}

#[test]
fn implementation_matches_message() {
    let cases = vec![
        transfer(),
        ping(),
        function("on_block", vec![arg("number", "u32")], ret("u32", "u32")),
        function("on_pair", vec![arg("a", "Hash"), arg("b", "bool")], ret("b", "bool")),
    ];
    for f in cases {
        let message = generate_trait_function_signature(&f);
        let message_line = message.lines().last().unwrap().trim().to_string();
        let body = generate_function_body(&f);
        let mut impl_line = body.lines().nth(2).unwrap().trim().replace(" {", ";");
        for a in &f.arguments {
            impl_line = impl_line.replace(&format!("_{}: ", a.name), &format!("{}: ", a.name));
        }
        assert_eq!(impl_line, message_line);
    }
}

#[test]
fn primitive_import_matches_dependency() {
    let registry = Definitions {
        name: "Registry".to_string(),
        ink_dependencies: deps(),
        pallets: vec![Pallet {
            name: "a".to_string(),
            functions: vec![function("on_hash", vec![arg("h", "Hash")], None)],
        }],
    };
    for d in [definitions(), plain_definitions(), registry] {
        let trait_text = generate_ink_trait(&d);
        let manifest = generate_contract_trait_toml(&d).ok().unwrap();
        let imports = trait_text.contains("use ink_primitives::");
        let declared = manifest.contains("\nink_primitives = { version = \"4.3.0\"");
        assert_eq!(imports, declared);
        assert_eq!(imports, d.contains_type(&["AccountId", "Hash"]));
    }
}
