//! Source text of the generated ink! trait crate and contract crate.

use vstd::prelude::*;
use crate::models::{
    ArgumentModel, Definitions, DefinitionsModel, FunctionModel, PalletFunction,
    PalletModel, definitions_use_type,
};
use crate::naming::{
    camel_to_snake, default_value, get_default_for_ink_type, get_default_ink_type_for_test,
    ink_primitive_list, ink_primitives, ink_type_list, ink_types, snake_case, test_value,
};
use crate::text::{lemma_texts_push, lemma_take_push, join, join_strings, texts, has_prefix, starts_with, str_texts, text_list_contains};

verus! {

/// The hook points of all pallets, pallet after pallet, each pallet's in order.
pub open spec fn all_functions(ps: Seq<PalletModel>) -> Seq<FunctionModel>
    decreases ps.len(),
{
    if ps.len() == 0 {
        Seq::empty()
    } else {
        all_functions(ps.drop_last()) + ps.last().functions
    }
}

pub open spec fn function_models(v: Seq<&PalletFunction>) -> Seq<FunctionModel> {
    v.map_values(|f: &PalletFunction| f@)
}

proof fn lemma_function_models_push(v: Seq<&PalletFunction>, f: &PalletFunction)
    ensures
        function_models(v.push(f)) == function_models(v).push(f@),
{
    assert(function_models(v.push(f)) =~= function_models(v).push(f@));
}

/// The hook points of all pallets, in order.
pub fn collect_functions(definitions: &Definitions) -> (r: Vec<&PalletFunction>)
    ensures
        function_models(r@) == all_functions(definitions@.pallets),
{
    let ghost ps = definitions@.pallets;
    let mut out: Vec<&PalletFunction> = Vec::new();
    let mut i: usize = 0;
    while i < definitions.pallets.len()
        invariant
            i <= definitions.pallets.len(),
            ps == definitions@.pallets,
            function_models(out@) == all_functions(ps.take(i as int)),
        decreases definitions.pallets.len() - i,
    {
        let p = &definitions.pallets[i];
        let mut j: usize = 0;
        while j < p.functions.len()
            invariant
                i < definitions.pallets.len(),
                p == &definitions.pallets@[i as int],
                j <= p.functions.len(),
                function_models(out@) == all_functions(ps.take(i as int)) + p@.functions.take(
                    j as int,
                ),
            decreases p.functions.len() - j,
        {
            let ghost before = out@;
            out.push(&p.functions[j]);
            proof {
                assert(p@.functions[j as int] == p.functions@[j as int]@);
                lemma_function_models_push(before, &p.functions[j as int]);
                lemma_take_push(p@.functions, j as int);
                assert(function_models(out@) =~= all_functions(ps.take(i as int))
                    + p@.functions.take(j + 1));
            }
            j += 1;
        }
        assert(p@.functions.take(p.functions.len() as int) =~= p@.functions);
        assert(ps.take(i + 1).drop_last() =~= ps.take(i as int));
        assert(ps.take(i + 1).last() == p@);
        i += 1;
    }
    assert(ps.take(definitions.pallets.len() as int) =~= ps);
    out
}

/// ` -> T` for a hook point that returns a `T`, nothing otherwise.
pub open spec fn return_suffix(f: FunctionModel) -> Seq<char> {
    match f.returns {
        Some(r) => " -> "@ + r.type_,
        None => Seq::empty(),
    }
}

fn generate_return_suffix(func: &PalletFunction) -> (r: String)
    ensures
        r@ == return_suffix(func@),
{
    match &func.returns {
        Some(ret_val) => {
            let mut s = " -> ".to_owned();
            s.append(ret_val.type_.as_str());
            s
        },
        None => String::new(),
    }
}

/// `name: Type`.
pub open spec fn typed_argument(a: ArgumentModel) -> Seq<char> {
    a.name + ": "@ + a.type_
}

/// The parameters of a hook point in its trait signature.
pub open spec fn signature_arguments(f: FunctionModel) -> Seq<char> {
    join(f.arguments.map_values(|a: ArgumentModel| typed_argument(a)), ", "@)
}

/// The declaration of a hook point in the ink! trait.
pub open spec fn trait_signature(f: FunctionModel) -> Seq<char> {
    let args = signature_arguments(f);
    let method_args = if args.len() == 0 {
        "&self"@
    } else {
        "&self, "@ + args
    };
    "    /// hook point for `"@ + f.hook_point + "` pallet\n    #[ink(message)]\n    fn "@
        + f.hook_point + "("@ + method_args + ")"@ + return_suffix(f) + ";"@
}

/// Generates the declaration of a hook point in the ink! trait.
pub fn generate_trait_function_signature(func: &PalletFunction) -> (r: String)
    ensures
        r@ == trait_signature(func@),
{
    let ghost args_model = func@.arguments.map_values(|a: ArgumentModel| typed_argument(a));
    let mut pieces: Vec<String> = Vec::new();
    let mut k: usize = 0;
    while k < func.arguments.len()
        invariant
            k <= func.arguments.len(),
            args_model == func@.arguments.map_values(|a: ArgumentModel| typed_argument(a)),
            texts(pieces@) == args_model.take(k as int),
        decreases func.arguments.len() - k,
    {
        let arg = &func.arguments[k];
        let mut s = arg.name.clone();
        s.append(": ");
        s.append(arg.type_.as_str());
        assert(func@.arguments[k as int] == func.arguments@[k as int]@);
        assert(args_model[k as int] == typed_argument(func@.arguments[k as int]));
        assert(s@ == args_model[k as int]);
        let ghost before = pieces@;
        pieces.push(s);
        proof {
            lemma_texts_push(before, s);
            lemma_take_push(args_model, k as int);
        }
        k += 1;
    }
    assert(args_model.take(func.arguments.len() as int) =~= args_model);
    let args = join_strings(&pieces, ", ");
    let method_args = if args.as_str().is_empty() {
        "&self".to_owned()
    } else {
        let mut s = "&self, ".to_owned();
        s.append(args.as_str());
        s
    };
    let return_type = generate_return_suffix(func);
    let mut out = "    /// hook point for `".to_owned();
    out.append(func.hook_point.as_str());
    out.append("` pallet\n    #[ink(message)]\n    fn ");
    out.append(func.hook_point.as_str());
    out.append("(");
    out.append(method_args.as_str());
    out.append(")");
    out.append(return_type.as_str());
    out.append(";");
    out
}

/// The ink! primitive types that some hook point uses, in table order.
pub open spec fn used_types(d: DefinitionsModel, ts: Seq<Seq<char>>) -> Seq<Seq<char>>
    decreases ts.len(),
{
    if ts.len() == 0 {
        Seq::empty()
    } else {
        let init = used_types(d, ts.drop_last());
        if definitions_use_type(d, ts.last()) {
            init.push(ts.last())
        } else {
            init
        }
    }
}

/// The import of the ink! primitive types that the hook points use.
pub open spec fn primitive_imports(d: DefinitionsModel) -> Seq<char> {
    let prims = used_types(d, ink_primitives());
    if prims.len() == 0 {
        Seq::empty()
    } else if prims.len() == 1 {
        "use ink_primitives::"@ + prims[0] + ";\n"@
    } else {
        "use ink_primitives::{"@ + join(prims, ", "@) + "};\n"@
    }
}

/// Some hook point uses a known type whose name begins with `Vec`.
pub open spec fn uses_vec_type(d: DefinitionsModel) -> bool {
    exists|k: int|
        0 <= k < ink_types().len() && starts_with(ink_types()[k], "Vec"@) && definitions_use_type(
            d,
            #[trigger] ink_types()[k],
        )
}

/// The imports and type aliases at the head of the trait crate.
pub open spec fn trait_imports(d: DefinitionsModel) -> Seq<char> {
    let primitives = primitive_imports(d);
    let with_vec = if uses_vec_type(d) {
        primitives + "\nuse ink::prelude::vec::Vec;\n"@
    } else {
        primitives
    };
    if definitions_use_type(d, "Balance"@) {
        with_vec
            + "\ntype Balance = <ink::env::DefaultEnvironment as ink::env::Environment>::Balance;\n"@
    } else {
        with_vec
    }
}

/// The source of the trait crate.
pub open spec fn ink_trait(d: DefinitionsModel) -> Seq<char> {
    "#![cfg_attr(not(feature = \"std\"), no_std, no_main)]\n"@ + trait_imports(d)
        + "\n#[ink::trait_definition]\npub trait "@ + d.name + " {\n\n"@ + join(
        all_functions(d.pallets).map_values(|f: FunctionModel| trait_signature(f)),
        "\n\n"@,
    ) + "\n}"@
}

fn generate_primitive_imports(definitions: &Definitions) -> (r: String)
    ensures
        r@ == primitive_imports(definitions@),
{
    let prims = ink_primitive_list();
    let ghost all = str_texts(prims@);
    let mut used: Vec<String> = Vec::new();
    let mut k: usize = 0;
    while k < prims.len()
        invariant
            k <= prims.len(),
            all == str_texts(prims@),
            all == ink_primitives(),
            texts(used@) == used_types(definitions@, all.take(k as int)),
        decreases prims.len() - k,
    {
        assert(all.take(k + 1).drop_last() =~= all.take(k as int));
        assert(all.take(k + 1).last() == prims@[k as int]@);
        if definitions.uses_type(prims[k]) {
            used.push(prims[k].to_owned());
            assert(texts(used@) =~= used_types(definitions@, all.take(k + 1)));
        }
        k += 1;
    }
    assert(all.take(prims.len() as int) =~= all);
    if used.len() == 0 {
        String::new()
    } else if used.len() == 1 {
        let mut s = "use ink_primitives::".to_owned();
        s.append(used[0].as_str());
        s.append(";\n");
        s
    } else {
        let joined = join_strings(&used, ", ");
        let mut s = "use ink_primitives::{".to_owned();
        s.append(joined.as_str());
        s.append("};\n");
        s
    }
}

fn generate_uses_vec_type(definitions: &Definitions) -> (r: bool)
    ensures
        r == uses_vec_type(definitions@),
{
    let types = ink_type_list();
    let ghost all = str_texts(types@);
    let mut k: usize = 0;
    while k < types.len()
        invariant
            k <= types.len(),
            all == str_texts(types@),
            all == ink_types(),
            forall|m: int|
                0 <= m < k ==> !(starts_with(all[m], "Vec"@) && definitions_use_type(
                    definitions@,
                    #[trigger] all[m],
                )),
        decreases types.len() - k,
    {
        if has_prefix(types[k], "Vec") && definitions.uses_type(types[k]) {
            assert(all[k as int] == types@[k as int]@);
            return true;
        }
        k += 1;
    }
    false
}

/// Generates the source of the trait crate: imports, then the trait named
/// after the definitions with one message per hook point.
pub fn generate_ink_trait(definitions: &Definitions) -> (r: String)
    ensures
        r@ == ink_trait(definitions@),
{
    let functions = collect_functions(definitions);
    let ghost sigs = all_functions(definitions@.pallets).map_values(
        |f: FunctionModel| trait_signature(f),
    );
    let mut function_signatures: Vec<String> = Vec::new();
    let mut k: usize = 0;
    while k < functions.len()
        invariant
            k <= functions.len(),
            function_models(functions@) == all_functions(definitions@.pallets),
            sigs == all_functions(definitions@.pallets).map_values(
                |f: FunctionModel| trait_signature(f),
            ),
            texts(function_signatures@) == sigs.take(k as int),
        decreases functions.len() - k,
    {
        let sig = generate_trait_function_signature(functions[k]);
        assert(function_models(functions@)[k as int] == functions@[k as int]@);
        assert(sig@ == sigs[k as int]);
        let ghost before = function_signatures@;
        function_signatures.push(sig);
        proof {
            lemma_texts_push(before, sig);
            lemma_take_push(sigs, k as int);
        }
        k += 1;
    }
    assert(sigs.take(functions.len() as int) =~= sigs);
    let mut import_string = generate_primitive_imports(definitions);
    if generate_uses_vec_type(definitions) {
        import_string.append("\nuse ink::prelude::vec::Vec;\n");
    }
    if definitions.uses_type("Balance") {
        import_string.append(
            "\ntype Balance = <ink::env::DefaultEnvironment as ink::env::Environment>::Balance;\n",
        );
    }
    let signatures = join_strings(&function_signatures, "\n\n");
    let mut out = "#![cfg_attr(not(feature = \"std\"), no_std, no_main)]\n".to_owned();
    out.append(import_string.as_str());
    out.append("\n#[ink::trait_definition]\npub trait ");
    out.append(definitions.name.as_str());
    out.append(" {\n\n");
    out.append(signatures.as_str());
    out.append("\n}");
    out
}

/// A parameter of a hook point in the contract: the argument that the hook
/// point returns keeps its name, every other one gets a leading `_`.
pub open spec fn body_argument(f: FunctionModel, a: ArgumentModel) -> Seq<char> {
    if f.returns matches Some(r) && r.default == a.name {
        a.name + ": "@ + a.type_
    } else {
        "_"@ + a.name + ": "@ + a.type_
    }
}

/// The parameters of a hook point in the contract, after `&self`.
pub open spec fn body_arguments(f: FunctionModel) -> Seq<char> {
    join(f.arguments.map_values(|a: ArgumentModel| body_argument(f, a)), ", "@)
}

/// What a hook point of the contract returns: the default value of its return
/// type when `default` names a known type, `default` itself otherwise, and a
/// comment when it returns nothing.
pub open spec fn body_expression(f: FunctionModel) -> Seq<char> {
    match f.returns {
        Some(r) => if ink_types().contains(r.default) {
            default_value(r.type_)
        } else {
            r.default
        },
        None => "// do nothing"@,
    }
}

/// The implementation of a hook point in the contract.
pub open spec fn contract_function(f: FunctionModel) -> Seq<char> {
    let args = body_arguments(f);
    let args_part = if args.len() == 0 {
        Seq::empty()
    } else {
        ", "@ + args
    };
    "/// hook point for `"@ + f.hook_point + "` pallet\n        #[ink(message)]\n        fn "@
        + f.hook_point + "(&self"@ + args_part + ")"@ + return_suffix(f) + " {\n            "@
        + body_expression(f) + "\n        }"@
}

/// Generates the implementation of a hook point in the contract.
pub fn generate_function_body(func: &PalletFunction) -> (r: String)
    ensures
        r@ == contract_function(func@),
{
    let ghost f = func@;
    let ghost args_model = f.arguments.map_values(|a: ArgumentModel| body_argument(f, a));
    let mut pieces: Vec<String> = Vec::new();
    let mut k: usize = 0;
    while k < func.arguments.len()
        invariant
            k <= func.arguments.len(),
            f == func@,
            args_model == f.arguments.map_values(|a: ArgumentModel| body_argument(f, a)),
            texts(pieces@) == args_model.take(k as int),
        decreases func.arguments.len() - k,
    {
        let arg = &func.arguments[k];
        let keeps_name = match &func.returns {
            Some(ret_val) => ret_val.default == arg.name,
            None => false,
        };
        let mut s = if keeps_name {
            arg.name.clone()
        } else {
            let mut t = "_".to_owned();
            t.append(arg.name.as_str());
            t
        };
        s.append(": ");
        s.append(arg.type_.as_str());
        assert(f.arguments[k as int] == func.arguments@[k as int]@);
        assert(s@ == args_model[k as int]);
        let ghost before = pieces@;
        pieces.push(s);
        proof {
            lemma_texts_push(before, s);
            lemma_take_push(args_model, k as int);
        }
        k += 1;
    }
    assert(args_model.take(func.arguments.len() as int) =~= args_model);
    let args = join_strings(&pieces, ", ");
    let return_type = generate_return_suffix(func);
    let function_body = match &func.returns {
        Some(ret_val) => {
            let types = ink_type_list();
            if text_list_contains(&types, ret_val.default.as_str()) {
                get_default_for_ink_type(ret_val.type_.as_str())
            } else {
                ret_val.default.clone()
            }
        },
        None => "// do nothing".to_owned(),
    };
    let args_part = if args.as_str().is_empty() {
        String::new()
    } else {
        let mut t = ", ".to_owned();
        t.append(args.as_str());
        t
    };
    let mut out = "/// hook point for `".to_owned();
    out.append(func.hook_point.as_str());
    out.append("` pallet\n        #[ink(message)]\n        fn ");
    out.append(func.hook_point.as_str());
    out.append("(&self");
    out.append(args_part.as_str());
    out.append(")");
    out.append(return_type.as_str());
    out.append(" {\n            ");
    out.append(function_body.as_str());
    out.append("\n        }");
    out
}

/// The hook point implementations of the contract, each indented, separated
/// by blank lines.
pub open spec fn contract_functions(d: DefinitionsModel) -> Seq<char> {
    join(
        all_functions(d.pallets).map_values(|f: FunctionModel| "        "@ + contract_function(f)),
        "\n\n"@,
    )
}

/// Generates the hook point implementations of the contract.
pub fn generate_contract_functions(definitions: &Definitions) -> (r: String)
    ensures
        r@ == contract_functions(definitions@),
{
    let functions = collect_functions(definitions);
    let ghost bodies = all_functions(definitions@.pallets).map_values(
        |f: FunctionModel| "        "@ + contract_function(f),
    );
    let mut indented: Vec<String> = Vec::new();
    let mut k: usize = 0;
    while k < functions.len()
        invariant
            k <= functions.len(),
            function_models(functions@) == all_functions(definitions@.pallets),
            bodies == all_functions(definitions@.pallets).map_values(
                |f: FunctionModel| "        "@ + contract_function(f),
            ),
            texts(indented@) == bodies.take(k as int),
        decreases functions.len() - k,
    {
        let body = generate_function_body(functions[k]);
        let mut line = "        ".to_owned();
        line.append(body.as_str());
        assert(function_models(functions@)[k as int] == functions@[k as int]@);
        assert(line@ == bodies[k as int]);
        let ghost before = indented@;
        indented.push(line);
        proof {
            lemma_texts_push(before, line);
            lemma_take_push(bodies, k as int);
        }
        k += 1;
    }
    assert(bodies.take(functions.len() as int) =~= bodies);
    join_strings(&indented, "\n\n")
}

/// The unit test that calls a hook point with default arguments and expects
/// the default value of its return type.
pub open spec fn ink_test(f: FunctionModel, contract_name: Seq<char>) -> Seq<char> {
    let snake = snake_case(contract_name);
    let instance = "let "@ + snake + " = "@ + contract_name + "::new();"@;
    let arguments = join(f.arguments.map_values(|a: ArgumentModel| default_value(a.type_)), ", "@);
    let expected = expected_return(f);
    "\n        #[ink::test]\n        fn test_"@ + f.hook_point + "_hookpoint() {\n            "@
        + instance + "\n            assert_eq!("@ + snake + "."@ + f.hook_point + "("@ + arguments
        + "), "@ + expected + ");\n        }"@
}

/// The expected result of a hook point in a generated test.
pub open spec fn expected_return(f: FunctionModel) -> Seq<char> {
    match f.returns {
        Some(r) => test_value(r.type_),
        None => "()"@,
    }
}

fn generate_expected_return(func: &PalletFunction) -> (r: String)
    ensures
        r@ == expected_return(func@),
{
    match &func.returns {
        Some(ret_val) => get_default_ink_type_for_test(ret_val.type_.as_str()),
        None => "()".to_owned(),
    }
}

/// Generates the unit test of one hook point of the contract `contract_name`.
pub fn generate_test_function(func: &PalletFunction, contract_name: &str) -> (r: String)
    ensures
        r@ == ink_test(func@, contract_name@),
{
    let snake = camel_to_snake(contract_name);
    let mut contract_instance = "let ".to_owned();
    contract_instance.append(snake.as_str());
    contract_instance.append(" = ");
    contract_instance.append(contract_name);
    contract_instance.append("::new();");
    let ghost args_model = func@.arguments.map_values(|a: ArgumentModel| default_value(a.type_));
    let mut arguments: Vec<String> = Vec::new();
    let mut k: usize = 0;
    while k < func.arguments.len()
        invariant
            k <= func.arguments.len(),
            args_model == func@.arguments.map_values(|a: ArgumentModel| default_value(a.type_)),
            texts(arguments@) == args_model.take(k as int),
        decreases func.arguments.len() - k,
    {
        let v = get_default_for_ink_type(func.arguments[k].type_.as_str());
        assert(func@.arguments[k as int] == func.arguments@[k as int]@);
        let ghost before = arguments@;
        arguments.push(v);
        proof {
            lemma_texts_push(before, v);
            lemma_take_push(args_model, k as int);
        }
        k += 1;
    }
    assert(args_model.take(func.arguments.len() as int) =~= args_model);
    let joined = join_strings(&arguments, ", ");
    let expected = generate_expected_return(func);
    let mut out = "\n        #[ink::test]\n        fn test_".to_owned();
    out.append(func.hook_point.as_str());
    out.append("_hookpoint() {\n            ");
    out.append(contract_instance.as_str());
    out.append("\n            assert_eq!(");
    out.append(snake.as_str());
    out.append(".");
    out.append(func.hook_point.as_str());
    out.append("(");
    out.append(joined.as_str());
    out.append("), ");
    out.append(expected.as_str());
    out.append(");\n        }");
    out
}

/// The unit tests of all hook points, one after the other.
pub open spec fn ink_tests(d: DefinitionsModel) -> Seq<char> {
    join(all_functions(d.pallets).map_values(|f: FunctionModel| ink_test(f, d.name)), "\n"@)
}

/// Generates the unit tests of all hook points of the contract.
pub fn generate_ink_test_functions(definitions: &Definitions) -> (r: String)
    ensures
        r@ == ink_tests(definitions@),
{
    let functions = collect_functions(definitions);
    let ghost tests = all_functions(definitions@.pallets).map_values(
        |f: FunctionModel| ink_test(f, definitions@.name),
    );
    let mut out: Vec<String> = Vec::new();
    let mut k: usize = 0;
    while k < functions.len()
        invariant
            k <= functions.len(),
            function_models(functions@) == all_functions(definitions@.pallets),
            tests == all_functions(definitions@.pallets).map_values(
                |f: FunctionModel| ink_test(f, definitions@.name),
            ),
            texts(out@) == tests.take(k as int),
        decreases functions.len() - k,
    {
        let t = generate_test_function(functions[k], definitions.name.as_str());
        assert(function_models(functions@)[k as int] == functions@[k as int]@);
        assert(t@ == tests[k as int]);
        let ghost before = out@;
        out.push(t);
        proof {
            lemma_texts_push(before, t);
            lemma_take_push(tests, k as int);
        }
        k += 1;
    }
    assert(tests.take(functions.len() as int) =~= tests);
    join_strings(&out, "\n")
}

/// The end-to-end test of one hook point of pallet `pallet` of the contract
/// `contract`: it instantiates the contract, dry-runs the hook point with test
/// values and compares the result.
pub open spec fn e2e_test(contract: Seq<char>, pallet: Seq<char>, f: FunctionModel) -> Seq<char> {
    let ref_type = contract + "Ref"@;
    let parameters = join(f.arguments.map_values(|a: ArgumentModel| test_value(a.type_)), ", "@);
    "\n        #[ink_e2e::test]\n        async fn "@ + ("e2e_test_"@ + f.hook_point)
        + "(mut client: ink_e2e::Client<C, E>) -> E2EResult<()> {\n            let constructor = "@
        + ref_type
        + "::new();\n\n            let contract_account_id = client\n                .instantiate(\""@
        + snake_case(contract)
        + "\", &ink_e2e::alice(), constructor, 0, None)\n                .await\n                .expect(\"instantiate failed\")\n                .account_id;\n\n            let "@
        + f.hook_point + " = build_message::<"@ + ref_type
        + ">(contract_account_id.clone())\n                .call(|"@ + pallet + "| "@ + pallet + "."@
        + f.hook_point + "("@ + parameters
        + "));\n\n            let result = client\n                .call_dry_run(&ink_e2e::alice(), &"@
        + f.hook_point
        + ", 0, None)\n                .await;\n\n            if let Some(ret) = &function.returns {\n                assert_eq!(result.return_value(), "@
        + expected_return(f) + ");\n            }\n            Ok(())\n        }\n"@
}

/// The end-to-end tests of the hook points `fs` of one pallet, in order.
pub open spec fn e2e_pallet_tests(contract: Seq<char>, pallet: Seq<char>, fs: Seq<FunctionModel>) -> Seq<char>
    decreases fs.len(),
{
    if fs.len() == 0 {
        Seq::empty()
    } else {
        e2e_pallet_tests(contract, pallet, fs.drop_last()) + e2e_test(contract, pallet, fs.last())
    }
}

/// The end-to-end tests of all pallets, pallet after pallet.
pub open spec fn e2e_all_tests(contract: Seq<char>, ps: Seq<PalletModel>) -> Seq<char>
    decreases ps.len(),
{
    if ps.len() == 0 {
        Seq::empty()
    } else {
        e2e_all_tests(contract, ps.drop_last()) + e2e_pallet_tests(
            contract,
            ps.last().name,
            ps.last().functions,
        )
    }
}

/// The end-to-end test module, compiled only with the `e2e-tests` feature.
pub open spec fn e2e_module(d: DefinitionsModel) -> Seq<char> {
    "\n    #[cfg(all(test, feature = \"e2e-tests\"))]\n    mod e2e_tests {\n        use super::*;\n        use "@
        + snake_case(d.name) + "_contract_trait::"@ + d.name
        + " as Trait;\n        use ink_e2e::build_message;\n        type E2EResult<T> = std::result::Result<T, Box<dyn std::error::Error>>;\n        "@
        + e2e_all_tests(d.name, d.pallets) + "\n    }\n"@
}

fn generate_e2e_test(
    contract_name: &str,
    ref_type: &str,
    snake_case_name: &str,
    pallet_name: &str,
    function: &PalletFunction,
) -> (r: String)
    requires
        ref_type@ == contract_name@ + "Ref"@,
        snake_case_name@ == snake_case(contract_name@),
    ensures
        r@ == e2e_test(contract_name@, pallet_name@, function@),
{
    let mut e2e_function_name = "e2e_test_".to_owned();
    e2e_function_name.append(function.hook_point.as_str());
    let ghost args_model = function@.arguments.map_values(|a: ArgumentModel| test_value(a.type_));
    let mut params: Vec<String> = Vec::new();
    let mut k: usize = 0;
    while k < function.arguments.len()
        invariant
            k <= function.arguments.len(),
            args_model == function@.arguments.map_values(|a: ArgumentModel| test_value(a.type_)),
            texts(params@) == args_model.take(k as int),
        decreases function.arguments.len() - k,
    {
        let v = get_default_ink_type_for_test(function.arguments[k].type_.as_str());
        assert(function@.arguments[k as int] == function.arguments@[k as int]@);
        let ghost before = params@;
        params.push(v);
        proof {
            lemma_texts_push(before, v);
            lemma_take_push(args_model, k as int);
        }
        k += 1;
    }
    assert(args_model.take(function.arguments.len() as int) =~= args_model);
    let parameters = join_strings(&params, ", ");
    let expected = generate_expected_return(function);
    let hook_name = function.hook_point.as_str();
    let mut out = "\n        #[ink_e2e::test]\n        async fn ".to_owned();
    out.append(e2e_function_name.as_str());
    out.append(
        "(mut client: ink_e2e::Client<C, E>) -> E2EResult<()> {\n            let constructor = ",
    );
    out.append(ref_type);
    out.append(
        "::new();\n\n            let contract_account_id = client\n                .instantiate(\"",
    );
    out.append(snake_case_name);
    out.append(
        "\", &ink_e2e::alice(), constructor, 0, None)\n                .await\n                .expect(\"instantiate failed\")\n                .account_id;\n\n            let ",
    );
    out.append(hook_name);
    out.append(" = build_message::<");
    out.append(ref_type);
    out.append(">(contract_account_id.clone())\n                .call(|");
    out.append(pallet_name);
    out.append("| ");
    out.append(pallet_name);
    out.append(".");
    out.append(hook_name);
    out.append("(");
    out.append(parameters.as_str());
    out.append(
        "));\n\n            let result = client\n                .call_dry_run(&ink_e2e::alice(), &",
    );
    out.append(hook_name);
    out.append(
        ", 0, None)\n                .await;\n\n            if let Some(ret) = &function.returns {\n                assert_eq!(result.return_value(), ",
    );
    out.append(expected.as_str());
    out.append(");\n            }\n            Ok(())\n        }\n");
    out
}

/// Generates the end-to-end test module of the contract: one test per hook
/// point, pallet after pallet.
pub fn generate_e2e_test_functions(definitions: &Definitions) -> (r: String)
    ensures
        r@ == e2e_module(definitions@),
{
    let ghost ps = definitions@.pallets;
    let ghost name = definitions@.name;
    let mut ref_type = definitions.name.clone();
    ref_type.append("Ref");
    let snake_case_name = camel_to_snake(definitions.name.as_str());
    let mut e2e_tests = String::new();
    let mut i: usize = 0;
    while i < definitions.pallets.len()
        invariant
            i <= definitions.pallets.len(),
            ps == definitions@.pallets,
            name == definitions@.name,
            ref_type@ == name + "Ref"@,
            snake_case_name@ == snake_case(name),
            e2e_tests@ == e2e_all_tests(name, ps.take(i as int)),
        decreases definitions.pallets.len() - i,
    {
        let pallet = &definitions.pallets[i];
        let ghost done = e2e_all_tests(name, ps.take(i as int));
        let mut j: usize = 0;
        while j < pallet.functions.len()
            invariant
                i < definitions.pallets.len(),
                pallet == &definitions.pallets@[i as int],
                j <= pallet.functions.len(),
                ref_type@ == name + "Ref"@,
                snake_case_name@ == snake_case(name),
                name == definitions@.name,
                e2e_tests@ == done + e2e_pallet_tests(name, pallet@.name, pallet@.functions.take(
                    j as int,
                )),
            decreases pallet.functions.len() - j,
        {
            let test_function = generate_e2e_test(
                definitions.name.as_str(),
                ref_type.as_str(),
                snake_case_name.as_str(),
                pallet.name.as_str(),
                &pallet.functions[j],
            );
            let ghost prev = e2e_tests@;
            e2e_tests.append(test_function.as_str());
            proof {
                let fs = pallet@.functions;
                assert(fs[j as int] == pallet.functions@[j as int]@);
                assert(fs.take(j + 1).drop_last() =~= fs.take(j as int));
                assert(fs.take(j + 1).last() == fs[j as int]);
                assert(e2e_tests@ =~= done + e2e_pallet_tests(name, pallet@.name, fs.take(j + 1)));
            }
            j += 1;
        }
        proof {
            assert(pallet@.functions.take(pallet.functions.len() as int) =~= pallet@.functions);
            assert(ps.take(i + 1).drop_last() =~= ps.take(i as int));
            assert(ps.take(i + 1).last() == pallet@);
        }
        i += 1;
    }
    assert(ps.take(definitions.pallets.len() as int) =~= ps);
    let mut out = "\n    #[cfg(all(test, feature = \"e2e-tests\"))]\n    mod e2e_tests {\n        use super::*;\n        use ".to_owned();
    out.append(snake_case_name.as_str());
    out.append("_contract_trait::");
    out.append(definitions.name.as_str());
    out.append(
        " as Trait;\n        use ink_e2e::build_message;\n        type E2EResult<T> = std::result::Result<T, Box<dyn std::error::Error>>;\n        ",
    );
    out.append(e2e_tests.as_str());
    out.append("\n    }\n");
    out
}

/// The unit test module followed by the end-to-end test module.
pub open spec fn test_boilerplate(d: DefinitionsModel) -> Seq<char> {
    "\n    #[cfg(test)]\n    mod tests {\n        use super::*;\n        use "@ + snake_case(d.name)
        + "_contract_trait::"@ + d.name + " as Trait;\n        "@ + ink_tests(d) + "\n    }\n"@
        + e2e_module(d)
}

/// The source of the contract crate up to the end of the trait implementation.
pub open spec fn contract_head(d: DefinitionsModel) -> Seq<char> {
    let lower = snake_case(d.name);
    "#![cfg_attr(not(feature = \"std\"), no_std, no_main)]\n\n#[ink::contract]\nmod "@ + lower
        + " {\n    #[ink(storage)]\n    pub struct "@ + d.name + " {}\n\n    impl "@ + d.name
        + " {\n        #[ink(constructor)]\n        pub fn new() -> Self {\n            Self {}\n        }\n    }\n\n    impl "@
        + lower + "_contract_trait::"@ + d.name + " for "@ + d.name + " {\n"@ + contract_functions(d)
        + "\n    }\n"@
}

/// The source of the contract crate; the test modules only with `include_tests`.
pub open spec fn ink_contract(d: DefinitionsModel, include_tests: bool) -> Seq<char> {
    contract_head(d) + (if include_tests {
        test_boilerplate(d)
    } else {
        Seq::empty()
    }) + "\n}"@
}

/// Generates the source of the contract crate: the storage struct, its
/// constructor and the implementation of the trait, with the unit and
/// end-to-end test modules when `include_tests` holds.
pub fn generate_ink_contract(definitions: &Definitions, include_tests: bool) -> (r: String)
    ensures
        r@ == ink_contract(definitions@, include_tests),
{
    let functions = generate_contract_functions(definitions);
    let contract_name = definitions.name.as_str();
    let contract_name_lower = camel_to_snake(contract_name);
    let test_boilerplate = if include_tests {
        let ink_test_functions = generate_ink_test_functions(definitions);
        let mut tests = "\n    #[cfg(test)]\n    mod tests {\n        use super::*;\n        use ".to_owned();
        tests.append(contract_name_lower.as_str());
        tests.append("_contract_trait::");
        tests.append(contract_name);
        tests.append(" as Trait;\n        ");
        tests.append(ink_test_functions.as_str());
        tests.append("\n    }\n");
        let e2e = generate_e2e_test_functions(definitions);
        tests.append(e2e.as_str());
        tests
    } else {
        String::new()
    };
    let mut out = "#![cfg_attr(not(feature = \"std\"), no_std, no_main)]\n\n#[ink::contract]\nmod ".to_owned();
    out.append(contract_name_lower.as_str());
    out.append(" {\n    #[ink(storage)]\n    pub struct ");
    out.append(contract_name);
    out.append(" {}\n\n    impl ");
    out.append(contract_name);
    out.append(
        " {\n        #[ink(constructor)]\n        pub fn new() -> Self {\n            Self {}\n        }\n    }\n\n    impl ",
    );
    out.append(contract_name_lower.as_str());
    out.append("_contract_trait::");
    out.append(contract_name);
    out.append(" for ");
    out.append(contract_name);
    out.append(" {\n");
    out.append(functions.as_str());
    out.append("\n    }\n");
    out.append(test_boilerplate.as_str());
    out.append("\n}");
    out
}

} // verus!
