//! Properties that relate the generated texts to one another.

use vstd::prelude::*;
use crate::models::{ArgumentModel, DefinitionsModel, FunctionModel, PalletModel, function_uses_type, definitions_use_any, definitions_use_type};
use crate::manifest::{
    contract_toml, contract_trait_toml, contract_toml_features, contract_toml_head, dependencies_toml,
    e2e_dev_dependencies, ink_dependency, prelude_dependency, primitives_dependency,
    scale_dependencies,
};
use crate::naming::{ink_primitives, ink_types, default_value, ascii_lower, is_ascii_upper, kebab_case, separate_words, snake_case};
use crate::scaffold::{
    all_functions, body_argument, body_arguments, body_expression, primitive_imports, return_suffix,
    signature_arguments, typed_argument, used_types, contract_function, contract_functions, contract_head, e2e_module, ink_contract,
    ink_test, ink_tests, ink_trait, e2e_test, e2e_pallet_tests, e2e_all_tests, uses_vec_type, test_boilerplate, trait_signature, trait_imports,
};
use crate::text::{join, starts_with};

verus! {

/// `part` occurs in `text` starting at position `at`.
pub open spec fn occurs_at(part: Seq<char>, text: Seq<char>, at: int) -> bool {
    0 <= at && at + part.len() <= text.len() && text.subrange(at, at + part.len()) == part
}

/// `part` occurs somewhere in `text`.
pub open spec fn occurs_in(part: Seq<char>, text: Seq<char>) -> bool {
    exists|at: int| #[trigger] occurs_at(part, text, at)
}

proof fn lemma_occurs_in_concat(pre: Seq<char>, part: Seq<char>, post: Seq<char>)
    ensures
        occurs_in(part, pre + part + post),
{
    assert((pre + part + post).subrange(pre.len() as int, (pre.len() + part.len()) as int) =~= part);
    assert(occurs_at(part, pre + part + post, pre.len() as int));
}

/// Each piece of a joined text lies inside it, between a text before and a text after.
proof fn lemma_join_surrounds(parts: Seq<Seq<char>>, sep: Seq<char>, i: int) -> (r: (
    Seq<char>,
    Seq<char>,
))
    requires
        0 <= i < parts.len(),
    ensures
        join(parts, sep) == r.0 + parts[i] + r.1,
    decreases parts.len(),
{
    if parts.len() == 1 {
        assert(join(parts, sep) =~= Seq::<char>::empty() + parts[i] + Seq::<char>::empty());
        (Seq::empty(), Seq::empty())
    } else if i == parts.len() - 1 {
        let pre = join(parts.drop_last(), sep) + sep;
        assert(join(parts, sep) =~= pre + parts[i] + Seq::<char>::empty());
        (pre, Seq::empty())
    } else {
        let (pre, post) = lemma_join_surrounds(parts.drop_last(), sep, i);
        assert(parts.drop_last()[i] == parts[i]);
        let post2 = post + sep + parts.last();
        assert(join(parts, sep) =~= pre + parts[i] + post2);
        (pre, post2)
    }
}

proof fn lemma_signature_in_trait(d: DefinitionsModel, k: int)
    requires
        0 <= k < all_functions(d.pallets).len(),
    ensures
        occurs_in(trait_signature(all_functions(d.pallets)[k]), ink_trait(d)),
{
    let fs = all_functions(d.pallets);
    let f = fs[k];
    let sigs = fs.map_values(|g| trait_signature(g));
    let (pre, post) = lemma_join_surrounds(sigs, "\n\n"@, k);
    let x = "#![cfg_attr(not(feature = \"std\"), no_std, no_main)]\n"@ + trait_imports(d)
        + "\n#[ink::trait_definition]\npub trait "@ + d.name + " {\n\n"@;
    let y = "\n}"@;
    assert(ink_trait(d) == x + (pre + trait_signature(f) + post) + y);
    assert(ink_trait(d) =~= (x + pre) + trait_signature(f) + (post + y));
    lemma_occurs_in_concat(x + pre, trait_signature(f), post + y);
}

proof fn lemma_implementation_in_head(d: DefinitionsModel, k: int) -> (r: (Seq<char>, Seq<char>))
    requires
        0 <= k < all_functions(d.pallets).len(),
    ensures
        contract_head(d) == r.0 + contract_function(all_functions(d.pallets)[k]) + r.1,
{
    let fs = all_functions(d.pallets);
    let f = fs[k];
    let bodies = fs.map_values(|g| "        "@ + contract_function(g));
    let (pre, post) = lemma_join_surrounds(bodies, "\n\n"@, k);
    let body = "        "@ + contract_function(f);
    assert(contract_functions(d) == pre + body + post);
    let y = "#![cfg_attr(not(feature = \"std\"), no_std, no_main)]\n\n#[ink::contract]\nmod "@
        + snake_case(d.name) + " {\n    #[ink(storage)]\n    pub struct "@ + d.name
        + " {}\n\n    impl "@ + d.name
        + " {\n        #[ink(constructor)]\n        pub fn new() -> Self {\n            Self {}\n        }\n    }\n\n    impl "@
        + snake_case(d.name) + "_contract_trait::"@ + d.name + " for "@ + d.name + " {\n"@;
    let z = "\n    }\n"@;
    assert(contract_head(d) == y + contract_functions(d) + z);
    let before = y + pre + "        "@;
    let after = post + z;
    assert(contract_head(d) =~= before + contract_function(f) + after);
    (before, after)
}

proof fn lemma_test_in_boilerplate(d: DefinitionsModel, k: int) -> (r: (Seq<char>, Seq<char>))
    requires
        0 <= k < all_functions(d.pallets).len(),
    ensures
        test_boilerplate(d) == r.0 + ink_test(all_functions(d.pallets)[k], d.name) + r.1,
{
    let fs = all_functions(d.pallets);
    let f = fs[k];
    let tests = fs.map_values(|g| ink_test(g, d.name));
    let (pre, post) = lemma_join_surrounds(tests, "\n"@, k);
    assert(ink_tests(d) == pre + ink_test(f, d.name) + post);
    let z = "\n    #[cfg(test)]\n    mod tests {\n        use super::*;\n        use "@
        + snake_case(d.name) + "_contract_trait::"@ + d.name + " as Trait;\n        "@;
    let w = "\n    }\n"@ + e2e_module(d);
    assert(test_boilerplate(d) == z + ink_tests(d) + "\n    }\n"@ + e2e_module(d));
    assert(test_boilerplate(d) =~= (z + pre) + ink_test(f, d.name) + (post + w));
    (z + pre, post + w)
}

proof fn lemma_occurs_before(text: Seq<char>, m: Seq<char>, y: Seq<char>, x: Seq<char>, a: Seq<char>, p: Seq<char>, b: Seq<char>)
    requires
        text == (m + y) + x,
        m == a + p + b,
    ensures
        occurs_in(p, text),
{
    assert(text =~= a + p + (b + y + x));
    lemma_occurs_in_concat(a, p, b + y + x);
}

proof fn lemma_occurs_after(text: Seq<char>, h: Seq<char>, m: Seq<char>, x: Seq<char>, a: Seq<char>, p: Seq<char>, b: Seq<char>)
    requires
        text == (h + m) + x,
        m == a + p + b,
    ensures
        occurs_in(p, text),
{
    assert(text =~= (h + a) + p + (b + x));
    lemma_occurs_in_concat(h + a, p, b + x);
}

/// Every hook point is declared in the generated trait, implemented in the
/// generated contract (with or without tests), and has a unit test in the
/// contract generated with tests.
pub proof fn law_every_hook_point_is_generated(d: DefinitionsModel, k: int)
    requires
        0 <= k < all_functions(d.pallets).len(),
    ensures
        occurs_in(trait_signature(all_functions(d.pallets)[k]), ink_trait(d)),
        occurs_in(contract_function(all_functions(d.pallets)[k]), ink_contract(d, false)),
        occurs_in(contract_function(all_functions(d.pallets)[k]), ink_contract(d, true)),
        occurs_in(ink_test(all_functions(d.pallets)[k], d.name), ink_contract(d, true)),
{
    let f = all_functions(d.pallets)[k];
    lemma_signature_in_trait(d, k);
    let h = contract_head(d);
    let t = test_boilerplate(d);
    let end = "\n}"@;
    let (a, b) = lemma_implementation_in_head(d, k);
    lemma_occurs_before(ink_contract(d, false), h, Seq::empty(), end, a, contract_function(f), b);
    lemma_occurs_before(ink_contract(d, true), h, t, end, a, contract_function(f), b);
    let (c, e) = lemma_test_in_boilerplate(d, k);
    lemma_occurs_after(ink_contract(d, true), h, t, end, c, ink_test(f, d.name), e);
}

/// Asking for tests changes the contract source only by adding the test
/// modules before its final closing brace.
pub proof fn law_tests_only_add_test_modules(d: DefinitionsModel)
    ensures
        ink_contract(d, false) == contract_head(d) + "\n}"@,
        ink_contract(d, true) == contract_head(d) + test_boilerplate(d) + "\n}"@,
{
    assert(ink_contract(d, false) =~= contract_head(d) + "\n}"@);
}

/// Asking for tests changes the contract manifest only by adding the ink_e2e
/// dev-dependency and the `e2e-tests` feature.
pub proof fn law_tests_only_add_e2e_manifest_entries(d: DefinitionsModel)
    ensures
        contract_toml(d, false) == contract_toml_head(d) + contract_toml_features()
            + "\n[workspace]\n"@,
        contract_toml(d, true) == contract_toml_head(d) + e2e_dev_dependencies(d)
            + contract_toml_features() + "e2e-tests = []\n"@ + "\n[workspace]\n"@,
{
    assert(contract_toml(d, false) =~= contract_toml_head(d) + contract_toml_features()
        + "\n[workspace]\n"@);
}

/// Asking for ink_prelude changes the dependency table only by inserting the
/// ink_prelude line right after the ink line.
pub proof fn law_prelude_only_adds_its_line(d: DefinitionsModel)
    ensures
        ({
            let v = d.ink_dependencies;
            let ink_line = "[dependencies]\nink = { version = \""@ + v.ink_version
                + "\", default-features = false }"@;
            let rest = dependencies_toml(d, false).skip(ink_line.len() as int);
            &&& dependencies_toml(d, false) == ink_line + rest
            &&& dependencies_toml(d, true) == ink_line + ("\nink_prelude = { version = \""@
                + v.ink_primitives_version + "\", default-features = false }"@) + rest
        }),
{
    let v = d.ink_dependencies;
    let ink_line = "[dependencies]\nink = { version = \""@ + v.ink_version
        + "\", default-features = false }"@;
    let prelude = "\nink_prelude = { version = \""@ + v.ink_primitives_version
        + "\", default-features = false }"@;
    let without = dependencies_toml(d, false);
    let rest = without.skip(ink_line.len() as int);
    assert(without.subrange(0, ink_line.len() as int) =~= ink_line);
    assert(without =~= ink_line + rest);
    assert(dependencies_toml(d, true) =~= ink_line + prelude + rest);
}

/// Hyphens replaced by underscores.
pub open spec fn hyphens_to_underscores(s: Seq<char>) -> Seq<char> {
    s.map_values(|c: char| if c == '-' { '_' } else { c })
}

proof fn lemma_lower_keeps_non_hyphen(c: char)
    requires
        c != '-',
    ensures
        ascii_lower(c) != '-',
{
    if is_ascii_upper(c) {
        assert(((c as u32) + 32) as char != '-');
    }
}

/// Cargo turns the hyphens of a crate name into underscores; for a name
/// without hyphens, the trait crate named in the contract manifest
/// (`<kebab-name>-contract-trait`) is then the crate that the contract source
/// uses (`<snake_name>_contract_trait`).
pub proof fn law_manifest_crate_name_matches_source(name: Seq<char>)
    requires
        !name.contains('-'),
    ensures
        hyphens_to_underscores(kebab_case(name)) == snake_case(name),
        hyphens_to_underscores(kebab_case(name) + "-contract-trait"@) == snake_case(name)
            + hyphens_to_underscores("-contract-trait"@),
{
    lemma_kebab_snake(name);
    assert(hyphens_to_underscores(kebab_case(name) + "-contract-trait"@) =~= hyphens_to_underscores(
        kebab_case(name),
    ) + hyphens_to_underscores("-contract-trait"@));
}

proof fn lemma_kebab_snake(name: Seq<char>)
    requires
        !name.contains('-'),
    ensures
        hyphens_to_underscores(separate_words(name, '-')) == separate_words(name, '_'),
    decreases name.len(),
{
    if name.len() > 0 {
        let init = name.drop_last();
        assert(!init.contains('-')) by {
            if init.contains('-') {
                let k = choose|k: int| 0 <= k < init.len() && init[k] == '-';
                assert(name[k] == '-');
            }
        }
        lemma_kebab_snake(init);
        let c = name.last();
        assert(name[name.len() - 1] == c);
        lemma_lower_keeps_non_hyphen(c);
        let a = separate_words(init, '-');
        let b = separate_words(init, '_');
        if name.len() > 1 && is_ascii_upper(c) {
            assert(hyphens_to_underscores(a.push('-').push(ascii_lower(c))) =~= b.push('_').push(
                ascii_lower(c),
            ));
        } else {
            assert(hyphens_to_underscores(a.push(ascii_lower(c))) =~= b.push(ascii_lower(c)));
        }
    }
}

/// The parameter list of a message in the trait: `&self`, then the parameters.
pub open spec fn message_parameters(params: Seq<char>) -> Seq<char> {
    "("@ + (if params.len() == 0 {
        "&self"@
    } else {
        "&self, "@ + params
    }) + ")"@
}

/// The parameter list of a method in the contract: `&self`, then the parameters.
pub open spec fn implementation_parameters(params: Seq<char>) -> Seq<char> {
    "(&self"@ + (if params.len() == 0 {
        Seq::empty()
    } else {
        ", "@ + params
    }) + ")"@
}

/// Both ways of writing a parameter list give the same text.
proof fn lemma_parameter_lists_agree(params: Seq<char>)
    ensures
        implementation_parameters(params) == message_parameters(params),
{
    reveal_strlit("(");
    reveal_strlit(")");
    reveal_strlit("&self");
    reveal_strlit("&self, ");
    reveal_strlit("(&self");
    reveal_strlit(", ");
    assert(implementation_parameters(params) =~= message_parameters(params));
}

/// The method that the contract generates for a hook point matches the
/// message that the trait declares for it: the same name, the same return
/// type, and the same parameters in the same order, where the contract only
/// prefixes with `_` the names of the parameters it does not return; with
/// that prefix undone, the two parameter lists are the same text.
pub proof fn law_implementation_matches_message(f: FunctionModel)
    ensures
        trait_signature(f) == "    /// hook point for `"@ + f.hook_point
            + "` pallet\n    #[ink(message)]\n    fn "@ + f.hook_point + message_parameters(
            signature_arguments(f),
        ) + return_suffix(f) + ";"@,
        contract_function(f) == "/// hook point for `"@ + f.hook_point
            + "` pallet\n        #[ink(message)]\n        fn "@ + f.hook_point
            + implementation_parameters(body_arguments(f)) + return_suffix(f) + " {\n            "@
            + body_expression(f) + "\n        }"@,
        body_arguments(f) == join(
            f.arguments.map_values(|a: ArgumentModel| body_argument(f, a)),
            ", "@,
        ),
        signature_arguments(f) == join(
            f.arguments.map_values(|a: ArgumentModel| typed_argument(a)),
            ", "@,
        ),
        forall|k: int|
            0 <= k < f.arguments.len() ==> #[trigger] body_argument(f, f.arguments[k]) == (if f.returns
                matches Some(r) && r.default == f.arguments[k].name {
                typed_argument(f.arguments[k])
            } else {
                "_"@ + typed_argument(f.arguments[k])
            }),
        implementation_parameters(signature_arguments(f)) == message_parameters(
            signature_arguments(f),
        ),
{
    let x = "    /// hook point for `"@ + f.hook_point + "` pallet\n    #[ink(message)]\n    fn "@
        + f.hook_point;
    assert(trait_signature(f) =~= x + message_parameters(signature_arguments(f)) + return_suffix(f)
        + ";"@);
    let y = "/// hook point for `"@ + f.hook_point
        + "` pallet\n        #[ink(message)]\n        fn "@ + f.hook_point;
    assert(contract_function(f) =~= y + implementation_parameters(body_arguments(f))
        + return_suffix(f) + " {\n            "@ + body_expression(f) + "\n        }"@);
    assert forall|k: int| 0 <= k < f.arguments.len() implies #[trigger] body_argument(
        f,
        f.arguments[k],
    ) == (if f.returns matches Some(r) && r.default == f.arguments[k].name {
        typed_argument(f.arguments[k])
    } else {
        "_"@ + typed_argument(f.arguments[k])
    }) by {
        let a = f.arguments[k];
        assert(("_"@ + a.name + ": "@ + a.type_) =~= "_"@ + (a.name + ": "@ + a.type_));
    }
    lemma_parameter_lists_agree(signature_arguments(f));
}

proof fn lemma_used_types_nonempty(d: DefinitionsModel, ts: Seq<Seq<char>>)
    ensures
        (used_types(d, ts).len() > 0) == definitions_use_any(d, ts),
    decreases ts.len(),
{
    if ts.len() > 0 {
        lemma_used_types_nonempty(d, ts.drop_last());
        if definitions_use_any(d, ts.drop_last()) {
            let k = choose|k: int| 0 <= k < ts.drop_last().len() && definitions_use_type(
                d,
                #[trigger] ts.drop_last()[k],
            );
            assert(ts[k] == ts.drop_last()[k]);
            assert(definitions_use_type(d, ts[k]));
        }
        if definitions_use_any(d, ts) {
            let k = choose|k: int| 0 <= k < ts.len() && definitions_use_type(d, #[trigger] ts[k]);
            if k < ts.len() - 1 {
                assert(ts.drop_last()[k] == ts[k]);
                assert(definitions_use_type(d, ts.drop_last()[k]));
            } else {
                assert(definitions_use_type(d, ts.last()));
            }
        }
        if definitions_use_type(d, ts.last()) {
            assert(definitions_use_type(d, ts[ts.len() - 1]));
        }
    }
}

/// The trait imports from ink_primitives exactly when the trait crate's
/// manifest (and the contract crate's) declares the ink_primitives
/// dependency: the import opens the trait source right after its first line
/// when some hook point uses a primitive type, and is empty otherwise, and the
/// dependency table holds the ink_primitives line under the same condition.
pub proof fn law_primitive_import_matches_dependency(d: DefinitionsModel)
    ensures
        (primitive_imports(d).len() > 0) == definitions_use_any(d, ink_primitives()),
        primitive_imports(d).len() > 0 ==> starts_with(primitive_imports(d), "use ink_primitives::"@),
        occurs_at(
            primitive_imports(d),
            ink_trait(d),
            "#![cfg_attr(not(feature = \"std\"), no_std, no_main)]\n"@.len() as int,
        ),
        forall|include_prelude: bool|
            #[trigger] dependencies_toml(d, include_prelude) == ink_dependency(d.ink_dependencies)
                + prelude_dependency(d.ink_dependencies, include_prelude) + (if primitive_imports(
                d,
            ).len() > 0 {
                primitives_dependency(d.ink_dependencies)
            } else {
                Seq::empty()
            }) + scale_dependencies(d.ink_dependencies),
{
    lemma_used_types_nonempty(d, ink_primitives());
    let prims = used_types(d, ink_primitives());
    let head = "use ink_primitives::"@;
    reveal_strlit("use ink_primitives::");
    reveal_strlit("use ink_primitives::{");
    reveal_strlit(";\n");
    reveal_strlit("};\n");
    if prims.len() == 1 {
        let t = head + prims[0] + ";\n"@;
        assert(t.subrange(0, head.len() as int) =~= head);
    } else if prims.len() > 1 {
        let t = "use ink_primitives::{"@ + join(prims, ", "@) + "};\n"@;
        assert(t.subrange(0, head.len() as int) =~= head);
    }
    let first = "#![cfg_attr(not(feature = \"std\"), no_std, no_main)]\n"@;
    let rest = trait_imports(d).skip(primitive_imports(d).len() as int);
    assert(trait_imports(d) =~= primitive_imports(d) + rest);
    let tail = "\n#[ink::trait_definition]\npub trait "@ + d.name + " {\n\n"@ + join(
        all_functions(d.pallets).map_values(|f: FunctionModel| trait_signature(f)),
        "\n\n"@,
    ) + "\n}"@;
    assert(ink_trait(d) == first + trait_imports(d) + tail);
    assert(ink_trait(d) =~= first + primitive_imports(d) + (rest + tail));
    assert((first + primitive_imports(d) + (rest + tail)).subrange(
        first.len() as int,
        (first.len() + primitive_imports(d).len()) as int,
    ) =~= primitive_imports(d));
}

proof fn lemma_occurs_inside(p: Seq<char>, inner: Seq<char>, pre: Seq<char>, post: Seq<char>)
    requires
        occurs_in(p, inner),
    ensures
        occurs_in(p, pre + inner + post),
{
    let at = choose|at: int| occurs_at(p, inner, at);
    let t = pre + inner + post;
    assert(t.subrange(pre.len() + at, pre.len() + at + p.len()) =~= inner.subrange(at, at + p.len()));
    assert(occurs_at(p, t, pre.len() + at));
}

proof fn lemma_prefix_occurs(h: Seq<char>, p: Seq<char>, t: Seq<char>, at: int)
    requires
        occurs_at(p, t, at),
        starts_with(p, h),
    ensures
        occurs_in(h, t),
{
    assert(t.subrange(at, at + h.len()) =~= p.subrange(0, h.len() as int));
    assert(occurs_at(h, t, at));
}

/// When some hook point uses a primitive type, the text `use ink_primitives::`
/// occurs in the generated trait, and the ink_primitives dependency line
/// occurs in the dependency table and in both generated manifests.
pub proof fn law_primitive_import_and_dependency_occur(d: DefinitionsModel)
    requires
        definitions_use_any(d, ink_primitives()),
    ensures
        occurs_in("use ink_primitives::"@, ink_trait(d)),
        occurs_in(primitives_dependency(d.ink_dependencies), dependencies_toml(d, false)),
        occurs_in(primitives_dependency(d.ink_dependencies), dependencies_toml(d, true)),
        occurs_in(primitives_dependency(d.ink_dependencies), contract_trait_toml(d)),
        occurs_in(primitives_dependency(d.ink_dependencies), contract_toml(d, false)),
        occurs_in(primitives_dependency(d.ink_dependencies), contract_toml(d, true)),
{
    law_primitive_import_matches_dependency(d);
    lemma_prefix_occurs(
        "use ink_primitives::"@,
        primitive_imports(d),
        ink_trait(d),
        "#![cfg_attr(not(feature = \"std\"), no_std, no_main)]\n"@.len() as int,
    );
    let v = d.ink_dependencies;
    let prim = primitives_dependency(v);
    assert(dependencies_toml(d, false) == ink_dependency(v) + prelude_dependency(v, false) + prim
        + scale_dependencies(v));
    lemma_occurs_in_concat(ink_dependency(v) + prelude_dependency(v, false), prim, scale_dependencies(v));
    assert(dependencies_toml(d, true) == ink_dependency(v) + prelude_dependency(v, true) + prim
        + scale_dependencies(v));
    lemma_occurs_in_concat(ink_dependency(v) + prelude_dependency(v, true), prim, scale_dependencies(v));
    let tp = "[package]\nname = \""@ + kebab_case(d.name)
        + "-contract-trait\"\nversion = \"0.1.0\"\nedition = \"2021\"\n\n"@;
    let tt = "\n[lib]\npath = \"lib.rs\"\n\n[features]\ndefault = [\"std\"]\nstd = [\n    \"ink/std\",\n    \"scale/std\",\n    \"scale-info/std\",\n]\nink-as-dependency = []\n\n[workspace]\n"@;
    assert(contract_trait_toml(d) == tp + dependencies_toml(d, false) + tt);
    lemma_occurs_inside(prim, dependencies_toml(d, false), tp, tt);
    let k = kebab_case(d.name);
    let hp = "[package]\nname = \""@ + k
        + "-contract\"\nversion = \"0.1.0\"\nedition = \"2021\"\nauthors = [\"add your name here\"]\n\n"@;
    let ht = "\n"@ + k + "-contract-trait = { package = \""@ + k
        + "-contract-trait\", default-features = false, path = \"../"@ + k
        + "-contract-trait\" }\n"@;
    assert(contract_toml_head(d) =~= hp + dependencies_toml(d, true) + ht);
    lemma_occurs_inside(prim, dependencies_toml(d, true), hp, ht);
    law_tests_only_add_e2e_manifest_entries(d);
    lemma_occurs_inside(
        prim,
        contract_toml_head(d),
        Seq::empty(),
        contract_toml_features() + "\n[workspace]\n"@,
    );
    assert(contract_toml(d, false) =~= Seq::<char>::empty() + contract_toml_head(d) + (
    contract_toml_features() + "\n[workspace]\n"@));
    lemma_occurs_inside(
        prim,
        contract_toml_head(d),
        Seq::empty(),
        e2e_dev_dependencies(d) + contract_toml_features() + "e2e-tests = []\n"@ + "\n[workspace]\n"@,
    );
    assert(contract_toml(d, true) =~= Seq::<char>::empty() + contract_toml_head(d) + (
    e2e_dev_dependencies(d) + contract_toml_features() + "e2e-tests = []\n"@ + "\n[workspace]\n"@));
}

proof fn lemma_pallet_tests_surround(c: Seq<char>, pn: Seq<char>, fs: Seq<FunctionModel>, j: int) -> (r: (
    Seq<char>,
    Seq<char>,
))
    requires
        0 <= j < fs.len(),
    ensures
        e2e_pallet_tests(c, pn, fs) == r.0 + e2e_test(c, pn, fs[j]) + r.1,
    decreases fs.len(),
{
    if j == fs.len() - 1 {
        let pre = e2e_pallet_tests(c, pn, fs.drop_last());
        assert(e2e_pallet_tests(c, pn, fs) =~= pre + e2e_test(c, pn, fs[j]) + Seq::<char>::empty());
        (pre, Seq::empty())
    } else {
        let (pre, post) = lemma_pallet_tests_surround(c, pn, fs.drop_last(), j);
        assert(fs.drop_last()[j] == fs[j]);
        let post2 = post + e2e_test(c, pn, fs.last());
        assert(e2e_pallet_tests(c, pn, fs) =~= pre + e2e_test(c, pn, fs[j]) + post2);
        (pre, post2)
    }
}

proof fn lemma_all_tests_surround(c: Seq<char>, ps: Seq<PalletModel>, i: int, j: int) -> (r: (
    Seq<char>,
    Seq<char>,
))
    requires
        0 <= i < ps.len(),
        0 <= j < ps[i].functions.len(),
    ensures
        e2e_all_tests(c, ps) == r.0 + e2e_test(c, ps[i].name, ps[i].functions[j]) + r.1,
    decreases ps.len(),
{
    if i == ps.len() - 1 {
        let (pre, post) = lemma_pallet_tests_surround(c, ps[i].name, ps[i].functions, j);
        let before = e2e_all_tests(c, ps.drop_last());
        assert(e2e_all_tests(c, ps) =~= (before + pre) + e2e_test(c, ps[i].name, ps[i].functions[j])
            + post);
        (before + pre, post)
    } else {
        let (pre, post) = lemma_all_tests_surround(c, ps.drop_last(), i, j);
        assert(ps.drop_last()[i] == ps[i]);
        let post2 = post + e2e_pallet_tests(c, ps.last().name, ps.last().functions);
        assert(e2e_all_tests(c, ps) =~= pre + e2e_test(c, ps[i].name, ps[i].functions[j]) + post2);
        (pre, post2)
    }
}

/// The end-to-end tests of a list of pallets followed by one more pallet are
/// the tests of the list followed by the tests of that pallet; within a pallet,
/// adding a hook point appends its test. Nothing generated for earlier
/// pallets or hook points is dropped.
pub proof fn law_e2e_tests_accumulate(
    c: Seq<char>,
    ps: Seq<PalletModel>,
    p: PalletModel,
    pn: Seq<char>,
    fs: Seq<FunctionModel>,
    f: FunctionModel,
)
    ensures
        e2e_all_tests(c, ps.push(p)) == e2e_all_tests(c, ps) + e2e_pallet_tests(c, p.name, p.functions),
        e2e_pallet_tests(c, pn, fs.push(f)) == e2e_pallet_tests(c, pn, fs) + e2e_test(c, pn, f),
{
    assert(ps.push(p).drop_last() =~= ps);
    assert(fs.push(f).drop_last() =~= fs);
}

proof fn lemma_e2e_test_in_module(d: DefinitionsModel, i: int, j: int) -> (r: (Seq<char>, Seq<char>))
    requires
        0 <= i < d.pallets.len(),
        0 <= j < d.pallets[i].functions.len(),
    ensures
        e2e_module(d) == r.0 + e2e_test(d.name, d.pallets[i].name, d.pallets[i].functions[j]) + r.1,
{
    let t = e2e_test(d.name, d.pallets[i].name, d.pallets[i].functions[j]);
    let (pre, post) = lemma_all_tests_surround(d.name, d.pallets, i, j);
    let x = "\n    #[cfg(all(test, feature = \"e2e-tests\"))]\n    mod e2e_tests {\n        use super::*;\n        use "@
        + snake_case(d.name) + "_contract_trait::"@ + d.name
        + " as Trait;\n        use ink_e2e::build_message;\n        type E2EResult<T> = std::result::Result<T, Box<dyn std::error::Error>>;\n        "@;
    let y = "\n    }\n"@;
    assert(e2e_module(d) == x + e2e_all_tests(d.name, d.pallets) + y);
    lemma_regroup(e2e_module(d), x, e2e_all_tests(d.name, d.pallets), y, pre, t, post);
    (x + pre, post + y)
}

proof fn lemma_regroup(text: Seq<char>, x: Seq<char>, m: Seq<char>, y: Seq<char>, a: Seq<char>, p: Seq<char>, b: Seq<char>)
    requires
        text == x + m + y,
        m == a + p + b,
    ensures
        text == (x + a) + p + (b + y),
{
    assert(text =~= (x + a) + p + (b + y));
}

/// Every hook point of every pallet has its end-to-end test, written with that
/// pallet's name, in the end-to-end module and in the contract generated with
/// tests.
pub proof fn law_every_hook_point_has_e2e_test(d: DefinitionsModel, i: int, j: int)
    requires
        0 <= i < d.pallets.len(),
        0 <= j < d.pallets[i].functions.len(),
    ensures
        occurs_in(e2e_test(d.name, d.pallets[i].name, d.pallets[i].functions[j]), e2e_module(d)),
        occurs_in(
            e2e_test(d.name, d.pallets[i].name, d.pallets[i].functions[j]),
            ink_contract(d, true),
        ),
{
    let t = e2e_test(d.name, d.pallets[i].name, d.pallets[i].functions[j]);
    let (a, b) = lemma_e2e_test_in_module(d, i, j);
    lemma_occurs_in_concat(a, t, b);
    let z = "\n    #[cfg(test)]\n    mod tests {\n        use super::*;\n        use "@ + snake_case(d.name)
        + "_contract_trait::"@ + d.name + " as Trait;\n        "@ + ink_tests(d) + "\n    }\n"@;
    assert(test_boilerplate(d) == z + e2e_module(d));
    let h = contract_head(d);
    let tb = test_boilerplate(d);
    lemma_regroup(tb, z, e2e_module(d), Seq::empty(), a, t, b);
    lemma_occurs_after(ink_contract(d, true), h, tb, "\n}"@, z + a, t, b + Seq::<char>::empty());
}

/// The import that a trait with vector types needs.
pub open spec fn vec_import() -> Seq<char> {
    "\nuse ink::prelude::vec::Vec;\n"@
}

/// The alias that a trait using `Balance` needs.
pub open spec fn balance_alias() -> Seq<char> {
    "\ntype Balance = <ink::env::DefaultEnvironment as ink::env::Environment>::Balance;\n"@
}

/// Some hook point takes or returns one of the vector types of the table.
pub open spec fn uses_vector_types(d: DefinitionsModel) -> bool {
    ||| definitions_use_type(d, "Vec<u8>"@)
    ||| definitions_use_type(d, "Vec<AccountId>"@)
    ||| definitions_use_type(d, "Vec<Balance>"@)
}

proof fn lemma_vector_entries()
    ensures
        forall|k: int| 0 <= k < ink_types().len() ==> (starts_with(#[trigger] ink_types()[k], "Vec"@) <==> 14 <= k),
        ink_types().len() == 17,
        ink_types()[14] == "Vec<u8>"@,
        ink_types()[15] == "Vec<AccountId>"@,
        ink_types()[16] == "Vec<Balance>"@,
{
    reveal_strlit("Vec");
    reveal_strlit("bool");
    reveal_strlit("u8");
    reveal_strlit("u16");
    reveal_strlit("u32");
    reveal_strlit("u64");
    reveal_strlit("u128");
    reveal_strlit("i8");
    reveal_strlit("i16");
    reveal_strlit("i32");
    reveal_strlit("i64");
    reveal_strlit("i128");
    reveal_strlit("Balance");
    reveal_strlit("AccountId");
    reveal_strlit("Hash");
    reveal_strlit("Vec<u8>");
    reveal_strlit("Vec<AccountId>");
    reveal_strlit("Vec<Balance>");
    assert forall|k: int| 0 <= k < ink_types().len() implies (starts_with(#[trigger] ink_types()[k], "Vec"@) <==> 14 <= k) by {
        let t = ink_types()[k];
        if 14 <= k {
            assert(t.subrange(0, 3) =~= "Vec"@);
        } else if t.len() >= 3 {
            assert(t.subrange(0, 3)[0] != "Vec"@[0]);
        }
    }
}

/// The trait imports `Vec` exactly when some hook point takes or returns
/// `Vec<u8>`, `Vec<AccountId>` or `Vec<Balance>`: then the import occurs in
/// the trait source; otherwise the imports are the primitive import and, when
/// `Balance` is used, its alias, and nothing else.
pub proof fn law_vec_import(d: DefinitionsModel)
    ensures
        uses_vector_types(d) ==> occurs_in(vec_import(), ink_trait(d)),
        uses_vector_types(d) ==> trait_imports(d) == primitive_imports(d) + vec_import() + (if definitions_use_type(d, "Balance"@) {
            balance_alias()
        } else {
            Seq::empty()
        }),
        !uses_vector_types(d) ==> trait_imports(d) == primitive_imports(d) + (if definitions_use_type(d, "Balance"@) {
            balance_alias()
        } else {
            Seq::empty()
        }),
{
    lemma_vector_entries();
    if uses_vector_types(d) {
        if definitions_use_type(d, "Vec<u8>"@) {
            assert(definitions_use_type(d, ink_types()[14]));
        } else if definitions_use_type(d, "Vec<AccountId>"@) {
            assert(definitions_use_type(d, ink_types()[15]));
        } else {
            assert(definitions_use_type(d, ink_types()[16]));
        }
        assert(uses_vec_type(d));
        let first = "#![cfg_attr(not(feature = \"std\"), no_std, no_main)]\n"@;
        let b = if definitions_use_type(d, "Balance"@) { balance_alias() } else { Seq::empty() };
        assert(trait_imports(d) =~= primitive_imports(d) + vec_import() + b);
        let tail = "\n#[ink::trait_definition]\npub trait "@ + d.name + " {\n\n"@ + join(
            all_functions(d.pallets).map_values(|f: FunctionModel| trait_signature(f)),
            "\n\n"@,
        ) + "\n}"@;
        assert(ink_trait(d) == first + trait_imports(d) + tail);
        assert(ink_trait(d) =~= (first + primitive_imports(d)) + vec_import() + (b + tail));
        lemma_occurs_in_concat(first + primitive_imports(d), vec_import(), b + tail);
    } else {
        assert forall|k: int| 0 <= k < ink_types().len() implies !(starts_with(ink_types()[k], "Vec"@)
            && definitions_use_type(d, #[trigger] ink_types()[k])) by {
            if 14 <= k {
                assert(k == 14 || k == 15 || k == 16);
            }
        }
        assert(!uses_vec_type(d));
        let b = if definitions_use_type(d, "Balance"@) { balance_alias() } else { Seq::empty() };
        assert(trait_imports(d) =~= primitive_imports(d) + b);
    }
}

/// A hook point of any pallet, at any position, with an argument at any
/// position or a return value of type `t`, makes the definitions use `t`.
proof fn lemma_type_of_hook_point_is_used(d: DefinitionsModel, i: int, j: int, t: Seq<char>)
    requires
        0 <= i < d.pallets.len(),
        0 <= j < d.pallets[i].functions.len(),
        (exists|k: int|
            0 <= k < d.pallets[i].functions[j].arguments.len()
                && (#[trigger] d.pallets[i].functions[j].arguments[k]).type_ == t)
            || (d.pallets[i].functions[j].returns matches Some(r) && r.type_ == t),
    ensures
        definitions_use_type(d, t),
{
    assert(function_uses_type(d.pallets[i].functions[j], t));
}

/// Whenever any argument, at any position, of any hook point of any pallet,
/// or the return value of any hook point, has type `AccountId` or `Hash`, both
/// manifests and the dependency table carry the ink_primitives dependency and
/// the trait imports from ink_primitives.
pub proof fn law_primitive_type_anywhere_brings_dependency(d: DefinitionsModel, i: int, j: int, t: Seq<char>)
    requires
        0 <= i < d.pallets.len(),
        0 <= j < d.pallets[i].functions.len(),
        t == "AccountId"@ || t == "Hash"@,
        (exists|k: int|
            0 <= k < d.pallets[i].functions[j].arguments.len()
                && (#[trigger] d.pallets[i].functions[j].arguments[k]).type_ == t)
            || (d.pallets[i].functions[j].returns matches Some(r) && r.type_ == t),
    ensures
        occurs_in("use ink_primitives::"@, ink_trait(d)),
        occurs_in(primitives_dependency(d.ink_dependencies), dependencies_toml(d, false)),
        occurs_in(primitives_dependency(d.ink_dependencies), dependencies_toml(d, true)),
        occurs_in(primitives_dependency(d.ink_dependencies), contract_trait_toml(d)),
        occurs_in(primitives_dependency(d.ink_dependencies), contract_toml(d, false)),
        occurs_in(primitives_dependency(d.ink_dependencies), contract_toml(d, true)),
{
    lemma_type_of_hook_point_is_used(d, i, j, t);
    if t == "AccountId"@ {
        assert(definitions_use_type(d, ink_primitives()[0]));
    } else {
        assert(definitions_use_type(d, ink_primitives()[1]));
    }
    law_primitive_import_and_dependency_occur(d);
}

/// Whenever any argument, at any position, of any hook point of any pallet,
/// or the return value of any hook point, has type `Balance`, the trait
/// declares the `Balance` alias.
pub proof fn law_balance_anywhere_brings_alias(d: DefinitionsModel, i: int, j: int)
    requires
        0 <= i < d.pallets.len(),
        0 <= j < d.pallets[i].functions.len(),
        (exists|k: int|
            0 <= k < d.pallets[i].functions[j].arguments.len()
                && (#[trigger] d.pallets[i].functions[j].arguments[k]).type_ == "Balance"@)
            || (d.pallets[i].functions[j].returns matches Some(r) && r.type_ == "Balance"@),
    ensures
        occurs_in(balance_alias(), ink_trait(d)),
{
    lemma_type_of_hook_point_is_used(d, i, j, "Balance"@);
    let first = "#![cfg_attr(not(feature = \"std\"), no_std, no_main)]\n"@;
    let w = if uses_vec_type(d) { primitive_imports(d) + vec_import() } else { primitive_imports(d) };
    assert(trait_imports(d) == w + balance_alias());
    let tail = "\n#[ink::trait_definition]\npub trait "@ + d.name + " {\n\n"@ + join(
        all_functions(d.pallets).map_values(|f: FunctionModel| trait_signature(f)),
        "\n\n"@,
    ) + "\n}"@;
    assert(ink_trait(d) == first + trait_imports(d) + tail);
    lemma_regroup(ink_trait(d), first, trait_imports(d), tail, w, balance_alias(), Seq::empty());
    lemma_occurs_in_concat(first + w, balance_alias(), Seq::<char>::empty() + tail);
}

/// `s` ends with `suffix`.
pub open spec fn ends_with(s: Seq<char>, suffix: Seq<char>) -> bool {
    suffix.len() <= s.len() && s.subrange(s.len() - suffix.len(), s.len() as int) == suffix
}

/// The body of the method a hook point gets in the contract: when `default`
/// names any of the seventeen known types (`bool`, the integers, `Balance`,
/// `AccountId`, `Hash`, `Vec<u8>`, `Vec<AccountId>`, `Vec<Balance>`), the
/// method returns the default value of the return type; otherwise it returns
/// `default` as written; without a return value its body is a comment. The
/// known types and some of their default values are listed too.
pub proof fn law_method_body(f: FunctionModel)
    ensures
        f.returns matches Some(r) ==> (ink_types().contains(r.default) ==> ends_with(
            contract_function(f),
            " {\n            "@ + default_value(r.type_) + "\n        }"@,
        )),
        f.returns matches Some(r) ==> (!ink_types().contains(r.default) ==> ends_with(
            contract_function(f),
            " {\n            "@ + r.default + "\n        }"@,
        )),
        f.returns is None ==> ends_with(
            contract_function(f),
            " {\n            "@ + "// do nothing"@ + "\n        }"@,
        ),
        ink_types().contains("bool"@),
        ink_types().contains("u32"@),
        ink_types().contains("i128"@),
        ink_types().contains("Balance"@),
        ink_types().contains("AccountId"@),
        ink_types().contains("Hash"@),
        ink_types().contains("Vec<u8>"@),
        ink_types().contains("Vec<AccountId>"@),
        ink_types().contains("Vec<Balance>"@),
        default_value("Balance"@) == "0"@,
        default_value("u32"@) == "0"@,
        default_value("bool"@) == "false"@,
        default_value("AccountId"@) == "AccountId::from([0x0; 32])"@,
        default_value("Hash"@) == "Hash::from([0x0; 32])"@,
        default_value("Vec<AccountId>"@) == "Vec::new()"@,
{
    let args = body_arguments(f);
    let args_part = if args.len() == 0 { Seq::empty() } else { ", "@ + args };
    let pre = "/// hook point for `"@ + f.hook_point + "` pallet\n        #[ink(message)]\n        fn "@
        + f.hook_point + "(&self"@ + args_part + ")"@ + return_suffix(f);
    let e = body_expression(f);
    let suffix = " {\n            "@ + e + "\n        }"@;
    assert(contract_function(f) == pre + " {\n            "@ + e + "\n        }"@);
    assert(contract_function(f) =~= pre + suffix);
    assert((pre + suffix).subrange(pre.len() as int, (pre + suffix).len() as int) =~= suffix);
    lemma_vector_entries();
    assert(ink_types()[0] == "bool"@);
    assert(ink_types()[3] == "u32"@);
    assert(ink_types()[10] == "i128"@);
    assert(ink_types()[11] == "Balance"@);
    assert(ink_types()[12] == "AccountId"@);
    assert(ink_types()[13] == "Hash"@);
    let ints = crate::naming::integer_types();
    reveal_strlit("bool");
    reveal_strlit("u8");
    reveal_strlit("u16");
    reveal_strlit("u32");
    reveal_strlit("u64");
    reveal_strlit("u128");
    reveal_strlit("i8");
    reveal_strlit("i16");
    reveal_strlit("i32");
    reveal_strlit("i64");
    reveal_strlit("i128");
    reveal_strlit("Balance");
    reveal_strlit("AccountId");
    reveal_strlit("Hash");
    reveal_strlit("Vec<u8>");
    reveal_strlit("Vec<AccountId>");
    reveal_strlit("Vec<Balance>");
    reveal_strlit("Vec<");
    reveal_strlit("Vec");
    assert(ints[2] == "u32"@);
    assert(!ints.contains("Balance"@)) by {
        if ints.contains("Balance"@) {
            let k = choose|k: int| 0 <= k < ints.len() && ints[k] == "Balance"@;
            assert(ints[k].len() != "Balance"@.len() || ints[k][0] != "Balance"@[0]);
        }
    }
    assert(!ints.contains("AccountId"@)) by {
        if ints.contains("AccountId"@) {
            let k = choose|k: int| 0 <= k < ints.len() && ints[k] == "AccountId"@;
            assert(ints[k][0] != "AccountId"@[0]);
        }
    }
    assert(!ints.contains("Hash"@)) by {
        if ints.contains("Hash"@) {
            let k = choose|k: int| 0 <= k < ints.len() && ints[k] == "Hash"@;
            assert(ints[k][0] != "Hash"@[0]);
        }
    }
    assert(!ints.contains("Vec<AccountId>"@)) by {
        if ints.contains("Vec<AccountId>"@) {
            let k = choose|k: int| 0 <= k < ints.len() && ints[k] == "Vec<AccountId>"@;
            assert(ints[k][0] != "Vec<AccountId>"@[0]);
        }
    }
    assert("Balance"@ != "bool"@) by { assert("Balance"@[0] != "bool"@[0]); }
    assert("AccountId"@ != "bool"@) by { assert("AccountId"@[0] != "bool"@[0]); }
    assert("Hash"@ != "bool"@) by { assert("Hash"@[0] != "bool"@[0]); }
    assert("Vec<AccountId>"@ != "bool"@) by { assert("Vec<AccountId>"@[0] != "bool"@[0]); }
    assert("Hash"@ != "AccountId"@) by { assert("Hash"@[0] != "AccountId"@[0]); }
    assert("Vec<AccountId>"@ != "AccountId"@) by { assert("Vec<AccountId>"@[0] != "AccountId"@[0]); }
    assert("Vec<AccountId>"@ != "Balance"@) by { assert("Vec<AccountId>"@[0] != "Balance"@[0]); }
    assert("Vec<AccountId>"@ != "Hash"@) by { assert("Vec<AccountId>"@[0] != "Hash"@[0]); }
    assert("u32"@ != "bool"@) by { assert("u32"@[0] != "bool"@[0]); }
    assert("Vec<AccountId>"@.subrange(0, 4) =~= "Vec<"@);
}

} // verus!
