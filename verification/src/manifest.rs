//! Cargo manifests of the generated contract crate and trait crate.

use vstd::prelude::*;
use crate::models::{Definitions, DefinitionsModel, DependenciesModel, definitions_use_any};
use crate::naming::{ink_primitives, ink_primitive_list, kebab_case, camel_case_to_kebab};

verus! {

#[verifier::external_type_specification]
#[verifier::external_body]
pub struct ExTomlParseError(toml::de::Error);

/// Why a generated manifest was rejected.
pub enum ManifestError {
    /// The generated text is not a TOML document; the parser's error is kept.
    InvalidToml(toml::de::Error),
}

/// Whether `text` is a TOML document that the `toml` crate parses into a value.
pub uninterp spec fn toml_document_parses(text: Seq<char>) -> bool;

/// Trusted: calls `toml::from_str::<toml::Value>` on `text` and keeps only
/// whether it succeeded, with the parser's error on failure. The outcome is a
/// function of the text alone; which texts parse is not stated here.
#[verifier::external_body]
fn parse_toml_document(text: &str) -> (r: Result<(), toml::de::Error>)
    ensures
        r is Ok <==> toml_document_parses(text@),
{
    match toml::from_str::<toml::Value>(text) {
        Ok(_) => Ok(()),
        Err(e) => Err(e),
    }
}

/// The table header and the ink! dependency.
pub open spec fn ink_dependency(v: DependenciesModel) -> Seq<char> {
    "[dependencies]\nink = { version = \""@ + v.ink_version + "\", default-features = false }"@
}

/// The ink_prelude dependency, present only when asked for.
pub open spec fn prelude_dependency(v: DependenciesModel, include_prelude: bool) -> Seq<char> {
    if include_prelude {
        "\nink_prelude = { version = \""@ + v.ink_primitives_version
            + "\", default-features = false }"@
    } else {
        Seq::empty()
    }
}

/// The ink_primitives dependency line.
pub open spec fn primitives_dependency(v: DependenciesModel) -> Seq<char> {
    "\nink_primitives = { version = \""@ + v.ink_version + "\", default-features = false }"@
}

/// The scale and scale-info dependencies that end the table.
pub open spec fn scale_dependencies(v: DependenciesModel) -> Seq<char> {
    "\nscale = { package = \"parity-scale-codec\", version = \""@ + v.scale_version
        + "\", default-features = false, features = [\"derive\"] }\nscale-info = { version = \""@
        + v.scale_info_version
        + "\", default-features = false, features = [\"derive\"], optional = true }\n"@
}

/// The `[dependencies]` table: ink!, then ink_prelude when asked for, then
/// ink_primitives when some hook point uses a primitive type, then scale and
/// scale-info.
pub open spec fn dependencies_toml(d: DefinitionsModel, include_prelude: bool) -> Seq<char> {
    let v = d.ink_dependencies;
    let primitives = if definitions_use_any(d, ink_primitives()) {
        primitives_dependency(v)
    } else {
        Seq::empty()
    };
    ink_dependency(v) + prelude_dependency(v, include_prelude) + primitives + scale_dependencies(v)
}

/// Generates the `[dependencies]` table of a generated crate.
pub fn generate_dependencies_toml(definitions: &Definitions, include_prelude: bool) -> (r: String)
    ensures
        r@ == dependencies_toml(definitions@, include_prelude),
{
    let ink_deps = &definitions.ink_dependencies;
    let primitives = ink_primitive_list();
    let primitives_str = if definitions.contains_type(primitives.as_slice()) {
        let mut s = "\nink_primitives = { version = \"".to_owned();
        s.append(ink_deps.ink_version.as_str());
        s.append("\", default-features = false }");
        s
    } else {
        String::new()
    };
    let prelude_str = if include_prelude {
        let mut s = "\nink_prelude = { version = \"".to_owned();
        s.append(ink_deps.ink_primitives_version.as_str());
        s.append("\", default-features = false }");
        s
    } else {
        String::new()
    };
    let mut out = "[dependencies]\nink = { version = \"".to_owned();
    out.append(ink_deps.ink_version.as_str());
    out.append("\", default-features = false }");
    out.append(prelude_str.as_str());
    out.append(primitives_str.as_str());
    out.append("\nscale = { package = \"parity-scale-codec\", version = \"");
    out.append(ink_deps.scale_version.as_str());
    out.append("\", default-features = false, features = [\"derive\"] }\nscale-info = { version = \"");
    out.append(ink_deps.scale_info_version.as_str());
    out.append("\", default-features = false, features = [\"derive\"], optional = true }\n");
    assert(out@ =~= dependencies_toml(definitions@, include_prelude));
    out
}

/// The manifest of the contract crate up to its dependency on the trait crate.
pub open spec fn contract_toml_head(d: DefinitionsModel) -> Seq<char> {
    let k = kebab_case(d.name);
    "[package]\nname = \""@ + k
        + "-contract\"\nversion = \"0.1.0\"\nedition = \"2021\"\nauthors = [\"add your name here\"]\n\n"@
        + dependencies_toml(d, true) + "\n"@ + k + "-contract-trait = { package = \""@ + k
        + "-contract-trait\", default-features = false, path = \"../"@ + k
        + "-contract-trait\" }\n"@
}

/// The dev-dependency on ink_e2e of a contract crate with end-to-end tests.
pub open spec fn e2e_dev_dependencies(d: DefinitionsModel) -> Seq<char> {
    "\n[dev-dependencies]\nink_e2e = \""@ + d.ink_dependencies.ink_version + "\"\n"@
}

/// The `[lib]` table and the features that every contract crate has.
pub open spec fn contract_toml_features() -> Seq<char> {
    "\n[lib]\npath = \"lib.rs\"\n\n[features]\ndefault = [\"std\"]\nstd = [\n    \"ink/std\",\n    \"ink_prelude/std\",\n    \"scale/std\",\n    \"scale-info/std\",\n]\nink-as-dependency = []\n"@
}

/// The manifest of the contract crate, before it is checked.
pub open spec fn contract_toml(d: DefinitionsModel, include_tests: bool) -> Seq<char> {
    let dev_dependencies = if include_tests {
        e2e_dev_dependencies(d)
    } else {
        Seq::empty()
    };
    let e2e_feature = if include_tests {
        "e2e-tests = []\n"@
    } else {
        Seq::empty()
    };
    contract_toml_head(d) + dev_dependencies + contract_toml_features() + e2e_feature
        + "\n[workspace]\n"@
}

/// The manifest of the trait crate, before it is checked.
pub open spec fn contract_trait_toml(d: DefinitionsModel) -> Seq<char> {
    "[package]\nname = \""@ + kebab_case(d.name)
        + "-contract-trait\"\nversion = \"0.1.0\"\nedition = \"2021\"\n\n"@
        + dependencies_toml(d, false)
        + "\n[lib]\npath = \"lib.rs\"\n\n[features]\ndefault = [\"std\"]\nstd = [\n    \"ink/std\",\n    \"scale/std\",\n    \"scale-info/std\",\n]\nink-as-dependency = []\n\n[workspace]\n"@
}

/// Hands back a generated manifest when parsing it as TOML succeeded, and
/// the parser's error otherwise.
pub fn accept_checked_toml(toml_string: String, checked: Result<(), toml::de::Error>) -> (r: Result<
    String,
    ManifestError,
>)
    ensures
        match checked {
            Ok(_) => r == Ok::<String, ManifestError>(toml_string),
            Err(e) => r == Err::<String, ManifestError>(ManifestError::InvalidToml(e)),
        },
{
    match checked {
        Ok(_) => Ok(toml_string),
        Err(e) => Err(ManifestError::InvalidToml(e)),
    }
}

/// Generates the manifest of the contract crate and checks that it is TOML.
/// With `include_tests` it adds the ink_e2e dev-dependency and the
/// `e2e-tests` feature.
pub fn generate_contract_toml(definitions: &Definitions, include_tests: bool) -> (r: Result<
    String,
    ManifestError,
>)
    ensures
        match r {
            Ok(s) => s@ == contract_toml(definitions@, include_tests) && toml_document_parses(s@),
            Err(_) => !toml_document_parses(contract_toml(definitions@, include_tests)),
        },
{
    let ink_deps = &definitions.ink_dependencies;
    let name_kebab = camel_case_to_kebab(definitions.name.as_str());
    let dev_dependencies = if include_tests {
        let mut s = "\n[dev-dependencies]\nink_e2e = \"".to_owned();
        s.append(ink_deps.ink_version.as_str());
        s.append("\"\n");
        s
    } else {
        String::new()
    };
    let e2e_feature = if include_tests {
        "e2e-tests = []\n".to_owned()
    } else {
        String::new()
    };
    let dependencies = generate_dependencies_toml(definitions, true);
    let mut toml_string = "[package]\nname = \"".to_owned();
    toml_string.append(name_kebab.as_str());
    toml_string.append(
        "-contract\"\nversion = \"0.1.0\"\nedition = \"2021\"\nauthors = [\"add your name here\"]\n\n",
    );
    toml_string.append(dependencies.as_str());
    toml_string.append("\n");
    toml_string.append(name_kebab.as_str());
    toml_string.append("-contract-trait = { package = \"");
    toml_string.append(name_kebab.as_str());
    toml_string.append("-contract-trait\", default-features = false, path = \"../");
    toml_string.append(name_kebab.as_str());
    toml_string.append("-contract-trait\" }\n");
    toml_string.append(dev_dependencies.as_str());
    toml_string.append(
        "\n[lib]\npath = \"lib.rs\"\n\n[features]\ndefault = [\"std\"]\nstd = [\n    \"ink/std\",\n    \"ink_prelude/std\",\n    \"scale/std\",\n    \"scale-info/std\",\n]\nink-as-dependency = []\n",
    );
    toml_string.append(e2e_feature.as_str());
    toml_string.append("\n[workspace]\n");
    let checked = parse_toml_document(toml_string.as_str());
    accept_checked_toml(toml_string, checked)
}

/// Generates the manifest of the trait crate and checks that it is TOML.
pub fn generate_contract_trait_toml(definitions: &Definitions) -> (r: Result<String, ManifestError>)
    ensures
        match r {
            Ok(s) => s@ == contract_trait_toml(definitions@) && toml_document_parses(s@),
            Err(_) => !toml_document_parses(contract_trait_toml(definitions@)),
        },
{
    let name_kebab = camel_case_to_kebab(definitions.name.as_str());
    let dependencies = generate_dependencies_toml(definitions, false);
    let mut toml_string = "[package]\nname = \"".to_owned();
    toml_string.append(name_kebab.as_str());
    toml_string.append("-contract-trait\"\nversion = \"0.1.0\"\nedition = \"2021\"\n\n");
    toml_string.append(dependencies.as_str());
    toml_string.append(
        "\n[lib]\npath = \"lib.rs\"\n\n[features]\ndefault = [\"std\"]\nstd = [\n    \"ink/std\",\n    \"scale/std\",\n    \"scale-info/std\",\n]\nink-as-dependency = []\n\n[workspace]\n",
    );
    let checked = parse_toml_document(toml_string.as_str());
    accept_checked_toml(toml_string, checked)
}

} // verus!
