# hookpoints

Generates the scaffolding of an ink! smart contract from a description of
runtime hook points (`models::Definitions`): the source of a trait crate
with one message per hook point, the source of a contract crate that
implements it (with unit and end-to-end tests on request), and the Cargo
manifests of both crates.

Every generator is verified with Verus against a specification of the exact
text it produces.

- `src/text.rs`: joining, comparison and prefix tests on strings.
- `src/naming.rs`: snake/kebab case conversion, the table of known ink!
  types and their default values.
- `src/models.rs`: the hook point description and its mathematical view.
- `src/manifest.rs`: the `[dependencies]` table and the two manifests; a
  manifest is handed back only when the `toml` crate parses it.
- `src/scaffold.rs`: the trait source, the contract source and its tests.
- `src/laws.rs`: properties relating the generated texts to one another.
