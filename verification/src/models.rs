//! The description of hook points from which code is generated.

use vstd::prelude::*;
use crate::text::{same_text, str_texts};

verus! {

/// One argument of a hook point: its name and its type, as written in Rust.
pub struct FunctionArgument {
    pub name: String,
    pub type_: String,
}

/// What a hook point returns: its type, and `default`, which is either an
/// argument's name, a known type (whose default value is returned) or an
/// expression.
pub struct ReturnValue {
    pub default: String,
    pub type_: String,
}

/// One hook point of a pallet.
pub struct PalletFunction {
    pub hook_point: String,
    pub arguments: Vec<FunctionArgument>,
    pub returns: Option<ReturnValue>,
}

/// A pallet and its hook points, in order.
pub struct Pallet {
    pub name: String,
    pub functions: Vec<PalletFunction>,
}

/// The versions of the crates that generated manifests depend on.
pub struct InkDependencies {
    pub ink_version: String,
    pub ink_primitives_version: String,
    pub scale_version: String,
    pub scale_info_version: String,
}

/// Everything that code is generated from: the contract's name (in camel
/// case), the dependency versions, and the pallets with their hook points.
pub struct Definitions {
    pub name: String,
    pub ink_dependencies: InkDependencies,
    pub pallets: Vec<Pallet>,
}

pub struct ArgumentModel {
    pub name: Seq<char>,
    pub type_: Seq<char>,
}

pub struct ReturnModel {
    pub default: Seq<char>,
    pub type_: Seq<char>,
}

pub struct FunctionModel {
    pub hook_point: Seq<char>,
    pub arguments: Seq<ArgumentModel>,
    pub returns: Option<ReturnModel>,
}

pub struct PalletModel {
    pub name: Seq<char>,
    pub functions: Seq<FunctionModel>,
}

pub struct DependenciesModel {
    pub ink_version: Seq<char>,
    pub ink_primitives_version: Seq<char>,
    pub scale_version: Seq<char>,
    pub scale_info_version: Seq<char>,
}

pub struct DefinitionsModel {
    pub name: Seq<char>,
    pub ink_dependencies: DependenciesModel,
    pub pallets: Seq<PalletModel>,
}

impl View for FunctionArgument {
    type V = ArgumentModel;

    open spec fn view(&self) -> ArgumentModel {
        ArgumentModel { name: self.name@, type_: self.type_@ }
    }
}

impl View for ReturnValue {
    type V = ReturnModel;

    open spec fn view(&self) -> ReturnModel {
        ReturnModel { default: self.default@, type_: self.type_@ }
    }
}

impl View for PalletFunction {
    type V = FunctionModel;

    open spec fn view(&self) -> FunctionModel {
        FunctionModel {
            hook_point: self.hook_point@,
            arguments: self.arguments@.map_values(|a: FunctionArgument| a@),
            returns: match self.returns {
                Some(r) => Some(r@),
                None => None,
            },
        }
    }
}

impl View for Pallet {
    type V = PalletModel;

    open spec fn view(&self) -> PalletModel {
        PalletModel { name: self.name@, functions: self.functions@.map_values(|f: PalletFunction| f@) }
    }
}

impl View for InkDependencies {
    type V = DependenciesModel;

    open spec fn view(&self) -> DependenciesModel {
        DependenciesModel {
            ink_version: self.ink_version@,
            ink_primitives_version: self.ink_primitives_version@,
            scale_version: self.scale_version@,
            scale_info_version: self.scale_info_version@,
        }
    }
}

impl View for Definitions {
    type V = DefinitionsModel;

    open spec fn view(&self) -> DefinitionsModel {
        DefinitionsModel {
            name: self.name@,
            ink_dependencies: self.ink_dependencies@,
            pallets: self.pallets@.map_values(|p: Pallet| p@),
        }
    }
}

/// Pallets are keyed by name: no two pallets of well-formed definitions share
/// a name. The generators themselves accept any definitions.
pub open spec fn pallet_names_distinct(d: DefinitionsModel) -> bool {
    forall|i: int, j: int|
        0 <= i < d.pallets.len() && 0 <= j < d.pallets.len() && i != j ==> (#[trigger] d.pallets[i]).name
            != (#[trigger] d.pallets[j]).name
}

/// A hook point takes an argument of type `t` or returns a value of type `t`.
pub open spec fn function_uses_type(f: FunctionModel, t: Seq<char>) -> bool {
    ||| exists|k: int| 0 <= k < f.arguments.len() && (#[trigger] f.arguments[k]).type_ == t
    ||| (f.returns matches Some(r) && r.type_ == t)
}

/// Some hook point of some pallet uses type `t`.
pub open spec fn definitions_use_type(d: DefinitionsModel, t: Seq<char>) -> bool {
    exists|i: int, j: int|
        0 <= i < d.pallets.len() && 0 <= j < d.pallets[i].functions.len()
            && function_uses_type(#[trigger] d.pallets[i].functions[j], t)
}

/// Some hook point uses one of the types `ts`.
pub open spec fn definitions_use_any(d: DefinitionsModel, ts: Seq<Seq<char>>) -> bool {
    exists|k: int| 0 <= k < ts.len() && definitions_use_type(d, #[trigger] ts[k])
}

impl PalletFunction {
    /// Whether this hook point takes or returns a value of type `t`.
    pub fn uses_type(&self, t: &str) -> (r: bool)
        ensures
            r == function_uses_type(self@, t@),
    {
        let mut k: usize = 0;
        while k < self.arguments.len()
            invariant
                k <= self.arguments.len(),
                forall|m: int| 0 <= m < k ==> self.arguments@[m].type_@ != t@,
            decreases self.arguments.len() - k,
        {
            if same_text(self.arguments[k].type_.as_str(), t) {
                assert(self@.arguments[k as int].type_ == t@);
                return true;
            }
            k += 1;
        }
        assert forall|m: int| 0 <= m < self@.arguments.len() implies (
        #[trigger] self@.arguments[m]).type_ != t@ by {
            assert(self@.arguments[m] == self.arguments@[m]@);
        }
        match &self.returns {
            Some(r) => same_text(r.type_.as_str(), t),
            None => false,
        }
    }
}

impl Definitions {
    /// Whether some hook point uses type `t`.
    pub fn uses_type(&self, t: &str) -> (r: bool)
        ensures
            r == definitions_use_type(self@, t@),
    {
        let mut i: usize = 0;
        while i < self.pallets.len()
            invariant
                i <= self.pallets.len(),
                forall|a: int, b: int|
                    0 <= a < i && 0 <= b < self@.pallets[a].functions.len() ==> !function_uses_type(
                        #[trigger] self@.pallets[a].functions[b],
                        t@,
                    ),
            decreases self.pallets.len() - i,
        {
            let functions = &self.pallets[i].functions;
            let mut j: usize = 0;
            while j < functions.len()
                invariant
                    i < self.pallets.len(),
                    functions == &self.pallets@[i as int].functions,
                    j <= functions.len(),
                    forall|a: int, b: int|
                        0 <= a < i && 0 <= b < self@.pallets[a].functions.len()
                            ==> !function_uses_type(#[trigger] self@.pallets[a].functions[b], t@),
                    forall|b: int|
                        0 <= b < j ==> !function_uses_type(#[trigger] self@.pallets[i as int].functions[b], t@),
                decreases functions.len() - j,
            {
                if functions[j].uses_type(t) {
                    assert(function_uses_type(self@.pallets[i as int].functions[j as int], t@));
                    return true;
                }
                j += 1;
            }
            i += 1;
        }
        false
    }

    /// Whether no two pallets share a name (the definitions are well formed).
    pub fn has_distinct_pallet_names(&self) -> (r: bool)
        ensures
            r == pallet_names_distinct(self@),
    {
        let n = self.pallets.len();
        let mut i: usize = 0;
        while i < n
            invariant
                n == self.pallets.len(),
                i <= n,
                forall|a: int, b: int|
                    0 <= a < i && 0 <= b < n && a != b ==> (#[trigger] self@.pallets[a]).name
                        != (#[trigger] self@.pallets[b]).name,
            decreases n - i,
        {
            let mut j: usize = 0;
            while j < n
                invariant
                    n == self.pallets.len(),
                    i < n,
                    j <= n,
                    forall|a: int, b: int|
                        0 <= a < i && 0 <= b < n && a != b ==> (#[trigger] self@.pallets[a]).name
                            != (#[trigger] self@.pallets[b]).name,
                    forall|b: int|
                        0 <= b < j && b != i ==> self@.pallets[i as int].name
                            != (#[trigger] self@.pallets[b]).name,
                decreases n - j,
            {
                if i != j && self.pallets[i].name == self.pallets[j].name {
                    assert(self@.pallets[i as int].name == self@.pallets[j as int].name);
                    return false;
                }
                j += 1;
            }
            i += 1;
        }
        true
    }

    /// Whether some hook point takes or returns a value of one of the types `types`.
    pub fn contains_type(&self, types: &[&str]) -> (r: bool)
        ensures
            r == definitions_use_any(self@, str_texts(types@)),
    {
        let ghost ts = str_texts(types@);
        let mut k: usize = 0;
        while k < types.len()
            invariant
                k <= types.len(),
                ts == str_texts(types@),
                forall|m: int| 0 <= m < k ==> !definitions_use_type(self@, #[trigger] ts[m]),
            decreases types.len() - k,
        {
            if self.uses_type(types[k]) {
                assert(definitions_use_type(self@, ts[k as int]));
                return true;
            }
            k += 1;
        }
        false
    }
}

} // verus!
