use vstd::prelude::*;
use vstd::string::StringExecFns;

verus! {

/// One entry of a module's import table: a function that the module expects
/// its host to provide, by namespace and by name.
#[derive(Clone, Debug, PartialEq, Eq)]
pub struct ImportDecl {
    pub namespace: String,
    pub name: String,
}

/// What an [`ImportDecl`] holds, as mathematical values.
pub struct ImportModel {
    pub namespace: Seq<char>,
    pub name: Seq<char>,
}

impl DeepView for ImportDecl {
    type V = ImportModel;

    open spec fn deep_view(&self) -> ImportModel {
        ImportModel { namespace: self.namespace@, name: self.name@ }
    }
}

/// The host ABI that a module expects.
#[derive(Clone, Copy, Debug, PartialEq, Eq, Structural)]
pub enum AbiKind {
    /// The module needs nothing of its host beyond the default linkage.
    Baseline,
    /// The module was built for the simulated system environment.
    Enhanced,
}

/// Where the bindings handed to the instantiator come from.
#[derive(Clone, Copy, Debug, PartialEq, Eq, Structural)]
pub enum Bindings {
    /// No host function is bound.
    Empty,
    /// The bindings are those of the environment built for the module.
    Environment,
}

/// The signature of the enhanced ABI: a module built for the simulated
/// system environment imports the block-copy helper of that environment.
pub open spec fn is_marker(import: ImportModel) -> bool {
    import.namespace == "env"@ && import.name == "_emscripten_memcpy_big"@
}

/// The ABI that a module with the import table `imports` expects: the
/// enhanced one if and only if some entry is the marker.
pub open spec fn abi_of(imports: Seq<ImportModel>) -> AbiKind {
    if exists|i: int| 0 <= i < imports.len() && is_marker(#[trigger] imports[i]) {
        AbiKind::Enhanced
    } else {
        AbiKind::Baseline
    }
}

/// The bindings that go with an ABI.
pub open spec fn bindings_of(abi: AbiKind) -> Bindings {
    match abi {
        AbiKind::Baseline => Bindings::Empty,
        AbiKind::Enhanced => Bindings::Environment,
    }
}

impl ImportDecl {
    /// Whether this entry is the marker of the enhanced ABI.
    pub fn is_marker(&self) -> (marker: bool)
        ensures
            marker == is_marker(self.deep_view()),
    {
        let namespace = String::from_str("env");
        let name = String::from_str("_emscripten_memcpy_big");
        self.namespace == namespace && self.name == name
    }
}

/// Decides from the import table alone which ABI a module expects.
pub fn resolve_abi(imports: &Vec<ImportDecl>) -> (abi: AbiKind)
    ensures
        abi == abi_of(imports.deep_view()),
{
    let mut at: usize = 0;
    while at < imports.len()
        invariant
            at <= imports.len(),
            forall|i: int| 0 <= i < at ==> !is_marker(#[trigger] imports.deep_view()[i]),
        decreases imports.len() - at,
    {
        if imports[at].is_marker() {
            assert(is_marker(imports.deep_view()[at as int]));
            return AbiKind::Enhanced;
        }
        at += 1;
    }
    AbiKind::Baseline
}

/// Chooses the bindings for an ABI.
pub fn bindings_for(abi: AbiKind) -> (bindings: Bindings)
    ensures
        bindings == bindings_of(abi),
{
    match abi {
        AbiKind::Baseline => Bindings::Empty,
        AbiKind::Enhanced => Bindings::Environment,
    }
}

} // verus!
