use vstd::prelude::*;

use crate::error::EngineError;
use crate::pattern::Pattern;

verus! {

/// Where a loaded module lies in the host's address space.
#[derive(Debug, Clone)]
pub struct ModuleRange {
    pub name: String,
    pub base: usize,
    pub size: usize,
}

impl ModuleRange {
    /// The whole range is addressable.
    pub open spec fn wf(&self) -> bool {
        self.base + self.size <= usize::MAX
    }
}

/// A member function found in memory: its absolute address, called with the
/// interface's instance as first native argument.
#[derive(Debug, Clone, PartialEq, Eq)]
pub struct ResolvedFunction {
    pub symbol: String,
    pub address: usize,
}

/// One catalogue entry: a member function's name and the signature of its prologue.
#[derive(Debug, Clone)]
pub struct FunctionSignature {
    pub symbol: String,
    pub pattern: Pattern,
}

/// One catalogue entry per interface: the module that exposes it, the interface
/// version string, and the member functions to resolve in that module.
#[derive(Debug, Clone)]
pub struct InterfaceSpec {
    pub module: String,
    pub version: String,
    pub functions: Vec<FunctionSignature>,
}

impl InterfaceSpec {
    pub open spec fn wf(&self) -> bool {
        forall|i: int| 0 <= i < self.functions@.len() ==> (#[trigger] self.functions@[i]).pattern.wf()
    }
}

/// A bound interface: the instance pointer and its resolved functions, in
/// catalogue order. Read-only once built.
#[derive(Debug, Clone)]
pub struct InterfaceHandle {
    instance: usize,
    functions: Vec<ResolvedFunction>,
}

/// The absolute address at which `sig` resolves in `module`, whose bytes are `mem`.
pub open spec fn resolved_address(module: ModuleRange, mem: Seq<u8>, sig: FunctionSignature) -> Option<
    int,
> {
    match sig.pattern.first_in(mem) {
        Some(k) => Some(module.base + k),
        None => None,
    }
}

/// Index of the first catalogue function, at `i` or after, whose signature is not found.
pub open spec fn first_unresolved_from(fs: Seq<FunctionSignature>, mem: Seq<u8>, i: int) -> Option<int>
    decreases fs.len() - i,
{
    if i < 0 || i >= fs.len() {
        None
    } else if fs[i].pattern.first_in(mem) is None {
        Some(i)
    } else {
        first_unresolved_from(fs, mem, i + 1)
    }
}

/// Index of the first catalogue function whose signature is not found.
pub open spec fn first_unresolved(fs: Seq<FunctionSignature>, mem: Seq<u8>) -> Option<int> {
    first_unresolved_from(fs, mem, 0)
}

/// The descriptor that `sig` resolves to in `module`.
pub open spec fn resolves_to(
    f: ResolvedFunction,
    module: ModuleRange,
    mem: Seq<u8>,
    sig: FunctionSignature,
) -> bool {
    &&& f.symbol == sig.symbol
    &&& resolved_address(module, mem, sig) == Some(f.address as int)
}

/// Locates one member function in a module's memory.
pub fn resolve_function(module: &ModuleRange, memory: &[u8], sig: &FunctionSignature) -> (r: Result<
    ResolvedFunction,
    EngineError,
>)
    requires
        module.wf(),
        memory@.len() == module.size,
        sig.pattern.wf(),
    ensures
        match resolved_address(*module, memory@, *sig) {
            Some(_) => r is Ok && resolves_to(r->Ok_0, *module, memory@, *sig),
            None => r == Err::<ResolvedFunction, EngineError>(
                EngineError::SignatureNotFound(sig.symbol),
            ),
        },
{
    match sig.pattern.find_in(memory) {
        Some(k) => Ok(ResolvedFunction { symbol: sig.symbol.clone(), address: module.base + k }),
        None => Err(EngineError::SignatureNotFound(sig.symbol.clone())),
    }
}

impl InterfaceHandle {
    pub closed spec fn instance_view(&self) -> usize {
        self.instance
    }

    pub closed spec fn functions_view(&self) -> Seq<ResolvedFunction> {
        self.functions@
    }

    /// The handle binds `spec` at `instance` in `module` (bytes `mem`).
    pub open spec fn binds(
        &self,
        spec: InterfaceSpec,
        instance: usize,
        module: ModuleRange,
        mem: Seq<u8>,
    ) -> bool {
        &&& self.instance_view() == instance
        &&& self.functions_view().len() == spec.functions@.len()
        &&& forall|i: int|
            0 <= i < spec.functions@.len() ==> resolves_to(
                #[trigger] self.functions_view()[i],
                module,
                mem,
                spec.functions@[i],
            )
    }

    /// The instance ("this") address passed first to every member function.
    pub fn instance(&self) -> (r: usize)
        ensures
            r == self.instance_view(),
    {
        self.instance
    }

    /// Number of resolved functions.
    pub fn len(&self) -> (r: usize)
        ensures
            r == self.functions_view().len(),
    {
        self.functions.len()
    }

    /// Function `i` is the first, in catalogue order, named `symbol`.
    pub open spec fn is_first_named(&self, i: int, symbol: Seq<char>) -> bool {
        &&& 0 <= i < self.functions_view().len()
        &&& self.functions_view()[i].symbol@ == symbol
        &&& forall|j: int| 0 <= j < i ==> (#[trigger] self.functions_view()[j]).symbol@ != symbol
    }

    /// The address of the first function named `symbol`, if the handle has one.
    pub fn address_of(&self, symbol: &String) -> (r: Option<usize>)
        ensures
            match r {
                Some(a) => exists|i: int|
                    self.is_first_named(i, symbol@) && a == (#[trigger] self.functions_view()[i]).address,
                None => forall|i: int|
                    0 <= i < self.functions_view().len() ==> (#[trigger] self.functions_view()[i]).symbol@
                        != symbol@,
            },
    {
        let mut i: usize = 0;
        while i < self.functions.len()
            invariant
                i <= self.functions@.len(),
                forall|j: int| 0 <= j < i ==> (#[trigger] self.functions@[j]).symbol@ != symbol@,
            decreases self.functions@.len() - i,
        {
            if self.functions[i].symbol == *symbol {
                assert(self.is_first_named(i as int, symbol@));
                return Some(self.functions[i].address);
            }
            i = i + 1;
        }
        None
    }

    /// The `i`-th resolved function, in catalogue order.
    pub fn function(&self, i: usize) -> (r: &ResolvedFunction)
        requires
            i < self.functions_view().len(),
        ensures
            *r == self.functions_view()[i as int],
    {
        &self.functions[i]
    }
}

proof fn lemma_resolved_step(fs: Seq<FunctionSignature>, mem: Seq<u8>, i: int)
    requires
        0 <= i < fs.len(),
        fs[i].pattern.first_in(mem) is Some,
    ensures
        first_unresolved_from(fs, mem, i) == first_unresolved_from(fs, mem, i + 1),
{
}

/// Resolves every function of `spec` in `module`; fails on the first one
/// whose signature is not found, naming it.
pub fn bind_interface(spec: &InterfaceSpec, instance: usize, module: &ModuleRange, memory: &[u8]) -> (r:
    Result<InterfaceHandle, EngineError>)
    requires
        spec.wf(),
        module.wf(),
        memory@.len() == module.size,
    ensures
        match first_unresolved(spec.functions@, memory@) {
            Some(i) => r == Err::<InterfaceHandle, EngineError>(
                EngineError::SignatureNotFound(spec.functions@[i].symbol),
            ),
            None => r is Ok && r->Ok_0.binds(*spec, instance, *module, memory@),
        },
{
    let mut functions: Vec<ResolvedFunction> = Vec::new();
    let mut i: usize = 0;
    while i < spec.functions.len()
        invariant
            spec.wf(),
            module.wf(),
            memory@.len() == module.size,
            i <= spec.functions@.len(),
            functions@.len() == i,
            first_unresolved(spec.functions@, memory@) == first_unresolved_from(
                spec.functions@,
                memory@,
                i as int,
            ),
            forall|j: int|
                0 <= j < i ==> resolves_to(
                    #[trigger] functions@[j],
                    *module,
                    memory@,
                    spec.functions@[j],
                ),
        decreases spec.functions@.len() - i,
    {
        let sig = &spec.functions[i];
        assert(sig.pattern.wf());
        match resolve_function(module, memory, sig) {
            Ok(f) => {
                proof {
                    lemma_resolved_step(spec.functions@, memory@, i as int);
                }
                functions.push(f);
            },
            Err(e) => {
                return Err(e);
            },
        }
        i = i + 1;
    }
    Ok(InterfaceHandle { instance, functions })
}

/// The index `first_unresolved_from` gives is a function whose signature is not
/// found; it gives none exactly when every function from `i` on is found.
pub proof fn lemma_first_unresolved_from(fs: Seq<FunctionSignature>, mem: Seq<u8>, i: int)
    requires
        0 <= i,
    ensures
        match first_unresolved_from(fs, mem, i) {
            Some(j) => i <= j < fs.len() && fs[j].pattern.first_in(mem) is None,
            None => forall|j: int| i <= j < fs.len() ==> (#[trigger] fs[j]).pattern.first_in(mem) is Some,
        },
    decreases fs.len() - i,
{
    if i < fs.len() && fs[i].pattern.first_in(mem) is Some {
        lemma_first_unresolved_from(fs, mem, i + 1);
        assert forall|j: int| i <= j < fs.len() && first_unresolved_from(fs, mem, i) is None implies (
        #[trigger] fs[j]).pattern.first_in(mem) is Some by {
            if j > i {
            }
        }
    }
}

} // verus!
