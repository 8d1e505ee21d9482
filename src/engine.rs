use vstd::prelude::*;

use crate::error::EngineError;
use crate::resolver::{
    bind_interface, first_unresolved, lemma_first_unresolved_from, InterfaceHandle, InterfaceSpec,
    ModuleRange,
};

verus! {

/// Where process-wide initialization stands.
#[derive(Debug, Clone, Copy, PartialEq, Eq, Structural)]
pub enum InitState {
    Uninitialized,
    Initializing,
    Ready,
    Failed,
}

/// Single-shot guard of engine initialization: only the first caller leaves
/// `Uninitialized`; every later caller is refused without waiting.
#[derive(Debug)]
pub struct InitGuard {
    state: InitState,
}

impl InitGuard {
    pub closed spec fn state_view(&self) -> InitState {
        self.state
    }

    /// The error a caller gets when initialization is attempted in state `s`,
    /// or `None` when it may proceed.
    pub open spec fn refusal(s: InitState) -> Option<EngineError> {
        match s {
            InitState::Uninitialized => None,
            InitState::Initializing => Some(EngineError::AlreadyInitializing),
            _ => Some(EngineError::AlreadyInitialized),
        }
    }

    pub fn new() -> (r: InitGuard)
        ensures
            r.state_view() == InitState::Uninitialized,
    {
        InitGuard { state: InitState::Uninitialized }
    }

    pub fn state(&self) -> (r: InitState)
        ensures
            r == self.state_view(),
    {
        self.state
    }

    /// Claims initialization for the caller, or refuses it.
    pub fn begin(&mut self) -> (r: Result<(), EngineError>)
        ensures
            match Self::refusal(old(self).state_view()) {
                Some(e) => r == Err::<(), EngineError>(e) && final(self).state_view()
                    == old(self).state_view(),
                None => r is Ok && final(self).state_view() == InitState::Initializing,
            },
    {
        match self.state {
            InitState::Uninitialized => {
                self.state = InitState::Initializing;
                Ok(())
            },
            InitState::Initializing => Err(EngineError::AlreadyInitializing),
            _ => Err(EngineError::AlreadyInitialized),
        }
    }

    /// Records how the claimed initialization ended.
    pub fn finish(&mut self, succeeded: bool)
        requires
            old(self).state_view() == InitState::Initializing,
        ensures
            final(self).state_view() == (if succeeded {
                InitState::Ready
            } else {
                InitState::Failed
            }),
    {
        self.state = if succeeded {
            InitState::Ready
        } else {
            InitState::Failed
        };
    }
}

/// What the host process shows for one interface: the instance its module's
/// factory hands out, the module's range, and the module's bytes.
pub struct HostInterface<'a> {
    pub instance: Option<usize>,
    pub module: Option<ModuleRange>,
    pub memory: &'a [u8],
}

impl<'a> HostInterface<'a> {
    /// When the module is mapped, `memory` is exactly its bytes.
    pub open spec fn wf(&self) -> bool {
        match self.module {
            Some(m) => m.wf() && self.memory@.len() == m.size,
            None => true,
        }
    }
}

/// The interfaces the engine binds, each with its catalogue entry.
pub struct EngineCatalogue {
    pub client: InterfaceSpec,
    pub input_stack_system: InterfaceSpec,
    pub cvar: InterfaceSpec,
}

impl EngineCatalogue {
    pub open spec fn wf(&self) -> bool {
        self.client.wf() && self.input_stack_system.wf() && self.cvar.wf()
    }
}

/// The host's view of each interface of the catalogue.
pub struct EngineHost<'a> {
    pub client: HostInterface<'a>,
    pub input_stack_system: HostInterface<'a>,
    pub cvar: HostInterface<'a>,
}

impl<'a> EngineHost<'a> {
    pub open spec fn wf(&self) -> bool {
        self.client.wf() && self.input_stack_system.wf() && self.cvar.wf()
    }
}

pub open spec fn first_error(a: Option<EngineError>, b: Option<EngineError>) -> Option<EngineError> {
    if a is Some {
        a
    } else {
        b
    }
}

/// The interface's instance could not be located.
pub open spec fn locate_error(spec: InterfaceSpec, h: HostInterface) -> Option<EngineError> {
    if h.instance is None {
        Some(EngineError::InterfaceNotFound(spec.module, spec.version))
    } else {
        None
    }
}

/// The interface's module is not mapped.
pub open spec fn scan_error(spec: InterfaceSpec, h: HostInterface) -> Option<EngineError> {
    if h.module is None {
        Some(EngineError::ModuleNotMapped(spec.module))
    } else {
        None
    }
}

/// A function of the interface could not be found in its module's bytes.
pub open spec fn resolve_error(spec: InterfaceSpec, h: HostInterface) -> Option<EngineError> {
    match first_unresolved(spec.functions@, h.memory@) {
        Some(i) => Some(EngineError::SignatureNotFound(spec.functions@[i].symbol)),
        None => None,
    }
}

/// The first failure of an assembly: all instances are located first, then all
/// modules scanned, then all functions resolved, each in catalogue order.
pub open spec fn assembly_error(cat: EngineCatalogue, host: EngineHost) -> Option<EngineError> {
    first_error(
        locate_error(cat.client, host.client),
        first_error(
            locate_error(cat.input_stack_system, host.input_stack_system),
            first_error(
                locate_error(cat.cvar, host.cvar),
                first_error(
                    scan_error(cat.client, host.client),
                    first_error(
                        scan_error(cat.input_stack_system, host.input_stack_system),
                        first_error(
                            scan_error(cat.cvar, host.cvar),
                            first_error(
                                resolve_error(cat.client, host.client),
                                first_error(
                                    resolve_error(cat.input_stack_system, host.input_stack_system),
                                    resolve_error(cat.cvar, host.cvar),
                                ),
                            ),
                        ),
                    ),
                ),
            ),
        ),
    )
}

/// `handle` binds `spec` as the host shows it.
pub open spec fn bound(handle: InterfaceHandle, spec: InterfaceSpec, h: HostInterface) -> bool {
    &&& h.instance is Some
    &&& h.module is Some
    &&& handle.binds(spec, h.instance->0, h.module->0, h.memory@)
}

/// The facade: one bound handle per interface. Immutable once built.
#[derive(Debug)]
pub struct Engine {
    client: InterfaceHandle,
    input_stack_system: InterfaceHandle,
    icvar: InterfaceHandle,
}

/// `r` is what assembling `cat` against `host` gives.
pub open spec fn assembled(cat: EngineCatalogue, host: EngineHost, r: Result<Engine, EngineError>) -> bool {
    match assembly_error(cat, host) {
        Some(e) => r == Err::<Engine, EngineError>(e),
        None => r is Ok && bound(r->Ok_0.client_view(), cat.client, host.client) && bound(
            r->Ok_0.input_stack_system_view(),
            cat.input_stack_system,
            host.input_stack_system,
        ) && bound(r->Ok_0.cvar_system_view(), cat.cvar, host.cvar),
    }
}

/// `r` and `after` are what initializing from `before` gives.
pub open spec fn initialized(
    before: InitGuard,
    after: InitGuard,
    cat: EngineCatalogue,
    host: EngineHost,
    r: Result<Engine, EngineError>,
) -> bool {
    match InitGuard::refusal(before.state_view()) {
        Some(e) => r == Err::<Engine, EngineError>(e) && after == before,
        None => assembled(cat, host, r) && after.state_view() == (if r is Ok {
            InitState::Ready
        } else {
            InitState::Failed
        }),
    }
}

impl Engine {
    pub closed spec fn client_view(&self) -> InterfaceHandle {
        self.client
    }

    pub closed spec fn input_stack_system_view(&self) -> InterfaceHandle {
        self.input_stack_system
    }

    pub closed spec fn cvar_system_view(&self) -> InterfaceHandle {
        self.icvar
    }

    /// The engine client interface.
    pub fn client(&self) -> (r: &InterfaceHandle)
        ensures
            *r == self.client_view(),
    {
        &self.client
    }

    /// The input stack system interface.
    pub fn input_stack_system(&self) -> (r: &InterfaceHandle)
        ensures
            *r == self.input_stack_system_view(),
    {
        &self.input_stack_system
    }

    /// The console variable interface.
    pub fn cvar_system(&self) -> (r: &InterfaceHandle)
        ensures
            *r == self.cvar_system_view(),
    {
        &self.icvar
    }
}

/// Locates the instance of one interface.
fn locate(spec: &InterfaceSpec, h: &HostInterface) -> (r: Result<usize, EngineError>)
    ensures
        match locate_error(*spec, *h) {
            Some(e) => r == Err::<usize, EngineError>(e),
            None => r == Ok::<usize, EngineError>(h.instance->0),
        },
{
    match h.instance {
        Some(p) => Ok(p),
        None => Err(EngineError::InterfaceNotFound(spec.module.clone(), spec.version.clone())),
    }
}

/// Finds the range of one interface's module.
fn scan<'b>(spec: &InterfaceSpec, h: &'b HostInterface) -> (r: Result<&'b ModuleRange, EngineError>)
    ensures
        match scan_error(*spec, *h) {
            Some(e) => r == Err::<&ModuleRange, EngineError>(e),
            None => r is Ok && *r->Ok_0 == h.module->0,
        },
{
    match &h.module {
        Some(m) => Ok(m),
        None => Err(EngineError::ModuleNotMapped(spec.module.clone())),
    }
}

impl Engine {
    /// Binds every interface of `catalogue` as `host` shows it. Fails on the
    /// first missing instance, then the first unmapped module, then the first
    /// signature not found; never returns a partly bound engine.
    pub fn assemble(catalogue: &EngineCatalogue, host: &EngineHost) -> (r: Result<Engine, EngineError>)
        requires
            catalogue.wf(),
            host.wf(),
        ensures
            assembled(*catalogue, *host, r),
    {
        let client_this = match locate(&catalogue.client, &host.client) {
            Ok(p) => p,
            Err(e) => return Err(e),
        };
        let input_this = match locate(&catalogue.input_stack_system, &host.input_stack_system) {
            Ok(p) => p,
            Err(e) => return Err(e),
        };
        let cvar_this = match locate(&catalogue.cvar, &host.cvar) {
            Ok(p) => p,
            Err(e) => return Err(e),
        };
        let client_mod = match scan(&catalogue.client, &host.client) {
            Ok(m) => m,
            Err(e) => return Err(e),
        };
        let input_mod = match scan(&catalogue.input_stack_system, &host.input_stack_system) {
            Ok(m) => m,
            Err(e) => return Err(e),
        };
        let cvar_mod = match scan(&catalogue.cvar, &host.cvar) {
            Ok(m) => m,
            Err(e) => return Err(e),
        };
        let client = match bind_interface(&catalogue.client, client_this, client_mod, host.client.memory) {
            Ok(h) => h,
            Err(e) => return Err(e),
        };
        let input_stack_system = match bind_interface(
            &catalogue.input_stack_system,
            input_this,
            input_mod,
            host.input_stack_system.memory,
        ) {
            Ok(h) => h,
            Err(e) => return Err(e),
        };
        let icvar = match bind_interface(&catalogue.cvar, cvar_this, cvar_mod, host.cvar.memory) {
            Ok(h) => h,
            Err(e) => return Err(e),
        };
        Ok(Engine { client, input_stack_system, icvar })
    }

    /// Initializes the engine once: claims `guard`, assembles, and records the
    /// outcome. Any call after the first is refused and leaves `guard` as it was.
    pub fn initialize(guard: &mut InitGuard, catalogue: &EngineCatalogue, host: &EngineHost) -> (r: Result<
        Engine,
        EngineError,
    >)
        requires
            catalogue.wf(),
            host.wf(),
        ensures
            initialized(*old(guard), *final(guard), *catalogue, *host, r),
    {
        match guard.begin() {
            Ok(()) => {},
            Err(e) => return Err(e),
        }
        let r = Engine::assemble(catalogue, host);
        guard.finish(r.is_ok());
        r
    }
}

/// Every instance of the catalogue is located.
pub open spec fn instances_located(host: EngineHost) -> bool {
    host.client.instance is Some && host.input_stack_system.instance is Some && host.cvar.instance is Some
}

/// Every module of the catalogue is mapped.
pub open spec fn modules_mapped(host: EngineHost) -> bool {
    host.client.module is Some && host.input_stack_system.module is Some && host.cvar.module is Some
}

/// `h`'s module is not mapped and is the one named `name`.
pub open spec fn unmapped_named(spec: InterfaceSpec, h: HostInterface, name: String) -> bool {
    h.module is None && spec.module == name
}

/// Some function of `spec` named `symbol` has a signature absent from `h`'s module.
pub open spec fn missing_symbol(spec: InterfaceSpec, h: HostInterface, symbol: String) -> bool {
    exists|j: int|
        0 <= j < spec.functions@.len() && (#[trigger] spec.functions@[j]).symbol == symbol
            && spec.functions@[j].pattern.first_in(h.memory@) is None
}

/// Some function of `spec` has a signature absent from `h`'s module.
pub open spec fn has_missing(spec: InterfaceSpec, h: HostInterface) -> bool {
    exists|j: int|
        0 <= j < spec.functions@.len() && (#[trigger] spec.functions@[j]).pattern.first_in(h.memory@)
            is None
}

proof fn lemma_resolve_error(spec: InterfaceSpec, h: HostInterface)
    ensures
        match resolve_error(spec, h) {
            Some(e) => e is SignatureNotFound && missing_symbol(spec, h, e->SignatureNotFound_0),
            None => !has_missing(spec, h),
        },
{
    lemma_first_unresolved_from(spec.functions@, h.memory@, 0);
    if let Some(j) = first_unresolved(spec.functions@, h.memory@) {
        assert(spec.functions@[j].pattern.first_in(h.memory@) is None);
    }
}

/// Once one initialization has succeeded, a later one is refused with
/// `AlreadyInitialized` and leaves the guard as the successful one left it.
pub proof fn lemma_initialize_succeeds_at_most_once(
    g0: InitGuard,
    g1: InitGuard,
    g2: InitGuard,
    cat1: EngineCatalogue,
    host1: EngineHost,
    r1: Result<Engine, EngineError>,
    cat2: EngineCatalogue,
    host2: EngineHost,
    r2: Result<Engine, EngineError>,
)
    requires
        initialized(g0, g1, cat1, host1, r1),
        initialized(g1, g2, cat2, host2, r2),
        r1 is Ok,
    ensures
        r2 == Err::<Engine, EngineError>(EngineError::AlreadyInitialized),
        g2 == g1,
{
}

/// A failed assembly names exactly what is missing: `ModuleNotMapped` carries
/// the name of a module that is not mapped, `SignatureNotFound` the symbol of a
/// function whose signature its module lacks. With every instance located, an
/// unmapped module is reported as `ModuleNotMapped`; with every module mapped
/// too, a missing signature is reported as `SignatureNotFound`, whichever
/// other lookups succeeded.
pub proof fn lemma_errors_name_what_is_missing(cat: EngineCatalogue, host: EngineHost)
    ensures
        match assembly_error(cat, host) {
            Some(EngineError::ModuleNotMapped(name)) => unmapped_named(cat.client, host.client, name)
                || unmapped_named(cat.input_stack_system, host.input_stack_system, name)
                || unmapped_named(cat.cvar, host.cvar, name),
            Some(EngineError::SignatureNotFound(symbol)) => missing_symbol(
                cat.client,
                host.client,
                symbol,
            ) || missing_symbol(cat.input_stack_system, host.input_stack_system, symbol)
                || missing_symbol(cat.cvar, host.cvar, symbol),
            _ => true,
        },
        instances_located(host) && !modules_mapped(host) ==> assembly_error(cat, host) is Some
            && assembly_error(cat, host)->0 is ModuleNotMapped,
        instances_located(host) && modules_mapped(host) && (has_missing(cat.client, host.client)
            || has_missing(cat.input_stack_system, host.input_stack_system) || has_missing(
            cat.cvar,
            host.cvar,
        )) ==> assembly_error(cat, host) is Some && assembly_error(cat, host)->0 is SignatureNotFound,
{
    lemma_resolve_error(cat.client, host.client);
    lemma_resolve_error(cat.input_stack_system, host.input_stack_system);
    lemma_resolve_error(cat.cvar, host.cvar);
}

} // verus!
