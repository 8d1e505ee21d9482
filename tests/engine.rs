use source_sdk::engine::{Engine, EngineCatalogue, EngineHost, HostInterface, InitGuard, InitState};
use source_sdk::error::EngineError;
use source_sdk::pattern::Pattern;
use source_sdk::resolver::{
    bind_interface, resolve_function, FunctionSignature, InterfaceSpec, ModuleRange,
};

fn sig(symbol: &str, bytes: &[u8], mask: &[bool]) -> FunctionSignature {
    FunctionSignature {
        symbol: symbol.to_string(),
        pattern: Pattern::new(bytes.to_vec(), mask.to_vec()).unwrap(),
    }
}

fn range(name: &str, base: usize, size: usize) -> ModuleRange {
    ModuleRange { name: name.to_string(), base, size }
}

fn catalogue() -> EngineCatalogue {
    EngineCatalogue {
        client: InterfaceSpec {
            module: "engine.dll".to_string(),
            version: "VEngineClient015".to_string(),
            functions: vec![
                sig("ClientCmd", &[0x55, 0x8B, 0x00, 0x51], &[true, true, false, true]),
                sig("IsInGame", &[0xA1, 0x10], &[true, true]),
            ],
        },
        input_stack_system: InterfaceSpec {
            module: "inputsystem.dll".to_string(),
            version: "InputStackSystemVersion001".to_string(),
            functions: vec![sig("PushInputContext", &[0x6A, 0x01], &[true, true])],
        },
        cvar: InterfaceSpec {
            module: "vstdlib.dll".to_string(),
            version: "VEngineCvar007".to_string(),
            functions: vec![sig("FindVar", &[0xC3], &[true])],
        },
    }
}

const ENGINE_MEM: [u8; 8] = [0x90, 0x55, 0x8B, 0xEC, 0x51, 0xA1, 0x10, 0x00];
const INPUT_MEM: [u8; 4] = [0x00, 0x00, 0x6A, 0x01];
const VSTD_MEM: [u8; 3] = [0xC3, 0x90, 0x90];

fn host<'a>(e: &'a [u8], i: &'a [u8], v: &'a [u8]) -> EngineHost<'a> {
    EngineHost {
        client: HostInterface {
            instance: Some(0x5000),
            module: Some(range("engine.dll", 0x1000_0000, e.len())),
            memory: e,
        },
        input_stack_system: HostInterface {
            instance: Some(0x6000),
            module: Some(range("inputsystem.dll", 0x2000_0000, i.len())),
            memory: i,
        },
        cvar: HostInterface {
            instance: Some(0x7000),
            module: Some(range("vstdlib.dll", 0x3000_0000, v.len())),
            memory: v,
        },
    }
}

#[test]
fn resolved_address_is_base_plus_offset() {
    let m = range("engine.dll", 0x1000_0000, ENGINE_MEM.len());
    let f = resolve_function(&m, &ENGINE_MEM, &sig("IsInGame", &[0xA1, 0x10], &[true, true])).unwrap();
    assert_eq!(f.address, 0x1000_0005);
    assert_eq!(f.symbol, "IsInGame");
}

#[test]
fn unresolved_function_is_named() {
    let m = range("engine.dll", 0, ENGINE_MEM.len());
    let r = resolve_function(&m, &ENGINE_MEM, &sig("GetLevelName", &[0xFF, 0xFE], &[true, true]));
    assert_eq!(r.unwrap_err(), EngineError::SignatureNotFound("GetLevelName".to_string()));
}

#[test]
fn bind_names_first_missing_function() {
    let spec = InterfaceSpec {
        module: "engine.dll".to_string(),
        version: "VEngineClient015".to_string(),
        functions: vec![
            sig("IsInGame", &[0xA1], &[true]),
            sig("IsConnected", &[0xEE], &[true]),
            sig("GetMaxClients", &[0xDD], &[true]),
        ],
    };
    let m = range("engine.dll", 0x400, ENGINE_MEM.len());
    let r = bind_interface(&spec, 0x10, &m, &ENGINE_MEM);
    assert_eq!(r.unwrap_err(), EngineError::SignatureNotFound("IsConnected".to_string()));
}

#[test]
fn bind_resolves_every_function_in_order() {
    let cat = catalogue();
    let m = range("engine.dll", 0x400, ENGINE_MEM.len());
    let h = bind_interface(&cat.client, 0x10, &m, &ENGINE_MEM).unwrap();
    assert_eq!(h.instance(), 0x10);
    assert_eq!(h.len(), 2);
    assert_eq!(h.function(0).address, 0x401);
    assert_eq!(h.function(0).symbol, "ClientCmd");
    assert_eq!(h.function(1).address, 0x405);
}

#[test]
fn assemble_binds_all_interfaces() {
    let e = Engine::assemble(&catalogue(), &host(&ENGINE_MEM, &INPUT_MEM, &VSTD_MEM)).unwrap();
    assert_eq!(e.client().instance(), 0x5000);
    assert_eq!(e.client().function(1).address, 0x1000_0005);
    assert_eq!(e.input_stack_system().instance(), 0x6000);
    assert_eq!(e.input_stack_system().function(0).address, 0x2000_0002);
    assert_eq!(e.cvar_system().instance(), 0x7000);
    assert_eq!(e.cvar_system().function(0).address, 0x3000_0000);
}

#[test]
fn missing_interface_names_module_and_version() {
    let mut h = host(&ENGINE_MEM, &INPUT_MEM, &VSTD_MEM);
    h.cvar.instance = None;
    h.client.module = None;
    assert_eq!(
        Engine::assemble(&catalogue(), &h).unwrap_err(),
        EngineError::InterfaceNotFound("vstdlib.dll".to_string(), "VEngineCvar007".to_string())
    );
}

#[test]
fn missing_module_is_named_exactly() {
    let mut h = host(&ENGINE_MEM, &INPUT_MEM, &[]);
    h.input_stack_system.module = None;
    assert_eq!(
        Engine::assemble(&catalogue(), &h).unwrap_err(),
        EngineError::ModuleNotMapped("inputsystem.dll".to_string())
    );
}

#[test]
fn missing_signature_is_named_exactly() {
    let h = host(&ENGINE_MEM, &INPUT_MEM, &[0x90, 0x90]);
    assert_eq!(
        Engine::assemble(&catalogue(), &h).unwrap_err(),
        EngineError::SignatureNotFound("FindVar".to_string())
    );
}

#[test]
fn second_initialize_is_refused() {
    let mut guard = InitGuard::new();
    assert_eq!(guard.state(), InitState::Uninitialized);
    let first = Engine::initialize(&mut guard, &catalogue(), &host(&ENGINE_MEM, &INPUT_MEM, &VSTD_MEM));
    assert!(first.is_ok());
    assert_eq!(guard.state(), InitState::Ready);
    let second = Engine::initialize(&mut guard, &catalogue(), &host(&ENGINE_MEM, &INPUT_MEM, &VSTD_MEM));
    assert_eq!(second.unwrap_err(), EngineError::AlreadyInitialized);
    assert_eq!(guard.state(), InitState::Ready);
    assert_eq!(first.unwrap().client().instance(), 0x5000);
}

#[test]
fn failed_initialize_is_not_retried() {
    let mut guard = InitGuard::new();
    let first = Engine::initialize(&mut guard, &catalogue(), &host(&ENGINE_MEM, &[], &VSTD_MEM));
    assert_eq!(first.unwrap_err(), EngineError::SignatureNotFound("PushInputContext".to_string()));
    assert_eq!(guard.state(), InitState::Failed);
    let second = Engine::initialize(&mut guard, &catalogue(), &host(&ENGINE_MEM, &INPUT_MEM, &VSTD_MEM));
    assert_eq!(second.unwrap_err(), EngineError::AlreadyInitialized);
    assert_eq!(guard.state(), InitState::Failed);
}

#[test]
fn concurrent_begin_is_refused() {
    let mut guard = InitGuard::new();
    assert!(guard.begin().is_ok());
    assert_eq!(guard.state(), InitState::Initializing);
    assert_eq!(guard.begin().unwrap_err(), EngineError::AlreadyInitializing);
    assert_eq!(
        Engine::initialize(&mut guard, &catalogue(), &host(&ENGINE_MEM, &INPUT_MEM, &VSTD_MEM)).unwrap_err(),
        EngineError::AlreadyInitializing
    );
    guard.finish(true);
    assert_eq!(guard.state(), InitState::Ready);
}

#[test]
fn address_lookup_by_symbol() {
    let e = Engine::assemble(&catalogue(), &host(&ENGINE_MEM, &INPUT_MEM, &VSTD_MEM)).unwrap();
    assert_eq!(e.client().address_of(&"IsInGame".to_string()), Some(0x1000_0005));
    assert_eq!(e.client().address_of(&"ClientCmd".to_string()), Some(0x1000_0001));
    assert_eq!(e.client().address_of(&"FindVar".to_string()), None);
    assert_eq!(e.cvar_system().address_of(&"FindVar".to_string()), Some(0x3000_0000));
}
