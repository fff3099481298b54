//! The sandbox runner: executing a compiled bytecode module inside an
//! isolated virtual machine with its standard output captured.
//!
//! Every invocation builds a fresh engine, linker, store and capture pipe, so
//! no state leaks between two submissions. The guest's standard output is an
//! in-memory, append-only pipe; after the guest returns, the store is
//! released and the pipe's buffer is taken back as the captured bytes. What
//! a guest writes, and whether it traps, depends on the guest alone, so
//! nothing relates the outcome to the bytecode here: callers take the
//! outcome as a value and the formatter says exactly how it is displayed.

use vstd::prelude::*;
use crate::outcome::RunOutcome;

verus! {

#[verifier::external_type_specification]
#[verifier::external_body]
pub struct ExEngine(wasmtime::Engine);

#[verifier::external_type_specification]
#[verifier::external_body]
#[verifier::reject_recursive_types(T)]
pub struct ExLinker<T>(wasmtime::Linker<T>);

#[verifier::external_type_specification]
#[verifier::external_body]
#[verifier::reject_recursive_types(T)]
pub struct ExStore<T: 'static>(wasmtime::Store<T>);

#[verifier::external_type_specification]
#[verifier::external_body]
pub struct ExModule(wasmtime::Module);

#[verifier::external_type_specification]
#[verifier::external_body]
pub struct ExWasiCtx(wasi_common::WasiCtx);

/// One invocation's capture pipe: a writable handle to an in-memory buffer
/// that stands in for the guest's standard output. Verus refuses to have the
/// pipe's own type declared (its type parameter carries a trait bound of
/// std), so the pipe is held opaquely here.
#[verifier::external_body]
pub struct CapturePipe {
    pipe: wasi_common::pipe::WritePipe<std::io::Cursor<Vec<u8>>>,
}

/// How much fuel one run may spend before it is stopped. Fuel is consumed
/// roughly per executed instruction, so this bounds a guest that would
/// otherwise loop forever while leaving ordinary submissions untouched.
pub const GUEST_FUEL: u64 = 100000000;

/// Relies on wasmtime::Config and wasmtime::Engine::new: a fresh, stateless
/// execution engine that meters guest fuel and whose guest memories take
/// modest address-space reservations, so the sandbox also fits hosts with a
/// bounded address space. When that engine cannot be built, falls back to
/// the default one, which does not meter fuel.
#[verifier::external_body]
fn new_engine() -> wasmtime::Engine {
    let mut config = wasmtime::Config::new();
    config.consume_fuel(true);
    config.memory_reservation(1 << 26);
    config.memory_guard_size(1 << 16);
    config.memory_reservation_for_growth(1 << 20);
    match wasmtime::Engine::new(&config) {
        Ok(engine) => engine,
        Err(_) => wasmtime::Engine::default(),
    }
}

/// Relies on wasmtime::Linker::new: an empty linker tied to the engine.
#[verifier::external_body]
fn new_linker(engine: &wasmtime::Engine) -> wasmtime::Linker<wasi_common::WasiCtx> {
    wasmtime::Linker::new(engine)
}

/// Relies on wasi_common::sync::add_to_linker: defines the guest's system
/// interface imports in the linker, backed by the store's context.
#[verifier::external_body]
fn add_wasi(linker: &mut wasmtime::Linker<wasi_common::WasiCtx>) -> Result<(), Vec<u8>> {
    match wasi_common::sync::add_to_linker(linker, |ctx| ctx) {
        Ok(()) => Ok(()),
        Err(e) => Err(format!("{e}").into_bytes()),
    }
}

/// Relies on wasi_common::pipe::WritePipe::new_in_memory: a writable pipe
/// backed by an in-memory buffer.
#[verifier::external_body]
fn new_capture_pipe() -> CapturePipe {
    CapturePipe { pipe: wasi_common::pipe::WritePipe::new_in_memory() }
}

/// Relies on wasi_common::sync::WasiCtxBuilder: a context whose standard
/// output is the given pipe (through a second handle to the same buffer)
/// and which grants the guest nothing else.
#[verifier::external_body]
fn capture_ctx(pipe: &CapturePipe) -> wasi_common::WasiCtx {
    wasi_common::sync::WasiCtxBuilder::new().stdout(Box::new(pipe.pipe.clone())).build()
}

/// Relies on wasmtime::Store::new and wasmtime::Store::set_fuel: a fresh
/// store scoped to one invocation, owning the given context, with `fuel` to
/// spend. Setting fuel fails only on an engine that does not meter it, and
/// such an engine runs without the ceiling.
#[verifier::external_body]
fn new_store(
    engine: &wasmtime::Engine,
    ctx: wasi_common::WasiCtx,
    fuel: u64,
) -> wasmtime::Store<wasi_common::WasiCtx> {
    let mut store = wasmtime::Store::new(engine, ctx);
    let _ = store.set_fuel(fuel);
    store
}

/// Relies on wasmtime::Module::new: validates and compiles the bytes into a
/// module, or reports why they are not a valid module.
#[verifier::external_body]
fn compile_module(engine: &wasmtime::Engine, bytecode: &[u8]) -> Result<wasmtime::Module, Vec<u8>> {
    match wasmtime::Module::new(engine, bytecode) {
        Ok(module) => Ok(module),
        Err(e) => Err(format!("{e}").into_bytes()),
    }
}

/// Relies on wasmtime::Linker::module: instantiates the module in the store
/// and defines its exports in the linker, or reports the link failure.
#[verifier::external_body]
fn link_module(
    linker: &mut wasmtime::Linker<wasi_common::WasiCtx>,
    store: &mut wasmtime::Store<wasi_common::WasiCtx>,
    module: &wasmtime::Module,
) -> Result<(), Vec<u8>> {
    match linker.module(&mut *store, "", module) {
        Ok(_) => Ok(()),
        Err(e) => Err(format!("{e}").into_bytes()),
    }
}

/// Why the entry point's run did not complete.
enum EntryError {
    /// The guest spent the store's fuel before returning.
    ResourceLimit,
    /// The entry point is ill typed, or the guest trapped; the text is the
    /// runtime's description.
    Faulted(Vec<u8>),
}

/// Relies on wasmtime::Linker::get_default, wasmtime::Func::typed and
/// wasmtime::TypedFunc::call: resolves the module's parameterless,
/// result-less entry point and runs it, or reports the ill-typed entry
/// point, or the trap that stopped the guest, telling the out-of-fuel trap
/// apart from the others. A module exporting no entry point at all is given
/// a no-op one by the runtime and so runs vacuously.
#[verifier::external_body]
fn call_entry(
    linker: &wasmtime::Linker<wasi_common::WasiCtx>,
    store: &mut wasmtime::Store<wasi_common::WasiCtx>,
) -> Result<(), EntryError> {
    let run = linker
        .get_default(&mut *store, "")
        .and_then(|f| f.typed::<(), ()>(&*store))
        .and_then(|f| f.call(&mut *store, ()));
    match run {
        Ok(()) => Ok(()),
        Err(e) => match e.downcast_ref::<wasmtime::Trap>() {
            Some(wasmtime::Trap::OutOfFuel) => Err(EntryError::ResourceLimit),
            _ => Err(EntryError::Faulted(format!("{e}").into_bytes())),
        },
    }
}

/// Relies on wasi_common::pipe::WritePipe::try_into_inner and
/// std::io::Cursor::into_inner: releases the store, then takes back the
/// capture buffer; yields nothing if another handle to the buffer survives.
#[verifier::external_body]
fn finish_capture(
    store: wasmtime::Store<wasi_common::WasiCtx>,
    pipe: CapturePipe,
) -> Option<Vec<u8>> {
    drop(store);
    match pipe.pipe.try_into_inner() {
        Ok(cursor) => Some(cursor.into_inner()),
        Err(_) => None,
    }
}

/// The message reported when the capture buffer cannot be taken back after a
/// run: the bytes of `captured output unavailable`.
pub open spec fn capture_lost_text() -> Seq<u8> {
    seq![
        99u8, 97u8, 112u8, 116u8, 117u8, 114u8, 101u8, 100u8, 32u8, 111u8, 117u8, 116u8, 112u8,
        117u8, 116u8, 32u8, 117u8, 110u8, 97u8, 118u8, 97u8, 105u8, 108u8, 97u8, 98u8, 108u8,
        101u8,
    ]
}

/// The bytes of `captured output unavailable`.
fn capture_lost_message() -> (v: Vec<u8>)
    ensures
        v@ == capture_lost_text(),
{
    let mut v: Vec<u8> = Vec::new();
    v.push(99);
    v.push(97);
    v.push(112);
    v.push(116);
    v.push(117);
    v.push(114);
    v.push(101);
    v.push(100);
    v.push(32);
    v.push(111);
    v.push(117);
    v.push(116);
    v.push(112);
    v.push(117);
    v.push(116);
    v.push(32);
    v.push(117);
    v.push(110);
    v.push(97);
    v.push(118);
    v.push(97);
    v.push(105);
    v.push(108);
    v.push(97);
    v.push(98);
    v.push(108);
    v.push(101);
    proof {
        assert(v@ =~= capture_lost_text());
    }
    v
}

/// Runs a compiled bytecode module in a fresh, isolated environment and
/// captures everything it writes to standard output.
///
/// Returns the captured bytes when the guest runs to completion, and
/// otherwise either the resource-limit outcome, for a guest that spent its
/// fuel before returning, or the error that stopped it: a module that fails
/// validation or linking, an entry point with the wrong signature, or a
/// guest trap (a module exporting no entry point runs vacuously). Which of
/// these happens, and what the guest writes, is decided
/// by the bytecode and the sandbox alone; the caller learns it only from the
/// returned value.
pub fn run_module(bytecode: &[u8]) -> RunOutcome {
    let engine = new_engine();
    let mut linker = new_linker(&engine);
    if let Err(message) = add_wasi(&mut linker) {
        return RunOutcome::Failed(message);
    }
    let pipe = new_capture_pipe();
    let ctx = capture_ctx(&pipe);
    let mut store = new_store(&engine, ctx, GUEST_FUEL);
    let module = match compile_module(&engine, bytecode) {
        Ok(module) => module,
        Err(message) => {
            return RunOutcome::Failed(message);
        },
    };
    if let Err(message) = link_module(&mut linker, &mut store, &module) {
        return RunOutcome::Failed(message);
    }
    match call_entry(&linker, &mut store) {
        Ok(()) => (),
        Err(EntryError::ResourceLimit) => {
            return RunOutcome::ResourceLimit;
        },
        Err(EntryError::Faulted(message)) => {
            return RunOutcome::Failed(message);
        },
    }
    match finish_capture(store, pipe) {
        Some(captured) => RunOutcome::Captured(captured),
        None => RunOutcome::Failed(capture_lost_message()),
    }
}

} // verus!
