//! The trusted boundary to the bytecode execution engine (wasmtime) and to
//! the wall clock. Everything the library assumes about the engine is a
//! contract on one of the small wrappers here; each wrapper's body makes
//! exactly one engine call and converts its arguments and result.
//!
//! The engine's handles (stores, memories, instances, functions) panic
//! when mixed across stores or engines, so each handle carries an
//! uninterpreted mark saying which store or engine it belongs to; the
//! wrappers' contracts thread those marks through, and their `requires`
//! rule the mixed calls out.

use crate::layout::{MEMORY_BYTES, MEMORY_PAGES};
use vstd::prelude::*;

verus! {

#[verifier::external_type_specification]
#[verifier::external_body]
pub struct ExEngine(wasmtime::Engine);

#[verifier::external_type_specification]
#[verifier::external_body]
pub struct ExModule(wasmtime::Module);

#[verifier::external_type_specification]
#[verifier::external_body]
#[verifier::reject_recursive_types(T)]
pub struct ExStore<T: 'static>(wasmtime::Store<T>);

#[verifier::external_type_specification]
#[verifier::external_body]
pub struct ExMemory(wasmtime::Memory);

#[verifier::external_type_specification]
#[verifier::external_body]
#[verifier::reject_recursive_types(T)]
pub struct ExLinker<T>(wasmtime::Linker<T>);

#[verifier::external_type_specification]
#[verifier::external_body]
pub struct ExInstance(wasmtime::Instance);

#[verifier::external_type_specification]
#[verifier::external_body]
pub struct ExFunc(wasmtime::Func);

#[verifier::external_type_specification]
#[verifier::external_body]
#[verifier::reject_recursive_types(Params)]
#[verifier::reject_recursive_types(Results)]
pub struct ExTypedFunc<Params, Results>(wasmtime::TypedFunc<Params, Results>);

#[verifier::external_type_specification]
#[verifier::external_body]
pub struct ExWasmtimeError(wasmtime::Error);

#[verifier::external_type_specification]
#[verifier::external_body]
pub struct ExInstant(std::time::Instant);

/// Which engine a value of `wasmtime::Engine` is.
pub uninterp spec fn engine_mark(e: wasmtime::Engine) -> int;

/// Which engine a compiled module belongs to.
pub uninterp spec fn module_engine(m: wasmtime::Module) -> int;

/// Which engine a store was created from.
pub uninterp spec fn store_engine(s: wasmtime::Store<()>) -> int;

/// Which store a value of `wasmtime::Store` is.
pub uninterp spec fn store_mark(s: wasmtime::Store<()>) -> int;

/// Which engine a linker was created from.
pub uninterp spec fn linker_engine(l: wasmtime::Linker<()>) -> int;

/// Which store a memory handle belongs to.
pub uninterp spec fn memory_mark(m: wasmtime::Memory) -> int;

/// The fixed byte capacity a memory was created with.
pub uninterp spec fn memory_capacity(m: wasmtime::Memory) -> nat;

/// Which store an instance handle belongs to.
pub uninterp spec fn instance_mark(i: wasmtime::Instance) -> int;

/// Which store an exported-function handle belongs to.
pub uninterp spec fn func_mark(f: wasmtime::Func) -> int;

/// Which store a typed `i32 -> i32` function handle belongs to.
pub uninterp spec fn canon_func_mark(f: wasmtime::TypedFunc<i32, i32>) -> int;

/// Which store a typed `() -> ()` function handle belongs to.
pub uninterp spec fn frame_func_mark(f: wasmtime::TypedFunc<(), ()>) -> int;

/// The set of import names a linker holds under the one module
/// namespace this host defines into ("env"). Each defining wrapper
/// below says how its call changes this set.
pub uninterp spec fn linker_names(l: wasmtime::Linker<()>) -> Set<Seq<char>>;

/// The name `reserved<i>` of the reserved stub function with suffix
/// `i`, as `linker_define_stub` builds it.
pub uninterp spec fn stub_name(i: u64) -> Seq<char>;

/// The name `g_reserved<i>` of the reserved zero global with suffix
/// `i`, as `linker_define_zero_global` builds it.
pub uninterp spec fn global_name(i: u64) -> Seq<char>;

/// Relies on `wasmtime::Engine::new`: build the engine, configured so
/// that a linear memory takes only its own pages of address space (no
/// large up-front reservation, no guard region); an engine cannot be
/// built only from an invalid configuration.
#[verifier::external_body]
pub(crate) fn engine_new() -> (r: Result<wasmtime::Engine, wasmtime::Error>) {
    let mut config = wasmtime::Config::new();
    config.memory_reservation(0);
    config.memory_guard_size(0);
    config.memory_reservation_for_growth(0);
    wasmtime::Engine::new(&config)
}

/// Relies on `wasmtime::Module::new`: compile a binary module image for
/// this engine, or report why it is malformed.
#[verifier::external_body]
pub(crate) fn module_new(e: &wasmtime::Engine, image: &[u8]) -> (r: Result<
    wasmtime::Module,
    wasmtime::Error,
>)
    ensures
        r matches Ok(m) ==> module_engine(m) == engine_mark(*e),
{
    wasmtime::Module::new(e, image)
}

/// Relies on `wasmtime::Store::new`: a fresh store for this engine.
#[verifier::external_body]
pub(crate) fn store_new(e: &wasmtime::Engine) -> (r: wasmtime::Store<()>)
    ensures
        store_engine(r) == engine_mark(*e),
{
    wasmtime::Store::new(e, ())
}

/// Relies on `wasmtime::Memory::new`: a linear memory of exactly
/// `MEMORY_PAGES` 64 KiB pages, not growable, zero-initialized, owned by
/// this store.
#[verifier::external_body]
pub(crate) fn memory_new(s: &mut wasmtime::Store<()>) -> (r: Result<
    wasmtime::Memory,
    wasmtime::Error,
>)
    ensures
        store_mark(*final(s)) == store_mark(*old(s)),
        store_engine(*final(s)) == store_engine(*old(s)),
        r matches Ok(m) ==> memory_mark(m) == store_mark(*old(s)) && memory_capacity(m)
            == MEMORY_BYTES as nat,
{
    let pages = MEMORY_PAGES as u32;
    wasmtime::Memory::new(s, wasmtime::MemoryType::new(pages, Some(pages)))
}

/// Relies on `wasmtime::Linker::new`: an empty linker for this engine,
/// with no name defined yet.
#[verifier::external_body]
pub(crate) fn linker_new(e: &wasmtime::Engine) -> (r: wasmtime::Linker<()>)
    ensures
        linker_engine(r) == engine_mark(*e),
        linker_names(r) == Set::<Seq<char>>::empty(),
{
    wasmtime::Linker::new(e)
}

/// Relies on `wasmtime::Linker::allow_shadowing`: later definitions of an
/// already-defined name replace the earlier one instead of failing.
#[verifier::external_body]
pub(crate) fn linker_allow_shadowing(l: &mut wasmtime::Linker<()>)
    ensures
        linker_engine(*final(l)) == linker_engine(*old(l)),
        linker_names(*final(l)) == linker_names(*old(l)),
{
    l.allow_shadowing(true);
}

/// Relies on `wasmtime::Linker::define`: register the shared memory as
/// the import `env.memory`.
#[verifier::external_body]
pub(crate) fn linker_define_memory(
    l: &mut wasmtime::Linker<()>,
    s: &wasmtime::Store<()>,
    m: wasmtime::Memory,
) -> (r: Result<(), wasmtime::Error>)
    requires
        memory_mark(m) == store_mark(*s),
        linker_engine(*old(l)) == store_engine(*s),
    ensures
        linker_engine(*final(l)) == linker_engine(*old(l)),
        r is Ok ==> linker_names(*final(l)) == linker_names(*old(l)).insert("memory"@),
        r is Err ==> linker_names(*final(l)) == linker_names(*old(l)),
{
    l.define(s, "env", "memory", m).map(|_| ())
}

/// Relies on `wasmtime::Linker::func_wrap`: register the reserved no-op
/// stub function `env.reserved<i>`, taking no arguments and doing
/// nothing.
#[verifier::external_body]
pub(crate) fn linker_define_stub(l: &mut wasmtime::Linker<()>, i: u64) -> (r: Result<
    (),
    wasmtime::Error,
>)
    ensures
        linker_engine(*final(l)) == linker_engine(*old(l)),
        r is Ok ==> linker_names(*final(l)) == linker_names(*old(l)).insert(stub_name(i)),
        r is Err ==> linker_names(*final(l)) == linker_names(*old(l)),
{
    let name = format!("reserved{}", i);
    l.func_wrap("env", &name, || {}).map(|_| ())
}

/// Relies on `wasmtime::Global::new` and `wasmtime::Linker::define`:
/// register the reserved global `env.g_reserved<i>` as an immutable
/// 32-bit integer constant zero.
#[verifier::external_body]
pub(crate) fn linker_define_zero_global(
    l: &mut wasmtime::Linker<()>,
    s: &mut wasmtime::Store<()>,
    i: u64,
) -> (r: Result<(), wasmtime::Error>)
    requires
        linker_engine(*old(l)) == store_engine(*old(s)),
    ensures
        linker_engine(*final(l)) == linker_engine(*old(l)),
        store_mark(*final(s)) == store_mark(*old(s)),
        store_engine(*final(s)) == store_engine(*old(s)),
        r is Ok ==> linker_names(*final(l)) == linker_names(*old(l)).insert(global_name(i)),
        r is Err ==> linker_names(*final(l)) == linker_names(*old(l)),
{
    let name = format!("g_reserved{}", i);
    let ty = wasmtime::GlobalType::new(wasmtime::ValType::I32, wasmtime::Mutability::Const);
    let zero = wasmtime::Global::new(&mut *s, ty, wasmtime::Val::I32(0))?;
    l.define(&*s, "env", &name, zero).map(|_| ())
}

/// Relies on `wasmtime::Linker::func_new`: register `env.<name>` as a
/// host function on 32-bit floats (one argument, or two when `binary`),
/// whose result is produced by the caller-supplied `math` on the raw bit
/// patterns; the closure only adapts between the engine's boxed values
/// and those bit patterns.
#[verifier::external_body]
pub(crate) fn linker_define_math<F: Fn(u8, u32, u32) -> u32 + Send + Sync + 'static>(
    l: &mut wasmtime::Linker<()>,
    name: &str,
    binary: bool,
    op: u8,
    math: F,
) -> (r: Result<(), wasmtime::Error>)
    ensures
        linker_engine(*final(l)) == linker_engine(*old(l)),
        r is Ok ==> linker_names(*final(l)) == linker_names(*old(l)).insert(name@),
        r is Err ==> linker_names(*final(l)) == linker_names(*old(l)),
{
    let f32_ty = wasmtime::ValType::F32;
    let params = if binary { vec![f32_ty.clone(), f32_ty.clone()] } else { vec![f32_ty.clone()] };
    let ty = wasmtime::FuncType::new(l.engine(), params, vec![f32_ty]);
    l.func_new("env", name, ty, move |_caller, args, results| {
        let a = match args.get(0) { Some(&wasmtime::Val::F32(bits)) => bits, _ => 0 };
        let b = match args.get(1) { Some(&wasmtime::Val::F32(bits)) => bits, _ => 0 };
        results[0] = wasmtime::Val::F32(math(op, a, b));
        Ok(())
    }).map(|_| ())
}

/// Relies on `wasmtime::Linker::define`: register an exported function of
/// the platform instance under its own name in `env`.
#[verifier::external_body]
pub(crate) fn linker_define_func(
    l: &mut wasmtime::Linker<()>,
    s: &wasmtime::Store<()>,
    name: &str,
    f: wasmtime::Func,
) -> (r: Result<(), wasmtime::Error>)
    requires
        func_mark(f) == store_mark(*s),
        linker_engine(*old(l)) == store_engine(*s),
    ensures
        linker_engine(*final(l)) == linker_engine(*old(l)),
        r is Ok ==> linker_names(*final(l)) == linker_names(*old(l)).insert(name@),
        r is Err ==> linker_names(*final(l)) == linker_names(*old(l)),
{
    l.define(s, "env", name, f).map(|_| ())
}

/// Relies on `wasmtime::Linker::instantiate`: instantiate a compiled
/// module against the current definitions, running its start code; the
/// instance lives in the given store.
#[verifier::external_body]
pub(crate) fn linker_instantiate(
    l: &wasmtime::Linker<()>,
    s: &mut wasmtime::Store<()>,
    m: &wasmtime::Module,
) -> (r: Result<wasmtime::Instance, wasmtime::Error>)
    requires
        linker_engine(*l) == store_engine(*old(s)),
        module_engine(*m) == store_engine(*old(s)),
    ensures
        store_mark(*final(s)) == store_mark(*old(s)),
        store_engine(*final(s)) == store_engine(*old(s)),
        r matches Ok(i) ==> instance_mark(i) == store_mark(*old(s)),
{
    l.instantiate(s, m)
}

/// Relies on `wasmtime::Instance::get_typed_func`: look up an exported
/// function taking and returning one 32-bit integer.
#[verifier::external_body]
pub(crate) fn instance_get_canon_func(
    inst: wasmtime::Instance,
    s: &mut wasmtime::Store<()>,
    name: &str,
) -> (r: Result<wasmtime::TypedFunc<i32, i32>, wasmtime::Error>)
    requires
        instance_mark(inst) == store_mark(*old(s)),
    ensures
        store_mark(*final(s)) == store_mark(*old(s)),
        store_engine(*final(s)) == store_engine(*old(s)),
        r matches Ok(f) ==> canon_func_mark(f) == store_mark(*old(s)),
{
    inst.get_typed_func::<i32, i32>(s, name)
}

/// Relies on `wasmtime::Instance::get_typed_func`: look up an exported
/// function taking no arguments and returning nothing.
#[verifier::external_body]
pub(crate) fn instance_get_frame_func(
    inst: wasmtime::Instance,
    s: &mut wasmtime::Store<()>,
    name: &str,
) -> (r: Result<wasmtime::TypedFunc<(), ()>, wasmtime::Error>)
    requires
        instance_mark(inst) == store_mark(*old(s)),
    ensures
        store_mark(*final(s)) == store_mark(*old(s)),
        store_engine(*final(s)) == store_engine(*old(s)),
        r matches Ok(f) ==> frame_func_mark(f) == store_mark(*old(s)),
{
    inst.get_typed_func::<(), ()>(s, name)
}

/// Relies on `wasmtime::Instance::exports`: every export of the instance
/// that is a function, each under its export name.
#[verifier::external_body]
pub(crate) fn instance_export_funcs(inst: wasmtime::Instance, s: &mut wasmtime::Store<()>) -> (r:
    Vec<(String, wasmtime::Func)>)
    requires
        instance_mark(inst) == store_mark(*old(s)),
    ensures
        store_mark(*final(s)) == store_mark(*old(s)),
        store_engine(*final(s)) == store_engine(*old(s)),
        forall|k: int|
            0 <= k < r@.len() ==> func_mark(r@[k].1) == store_mark(*old(s)),
{
    inst.exports(&mut *s)
        .filter_map(|e| {
            let name = e.name().to_string();
            e.into_func().map(|f| (name, f))
        })
        .collect()
}

/// Relies on `wasmtime::TypedFunc::call`: invoke the loader's transform
/// entry point with the placed image's byte length; its 32-bit result is
/// the canonical image's length, and a trap is reported as an error.
#[verifier::external_body]
pub(crate) fn call_canon_func(
    f: &wasmtime::TypedFunc<i32, i32>,
    s: &mut wasmtime::Store<()>,
    arg: i32,
) -> (r: Result<i32, wasmtime::Error>)
    requires
        canon_func_mark(*f) == store_mark(*old(s)),
    ensures
        store_mark(*final(s)) == store_mark(*old(s)),
        store_engine(*final(s)) == store_engine(*old(s)),
{
    f.call(s, arg)
}

/// Relies on `wasmtime::TypedFunc::call`: invoke a guest entry point that
/// takes no arguments and returns nothing; a trap is reported as an
/// error.
#[verifier::external_body]
pub(crate) fn call_frame_func(f: &wasmtime::TypedFunc<(), ()>, s: &mut wasmtime::Store<()>) -> (r:
    Result<(), wasmtime::Error>)
    requires
        frame_func_mark(*f) == store_mark(*old(s)),
    ensures
        store_mark(*final(s)) == store_mark(*old(s)),
        store_engine(*final(s)) == store_engine(*old(s)),
{
    f.call(s, ())
}

/// Relies on `wasmtime::Memory::data`: copy `len` bytes of the linear
/// memory starting at `offset`.
#[verifier::external_body]
pub(crate) fn mem_read(
    m: wasmtime::Memory,
    s: &wasmtime::Store<()>,
    offset: usize,
    len: usize,
) -> (r: Vec<u8>)
    requires
        memory_mark(m) == store_mark(*s),
        offset + len <= memory_capacity(m),
    ensures
        r@.len() == len,
{
    m.data(s)[offset..offset + len].to_vec()
}

/// Relies on `wasmtime::Memory::data_mut`: overwrite the linear memory
/// starting at `offset` with the given bytes.
#[verifier::external_body]
pub(crate) fn mem_write(
    m: wasmtime::Memory,
    s: &mut wasmtime::Store<()>,
    offset: usize,
    data: &[u8],
)
    requires
        memory_mark(m) == store_mark(*old(s)),
        offset + data@.len() <= memory_capacity(m),
    ensures
        store_mark(*final(s)) == store_mark(*old(s)),
        store_engine(*final(s)) == store_engine(*old(s)),
{
    m.data_mut(s)[offset..offset + data.len()].copy_from_slice(data);
}

/// Relies on the `Display` impl of `wasmtime::Error`: the engine's own
/// description of a failure, with its chain of causes.
#[verifier::external_body]
pub(crate) fn error_text(e: &wasmtime::Error) -> String {
    format!("{e:#}")
}

/// Relies on `std::time::Instant::now`: the current instant of the
/// monotonic clock.
#[verifier::external_body]
pub(crate) fn instant_now() -> std::time::Instant {
    std::time::Instant::now()
}

/// Relies on `std::time::Instant::elapsed`: the milliseconds since
/// `start`, truncated to 32 bits as ordinary wrapping; the value depends
/// on the wall clock, so nothing is promised of it.
#[verifier::external_body]
pub(crate) fn elapsed_millis(start: &std::time::Instant) -> i32 {
    start.elapsed().as_millis() as i32
}

} // verus!
