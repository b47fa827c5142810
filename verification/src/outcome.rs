//! Outcomes of the integrator's routines: memory, environment, vectors, flag.
use crate::arkode_impl::{ARKodeMemRec, MemView};
use crate::binary64::sunrealtype;
use crate::env::{sees_no_memory, ArkEnv, ModuleCall};
use crate::nvector::{null_vector, v_null, NVec, N_Vector};
use crate::sundials_types::ZERO;
use vstd::prelude::*;

verus! {

/// Memory, environment and flag.
pub struct Run<E> {
    pub m: MemView,
    pub e: E,
    pub flag: i32,
}

/// Memory, environment, one vector and flag.
pub struct RunV<E> {
    pub m: MemView,
    pub e: E,
    pub v: NVec,
    pub flag: i32,
}

/// Memory, environment, state vector, result vector and flag.
pub struct RunYF<E> {
    pub m: MemView,
    pub e: E,
    pub y: NVec,
    pub f: NVec,
    pub flag: i32,
}

/// A companion module called on the memory alone.
#[verifier::opaque]
pub open spec fn module_run<E: ArkEnv>(m: MemView, e: E, c: ModuleCall) -> Run<E> {
    let r = e.module_reply(c, m, v_null(), ZERO(), 0);
    Run { m: r.mem, e: r.env, flag: r.flag }
}

/// Calls a companion module on the memory alone.
pub fn call_module<E: ArkEnv>(ark_mem: &mut ARKodeMemRec, env: &mut E, c: ModuleCall) -> (flag: i32)
    ensures
        final(ark_mem)@ == module_run(old(ark_mem)@, *old(env), c).m,
        *final(env) == module_run(old(ark_mem)@, *old(env), c).e,
        flag == module_run(old(ark_mem)@, *old(env), c).flag,
{
    reveal(module_run);
    let mut out: N_Vector = null_vector();
    let mut x: sunrealtype = ZERO();
    let mut n: i32 = 0;
    env.module(c, ark_mem, &mut out, &mut x, &mut n)
}

/// Whether a call of a companion module never touches the memory.
pub open spec fn leaves_memory<E: ArkEnv>(c: ModuleCall) -> bool {
    forall|m: MemView, e: E| (#[trigger] module_run(m, e, c)).m == m
}

/// A call that hands along no memory never touches it.
pub proof fn lemma_unseen_memory<E: ArkEnv>(c: ModuleCall)
    requires
        sees_no_memory(c),
    ensures
        leaves_memory::<E>(c),
{
    assert forall|m: MemView, e: E| (#[trigger] module_run(m, e, c)).m == m by {
        reveal(module_run);
        e.module_frame(c, m, v_null(), ZERO(), 0);
    }
}

/// A call with a vector that hands along no memory leaves it alone.
pub proof fn lemma_unseen_memory_vec<E: ArkEnv>(m: MemView, e: E, c: ModuleCall, v: NVec)
    requires
        sees_no_memory(c),
    ensures
        module_vec(m, e, c, v).m == m,
{
    reveal(module_vec);
    e.module_frame(c, m, v, ZERO(), 0);
}

/// A companion module called with a vector that it may write.
#[verifier::opaque]
pub open spec fn module_vec<E: ArkEnv>(m: MemView, e: E, c: ModuleCall, v: NVec) -> RunV<E> {
    let r = e.module_reply(c, m, v, ZERO(), 0);
    RunV { m: r.mem, e: r.env, v: r.out, flag: r.flag }
}

/// Calls a companion module with a vector that it may write.
pub fn call_module_vec<E: ArkEnv>(
    ark_mem: &mut ARKodeMemRec,
    env: &mut E,
    c: ModuleCall,
    v: &mut N_Vector,
) -> (flag: i32)
    ensures
        final(ark_mem)@ == module_vec(old(ark_mem)@, *old(env), c, old(v)@).m,
        *final(env) == module_vec(old(ark_mem)@, *old(env), c, old(v)@).e,
        final(v)@ == module_vec(old(ark_mem)@, *old(env), c, old(v)@).v,
        flag == module_vec(old(ark_mem)@, *old(env), c, old(v)@).flag,
{
    reveal(module_vec);
    let mut x: sunrealtype = ZERO();
    let mut n: i32 = 0;
    env.module(c, ark_mem, v, &mut x, &mut n)
}

/// Memory, environment, a count and flag.
pub struct RunN<E> {
    pub m: MemView,
    pub e: E,
    pub n: i32,
    pub flag: i32,
}

/// A companion module asked for a count.
#[verifier::opaque]
pub open spec fn module_count<E: ArkEnv>(m: MemView, e: E, c: ModuleCall) -> RunN<E> {
    let r = e.module_reply(c, m, v_null(), ZERO(), 0);
    RunN { m: r.mem, e: r.env, n: r.n, flag: r.flag }
}

/// Asks a companion module for a count.
pub fn call_module_count<E: ArkEnv>(
    ark_mem: &mut ARKodeMemRec,
    env: &mut E,
    c: ModuleCall,
    n: &mut i32,
) -> (flag: i32)
    ensures
        ({
            let o = module_count(old(ark_mem)@, *old(env), c);
            &&& final(ark_mem)@ == o.m
            &&& *final(env) == o.e
            &&& *final(n) == o.n
            &&& flag == o.flag
        }),
{
    reveal(module_count);
    let mut out: N_Vector = null_vector();
    let mut x: sunrealtype = ZERO();
    *n = 0;
    env.module(c, ark_mem, &mut out, &mut x, n)
}

/// Memory, environment, two numbers and flag.
pub struct RunX<E> {
    pub m: MemView,
    pub e: E,
    pub x: sunrealtype,
    pub n: i32,
    pub flag: i32,
}

/// A companion module called with two numbers that it may change.
#[verifier::opaque]
pub open spec fn module_numbers<E: ArkEnv>(
    m: MemView,
    e: E,
    c: ModuleCall,
    x: sunrealtype,
    n: i32,
) -> RunX<E> {
    let r = e.module_reply(c, m, v_null(), x, n);
    RunX { m: r.mem, e: r.env, x: r.x, n: r.n, flag: r.flag }
}

/// Calls a companion module with two numbers that it may change.
pub fn call_module_numbers<E: ArkEnv>(
    ark_mem: &mut ARKodeMemRec,
    env: &mut E,
    c: ModuleCall,
    x: &mut sunrealtype,
    n: &mut i32,
) -> (flag: i32)
    ensures
        ({
            let o = module_numbers(old(ark_mem)@, *old(env), c, *old(x), *old(n));
            &&& final(ark_mem)@ == o.m
            &&& *final(env) == o.e
            &&& *final(x) == o.x
            &&& *final(n) == o.n
            &&& flag == o.flag
        }),
{
    reveal(module_numbers);
    let mut out: N_Vector = null_vector();
    env.module(c, ark_mem, &mut out, x, n)
}

} // verus!
