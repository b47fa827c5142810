//! Attempts at one step: the step itself, the checks on it, and the smaller
//! step that follows a failure.
use crate::arkode_checks::{
    arkCheckConstraints, arkCheckConvergence, arkCheckTemporalError, at_hmin, check_constraints,
    check_convergence, check_temporal, is_at_hmin, set_eta, with_eta,
};
use crate::arkode_codes::{
    ARK_ERR_FAILURE, ARK_ILL_INPUT, ARK_PRESTEPFN_FAIL, ARK_RETRY_STEP, ARK_SUCCESS, FIRST_CALL,
    TRY_AGAIN,
};
use crate::arkode_impl::{ARKodeMemRec, ArkCounts, ArkFlags, ArkStep, FnId, MemView, StepFn};
use crate::arkode_mem::{put_cnt, put_flg, put_stp, put_ycur, put_yn};
use crate::arkode_step::step_call;
use crate::arkode_stop::{ark_show_yn, show_yn};
use crate::binary64::{r_mul, sunrealtype};
use crate::env::{ArkEnv, ModuleCall, UserFn};
use crate::mristep_begin::{set_tcur, with_tcur, StepOut};
use crate::mristep_gark::{mriStep_TakeStepMRIGARK, take_step_gark};
use crate::mristep_merk::{mriStep_TakeStepMERK, take_step_merk};
use crate::mristep_sr::{mriStep_TakeStepMRISR, take_step_sr};
use crate::nvector::{copy_vector, N_Vector};
use crate::outcome::{call_module_numbers, module_numbers, Run};
use crate::sundials_types::{ONE, ZERO};
use vstd::prelude::*;

verus! {

/// What the attempts at one step keep between them: error estimate, last
/// flag, flag of the solver, number of attempts, and the failures so far.
#[derive(Clone, Copy, Debug)]
pub struct Attempt {
    pub dsm: sunrealtype,
    pub kflag: i32,
    pub nflag: i32,
    pub attempts: i32,
    pub relax_fails: i32,
    pub ncf: i32,
    pub nef: i32,
    pub constrfails: i32,
}

/// What follows an attempt: another one, the end of the attempts, or the end
/// of the integration with the last flag.
#[derive(Clone, Copy, Debug, PartialEq, Eq, Structural)]
pub enum Verdict {
    Again,
    Done,
    Quit,
}

/// Outcome of an attempt.
pub struct AttemptOut<E> {
    pub m: MemView,
    pub e: E,
    pub a: Attempt,
    pub v: Verdict,
}

/// The record before the first attempt.
#[verifier::allow_in_spec]
pub fn first_attempt() -> Attempt
    returns
        (Attempt {
            dsm: ZERO(),
            kflag: ARK_SUCCESS,
            nflag: FIRST_CALL,
            attempts: 0,
            relax_fails: 0,
            ncf: 0,
            nef: 0,
            constrfails: 0,
        }),
{
    Attempt {
        dsm: ZERO(),
        kflag: ARK_SUCCESS,
        nflag: FIRST_CALL,
        attempts: 0,
        relax_fails: 0,
        ncf: 0,
        nef: 0,
        constrfails: 0,
    }
}

/// Attempts counted. An attempt that the stepper asked to repeat is not.
#[verifier::opaque]
pub open spec fn count_attempt(m: MemView, a: Attempt) -> (MemView, Attempt) {
    if a.kflag != ARK_RETRY_STEP {
        (
            put_cnt(m, ArkCounts { nst_attempts: m.cnt().nst_attempts.wrapping_add(1), ..m.cnt() }),
            Attempt { attempts: a.attempts.wrapping_add(1), ..a },
        )
    } else {
        (m, a)
    }
}

fn ark_count_attempt(ark_mem: &mut ARKodeMemRec, a: Attempt) -> (r: Attempt)
    ensures
        final(ark_mem)@ == count_attempt(old(ark_mem)@, a).0,
        r == count_attempt(old(ark_mem)@, a).1,
{
    reveal(count_attempt);
    if a.kflag != ARK_RETRY_STEP {
        let c: ArkCounts = ark_mem.get_cnt();
        ark_mem.set_cnt(ArkCounts { nst_attempts: c.nst_attempts.wrapping_add(1), ..c });
        Attempt { attempts: a.attempts.wrapping_add(1), ..a }
    } else {
        a
    }
}

/// Calls the user's function before a step on a state, which it may change.
pub fn ark_call_prestepfn<E: ArkEnv>(
    env: &mut E,
    f: FnId,
    t: sunrealtype,
    y: &mut N_Vector,
    step: i64,
    attempt: i32,
) -> (flag: i32)
    ensures
        ({
            let r = old(env).user_reply(
                step_call(UserFn::PreStep, f, t, step, attempt),
                old(y)@,
                old(y)@,
            );
            &&& *final(env) == r.env
            &&& final(y)@ == r.out
            &&& flag == r.flag
        }),
{
    let y0: N_Vector = copy_vector(y);
    env.user(step_call(UserFn::PreStep, f, t, step, attempt), &y0, y)
}

/// The user's function before the attempt, on the current solution where that
/// is kept up to date and on the last one otherwise.
#[verifier::opaque]
pub open spec fn pre_step<E: ArkEnv>(m: MemView, e: E, attempt: i32) -> Run<E> {
    match m.att().PreStepFn {
        None => Run { m, e, flag: 0 },
        Some(f) => {
            let y = if m.lim().ensure_ycur {
                m.ycur()
            } else {
                m.yn()
            };
            let r = e.user_reply(
                step_call(UserFn::PreStep, f, m.stp().tcur, m.cnt().nst, attempt),
                y,
                y,
            );
            Run {
                m: if m.lim().ensure_ycur {
                    put_ycur(m, r.out)
                } else {
                    put_yn(m, r.out)
                },
                e: r.env,
                flag: r.flag,
            }
        },
    }
}

fn ark_pre_step<E: ArkEnv>(ark_mem: &mut ARKodeMemRec, env: &mut E, attempt: i32) -> (flag: i32)
    ensures
        final(ark_mem)@ == pre_step(old(ark_mem)@, *old(env), attempt).m,
        *final(env) == pre_step(old(ark_mem)@, *old(env), attempt).e,
        flag == pre_step(old(ark_mem)@, *old(env), attempt).flag,
{
    reveal(pre_step);
    match ark_mem.get_att().PreStepFn {
        None => 0,
        Some(f) => {
            let ensure: bool = ark_mem.get_lim().ensure_ycur;
            let mut y: N_Vector = if ensure {
                ark_mem.get_ycur()
            } else {
                ark_mem.get_yn()
            };
            let t: sunrealtype = ark_mem.get_stp().tcur;
            let nst: i64 = ark_mem.get_cnt().nst;
            let flag: i32 = ark_call_prestepfn(env, f, t, &mut y, nst, attempt);
            if ensure {
                ark_mem.set_ycur(y);
            } else {
                ark_mem.set_yn(y);
            }
            flag
        },
    }
}

/// One step of the time stepper; without one the input is refused.
#[verifier::opaque]
pub open spec fn take_step<E: ArkEnv>(m: MemView, e: E, dsm: sunrealtype, nflag: i32) -> StepOut<E> {
    match m.att().step {
        None => StepOut { m, e, dsm, nflag, flag: ARK_ILL_INPUT },
        Some(StepFn::MRIGARK) => take_step_gark(m, e, dsm, nflag),
        Some(StepFn::MERK) => take_step_merk(m, e, dsm, nflag),
        Some(StepFn::MRISR) => take_step_sr(m, e, dsm, nflag),
    }
}

fn ark_take_step<E: ArkEnv>(
    ark_mem: &mut ARKodeMemRec,
    env: &mut E,
    dsm: &mut sunrealtype,
    nflag: &mut i32,
) -> (flag: i32)
    ensures
        ({
            let o = take_step(old(ark_mem)@, *old(env), *old(dsm), *old(nflag));
            &&& final(ark_mem)@ == o.m
            &&& *final(env) == o.e
            &&& *final(dsm) == o.dsm
            &&& *final(nflag) == o.nflag
            &&& flag == o.flag
        }),
{
    reveal(take_step);
    match ark_mem.get_att().step {
        None => ARK_ILL_INPUT,
        Some(StepFn::MRIGARK) => mriStep_TakeStepMRIGARK(ark_mem, env, dsm, nflag),
        Some(StepFn::MERK) => mriStep_TakeStepMERK(ark_mem, env, dsm, nflag),
        Some(StepFn::MRISR) => mriStep_TakeStepMRISR(ark_mem, env, dsm, nflag),
    }
}

/// The step attempted and its solver checked; the attempts end where either
/// fails for good.
#[verifier::opaque]
pub open spec fn try_step<E: ArkEnv>(m: MemView, e: E, a: Attempt) -> AttemptOut<E> {
    let b = count_attempt(m, a);
    let m1 = with_tcur(b.0, b.0.stp().tn);
    let p = pre_step(m1, e, b.1.attempts);
    let s = take_step(p.m, p.e, b.1.dsm, b.1.nflag);
    let a1 = Attempt { dsm: s.dsm, nflag: s.nflag, kflag: s.flag, ..b.1 };
    let c = check_convergence(s.m, s.nflag, a1.ncf);
    let a2 = Attempt { kflag: c.flag, nflag: c.nflag, ncf: c.n, ..a1 };
    if p.flag != 0 {
        AttemptOut {
            m: p.m,
            e: p.e,
            a: Attempt { kflag: ARK_PRESTEPFN_FAIL, ..b.1 },
            v: Verdict::Quit,
        }
    } else if s.flag < 0 {
        AttemptOut { m: s.m, e: s.e, a: a1, v: Verdict::Done }
    } else if c.flag < 0 {
        AttemptOut { m: c.m, e: s.e, a: a2, v: Verdict::Done }
    } else {
        AttemptOut { m: c.m, e: s.e, a: a2, v: Verdict::Again }
    }
}

fn ark_try_step<E: ArkEnv>(ark_mem: &mut ARKodeMemRec, env: &mut E, a: &mut Attempt) -> (v: Verdict)
    ensures
        ({
            let o = try_step(old(ark_mem)@, *old(env), *old(a));
            &&& final(ark_mem)@ == o.m
            &&& *final(env) == o.e
            &&& *final(a) == o.a
            &&& v == o.v
        }),
{
    reveal(try_step);
    let b: Attempt = ark_count_attempt(ark_mem, *a);
    let tn: sunrealtype = ark_mem.get_stp().tn;
    set_tcur(ark_mem, tn);
    if ark_pre_step(ark_mem, env, b.attempts) != 0 {
        *a = Attempt { kflag: ARK_PRESTEPFN_FAIL, ..b };
        return Verdict::Quit;
    }
    let mut dsm: sunrealtype = b.dsm;
    let mut nflag: i32 = b.nflag;
    let kflag: i32 = ark_take_step(ark_mem, env, &mut dsm, &mut nflag);
    let a1: Attempt = Attempt { dsm, nflag, kflag, ..b };
    if kflag < 0 {
        *a = a1;
        return Verdict::Done;
    }
    let mut ncf: i32 = a1.ncf;
    let kflag: i32 = arkCheckConvergence(ark_mem, &mut nflag, &mut ncf);
    *a = Attempt { kflag, nflag, ncf, ..a1 };
    if kflag < 0 {
        return Verdict::Done;
    }
    Verdict::Again
}

/// Relaxation, where it is wanted and the step has passed so far.
#[verifier::opaque]
pub open spec fn try_relax<E: ArkEnv>(m: MemView, e: E, a: Attempt) -> AttemptOut<E> {
    if m.att().relax_enabled && a.kflag == ARK_SUCCESS {
        let r = module_numbers(m, e, ModuleCall::Relax, a.dsm, a.relax_fails);
        AttemptOut {
            m: r.m,
            e: r.e,
            a: Attempt { dsm: r.x, relax_fails: r.n, kflag: r.flag, ..a },
            v: if r.flag < 0 {
                Verdict::Done
            } else {
                Verdict::Again
            },
        }
    } else {
        AttemptOut { m, e, a, v: Verdict::Again }
    }
}

fn ark_try_relax<E: ArkEnv>(ark_mem: &mut ARKodeMemRec, env: &mut E, a: &mut Attempt) -> (v: Verdict)
    ensures
        ({
            let o = try_relax(old(ark_mem)@, *old(env), *old(a));
            &&& final(ark_mem)@ == o.m
            &&& *final(env) == o.e
            &&& *final(a) == o.a
            &&& v == o.v
        }),
{
    reveal(try_relax);
    if ark_mem.get_att().relax_enabled && a.kflag == ARK_SUCCESS {
        let a0: Attempt = *a;
        let mut dsm: sunrealtype = a0.dsm;
        let mut relax_fails: i32 = a0.relax_fails;
        let kflag: i32 = call_module_numbers(
            ark_mem,
            env,
            ModuleCall::Relax,
            &mut dsm,
            &mut relax_fails,
        );
        *a = Attempt { dsm, relax_fails, kflag, ..a0 };
        if kflag < 0 {
            return Verdict::Done;
        }
    }
    Verdict::Again
}

/// Inequality constraints, where there are any and the step has passed so
/// far.
#[verifier::opaque]
pub open spec fn try_constraints(m: MemView, a: Attempt) -> (MemView, Attempt, Verdict) {
    if m.constraints().live && a.kflag == ARK_SUCCESS {
        let c = check_constraints(m, a.constrfails, a.nflag);
        (
            c.m,
            Attempt { constrfails: c.n, nflag: c.nflag, kflag: c.flag, ..a },
            if c.flag < 0 {
                Verdict::Done
            } else {
                Verdict::Again
            },
        )
    } else {
        (m, a, Verdict::Again)
    }
}

fn ark_try_constraints(ark_mem: &mut ARKodeMemRec, a: &mut Attempt) -> (v: Verdict)
    ensures
        ({
            let o = try_constraints(old(ark_mem)@, *old(a));
            &&& final(ark_mem)@ == o.0
            &&& *final(a) == o.1
            &&& v == o.2
        }),
{
    reveal(try_constraints);
    if ark_mem.get_constraints().live && a.kflag == ARK_SUCCESS {
        let a0: Attempt = *a;
        let mut constrfails: i32 = a0.constrfails;
        let mut nflag: i32 = a0.nflag;
        let kflag: i32 = arkCheckConstraints(ark_mem, &mut constrfails, &mut nflag);
        *a = Attempt { constrfails, nflag, kflag, ..a0 };
        if kflag < 0 {
            return Verdict::Done;
        }
    }
    Verdict::Again
}

/// The flag of a local error test that took the number of failures from
/// `before` to `after`. A failure that is final for the smallest step size alone
/// is left open: the step can still be forced to pass.
pub open spec fn open_failure(flag: i32, before: i32, after: i32, maxnef: i32) -> i32 {
    if flag == ARK_ERR_FAILURE && after != before && after != maxnef {
        TRY_AGAIN
    } else {
        flag
    }
}

/// The local error test. A fixed step ends the attempts before it; a step
/// that is forced to pass, or passes, ends them after it.
#[verifier::opaque]
pub open spec fn try_error<E: ArkEnv>(m: MemView, e: E, a: Attempt) -> AttemptOut<E> {
    if m.lim().fixedstep {
        AttemptOut { m: with_eta(m, ONE()), e, a, v: Verdict::Done }
    } else {
        let t = check_temporal(m, e, a.nflag, a.nef, a.dsm);
        let flag = open_failure(t.flag, a.nef, t.n, t.m.lim().maxnef);
        let b = if a.kflag == ARK_SUCCESS {
            AttemptOut {
                m: t.m,
                e: t.e,
                a: Attempt { nflag: t.nflag, nef: t.n, kflag: flag, ..a },
                v: Verdict::Again,
            }
        } else {
            AttemptOut { m, e, a, v: Verdict::Again }
        };
        if a.kflag == ARK_SUCCESS && flag < 0 {
            AttemptOut { v: Verdict::Done, ..b }
        } else if b.m.lim().force_pass {
            AttemptOut {
                m: put_flg(b.m, ArkFlags { last_kflag: b.a.kflag, ..b.m.flg() }),
                e: b.e,
                a: Attempt { kflag: ARK_SUCCESS, ..b.a },
                v: Verdict::Done,
            }
        } else if b.a.kflag == ARK_SUCCESS {
            AttemptOut { v: Verdict::Done, ..b }
        } else {
            b
        }
    }
}

fn ark_try_error<E: ArkEnv>(ark_mem: &mut ARKodeMemRec, env: &mut E, a: &mut Attempt) -> (v: Verdict)
    ensures
        ({
            let o = try_error(old(ark_mem)@, *old(env), *old(a));
            &&& final(ark_mem)@ == o.m
            &&& *final(env) == o.e
            &&& *final(a) == o.a
            &&& v == o.v
        }),
{
    reveal(try_error);
    if ark_mem.get_lim().fixedstep {
        set_eta(ark_mem, ONE());
        return Verdict::Done;
    }
    if a.kflag == ARK_SUCCESS {
        let a0: Attempt = *a;
        let mut nflag: i32 = a0.nflag;
        let mut nef: i32 = a0.nef;
        let tested: i32 = arkCheckTemporalError(ark_mem, env, &mut nflag, &mut nef, a0.dsm);
        let last: bool = nef == ark_mem.get_lim().maxnef;
        let kflag: i32 = if tested == ARK_ERR_FAILURE && nef != a0.nef && !last {
            TRY_AGAIN
        } else {
            tested
        };
        *a = Attempt { nflag, nef, kflag, ..a0 };
        if kflag < 0 {
            return Verdict::Done;
        }
    }
    if ark_mem.get_lim().force_pass {
        let g: ArkFlags = ark_mem.get_flg();
        let a1: Attempt = *a;
        ark_mem.set_flg(ArkFlags { last_kflag: a1.kflag, ..g });
        *a = Attempt { kflag: ARK_SUCCESS, ..a1 };
        return Verdict::Done;
    }
    if a.kflag == ARK_SUCCESS {
        return Verdict::Done;
    }
    Verdict::Again
}

/// The smaller step after a failure, from the last solution again.
#[verifier::opaque]
pub open spec fn shrink_step(m: MemView) -> MemView {
    let s = m.stp();
    let h = r_mul(s.h, s.eta);
    let m1 = put_stp(m, ArkStep { h, hprime: h, next_h: h, tcur: s.tn, ..s });
    if m1.lim().ensure_ycur {
        show_yn(m1)
    } else {
        m1
    }
}

fn ark_shrink_step(ark_mem: &mut ARKodeMemRec)
    ensures
        final(ark_mem)@ == shrink_step(old(ark_mem)@),
{
    reveal(shrink_step);
    let s: ArkStep = ark_mem.get_stp();
    let h: sunrealtype = s.h * s.eta;
    ark_mem.set_stp(ArkStep { h, hprime: h, next_h: h, tcur: s.tn, ..s });
    if ark_mem.get_lim().ensure_ycur {
        ark_show_yn(ark_mem);
    }
}

/// The checks on an attempted step, in order.
#[verifier::opaque]
pub open spec fn try_checks<E: ArkEnv>(m: MemView, e: E, a: Attempt) -> AttemptOut<E> {
    let r = try_relax(m, e, a);
    let c = try_constraints(r.m, r.a);
    if r.v != Verdict::Again {
        r
    } else if c.2 != Verdict::Again {
        AttemptOut { m: c.0, e: r.e, a: c.1, v: c.2 }
    } else {
        try_error(c.0, r.e, c.1)
    }
}

fn ark_try_checks<E: ArkEnv>(ark_mem: &mut ARKodeMemRec, env: &mut E, a: &mut Attempt) -> (v:
    Verdict)
    ensures
        ({
            let o = try_checks(old(ark_mem)@, *old(env), *old(a));
            &&& final(ark_mem)@ == o.m
            &&& *final(env) == o.e
            &&& *final(a) == o.a
            &&& v == o.v
        }),
{
    reveal(try_checks);
    let v: Verdict = ark_try_relax(ark_mem, env, a);
    if v != Verdict::Again {
        return v;
    }
    let v: Verdict = ark_try_constraints(ark_mem, a);
    if v != Verdict::Again {
        return v;
    }
    ark_try_error(ark_mem, env, a)
}

/// One attempt. After a failure that leaves room for a smaller step, that step
/// is prepared; at the smallest step the integration ends.
#[verifier::opaque]
pub open spec fn attempt<E: ArkEnv>(m: MemView, e: E, a: Attempt) -> AttemptOut<E> {
    let s = try_step(m, e, a);
    let c = try_checks(s.m, s.e, s.a);
    if s.v != Verdict::Again {
        s
    } else if c.v != Verdict::Again {
        c
    } else if at_hmin(c.m) {
        AttemptOut { a: Attempt { kflag: ARK_ERR_FAILURE, ..c.a }, v: Verdict::Quit, ..c }
    } else {
        AttemptOut { m: shrink_step(c.m), ..c }
    }
}

fn ark_attempt<E: ArkEnv>(ark_mem: &mut ARKodeMemRec, env: &mut E, a: &mut Attempt) -> (v: Verdict)
    ensures
        ({
            let o = attempt(old(ark_mem)@, *old(env), *old(a));
            &&& final(ark_mem)@ == o.m
            &&& *final(env) == o.e
            &&& *final(a) == o.a
            &&& v == o.v
        }),
{
    reveal(attempt);
    let v: Verdict = ark_try_step(ark_mem, env, a);
    if v != Verdict::Again {
        return v;
    }
    let v: Verdict = ark_try_checks(ark_mem, env, a);
    if v != Verdict::Again {
        return v;
    }
    if is_at_hmin(ark_mem) {
        let a0: Attempt = *a;
        *a = Attempt { kflag: ARK_ERR_FAILURE, ..a0 };
        return Verdict::Quit;
    }
    ark_shrink_step(ark_mem);
    v
}

/// Attempts until one ends them. `left` is how many more a 64-bit counter can
/// count; when it runs out the step has failed its error test too often.
pub open spec fn attempts_from<E: ArkEnv>(m: MemView, e: E, a: Attempt, left: nat) -> AttemptOut<E>
    decreases left,
{
    let o = attempt(m, e, a);
    if o.v != Verdict::Again {
        o
    } else if left == 0 {
        AttemptOut { a: Attempt { kflag: ARK_ERR_FAILURE, ..o.a }, v: Verdict::Done, ..o }
    } else {
        attempts_from(o.m, o.e, o.a, (left - 1) as nat)
    }
}

/// All attempts at one step.
#[verifier::opaque]
pub open spec fn attempt_all<E: ArkEnv>(m: MemView, e: E) -> AttemptOut<E> {
    attempts_from(
        put_flg(m, ArkFlags { last_kflag: 0, ..m.flg() }),
        e,
        first_attempt(),
        u64::MAX as nat,
    )
}

/// Attempts a step until it passes or fails for good.
pub fn ark_attempt_all<E: ArkEnv>(ark_mem: &mut ARKodeMemRec, env: &mut E, a: &mut Attempt) -> (v:
    Verdict)
    ensures
        ({
            let o = attempt_all(old(ark_mem)@, *old(env));
            &&& final(ark_mem)@ == o.m
            &&& *final(env) == o.e
            &&& *final(a) == o.a
            &&& v == o.v
        }),
{
    reveal(attempt_all);
    let g: ArkFlags = ark_mem.get_flg();
    ark_mem.set_flg(ArkFlags { last_kflag: 0, ..g });
    *a = first_attempt();
    let mut left: u64 = u64::MAX;
    loop
        invariant
            attempts_from(ark_mem@, *env, *a, left as nat) == attempt_all(old(ark_mem)@, *old(env)),
        decreases left,
    {
        let v: Verdict = ark_attempt(ark_mem, env, a);
        if v != Verdict::Again {
            return v;
        }
        if left == 0 {
            let a0: Attempt = *a;
            *a = Attempt { kflag: ARK_ERR_FAILURE, ..a0 };
            return Verdict::Done;
        }
        left = left - 1;
    }
}

} // verus!
