# arkode

A verified core of an adaptive multirate time integrator: a slow problem is
advanced by infinitesimal step methods (MRI-GARK, MERK and MRI-SR) around a
fast integrator of the user's choice.

* `src/` is the library. Every function in it is verified with Verus.
  * `binary64`, `rounding`, `arith`, `order`, `bignum`, `decimal`, `text`:
    double precision numbers as bit patterns, with correctly rounded
    arithmetic, comparison, and reading from text.
  * `sundials_types`, `sundials_math`, `nvector`: constants, scalar helpers and
    serial vectors.
  * `env`: what the integrator calls but does not contain, as a trait. A
    `StillEnv` and a `LinearEnv` implement it.
  * `arkode_*`: memory, tolerances, checks, initial step, stop tests, attempts
    at a step, the integration loop, creation and release.
  * `inner_stepper`, `coupling`, `mristep_*`: the fast integrator's interface,
    coupling tables, and the multirate steps.
  * `laws_*`: what holds of the library as a whole.
* `tests/` runs the library on concrete values.
* `app/` is ordinary Rust around the library: doubles, transcendental functions
  and listings.

The contracts describe a routine by a function from the integrator memory and
the state of the environment to the same after the call. Each routine is proved
to compute exactly that function.
