//! Verified core of an adaptive multirate time integrator.
#![allow(non_camel_case_types, non_snake_case, non_upper_case_globals)]

pub mod arith;
pub mod arkode_attempt;
pub mod arkode_checks;
pub mod arkode_codes;
pub mod arkode_core;
pub mod arkode_evolve;
pub mod arkode_hin;
pub mod arkode_impl;
pub mod arkode_inner;
pub mod arkode_mem;
pub mod arkode_predict;
pub mod arkode_setup;
pub mod arkode_step;
pub mod arkode_stop;
pub mod arkode_tol;
pub mod arkode_vectors;
pub mod bignum;
pub mod binary64;
pub mod coupling;
pub mod decimal;
pub mod env;
pub mod inner_stepper;
pub mod laws_ark;
pub mod laws_constants;
pub mod laws_core;
pub mod laws_evolve;
pub mod laws_forcing;
pub mod laws_free;
pub mod laws_gark;
pub mod laws_groups;
pub mod laws_loop;
pub mod laws_mri;
pub mod laws_numbers;
pub mod laws_pace;
pub mod laws_parts;
pub mod laws_predict;
pub mod laws_resize;
pub mod laws_restart;
pub mod laws_return;
pub mod laws_rhs;
pub mod laws_room;
pub mod laws_rounding;
pub mod laws_setup;
pub mod laws_stage;
pub mod laws_start;
pub mod laws_steps;
pub mod laws_stop;
pub mod laws_storage;
pub mod laws_sums;
pub mod laws_table;
pub mod laws_text;
pub mod laws_weights;
pub mod laws_whole;
pub mod linear_env;
pub mod mristep_begin;
pub mod mristep_coeffs;
pub mod mristep_create;
pub mod mristep_fast;
pub mod mristep_gark;
pub mod mristep_init;
pub mod mristep_merk;
pub mod mristep_ops;
pub mod mristep_rhs;
pub mod mristep_sr;
pub mod mristep_stage;
pub mod mristep_storage;
pub mod mristep_table;
pub mod nvector;
pub mod order;
pub mod outcome;
mod rounding;
pub mod sundials_math;
pub mod sundials_types;
pub mod text;
