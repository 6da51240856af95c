//! One executable for many CPUs: a program is built once for each of several target CPUs,
//! and a loader that carries all builds runs the one that suits the host best.
//!
//! - CPU features and hosts: [`feature_mask`], [`arch_x86_64`], [`arch_aarch64`], [`identity`].
//! - Choosing among variants: [`select`], [`classify`], [`report`], [`probe`].
//! - What rustc and Cargo are asked, and what they answer: [`rustc_args`], [`rustc_output`],
//!   [`cargo_args`], [`rustflags`], [`runtime_features`], [`target_cpus`], [`metadata`],
//!   [`output`].
//! - Builds: [`plan`], [`build_plan`], [`paths`], [`payload_names`], [`audit`],
//!   [`audit_section`], [`error`]; those that a manifest configures: [`configured_build`],
//!   [`configured_loader`].
//! - The loader: [`manifest`], [`loader_stack`], [`loader_source`], [`loader_modules`],
//!   [`loader_tests`], [`loader_crate`].
//! - The system tests: [`qemu`], [`qemu_steps`].
//! - Text and sorted lists: [`text`], [`text_laws`], [`sorted`].
pub mod arch_aarch64;
pub mod arch_x86_64;
pub mod audit;
pub mod audit_section;
pub mod build_plan;
pub mod cargo_args;
pub mod classify;
pub mod configured_build;
pub mod configured_loader;
pub mod error;
pub mod feature_mask;
pub mod identity;
pub mod loader_crate;
pub mod loader_modules;
pub mod loader_source;
pub mod loader_stack;
pub mod loader_tests;
pub mod manifest;
pub mod metadata;
pub mod output;
pub mod paths;
pub mod payload_names;
pub mod plan;
pub mod probe;
pub mod qemu;
pub mod qemu_steps;
pub mod report;
pub mod runtime_features;
pub mod rustc_args;
pub mod rustc_output;
pub mod rustflags;
pub mod select;
pub mod sorted;
pub mod target_cpus;
pub mod text;
pub mod text_laws;
