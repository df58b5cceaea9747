//! Deterministic scenario planning, fixture text generation and report
//! bookkeeping for spreadsheet-engine benchmarks.

use vstd::prelude::*;

pub mod a1;
pub mod corpus;
pub mod corpus_gen;
pub mod corpus_models;
pub mod edit_storm;
pub mod family_fixture;
pub mod family_ingest;
pub mod fp_probes;
pub mod instrumentation;
pub mod load_envelope;
pub mod native_runner;
pub mod parity;
pub mod parse;
pub mod package;
pub mod plan;
pub mod reference;
pub mod scc;
pub mod scenarios;
pub mod text;
