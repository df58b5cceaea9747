//! Benchmark scenarios: workbook shapes with deterministic edit cycles and
//! the cell values each phase must show.

pub mod common;
pub mod fixtures;
pub mod s_bulk;
pub mod s_simple;
pub mod s_structural;
pub mod s_tables;
pub mod s_calc;
pub mod s_data;
pub mod s_finance;
pub mod s_lookup;
