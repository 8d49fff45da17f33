//! A small invoicing library: party records, line items, invoices with dates,
//! and the assembly of an invoice into a PDF document layout.

pub mod date;
pub mod model;
pub mod render;
