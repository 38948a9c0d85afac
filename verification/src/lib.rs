//! A diagnostic error-reporting sink for a layered embedded software stack.
//!
//! Modules that detect anomalies forward them to the sink, which classifies
//! each report into one of three independent categories (development errors,
//! runtime errors, transient faults), records it in the category's
//! append-only log, and answers identity and retrieval queries. The sink is
//! a passive recorder: it never validates, filters, or reacts to reported
//! content.

pub mod det;
pub mod std_types;
