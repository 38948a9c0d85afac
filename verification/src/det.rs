//! The error-reporting sink: accepts classified error reports from any
//! calling module, retains them in three independent append-only logs
//! (development errors, runtime errors, transient faults), and answers
//! identity queries.

use vstd::prelude::*;

use crate::std_types::{StdReturnType, StdVersionInfoType};

verus! {

/// An immutable record of a reported failure: which module, which instance
/// of it, in which API, and which failure condition. Classification is
/// solely by which log the record was appended to; a record carries no
/// timestamp, severity, or message.
#[derive(Debug, Clone, Copy, PartialEq, Eq, Structural)]
pub struct DetError {
    pub module_id: u16,
    pub instance_id: u8,
    pub api_id: u8,
    pub error_id: u8,
}

/// Opaque configuration value handed to `init`. Its semantics belong to the
/// bootstrapping collaborator, not to the sink; the sink performs no
/// validation on it.
#[derive(Debug)]
pub struct DetConfigType {}

/// The reporting sink. Owns three independent append-only logs, one per
/// category; each log preserves insertion order, never reorders,
/// deduplicates, or evicts.
pub struct Det {
    errors: Vec<DetError>,
    runtime_errors: Vec<DetError>,
    transient_faults: Vec<DetError>,
}

/// The record that a report call with these four identifiers appends.
pub open spec fn record(module_id: u16, instance_id: u8, api_id: u8, error_id: u8) -> DetError {
    DetError { module_id, instance_id, api_id, error_id }
}

impl Det {
    /// The development-error log, in insertion order.
    pub closed spec fn dev_log(self) -> Seq<DetError> {
        self.errors@
    }

    /// The runtime-error log, in insertion order.
    pub closed spec fn runtime_log(self) -> Seq<DetError> {
        self.runtime_errors@
    }

    /// The transient-fault log, in insertion order.
    pub closed spec fn transient_log(self) -> Seq<DetError> {
        self.transient_faults@
    }

    /// Create a new sink with all three logs empty.
    pub fn new() -> (det: Self)
        ensures
            det.dev_log() == Seq::<DetError>::empty(),
            det.runtime_log() == Seq::<DetError>::empty(),
            det.transient_log() == Seq::<DetError>::empty(),
    {
        Det { errors: Vec::new(), runtime_errors: Vec::new(), transient_faults: Vec::new() }
    }

    /// Accept an opaque configuration value and mark the sink ready.
    /// Performs no validation and always succeeds; any diagnostic trace of
    /// the configuration belongs to the logging collaborator, not to the
    /// sink's data contract.
    pub fn init(config_ptr: &DetConfigType) {
    }

    /// Mark the sink operational. No precondition, no failure mode,
    /// idempotent; no operation of the sink is gated on it.
    pub fn start() {
    }

    /// Report a development error: append the record built from the four
    /// identifiers to the development-error log. Never validates the
    /// identifiers, never drops a record, never touches another category,
    /// and always accepts.
    pub fn report_error(&mut self, module_id: u16, instance_id: u8, api_id: u8, error_id: u8) -> (ret: StdReturnType)
        ensures
            final(self).dev_log() == old(self).dev_log().push(record(module_id, instance_id, api_id, error_id)),
            final(self).runtime_log() == old(self).runtime_log(),
            final(self).transient_log() == old(self).transient_log(),
            ret == StdReturnType::EOk,
    {
        let ret: StdReturnType = StdReturnType::EOk;
        let error = DetError { module_id, instance_id, api_id, error_id };
        self.errors.push(error);
        ret
    }

    /// Report a runtime error: append the record built from the four
    /// identifiers to the runtime-error log. Same contract as
    /// `report_error`, on the runtime-error category.
    pub fn report_runtime_error(&mut self, module_id: u16, instance_id: u8, api_id: u8, error_id: u8) -> (ret: StdReturnType)
        ensures
            final(self).runtime_log() == old(self).runtime_log().push(record(module_id, instance_id, api_id, error_id)),
            final(self).dev_log() == old(self).dev_log(),
            final(self).transient_log() == old(self).transient_log(),
            ret == StdReturnType::EOk,
    {
        let ret: StdReturnType = StdReturnType::EOk;
        let runtime_error = DetError { module_id, instance_id, api_id, error_id };
        self.runtime_errors.push(runtime_error);
        ret
    }

    /// Report a transient fault: append the record built from the four
    /// identifiers to the transient-fault log. Same contract as
    /// `report_error`, on the transient-fault category.
    pub fn report_transient_fault(&mut self, module_id: u16, instance_id: u8, api_id: u8, error_id: u8) -> (ret: StdReturnType)
        ensures
            final(self).transient_log() == old(self).transient_log().push(record(module_id, instance_id, api_id, error_id)),
            final(self).dev_log() == old(self).dev_log(),
            final(self).runtime_log() == old(self).runtime_log(),
            ret == StdReturnType::EOk,
    {
        let ret: StdReturnType = StdReturnType::EOk;
        let transient_fault = DetError { module_id, instance_id, api_id, error_id };
        self.transient_faults.push(transient_fault);
        ret
    }

    /// The sink's static identity: a pure function of build identity,
    /// callable without an instance and stable across calls.
    pub fn get_version_info() -> (version: StdVersionInfoType)
        ensures
            version == det_version(),
    {
        StdVersionInfoType {
            vendor_id: 0x0001,
            sw_major_version: 0x01,
            sw_minor_version: 0x00,
            sw_patch_version: 0x00,
        }
    }

    /// Retrieve all recorded development errors, in insertion order: every
    /// prior successful `report_error` and nothing from another category.
    pub fn get_errors(&self) -> (errors: &Vec<DetError>)
        ensures
            errors@ == self.dev_log(),
    {
        &self.errors
    }

    /// Empty the development-error log only; the runtime-error and
    /// transient-fault logs are untouched. Safe on an already-empty log.
    pub fn clear_errors(&mut self)
        ensures
            final(self).dev_log() == Seq::<DetError>::empty(),
            final(self).runtime_log() == old(self).runtime_log(),
            final(self).transient_log() == old(self).transient_log(),
    {
        self.errors.clear();
    }
}

/// The sink's fixed version identity.
pub open spec fn det_version() -> StdVersionInfoType {
    StdVersionInfoType { vendor_id: 0x0001, sw_major_version: 0x01, sw_minor_version: 0x00, sw_patch_version: 0x00 }
}

/// A report appends exactly one record: for any four identifiers, the log
/// after the report is one element longer than before, and its last element
/// equals the record built from those identifiers.
pub proof fn lemma_report_appends_one(log: Seq<DetError>, module_id: u16, instance_id: u8, api_id: u8, error_id: u8)
    ensures
        log.push(record(module_id, instance_id, api_id, error_id)).len() == log.len() + 1,
        log.push(record(module_id, instance_id, api_id, error_id)).last() == record(module_id, instance_id, api_id, error_id),
{
}

/// Categories are independent: along any chain of sink states in which each
/// step leaves the development-error log unchanged — as every
/// `report_runtime_error` and `report_transient_fault` does, however many
/// times and in whatever order they are called — the final state's
/// development-error log equals the initial one's, in length and content.
pub proof fn lemma_categories_independent(states: Seq<Det>)
    requires
        states.len() > 0,
        forall|i: int| 0 <= i < states.len() - 1 ==> #[trigger] states[i].dev_log() == states[i + 1].dev_log(),
    ensures
        states.first().dev_log() == states.last().dev_log(),
    decreases states.len(),
{
    if states.len() > 1 {
        let front = states.drop_last();
        assert(forall|i: int| 0 <= i < front.len() - 1 ==> #[trigger] front[i].dev_log() == front[i + 1].dev_log());
        lemma_categories_independent(front);
        assert(states[states.len() - 2].dev_log() == states[states.len() - 1].dev_log());
    }
}

/// `clear_errors` is idempotent: any state reached by a clear and any state
/// reached by a further clear have the same development-error log, empty
/// both times; and since a clear asks nothing of the prior state, it never
/// fails on an already-empty log.
pub proof fn lemma_clear_idempotent(once: Det, twice: Det)
    requires
        once.dev_log() == Seq::<DetError>::empty(),
        twice.dev_log() == Seq::<DetError>::empty(),
    ensures
        once.dev_log() == twice.dev_log(),
        once.dev_log().len() == 0,
{
}

/// Insertion order is preserved: appending records a, b and c to an empty
/// log, in that order, yields exactly the sequence [a, b, c].
pub proof fn lemma_insertion_order(a: DetError, b: DetError, c: DetError)
    ensures
        Seq::<DetError>::empty().push(a).push(b).push(c) =~= seq![a, b, c],
{
}

} // verus!
