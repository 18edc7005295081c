use vstd::prelude::*;
use crate::address_space::{NodeId, Variant};
use crate::mirror::MirrorUpdate;
use crate::store::{Row, TankStore};

verus! {

/// The per-call status a remote client sees: success, a caller-correctable
/// argument fault, a quantity with no recorded history, or an internal store
/// failure.
#[derive(Clone, Copy, PartialEq, Eq, Structural, Debug)]
pub enum StatusCode {
    Good,
    BadInvalidArgument,
    BadOutOfRange,
    BadInternalError,
}

/// What a handler hands back to the runtime on success: a status, an echo of
/// the per-argument validation, and the declared output arguments.
pub struct CallMethodResult {
    pub status_code: StatusCode,
    pub input_argument_results: Option<Vec<StatusCode>>,
    pub output_arguments: Option<Vec<Variant>>,
}

/// A `setThreshold` argument list is valid iff it carries exactly one value
/// and that value is a signed 32-bit integer.
pub open spec fn spec_valid_set_threshold_args(args: Option<Vec<Variant>>) -> bool {
    match args {
        Some(v) => v@.len() == 1 && (v@[0] is Int32),
        None => false,
    }
}

/// The integer a valid `setThreshold` argument list carries.
pub open spec fn spec_threshold_arg(args: Option<Vec<Variant>>) -> i32 {
    match args {
        Some(v) => match v@[0] {
            Variant::Int32(x) => x,
            _ => 0,
        },
        None => 0,
    }
}

/// Rejects any call whose argument list is not exactly one 32-bit integer,
/// before the store is touched.
pub fn validate_set_threshold_args(args: &Option<Vec<Variant>>) -> (r: Result<i32, StatusCode>)
    ensures
        spec_valid_set_threshold_args(*args) <==> r is Ok,
        r is Ok ==> r == Ok::<i32, StatusCode>(spec_threshold_arg(*args)),
        r is Err ==> r == Err::<i32, StatusCode>(StatusCode::BadInvalidArgument),
{
    match args {
        Some(v) => {
            if v.len() == 1 {
                match &v[0] {
                    Variant::Int32(x) => Ok(*x),
                    _ => Err(StatusCode::BadInvalidArgument),
                }
            } else {
                Err(StatusCode::BadInvalidArgument)
            }
        }
        None => Err(StatusCode::BadInvalidArgument),
    }
}

/// The three output arguments of a successful `getTankSystemParams` call, in
/// declaration order.
pub open spec fn spec_params_output(fill_bits: u64, valve: bool, threshold: i32) -> Seq<Variant> {
    seq![Variant::Double(fill_bits), Variant::Boolean(valve), Variant::Int32(threshold)]
}

/// The handler for `getTankSystemParams`: it holds the identifiers of the
/// three Variable nodes it keeps mirrored.
#[derive(Clone, Copy, PartialEq, Eq, Structural, Debug)]
pub struct GetTankSystemParamsMethod {
    pub fill_pct_node: NodeId,
    pub valve_pos_node: NodeId,
    pub threshold_node: NodeId,
}

/// The mirror updates a successful `getTankSystemParams` call schedules: one
/// per Variable node, all carrying the shared current timestamp.
pub open spec fn spec_params_updates(
    m: GetTankSystemParamsMethod,
    fill_bits: u64,
    valve: bool,
    threshold: i32,
    now: u64,
) -> Seq<MirrorUpdate> {
    seq![
        MirrorUpdate {
            node: m.fill_pct_node,
            value: Variant::Double(fill_bits),
            source_timestamp: now,
            server_timestamp: now,
        },
        MirrorUpdate {
            node: m.valve_pos_node,
            value: Variant::Boolean(valve),
            source_timestamp: now,
            server_timestamp: now,
        },
        MirrorUpdate {
            node: m.threshold_node,
            value: Variant::Int32(threshold),
            source_timestamp: now,
            server_timestamp: now,
        },
    ]
}

impl GetTankSystemParamsMethod {
    /// Packs three freshly read values into the call result and the deferred
    /// mirror updates: the mirror receives exactly the values the caller is
    /// given.
    pub fn params_result(&self, fill_bits: u64, valve: bool, threshold: i32, now: u64) -> (r: (
        CallMethodResult,
        Vec<MirrorUpdate>,
    ))
        ensures
            r.0.status_code == StatusCode::Good,
            r.0.input_argument_results is None,
            r.0.output_arguments is Some,
            r.0.output_arguments.unwrap()@ =~= spec_params_output(fill_bits, valve, threshold),
            r.1@ =~= spec_params_updates(*self, fill_bits, valve, threshold, now),
    {
        let mut output_arguments: Vec<Variant> = Vec::new();
        output_arguments.push(Variant::Double(fill_bits));
        output_arguments.push(Variant::Boolean(valve));
        output_arguments.push(Variant::Int32(threshold));
        let mut updates: Vec<MirrorUpdate> = Vec::new();
        updates.push(MirrorUpdate {
            node: self.fill_pct_node,
            value: Variant::Double(fill_bits),
            source_timestamp: now,
            server_timestamp: now,
        });
        updates.push(MirrorUpdate {
            node: self.valve_pos_node,
            value: Variant::Boolean(valve),
            source_timestamp: now,
            server_timestamp: now,
        });
        updates.push(MirrorUpdate {
            node: self.threshold_node,
            value: Variant::Int32(threshold),
            source_timestamp: now,
            server_timestamp: now,
        });
        let result = CallMethodResult {
            status_code: StatusCode::Good,
            input_argument_results: None,
            output_arguments: Some(output_arguments),
        };
        (result, updates)
    }

    /// `getTankSystemParams` against the store model: reads the most recent
    /// row of each quantity. A quantity with no recorded history yields
    /// `BadOutOfRange`, never a default value; on success the three current
    /// values are returned and scheduled for mirroring, unchanged.
    pub fn call_on_store(&self, store: &TankStore, now: u64) -> (r: Result<
        (CallMethodResult, Vec<MirrorUpdate>),
        StatusCode,
    >)
        ensures
            r is Err <==> (store.levels.rows@.len() == 0 || store.valves.rows@.len() == 0
                || store.thresholds.rows@.len() == 0),
            r is Err ==> r == Err::<(CallMethodResult, Vec<MirrorUpdate>), StatusCode>(
                StatusCode::BadOutOfRange,
            ),
            r is Ok ==> ({
                let fill_bits = store.levels.rows@.last().value;
                let valve = store.valves.rows@.last().value;
                let threshold = store.thresholds.rows@.last().value;
                let p = r.unwrap();
                &&& p.0.status_code == StatusCode::Good
                &&& p.0.input_argument_results is None
                &&& p.0.output_arguments is Some
                &&& p.0.output_arguments.unwrap()@ =~= spec_params_output(
                    fill_bits,
                    valve,
                    threshold,
                )
                &&& p.1@ =~= spec_params_updates(*self, fill_bits, valve, threshold, now)
            }),
    {
        let fill_bits = match store.levels.latest() {
            Some(v) => v,
            None => {
                return Err(StatusCode::BadOutOfRange);
            }
        };
        let valve = match store.valves.latest() {
            Some(v) => v,
            None => {
                return Err(StatusCode::BadOutOfRange);
            }
        };
        let threshold = match store.thresholds.latest() {
            Some(v) => v,
            None => {
                return Err(StatusCode::BadOutOfRange);
            }
        };
        Ok(self.params_result(fill_bits, valve, threshold, now))
    }
}

/// The handler for `setThreshold`: it holds the identifier of the Threshold
/// Variable node it keeps mirrored.
#[derive(Clone, Copy, PartialEq, Eq, Structural, Debug)]
pub struct SetThresholdMethod {
    pub threshold_node: NodeId,
}

/// The single mirror update a successful `setThreshold` call schedules.
pub open spec fn spec_threshold_update(m: SetThresholdMethod, value: i32, now: u64) -> Seq<
    MirrorUpdate,
> {
    seq![
        MirrorUpdate {
            node: m.threshold_node,
            value: Variant::Int32(value),
            source_timestamp: now,
            server_timestamp: now,
        },
    ]
}

impl SetThresholdMethod {
    /// Packs the acknowledgement of a threshold change: status `Good`, the
    /// input-argument validation echoed back, no output arguments, and the
    /// deferred mirror update carrying the new value.
    pub fn ack_result(&self, value: i32, now: u64) -> (r: (CallMethodResult, Vec<MirrorUpdate>))
        ensures
            r.0.status_code == StatusCode::Good,
            r.0.input_argument_results is Some,
            r.0.input_argument_results.unwrap()@ =~= seq![StatusCode::Good],
            r.0.output_arguments is None,
            r.1@ =~= spec_threshold_update(*self, value, now),
    {
        let mut input_argument_results: Vec<StatusCode> = Vec::new();
        input_argument_results.push(StatusCode::Good);
        let mut updates: Vec<MirrorUpdate> = Vec::new();
        updates.push(MirrorUpdate {
            node: self.threshold_node,
            value: Variant::Int32(value),
            source_timestamp: now,
            server_timestamp: now,
        });
        let result = CallMethodResult {
            status_code: StatusCode::Good,
            input_argument_results: Some(input_argument_results),
            output_arguments: None,
        };
        (result, updates)
    }

    /// `setThreshold` against the store model: a malformed argument list is
    /// rejected with `BadInvalidArgument` and the store is left untouched; a
    /// valid one appends exactly one row to the threshold sequence — history
    /// is preserved, nothing is updated in place.
    pub fn call_on_store(
        &self,
        store: &mut TankStore,
        input_arguments: &Option<Vec<Variant>>,
        now: u64,
    ) -> (r: Result<(CallMethodResult, Vec<MirrorUpdate>), StatusCode>)
        requires
            old(store).wf(),
            old(store).thresholds.next_id < u64::MAX,
        ensures
            final(store).wf(),
            final(store).levels == old(store).levels,
            final(store).valves == old(store).valves,
            r is Ok <==> spec_valid_set_threshold_args(*input_arguments),
            !spec_valid_set_threshold_args(*input_arguments) ==> {
                &&& r == Err::<(CallMethodResult, Vec<MirrorUpdate>), StatusCode>(
                    StatusCode::BadInvalidArgument,
                )
                &&& *final(store) == *old(store)
            },
            spec_valid_set_threshold_args(*input_arguments) ==> ({
                let value = spec_threshold_arg(*input_arguments);
                let p = r.unwrap();
                &&& final(store).thresholds.rows@ == old(store).thresholds.rows@.push(
                    Row { id: old(store).thresholds.next_id, value },
                )
                &&& final(store).thresholds.next_id == old(store).thresholds.next_id + 1
                &&& p.0.status_code == StatusCode::Good
                &&& p.0.input_argument_results is Some
                &&& p.0.input_argument_results.unwrap()@ =~= seq![StatusCode::Good]
                &&& p.0.output_arguments is None
                &&& p.1@ =~= spec_threshold_update(*self, value, now)
            }),
    {
        let value = match validate_set_threshold_args(input_arguments) {
            Ok(v) => v,
            Err(e) => {
                return Err(e);
            }
        };
        store.thresholds.insert(value);
        Ok(self.ack_result(value, now))
    }
}

} // verus!
