use vstd::prelude::*;
use crate::address_space::Variant;
use crate::methods::{
    spec_threshold_arg, spec_valid_set_threshold_args, validate_set_threshold_args,
    CallMethodResult, GetTankSystemParamsMethod, SetThresholdMethod, StatusCode,
};
use crate::mirror::MirrorUpdate;

verus! {

#[verifier::external_type_specification]
#[verifier::external_body]
pub struct ExConnection(rusqlite::Connection);

#[verifier::external_type_specification]
#[verifier::external_body]
pub struct ExSqliteError(rusqlite::Error);

/// Relies on rusqlite::Connection::query_row over `SELECT level FROM
/// waterlevel ORDER BY id DESC LIMIT 1`: it yields the `level` column of the
/// row with the highest `id`, `Err(QueryReturnedNoRows)` when the table is
/// empty, and any other `Err` on an engine failure. The REAL value is handed
/// on as its raw IEEE-754 bit pattern, untouched.
#[verifier::external_body]
fn query_latest_level(conn: &rusqlite::Connection) -> (r: Result<Option<u64>, rusqlite::Error>) {
    match conn.query_row(
        "SELECT level FROM waterlevel ORDER BY id DESC LIMIT 1;",
        [],
        |row| row.get(0),
    ) {
        Ok(rusqlite::types::Value::Real(x)) => Ok(Some(x.to_bits())),
        Ok(other) => Err(rusqlite::Error::InvalidColumnType(
            0,
            String::from("level"),
            other.data_type(),
        )),
        Err(rusqlite::Error::QueryReturnedNoRows) => Ok(None),
        Err(e) => Err(e),
    }
}

/// Relies on rusqlite::Connection::query_row over `SELECT position FROM
/// valveposition ORDER BY id DESC LIMIT 1`: the `position` column of the row
/// with the highest `id`, `Err(QueryReturnedNoRows)` on an empty table, any
/// other `Err` on an engine failure.
#[verifier::external_body]
fn query_latest_valve_position(conn: &rusqlite::Connection) -> (r: Result<
    Option<bool>,
    rusqlite::Error,
>) {
    match conn.query_row(
        "SELECT position FROM valveposition ORDER BY id DESC LIMIT 1;",
        [],
        |row| row.get(0),
    ) {
        Ok(v) => Ok(Some(v)),
        Err(rusqlite::Error::QueryReturnedNoRows) => Ok(None),
        Err(e) => Err(e),
    }
}

/// Relies on rusqlite::Connection::query_row over `SELECT threshold FROM
/// triggerthreshold ORDER BY id DESC LIMIT 1`: the `threshold` column of the
/// row with the highest `id`, `Err(QueryReturnedNoRows)` on an empty table,
/// any other `Err` on an engine failure.
#[verifier::external_body]
fn query_latest_threshold(conn: &rusqlite::Connection) -> (r: Result<
    Option<i32>,
    rusqlite::Error,
>) {
    match conn.query_row(
        "SELECT threshold FROM triggerthreshold ORDER BY id DESC LIMIT 1;",
        [],
        |row| row.get(0),
    ) {
        Ok(v) => Ok(Some(v)),
        Err(rusqlite::Error::QueryReturnedNoRows) => Ok(None),
        Err(e) => Err(e),
    }
}

/// Relies on rusqlite::Connection::execute over `INSERT INTO triggerthreshold
/// (threshold) VALUES (?1)`: it appends one row with the bound value — never
/// an update or a delete — and returns `Err` only on an engine failure.
#[verifier::external_body]
fn insert_threshold_row(conn: &rusqlite::Connection, value: i32) -> (r: Result<
    (),
    rusqlite::Error,
>) {
    match conn.execute("INSERT INTO triggerthreshold (threshold) VALUES (?1);", [value]) {
        Ok(_) => Ok(()),
        Err(e) => Err(e),
    }
}

/// Maps one most-recent-row query outcome to the call's status: a recorded
/// value is handed through unchanged, a quantity never recorded is
/// `BadOutOfRange`, an engine failure is `BadInternalError`.
pub fn latest_query_status<V>(q: Result<Option<V>, rusqlite::Error>) -> (r: Result<V, StatusCode>)
    ensures
        match q {
            Ok(Some(v)) => r == Ok::<V, StatusCode>(v),
            Ok(None) => r == Err::<V, StatusCode>(StatusCode::BadOutOfRange),
            Err(_) => r == Err::<V, StatusCode>(StatusCode::BadInternalError),
        },
{
    match q {
        Ok(Some(v)) => Ok(v),
        Ok(None) => Err(StatusCode::BadOutOfRange),
        Err(_) => Err(StatusCode::BadInternalError),
    }
}

impl GetTankSystemParamsMethod {
    /// `getTankSystemParams` against the persisted store. The caller holds
    /// the store's lock for the duration of the call. Three most-recent-row
    /// queries run in order; the first fault ends the call — `BadOutOfRange`
    /// for a quantity never recorded, `BadInternalError` for an engine
    /// failure — with no partial success. On success the caller's three
    /// output values and the three scheduled mirror updates are the same
    /// values, tagged with the shared timestamp.
    pub fn call(&self, conn: &rusqlite::Connection, now: u64) -> (r: Result<
        (CallMethodResult, Vec<MirrorUpdate>),
        StatusCode,
    >)
        ensures
            match r {
                Ok(p) => ({
                    let out = p.0.output_arguments.unwrap()@;
                    let ups = p.1@;
                    &&& p.0.status_code == StatusCode::Good
                    &&& p.0.input_argument_results is None
                    &&& p.0.output_arguments is Some
                    &&& out.len() == 3
                    &&& out[0] is Double && out[1] is Boolean && out[2] is Int32
                    &&& ups.len() == 3
                    &&& ups[0] == (MirrorUpdate {
                        node: self.fill_pct_node,
                        value: out[0],
                        source_timestamp: now,
                        server_timestamp: now,
                    })
                    &&& ups[1] == (MirrorUpdate {
                        node: self.valve_pos_node,
                        value: out[1],
                        source_timestamp: now,
                        server_timestamp: now,
                    })
                    &&& ups[2] == (MirrorUpdate {
                        node: self.threshold_node,
                        value: out[2],
                        source_timestamp: now,
                        server_timestamp: now,
                    })
                }),
                Err(e) => e == StatusCode::BadOutOfRange || e == StatusCode::BadInternalError,
            },
    {
        let fill_bits = match latest_query_status(query_latest_level(conn)) {
            Ok(v) => v,
            Err(e) => {
                return Err(e);
            }
        };
        let valve = match latest_query_status(query_latest_valve_position(conn)) {
            Ok(v) => v,
            Err(e) => {
                return Err(e);
            }
        };
        let threshold = match latest_query_status(query_latest_threshold(conn)) {
            Ok(v) => v,
            Err(e) => {
                return Err(e);
            }
        };
        Ok(self.params_result(fill_bits, valve, threshold, now))
    }
}

impl SetThresholdMethod {
    /// `setThreshold` against the persisted store. Validation comes first: a
    /// call whose argument list is not exactly one 32-bit integer is rejected
    /// with `BadInvalidArgument` and the store is never touched. A valid call
    /// appends one row to the threshold sequence — an insert, never an
    /// update — and an engine failure surfaces as `BadInternalError`. On
    /// success the acknowledgement echoes the validation and the scheduled
    /// mirror update carries exactly the new value.
    pub fn call(
        &self,
        conn: &rusqlite::Connection,
        input_arguments: &Option<Vec<Variant>>,
        now: u64,
    ) -> (r: Result<(CallMethodResult, Vec<MirrorUpdate>), StatusCode>)
        ensures
            !spec_valid_set_threshold_args(*input_arguments) <==> r == Err::<
                (CallMethodResult, Vec<MirrorUpdate>),
                StatusCode,
            >(StatusCode::BadInvalidArgument),
            match r {
                Ok(p) => {
                    &&& spec_valid_set_threshold_args(*input_arguments)
                    &&& p.0.status_code == StatusCode::Good
                    &&& p.0.input_argument_results is Some
                    &&& p.0.input_argument_results.unwrap()@ =~= seq![StatusCode::Good]
                    &&& p.0.output_arguments is None
                    &&& p.1@ =~= crate::methods::spec_threshold_update(
                        *self,
                        spec_threshold_arg(*input_arguments),
                        now,
                    )
                }
                Err(e) => e == StatusCode::BadInvalidArgument || e
                    == StatusCode::BadInternalError,
            },
    {
        let value = match validate_set_threshold_args(input_arguments) {
            Ok(v) => v,
            Err(e) => {
                return Err(e);
            }
        };
        match insert_threshold_row(conn, value) {
            Ok(()) => {}
            Err(_) => {
                return Err(StatusCode::BadInternalError);
            }
        }
        Ok(self.ack_result(value, now))
    }
}

} // verus!
