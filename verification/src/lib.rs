//! Typed decoding of tabular SQL results.
//!
//! A query response arrives as a schema (one entry per column) plus a matrix
//! of optional text cells.  This crate converts those cells into typed values
//! with precise error reporting, assembles whole rows into typed records, and
//! models the tagged parameter values sent back with outgoing queries.

pub mod assemble;
pub mod bindings;
mod error;
pub mod scalar;
pub mod sql_uuid;
pub mod text;

pub use bindings::BindingKind;
pub use bindings::BindingValue;
pub use error::Error;
pub use error::ErrorModel;
pub use error::error_model;
pub use error::lift_error;

use vstd::prelude::*;

verus! {

/// Row count and uncompressed size of one result partition.
#[derive(Debug)]
pub struct PartitionInfo {
    pub row_count: usize,
    pub uncompressed_size: usize,
}

/// One column of the result schema: its name, owners, declared wire type and
/// nullability, ordered to match the cells of every row.
#[derive(Debug)]
pub struct RowType {
    pub name: String,
    pub database: String,
    pub schema: String,
    pub table: String,
    pub precision: Option<u32>,
    pub byte_length: Option<usize>,
    pub data_type: String,
    pub scale: Option<i32>,
    pub nullable: bool,
}

/// Result metadata: declared row count, storage format tag, the column
/// schema, and one entry per partition.
#[derive(Debug)]
pub struct MetaData {
    pub num_rows: usize,
    pub format: String,
    pub row_type: Vec<RowType>,
    pub partition_info: Vec<PartitionInfo>,
}

/// A decoded tabular response: metadata plus the raw row matrix, each cell an
/// optional text value, together with the transport's status fields.
#[derive(Debug)]
pub struct SnowflakeSqlResponse {
    pub result_set_meta_data: MetaData,
    pub data: Vec<Vec<Option<String>>>,
    pub code: String,
    pub statement_status_url: String,
    pub request_id: String,
    pub sql_state: String,
    pub message: String,
    pub statement_handle: String,
}

/// The typed records assembled from a response.
#[derive(Debug)]
pub struct SnowflakeSqlResult<T> {
    pub data: Vec<T>,
}

/// The outcome of typed deserialization, lifted to its model: the record
/// sequence on success, the error's model on failure.
pub open spec fn lift_sql_result<T>(r: Result<SnowflakeSqlResult<T>, Error>) -> Result<
    Seq<T>,
    ErrorModel,
> {
    match r {
        Ok(x) => Ok(x.data@),
        Err(e) => Err(e@),
    }
}

/// A record type that can be assembled from a whole tabular response.
pub trait SnowflakeDeserialize: Sized {
    /// How the response's row matrix relates to a typed outcome for this
    /// record type.  Implementations pin the outcome: one result for each
    /// matrix.
    spec fn decoded_rows(rows: Seq<Seq<Option<Seq<char>>>>, r: Result<Seq<Self>, ErrorModel>) -> bool;

    fn snowflake_deserialize(response: SnowflakeSqlResponse) -> (r: Result<
        SnowflakeSqlResult<Self>,
        Error,
    >)
        ensures
            Self::decoded_rows(response.data.deep_view(), lift_sql_result(r)),
    ;
}

/// The raw record shape: every row kept as its optional text cells, exactly
/// as delivered and in the order delivered.
impl SnowflakeDeserialize for Vec<Option<String>> {
    open spec fn decoded_rows(
        rows: Seq<Seq<Option<Seq<char>>>>,
        r: Result<Seq<Vec<Option<String>>>, ErrorModel>,
    ) -> bool {
        match r {
            Ok(v) => v.len() == rows.len() && (forall|i: int|
                0 <= i < rows.len() ==> (#[trigger] v[i]).deep_view() == rows[i]),
            Err(_) => false,
        }
    }

    fn snowflake_deserialize(response: SnowflakeSqlResponse) -> (r: Result<
        SnowflakeSqlResult<Self>,
        Error,
    >) {
        Ok(SnowflakeSqlResult { data: response.data })
    }
}

impl SnowflakeSqlResponse {
    /// A result is partitioned exactly when more than one partition is
    /// declared.
    pub fn has_partitions(&self) -> (r: bool)
        ensures
            r == (self.result_set_meta_data.partition_info@.len() > 1),
    {
        self.result_set_meta_data.partition_info.len() > 1
    }

    /// Assembles this response into typed records of `T`.
    pub fn deserialize<T: SnowflakeDeserialize>(self) -> (r: Result<SnowflakeSqlResult<T>, Error>)
        ensures
            T::decoded_rows(self.data.deep_view(), lift_sql_result(r)),
    {
        T::snowflake_deserialize(self)
    }
}

/// The view of an optional text cell: `None` stands for SQL NULL.
pub open spec fn cell_model(s: Option<&str>) -> Option<Seq<char>> {
    match s {
        Some(t) => Some(t@),
        None => None,
    }
}

/// The scalar conversion contract: how an optional text cell becomes a value
/// of the implementing type.
///
/// Data in cells are not their type: they are text that has to be converted.
/// Implement this to convert retrieved text to custom types such as enums.
pub trait DeserializeFromStr: Sized {
    /// How a cell relates to a conversion outcome for this type.
    /// Implementations pin the outcome: one result for each cell.
    spec fn decoded(cell: Option<Seq<char>>, r: Result<Self, ErrorModel>) -> bool;

    fn deserialize_from_str(s: Option<&str>) -> (r: Result<Self, Error>)
        ensures
            Self::decoded(cell_model(s), lift_error(r)),
    ;
}

/// The universal composition rule for optional targets: an absent cell is a
/// value, not an error, and a present cell converts as `T` does.
impl<T: DeserializeFromStr> DeserializeFromStr for Option<T> {
    open spec fn decoded(cell: Option<Seq<char>>, r: Result<Option<T>, ErrorModel>) -> bool {
        match cell {
            None => r == Ok::<Option<T>, ErrorModel>(None),
            Some(s) => match r {
                Ok(Some(v)) => T::decoded(Some(s), Ok(v)),
                Ok(None) => false,
                Err(e) => T::decoded(Some(s), Err(e)),
            },
        }
    }

    fn deserialize_from_str(s: Option<&str>) -> (r: Result<Option<T>, Error>) {
        if s.is_none() {
            Ok(None)
        } else {
            match T::deserialize_from_str(s) {
                Ok(v) => Ok(Some(v)),
                Err(e) => Err(e),
            }
        }
    }
}

/// An absent cell converted against an optional target always yields
/// "no value", never an error, whatever the payload type.
pub proof fn lemma_null_yields_none<T: DeserializeFromStr>(r: Result<Option<T>, ErrorModel>)
    requires
        <Option<T> as DeserializeFromStr>::decoded(None, r),
    ensures
        r == Ok::<Option<T>, ErrorModel>(None),
{
}

} // verus!
