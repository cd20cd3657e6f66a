//! The record assembly engine: walks a tabular result, converts every cell of
//! every row under the scalar conversion contract, and produces the records in
//! row order, or the first field-attributed error.
//!
//! A record shape is an ordered list of field descriptions; hand-write it or
//! generate it, the contract here is what matters.

use crate::DeserializeFromStr;
use crate::SnowflakeSqlResponse;
use crate::SnowflakeSqlResult;
use crate::cell_model;
use crate::error::Error;
use crate::error::ErrorModel;
use crate::scalar::bool_fail_text;
use crate::scalar::char_empty_fail_text;
use crate::scalar::char_many_fail_text;
use crate::sql_uuid::SqlUuid;
use crate::sql_uuid::uuid_parsed;
use crate::text::bool_parse_spec;
use crate::text::fail_text;
use crate::text::int_parse_spec;
use vstd::prelude::*;

verus! {

/// The scalar type a column converts into.
#[derive(Clone, Copy, Debug, PartialEq, Eq, Structural)]
pub enum ColumnType {
    Bool,
    I8,
    I16,
    I32,
    I64,
    I128,
    ISize,
    U8,
    U16,
    U32,
    U64,
    U128,
    USize,
    Char,
    Text,
    Uuid,
}

/// One field of a record shape: the field's name, the zero-based index of the
/// column its cells are read from, its scalar type, and whether an absent
/// cell is a value rather than an error.
#[derive(Debug)]
pub struct FieldDef {
    pub name: String,
    pub column: usize,
    pub ty: ColumnType,
    pub nullable: bool,
}

/// The mathematical value of a [`FieldDef`].
#[verifier::ext_equal]
pub struct FieldModel {
    pub name: Seq<char>,
    pub column: int,
    pub ty: ColumnType,
    pub nullable: bool,
}

impl View for FieldDef {
    type V = FieldModel;

    open spec fn view(&self) -> FieldModel {
        FieldModel { name: self.name@, column: self.column as int, ty: self.ty, nullable: self.nullable }
    }
}

impl DeepView for FieldDef {
    type V = FieldModel;

    open spec fn deep_view(&self) -> FieldModel {
        self.view()
    }
}

/// One converted cell of a record.
#[derive(Debug, PartialEq, Eq)]
pub enum TypedCell {
    Null,
    Bool(bool),
    I8(i8),
    I16(i16),
    I32(i32),
    I64(i64),
    I128(i128),
    ISize(isize),
    U8(u8),
    U16(u16),
    U32(u32),
    U64(u64),
    U128(u128),
    USize(usize),
    Char(char),
    Text(String),
    Uuid(SqlUuid),
}

/// The mathematical value of a [`TypedCell`].
#[verifier::ext_equal]
pub enum CellModel {
    Null,
    Bool(bool),
    I8(i8),
    I16(i16),
    I32(i32),
    I64(i64),
    I128(i128),
    ISize(isize),
    U8(u8),
    U16(u16),
    U32(u32),
    U64(u64),
    U128(u128),
    USize(usize),
    Char(char),
    Text(Seq<char>),
    Uuid(u128),
}

impl View for TypedCell {
    type V = CellModel;

    open spec fn view(&self) -> CellModel {
        match self {
            TypedCell::Null => CellModel::Null,
            TypedCell::Bool(v) => CellModel::Bool(*v),
            TypedCell::I8(v) => CellModel::I8(*v),
            TypedCell::I16(v) => CellModel::I16(*v),
            TypedCell::I32(v) => CellModel::I32(*v),
            TypedCell::I64(v) => CellModel::I64(*v),
            TypedCell::I128(v) => CellModel::I128(*v),
            TypedCell::ISize(v) => CellModel::ISize(*v),
            TypedCell::U8(v) => CellModel::U8(*v),
            TypedCell::U16(v) => CellModel::U16(*v),
            TypedCell::U32(v) => CellModel::U32(*v),
            TypedCell::U64(v) => CellModel::U64(*v),
            TypedCell::U128(v) => CellModel::U128(*v),
            TypedCell::USize(v) => CellModel::USize(*v),
            TypedCell::Char(v) => CellModel::Char(*v),
            TypedCell::Text(v) => CellModel::Text(v@),
            TypedCell::Uuid(v) => CellModel::Uuid(v.value),
        }
    }
}

impl DeepView for TypedCell {
    type V = CellModel;

    open spec fn deep_view(&self) -> CellModel {
        self.view()
    }
}

/// What converting present text under each scalar type yields.
pub open spec fn scalar_decoded(ty: ColumnType, s: Seq<char>) -> Result<CellModel, ErrorModel> {
    match ty {
        ColumnType::Bool => match bool_parse_spec(s) {
            Some(b) => Ok(CellModel::Bool(b)),
            None => Err(ErrorModel::Format { given: s, err: bool_fail_text() }),
        },
        ColumnType::I8 => match int_parse_spec(s, i8::MIN as int, i8::MAX as int) {
            Ok(v) => Ok(CellModel::I8(v as i8)),
            Err(f) => Err(ErrorModel::Format { given: s, err: fail_text(f) }),
        },
        ColumnType::I16 => match int_parse_spec(s, i16::MIN as int, i16::MAX as int) {
            Ok(v) => Ok(CellModel::I16(v as i16)),
            Err(f) => Err(ErrorModel::Format { given: s, err: fail_text(f) }),
        },
        ColumnType::I32 => match int_parse_spec(s, i32::MIN as int, i32::MAX as int) {
            Ok(v) => Ok(CellModel::I32(v as i32)),
            Err(f) => Err(ErrorModel::Format { given: s, err: fail_text(f) }),
        },
        ColumnType::I64 => match int_parse_spec(s, i64::MIN as int, i64::MAX as int) {
            Ok(v) => Ok(CellModel::I64(v as i64)),
            Err(f) => Err(ErrorModel::Format { given: s, err: fail_text(f) }),
        },
        ColumnType::I128 => match int_parse_spec(s, i128::MIN as int, i128::MAX as int) {
            Ok(v) => Ok(CellModel::I128(v as i128)),
            Err(f) => Err(ErrorModel::Format { given: s, err: fail_text(f) }),
        },
        ColumnType::ISize => match int_parse_spec(s, isize::MIN as int, isize::MAX as int) {
            Ok(v) => Ok(CellModel::ISize(v as isize)),
            Err(f) => Err(ErrorModel::Format { given: s, err: fail_text(f) }),
        },
        ColumnType::U8 => match int_parse_spec(s, 0, u8::MAX as int) {
            Ok(v) => Ok(CellModel::U8(v as u8)),
            Err(f) => Err(ErrorModel::Format { given: s, err: fail_text(f) }),
        },
        ColumnType::U16 => match int_parse_spec(s, 0, u16::MAX as int) {
            Ok(v) => Ok(CellModel::U16(v as u16)),
            Err(f) => Err(ErrorModel::Format { given: s, err: fail_text(f) }),
        },
        ColumnType::U32 => match int_parse_spec(s, 0, u32::MAX as int) {
            Ok(v) => Ok(CellModel::U32(v as u32)),
            Err(f) => Err(ErrorModel::Format { given: s, err: fail_text(f) }),
        },
        ColumnType::U64 => match int_parse_spec(s, 0, u64::MAX as int) {
            Ok(v) => Ok(CellModel::U64(v as u64)),
            Err(f) => Err(ErrorModel::Format { given: s, err: fail_text(f) }),
        },
        ColumnType::U128 => match int_parse_spec(s, 0, u128::MAX as int) {
            Ok(v) => Ok(CellModel::U128(v as u128)),
            Err(f) => Err(ErrorModel::Format { given: s, err: fail_text(f) }),
        },
        ColumnType::USize => match int_parse_spec(s, 0, usize::MAX as int) {
            Ok(v) => Ok(CellModel::USize(v as usize)),
            Err(f) => Err(ErrorModel::Format { given: s, err: fail_text(f) }),
        },
        ColumnType::Char => if s.len() == 1 {
            Ok(CellModel::Char(s[0]))
        } else if s.len() == 0 {
            Err(ErrorModel::Format { given: s, err: char_empty_fail_text() })
        } else {
            Err(ErrorModel::Format { given: s, err: char_many_fail_text() })
        },
        ColumnType::Text => Ok(CellModel::Text(s)),
        ColumnType::Uuid => match uuid_parsed(s) {
            Ok(v) => Ok(CellModel::Uuid(v)),
            Err(m) => Err(ErrorModel::Format { given: s, err: m }),
        },
    }
}

/// What converting one optional cell of a field yields: an absent cell is a
/// null value for a nullable field and an error otherwise.
pub open spec fn cell_decoded(ty: ColumnType, nullable: bool, cell: Option<Seq<char>>) -> Result<
    CellModel,
    ErrorModel,
> {
    match cell {
        None => if nullable {
            Ok(CellModel::Null)
        } else {
            Err(ErrorModel::UnexpectedNull)
        },
        Some(s) => scalar_decoded(ty, s),
    }
}

/// What converting one row yields: the cells of every field in declared
/// order, or the first failing field's error wrapped with that field's name.
pub open spec fn row_decoded(shape: Seq<FieldModel>, row: Seq<Option<Seq<char>>>) -> Result<
    Seq<CellModel>,
    ErrorModel,
>
    decreases shape.len(),
{
    if shape.len() == 0 {
        Ok(Seq::empty())
    } else {
        let f = shape[0];
        match cell_decoded(f.ty, f.nullable, row[f.column]) {
            Err(e) => Err(ErrorModel::Field { field: f.name, err: Box::new(e) }),
            Ok(c) => match row_decoded(shape.skip(1), row) {
                Err(e) => Err(e),
                Ok(rest) => Ok(seq![c] + rest),
            },
        }
    }
}

/// What assembling all rows yields: one record per row in row order, or the
/// first failing row's error and nothing else.
pub open spec fn rows_decoded(shape: Seq<FieldModel>, rows: Seq<Seq<Option<Seq<char>>>>) -> Result<
    Seq<Seq<CellModel>>,
    ErrorModel,
>
    decreases rows.len(),
{
    if rows.len() == 0 {
        Ok(Seq::empty())
    } else {
        match row_decoded(shape, rows[0]) {
            Err(e) => Err(e),
            Ok(rec) => match rows_decoded(shape, rows.skip(1)) {
                Err(e) => Err(e),
                Ok(rest) => Ok(seq![rec] + rest),
            },
        }
    }
}

/// The model of a converted cell: its value on success, the error's model on
/// failure.
pub open spec fn lift_cell(r: Result<TypedCell, Error>) -> Result<CellModel, ErrorModel> {
    match r {
        Ok(c) => Ok(c@),
        Err(e) => Err(e@),
    }
}

/// The model of a converted row.
pub open spec fn lift_row(r: Result<Vec<TypedCell>, Error>) -> Result<Seq<CellModel>, ErrorModel> {
    match r {
        Ok(v) => Ok(v.deep_view()),
        Err(e) => Err(e@),
    }
}

/// The model of an assembled result.
pub open spec fn lift_records(r: Result<SnowflakeSqlResult<Vec<TypedCell>>, Error>) -> Result<
    Seq<Seq<CellModel>>,
    ErrorModel,
> {
    match r {
        Ok(x) => Ok(x.data.deep_view()),
        Err(e) => Err(e@),
    }
}

/// Converts present text under the named scalar type.
pub fn convert_scalar(ty: ColumnType, t: &str) -> (r: Result<TypedCell, Error>)
    ensures
        lift_cell(r) == scalar_decoded(ty, t@),
{
    match ty {
        ColumnType::Bool => match <bool as DeserializeFromStr>::deserialize_from_str(Some(t)) {
            Ok(v) => Ok(TypedCell::Bool(v)),
            Err(e) => Err(e),
        },
        ColumnType::I8 => match <i8 as DeserializeFromStr>::deserialize_from_str(Some(t)) {
            Ok(v) => Ok(TypedCell::I8(v)),
            Err(e) => Err(e),
        },
        ColumnType::I16 => match <i16 as DeserializeFromStr>::deserialize_from_str(Some(t)) {
            Ok(v) => Ok(TypedCell::I16(v)),
            Err(e) => Err(e),
        },
        ColumnType::I32 => match <i32 as DeserializeFromStr>::deserialize_from_str(Some(t)) {
            Ok(v) => Ok(TypedCell::I32(v)),
            Err(e) => Err(e),
        },
        ColumnType::I64 => match <i64 as DeserializeFromStr>::deserialize_from_str(Some(t)) {
            Ok(v) => Ok(TypedCell::I64(v)),
            Err(e) => Err(e),
        },
        ColumnType::I128 => match <i128 as DeserializeFromStr>::deserialize_from_str(Some(t)) {
            Ok(v) => Ok(TypedCell::I128(v)),
            Err(e) => Err(e),
        },
        ColumnType::ISize => match <isize as DeserializeFromStr>::deserialize_from_str(Some(t)) {
            Ok(v) => Ok(TypedCell::ISize(v)),
            Err(e) => Err(e),
        },
        ColumnType::U8 => match <u8 as DeserializeFromStr>::deserialize_from_str(Some(t)) {
            Ok(v) => Ok(TypedCell::U8(v)),
            Err(e) => Err(e),
        },
        ColumnType::U16 => match <u16 as DeserializeFromStr>::deserialize_from_str(Some(t)) {
            Ok(v) => Ok(TypedCell::U16(v)),
            Err(e) => Err(e),
        },
        ColumnType::U32 => match <u32 as DeserializeFromStr>::deserialize_from_str(Some(t)) {
            Ok(v) => Ok(TypedCell::U32(v)),
            Err(e) => Err(e),
        },
        ColumnType::U64 => match <u64 as DeserializeFromStr>::deserialize_from_str(Some(t)) {
            Ok(v) => Ok(TypedCell::U64(v)),
            Err(e) => Err(e),
        },
        ColumnType::U128 => match <u128 as DeserializeFromStr>::deserialize_from_str(Some(t)) {
            Ok(v) => Ok(TypedCell::U128(v)),
            Err(e) => Err(e),
        },
        ColumnType::USize => match <usize as DeserializeFromStr>::deserialize_from_str(Some(t)) {
            Ok(v) => Ok(TypedCell::USize(v)),
            Err(e) => Err(e),
        },
        ColumnType::Char => match <char as DeserializeFromStr>::deserialize_from_str(Some(t)) {
            Ok(v) => Ok(TypedCell::Char(v)),
            Err(e) => Err(e),
        },
        ColumnType::Text => match <String as DeserializeFromStr>::deserialize_from_str(Some(t)) {
            Ok(v) => Ok(TypedCell::Text(v)),
            Err(e) => Err(e),
        },
        ColumnType::Uuid => match <SqlUuid as DeserializeFromStr>::deserialize_from_str(Some(t)) {
            Ok(v) => Ok(TypedCell::Uuid(v)),
            Err(e) => Err(e),
        },
    }
}

/// Converts one optional cell of a field.
pub fn convert_cell(ty: ColumnType, nullable: bool, cell: Option<&str>) -> (r: Result<
    TypedCell,
    Error,
>)
    ensures
        lift_cell(r) == cell_decoded(ty, nullable, cell_model(cell)),
{
    match cell {
        None => if nullable {
            Ok(TypedCell::Null)
        } else {
            Err(Error::UnexpectedNull)
        },
        Some(t) => convert_scalar(ty, t),
    }
}

/// Converts one row against a record shape, field by field in declared order,
/// stopping at the first failure with a field-attributed error.
pub fn convert_row(shape: &Vec<FieldDef>, row: &Vec<Option<String>>) -> (r: Result<
    Vec<TypedCell>,
    Error,
>)
    requires
        forall|j: int| 0 <= j < shape@.len() ==> (#[trigger] shape@[j]).column < row@.len(),
    ensures
        lift_row(r) == row_decoded(shape.deep_view(), row.deep_view()),
{
    let ghost sm = shape.deep_view();
    let ghost rm = row.deep_view();
    let mut out: Vec<TypedCell> = Vec::new();
    let mut i: usize = 0;
    proof {
        assert(sm.skip(0) =~= sm);
        assert(out.deep_view() + row_decoded(sm, rm)->Ok_0 =~= row_decoded(sm, rm)->Ok_0);
    }
    while i < shape.len()
        invariant
            i <= shape@.len(),
            sm == shape.deep_view(),
            rm == row.deep_view(),
            sm.len() == shape@.len(),
            rm.len() == row@.len(),
            forall|j: int| 0 <= j < shape@.len() ==> (#[trigger] shape@[j]).column < row@.len(),
            row_decoded(sm, rm) == (match row_decoded(sm.skip(i as int), rm) {
                Ok(rest) => Ok::<Seq<CellModel>, ErrorModel>(out.deep_view() + rest),
                Err(e) => Err::<Seq<CellModel>, ErrorModel>(e),
            }),
        decreases shape@.len() - i,
    {
        let f = &shape[i];
        proof {
            assert(f@ == sm[i as int]);
            assert(sm.skip(i as int)[0] == sm[i as int]);
        }
        let cell: Option<&str> = match &row[f.column] {
            Some(s) => Some(s.as_str()),
            None => None,
        };
        proof {
            assert(cell_model(cell) == rm[f.column as int]);
        }
        match convert_cell(f.ty, f.nullable, cell) {
            Ok(c) => {
                let ghost old_out = out.deep_view();
                out.push(c);
                proof {
                    assert(out.deep_view() =~= old_out.push(c@));
                    assert(sm.skip(i as int).skip(1) =~= sm.skip(i as int + 1));
                    assert(cell_decoded(sm[i as int].ty, sm[i as int].nullable, rm[sm[i as int].column])
                        == Ok::<CellModel, ErrorModel>(c@));
                    assert(match row_decoded(sm.skip(i as int + 1), rm) {
                        Ok(rest) => {
                            let prev = row_decoded(sm.skip(i as int), rm);
                            prev == Ok::<Seq<CellModel>, ErrorModel>(seq![c@] + rest)
                                && old_out + (seq![c@] + rest) =~= out.deep_view() + rest
                        },
                        Err(_) => true,
                    });
                }
                i = i + 1;
            },
            Err(e) => {
                let ghost em = e@;
                let wrapped = Error::Field { field: f.name.clone(), err: Box::new(e) };
                proof {
                    assert(row_decoded(sm.skip(i as int), rm) == Err::<Seq<CellModel>, ErrorModel>(
                        ErrorModel::Field { field: sm[i as int].name, err: Box::new(em) },
                    ));
                    assert(wrapped@ == (ErrorModel::Field {
                        field: sm[i as int].name,
                        err: Box::new(em),
                    }));
                }
                return Err(wrapped);
            },
        }
    }
    proof {
        assert(sm.skip(sm.len() as int) =~= Seq::<FieldModel>::empty());
        assert(out.deep_view() + Seq::<CellModel>::empty() =~= out.deep_view());
    }
    Ok(out)
}

/// Assembles a whole response into typed records against a record shape: one
/// record per row in row order, or the first failing row's field-attributed
/// error and no records at all.
///
/// Every field's column index must lie within every row; shapes are built
/// from the same declaration as the selected columns, so a violation is a
/// caller's contract bug, not a runtime condition.
pub fn assemble_records(shape: &Vec<FieldDef>, response: &SnowflakeSqlResponse) -> (r: Result<
    SnowflakeSqlResult<Vec<TypedCell>>,
    Error,
>)
    requires
        forall|i: int, j: int|
            0 <= i < response.data@.len() && 0 <= j < shape@.len() ==> (#[trigger] shape@[j]).column
                < (#[trigger] response.data@[i])@.len(),
    ensures
        lift_records(r) == rows_decoded(shape.deep_view(), response.data.deep_view()),
{
    let ghost sm = shape.deep_view();
    let ghost dm = response.data.deep_view();
    let mut out: Vec<Vec<TypedCell>> = Vec::with_capacity(response.result_set_meta_data.num_rows);
    let mut i: usize = 0;
    proof {
        assert(dm.skip(0) =~= dm);
        assert(out.deep_view() + rows_decoded(sm, dm)->Ok_0 =~= rows_decoded(sm, dm)->Ok_0);
    }
    while i < response.data.len()
        invariant
            i <= response.data@.len(),
            sm == shape.deep_view(),
            dm == response.data.deep_view(),
            dm.len() == response.data@.len(),
            forall|k: int, j: int|
                0 <= k < response.data@.len() && 0 <= j < shape@.len() ==> (
                #[trigger] shape@[j]).column < (#[trigger] response.data@[k])@.len(),
            rows_decoded(sm, dm) == (match rows_decoded(sm, dm.skip(i as int)) {
                Ok(rest) => Ok::<Seq<Seq<CellModel>>, ErrorModel>(out.deep_view() + rest),
                Err(e) => Err::<Seq<Seq<CellModel>>, ErrorModel>(e),
            }),
        decreases response.data@.len() - i,
    {
        let row = &response.data[i];
        proof {
            assert(row.deep_view() == dm[i as int]);
            assert(dm.skip(i as int)[0] == dm[i as int]);
            assert(forall|j: int|
                0 <= j < shape@.len() ==> (#[trigger] shape@[j]).column < row@.len());
        }
        match convert_row(shape, row) {
            Ok(rec) => {
                let ghost old_out = out.deep_view();
                proof {
                    assert(row_decoded(sm, dm[i as int]) == Ok::<Seq<CellModel>, ErrorModel>(
                        rec.deep_view(),
                    ));
                }
                let ghost recm = rec.deep_view();
                out.push(rec);
                proof {
                    assert(out.deep_view() =~= old_out.push(recm));
                    assert(dm.skip(i as int).skip(1) =~= dm.skip(i as int + 1));
                    assert(match rows_decoded(sm, dm.skip(i as int + 1)) {
                        Ok(rest) => old_out + (seq![recm] + rest) =~= out.deep_view() + rest,
                        Err(_) => true,
                    });
                }
                i = i + 1;
            },
            Err(e) => {
                proof {
                    assert(rows_decoded(sm, dm.skip(i as int)) == Err::<
                        Seq<Seq<CellModel>>,
                        ErrorModel,
                    >(e@));
                }
                return Err(e);
            },
        }
    }
    proof {
        assert(dm.skip(dm.len() as int) =~= Seq::<Seq<Option<Seq<char>>>>::empty());
        assert(out.deep_view() + Seq::<Seq<CellModel>>::empty() =~= out.deep_view());
    }
    Ok(SnowflakeSqlResult { data: out })
}

/// The comma-joined field names of a record shape.
pub open spec fn joined_names(shape: Seq<FieldModel>) -> Seq<char>
    decreases shape.len(),
{
    if shape.len() == 0 {
        Seq::empty()
    } else if shape.len() == 1 {
        shape[0].name
    } else {
        joined_names(shape.drop_last()) + ", "@ + shape.last().name
    }
}

/// Renders the comma-joined field names a record shape declares, for building
/// a column-selecting query.
pub fn select_columns(shape: &Vec<FieldDef>) -> (r: String)
    ensures
        r@ == joined_names(shape.deep_view()),
{
    let ghost sm = shape.deep_view();
    let mut r = String::new();
    let mut i: usize = 0;
    proof {
        assert(sm.take(0) =~= Seq::<FieldModel>::empty());
    }
    while i < shape.len()
        invariant
            i <= shape@.len(),
            sm == shape.deep_view(),
            sm.len() == shape@.len(),
            r@ == joined_names(sm.take(i as int)),
        decreases shape@.len() - i,
    {
        if i > 0 {
            r.append(", ");
        }
        let f = &shape[i];
        proof {
            assert(f@ == sm[i as int]);
            assert(sm.take(i as int + 1).drop_last() =~= sm.take(i as int));
            assert(sm.take(i as int + 1).last() == sm[i as int]);
        }
        r.append(f.name.as_str());
        i = i + 1;
    }
    proof {
        assert(sm.take(sm.len() as int) =~= sm);
    }
    r
}

/// A failed conversion of present text always reports a format error that
/// carries that very text, whatever the scalar type.
pub proof fn lemma_format_carries_text(ty: ColumnType, s: Seq<char>)
    ensures
        match scalar_decoded(ty, s) {
            Err(e) => match e {
                ErrorModel::Format { given, .. } => given == s,
                _ => false,
            },
            Ok(_) => true,
        },
{
}

/// Assembly preserves row order and is all-or-nothing: on success there is
/// exactly one record per row, each the conversion of its own row; on failure
/// the error is the one of the first failing row and no records come out.
pub proof fn lemma_assembly_row_order(shape: Seq<FieldModel>, rows: Seq<Seq<Option<Seq<char>>>>)
    ensures
        match rows_decoded(shape, rows) {
            Ok(recs) => recs.len() == rows.len() && (forall|i: int|
                0 <= i < rows.len() ==> row_decoded(shape, #[trigger] rows[i]) == Ok::<
                    Seq<CellModel>,
                    ErrorModel,
                >(recs[i])),
            Err(e) => exists|i: int|
                0 <= i < rows.len() && row_decoded(shape, #[trigger] rows[i]) == Err::<
                    Seq<CellModel>,
                    ErrorModel,
                >(e) && (forall|k: int|
                    0 <= k < i ==> row_decoded(shape, #[trigger] rows[k]) is Ok),
        },
    decreases rows.len(),
{
    if rows.len() > 0 {
        lemma_assembly_row_order(shape, rows.skip(1));
        assert(forall|i: int| 0 <= i < rows.len() - 1 ==> #[trigger] rows.skip(1)[i] == rows[i + 1]);
        match row_decoded(shape, rows[0]) {
            Err(e) => {
                assert(rows_decoded(shape, rows) == Err::<Seq<Seq<CellModel>>, ErrorModel>(e));
                assert(0 <= 0 < rows.len() && row_decoded(shape, rows[0]) == Err::<
                    Seq<CellModel>,
                    ErrorModel,
                >(e) && (forall|k: int| 0 <= k < 0 ==> row_decoded(shape, #[trigger] rows[k]) is Ok));
            },
            Ok(rec) => {
                match rows_decoded(shape, rows.skip(1)) {
                    Err(e) => {
                        let i0 = choose|i: int|
                            0 <= i < rows.skip(1).len() && row_decoded(
                                shape,
                                #[trigger] rows.skip(1)[i],
                            ) == Err::<Seq<CellModel>, ErrorModel>(e) && (forall|k: int|
                                0 <= k < i ==> row_decoded(shape, #[trigger] rows.skip(1)[k]) is Ok);
                        assert(rows.skip(1)[i0] == rows[i0 + 1]);
                        assert forall|k: int| 0 <= k < i0 + 1 implies row_decoded(
                            shape,
                            #[trigger] rows[k],
                        ) is Ok by {
                            if k > 0 {
                                assert(rows.skip(1)[k - 1] == rows[k]);
                                assert(row_decoded(shape, rows.skip(1)[k - 1]) is Ok);
                            }
                        }
                        assert(0 <= i0 + 1 < rows.len() && row_decoded(shape, rows[i0 + 1]) == Err::<
                            Seq<CellModel>,
                            ErrorModel,
                        >(e));
                    },
                    Ok(rest) => {
                        let recs = seq![rec] + rest;
                        assert(rows_decoded(shape, rows) == Ok::<Seq<Seq<CellModel>>, ErrorModel>(
                            recs,
                        ));
                        assert(recs.len() == rows.len());
                        assert(forall|i: int|
                            0 <= i < rows.len() ==> row_decoded(shape, #[trigger] rows[i]) == Ok::<
                                Seq<CellModel>,
                                ErrorModel,
                            >(recs[i])) by {
                            assert(recs[0] == rec);
                            assert(forall|i: int|
                                1 <= i < rows.len() ==> #[trigger] recs[i] == rest[i - 1]
                                    && rows[i] == rows.skip(1)[i - 1]);
                        }
                    },
                }
            },
        }
    }
}

} // verus!
