use snowflake_deserialize::Error;
use snowflake_deserialize::MetaData;
use snowflake_deserialize::PartitionInfo;
use snowflake_deserialize::RowType;
use snowflake_deserialize::SnowflakeSqlResponse;
use snowflake_deserialize::assemble::ColumnType;
use snowflake_deserialize::assemble::FieldDef;
use snowflake_deserialize::assemble::TypedCell;
use snowflake_deserialize::assemble::assemble_records;
use snowflake_deserialize::assemble::select_columns;

fn column(name: &str, data_type: &str, nullable: bool) -> RowType {
    RowType {
        name: name.to_string(),
        database: "db".to_string(),
        schema: "public".to_string(),
        table: "people".to_string(),
        precision: None,
        byte_length: None,
        data_type: data_type.to_string(),
        scale: None,
        nullable,
    }
}

fn response(rows: Vec<Vec<Option<String>>>, partitions: usize) -> SnowflakeSqlResponse {
    let mut partition_info = Vec::new();
    for _ in 0..partitions {
        partition_info.push(PartitionInfo { row_count: rows.len(), uncompressed_size: 0 });
    }
    SnowflakeSqlResponse {
        result_set_meta_data: MetaData {
            num_rows: rows.len(),
            format: "json".to_string(),
            row_type: vec![column("id", "fixed", false), column("name", "text", true)],
            partition_info,
        },
        data: rows,
        code: "090001".to_string(),
        statement_status_url: "/api/v2/statements/1".to_string(),
        request_id: "req-1".to_string(),
        sql_state: "00000".to_string(),
        message: "Statement executed successfully.".to_string(),
        statement_handle: "handle-1".to_string(),
    }
}

fn id_name_shape() -> Vec<FieldDef> {
    vec![
        FieldDef { name: "id".to_string(), column: 0, ty: ColumnType::I32, nullable: false },
        FieldDef { name: "name".to_string(), column: 1, ty: ColumnType::Text, nullable: true },
    ]
}

fn cells(row: &[Option<&str>]) -> Vec<Option<String>> {
    row.iter().map(|c| c.map(|s| s.to_string())).collect()
}

#[test]
fn two_rows_assemble_in_order() {
    let resp = response(
        vec![cells(&[Some("1"), Some("Alice")]), cells(&[Some("2"), None])],
        1,
    );
    let result = assemble_records(&id_name_shape(), &resp).unwrap();
    assert_eq!(
        result.data,
        vec![
            vec![TypedCell::I32(1), TypedCell::Text("Alice".to_string())],
            vec![TypedCell::I32(2), TypedCell::Null],
        ]
    );
}

#[test]
fn unparseable_id_names_the_field() {
    let resp = response(vec![cells(&[Some("x"), Some("Alice")])], 1);
    let err = assemble_records(&id_name_shape(), &resp).unwrap_err();
    assert_eq!(
        err,
        Error::Field {
            field: "id".to_string(),
            err: Box::new(Error::Format {
                given: "x".to_string(),
                err: "invalid digit found in string".to_string(),
            }),
        }
    );
}

#[test]
fn three_rows_all_or_nothing() {
    let resp = response(
        vec![
            cells(&[Some("1"), Some("Alice")]),
            cells(&[Some("oops"), Some("Bob")]),
            cells(&[Some("3"), Some("Carol")]),
        ],
        1,
    );
    let out = assemble_records(&id_name_shape(), &resp);
    match out {
        Err(Error::Field { field, err }) => {
            assert_eq!(field, "id");
            assert_eq!(
                *err,
                Error::Format {
                    given: "oops".to_string(),
                    err: "invalid digit found in string".to_string(),
                }
            );
        },
        other => panic!("expected one field error and no records, got {:?}", other),
    }
}

#[test]
fn missing_cell_of_required_field() {
    let resp = response(vec![cells(&[None, Some("Alice")])], 1);
    let err = assemble_records(&id_name_shape(), &resp).unwrap_err();
    assert_eq!(
        err,
        Error::Field { field: "id".to_string(), err: Box::new(Error::UnexpectedNull) }
    );
}

#[test]
fn zero_rows_yield_empty_success() {
    let resp = response(vec![], 1);
    let result = assemble_records(&id_name_shape(), &resp).unwrap();
    assert_eq!(result.data, Vec::<Vec<TypedCell>>::new());
}

#[test]
fn declared_row_count_is_only_a_hint() {
    let mut resp = response(vec![cells(&[Some("1"), Some("Alice")])], 1);
    resp.result_set_meta_data.num_rows = 100;
    let result = assemble_records(&id_name_shape(), &resp).unwrap();
    assert_eq!(result.data.len(), 1);
}

#[test]
fn single_partition_is_not_partitioned() {
    let resp = response(vec![], 1);
    assert!(!resp.has_partitions());
}

#[test]
fn two_partitions_are_partitioned() {
    let resp = response(vec![], 2);
    assert!(resp.has_partitions());
    let more = response(vec![], 5);
    assert!(more.has_partitions());
}

#[test]
fn no_partition_info_is_not_partitioned() {
    let resp = response(vec![], 0);
    assert!(!resp.has_partitions());
}

#[test]
fn select_list_joins_names() {
    assert_eq!(select_columns(&id_name_shape()), "id, name");
    assert_eq!(select_columns(&Vec::new()), "");
    let one = vec![FieldDef {
        name: "id".to_string(),
        column: 0,
        ty: ColumnType::I32,
        nullable: false,
    }];
    assert_eq!(select_columns(&one), "id");
}

#[test]
fn raw_records_keep_rows_verbatim() {
    let rows = vec![cells(&[Some("1"), None]), cells(&[Some("2"), Some("Bob")])];
    let resp = response(rows.clone(), 1);
    let result = resp.deserialize::<Vec<Option<String>>>().unwrap();
    assert_eq!(result.data, rows);
}

#[test]
fn wide_row_of_every_type() {
    let shape = vec![
        FieldDef { name: "b".to_string(), column: 0, ty: ColumnType::Bool, nullable: false },
        FieldDef { name: "i".to_string(), column: 1, ty: ColumnType::I64, nullable: false },
        FieldDef { name: "u".to_string(), column: 2, ty: ColumnType::U8, nullable: false },
        FieldDef { name: "c".to_string(), column: 3, ty: ColumnType::Char, nullable: false },
        FieldDef { name: "g".to_string(), column: 4, ty: ColumnType::Uuid, nullable: true },
    ];
    let resp = response(
        vec![cells(&[
            Some("true"),
            Some("-5"),
            Some("7"),
            Some("z"),
            Some("00000000-0000-0000-0000-000000000001"),
        ])],
        1,
    );
    let result = assemble_records(&shape, &resp).unwrap();
    assert_eq!(result.data.len(), 1);
    assert_eq!(result.data[0][0], TypedCell::Bool(true));
    assert_eq!(result.data[0][1], TypedCell::I64(-5));
    assert_eq!(result.data[0][2], TypedCell::U8(7));
    assert_eq!(result.data[0][3], TypedCell::Char('z'));
    match &result.data[0][4] {
        TypedCell::Uuid(u) => assert_eq!(u.value, 1),
        other => panic!("expected a uuid cell, got {:?}", other),
    }
}
