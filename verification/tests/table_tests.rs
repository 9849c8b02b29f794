use tablefy::generate::{row_values, FieldValue, Value};
use tablefy::schema::{Field, FieldsShape, RecordData, TypeDecl, TypeRepr};
use tablefy::{into_string, into_table, tablefy, Basic, Tablefy};

fn sample() -> Vec<Basic> {
    vec![
        Basic {
            something: String::from("a"),
            otherthing: 2,
            newthing: 3,
            maybe: None,
        },
        Basic {
            something: String::from("b"),
            otherthing: 3,
            newthing: 4,
            maybe: Some(String::from("x")),
        },
    ]
}

#[test]
fn basic_headers_are_the_field_names() {
    assert_eq!(
        Basic::get_headers(),
        vec!["something", "otherthing", "newthing", "maybe"]
    );
}

#[test]
fn basic_row_renders_each_field() {
    let data = sample();
    assert_eq!(data[0].into_vec(), vec!["a", "2", "3", ""]);
    assert_eq!(data[1].into_vec(), vec!["b", "3", "4", "x"]);
}

#[test]
fn headers_and_rows_have_the_same_length() {
    let data = sample();
    for record in &data {
        assert_eq!(Basic::get_headers().len(), record.into_vec().len());
    }
}

#[test]
fn headers_are_stable_across_calls() {
    assert_eq!(Basic::get_headers(), Basic::get_headers());
    let data = sample();
    assert_eq!(data[0].into_vec(), data[0].into_vec());
}

#[test]
fn assembled_table_holds_one_row_per_record() {
    let data = sample();
    let table = into_table(&data);
    assert_eq!(table.len(), 2);
    let first = table.get_row(0).unwrap();
    assert_eq!(first.get_cell(0).unwrap().get_content(), "a");
    assert_eq!(first.get_cell(1).unwrap().get_content(), "2");
    assert_eq!(first.get_cell(2).unwrap().get_content(), "3");
    assert_eq!(first.get_cell(3).unwrap().get_content(), "");
    let second = table.get_row(1).unwrap();
    assert_eq!(second.get_cell(0).unwrap().get_content(), "b");
    assert_eq!(second.get_cell(1).unwrap().get_content(), "3");
    assert_eq!(second.get_cell(2).unwrap().get_content(), "4");
    assert_eq!(second.get_cell(3).unwrap().get_content(), "x");
}

#[test]
fn empty_input_yields_only_the_title_row() {
    let data: Vec<Basic> = vec![];
    let table = into_table(&data);
    assert_eq!(table.len(), 0);
    let text = into_string(&data);
    assert!(text.contains("something"));
    assert!(text.contains("maybe"));
}

#[test]
fn rendered_text_holds_headers_and_values_in_order() {
    let data = sample();
    let text = into_string(&data);
    assert!(text.contains("something"));
    assert!(text.contains("otherthing"));
    assert!(text.contains("newthing"));
    assert!(text.contains("maybe"));
    let header_at = text.find("something").unwrap();
    let a_at = text.find("| a").unwrap();
    let b_at = text.find("| b").unwrap();
    assert!(header_at < a_at && a_at < b_at);
}

#[test]
fn tablefy_matches_into_string() {
    let data = sample();
    assert_eq!(tablefy(data.clone()), into_string(&data));
}

#[test]
fn generated_plan_agrees_with_basic() {
    // The generator, fed Basic's own declaration, produces exactly the
    // headers and rows that Basic's implementation produces.
    let decl = TypeDecl {
        name: String::from("Basic"),
        data: RecordData::StructData(FieldsShape::Named(vec![
            Field {
                name: String::from("something"),
                ty: TypeRepr::Path(vec![String::from("String")]),
                attrs: vec![],
            },
            Field {
                name: String::from("otherthing"),
                ty: TypeRepr::Path(vec![String::from("i16")]),
                attrs: vec![],
            },
            Field {
                name: String::from("newthing"),
                ty: TypeRepr::Path(vec![String::from("i8")]),
                attrs: vec![],
            },
            Field {
                name: String::from("maybe"),
                ty: TypeRepr::Path(vec![String::from("Option")]),
                attrs: vec![],
            },
        ])),
    };
    let plan = tablefy::generate::derive(&decl).ok().unwrap();
    assert_eq!(plan.headers, Basic::get_headers());
    let data = sample();
    for record in &data {
        let values = vec![
            FieldValue::Plain(Value::Text(record.something.clone())),
            FieldValue::Plain(Value::Int(record.otherthing as i64)),
            FieldValue::Plain(Value::Int(record.newthing as i64)),
            FieldValue::Optional(record.maybe.clone().map(Value::Text)),
        ];
        assert_eq!(row_values(&plan, &values), record.into_vec());
    }
}
