use cloud_waiter::movies::{create_table, movies_in_year, parse_item, value_to_item, Json, QueryInput};
use cloud_waiter::tables::{
    AttributeDefinition, KeySchemaElement, KeyType, ProvisionedThroughput, ScalarAttributeType,
};
use cloud_waiter::values::{AttributeValue, Item};

fn s(text: &str) -> String {
    text.to_string()
}

#[test]
fn scalars_keep_what_they_hold() {
    assert_eq!(value_to_item(&Json::Null), AttributeValue::Null(true));
    assert_eq!(value_to_item(&Json::Bool(false)), AttributeValue::Bool(false));
    assert_eq!(value_to_item(&Json::Bool(true)), AttributeValue::Bool(true));
    assert_eq!(value_to_item(&Json::Number(s("2013"))), AttributeValue::N(s("2013")));
    assert_eq!(value_to_item(&Json::Number(s("-1.5e3"))), AttributeValue::N(s("-1.5e3")));
    assert_eq!(value_to_item(&Json::String(s("Rush"))), AttributeValue::S(s("Rush")));
}

#[test]
fn arrays_become_lists() {
    let json = Json::Array(vec![Json::Number(s("1")), Json::Null, Json::Array(vec![])]);
    assert_eq!(
        value_to_item(&json),
        AttributeValue::L(vec![
            AttributeValue::N(s("1")),
            AttributeValue::Null(true),
            AttributeValue::L(vec![]),
        ])
    );
}

#[test]
fn objects_become_maps_in_order() {
    let json = Json::Object(vec![
        (s("year"), Json::Number(s("2013"))),
        (s("title"), Json::String(s("Rush"))),
        (
            s("info"),
            Json::Object(vec![(s("genres"), Json::Array(vec![Json::String(s("Action"))]))]),
        ),
    ]);
    assert_eq!(
        value_to_item(&json),
        AttributeValue::M(vec![
            (s("year"), AttributeValue::N(s("2013"))),
            (s("title"), AttributeValue::S(s("Rush"))),
            (
                s("info"),
                AttributeValue::M(vec![(
                    s("genres"),
                    AttributeValue::L(vec![AttributeValue::S(s("Action"))])
                )])
            ),
        ])
    );
}

#[test]
fn parse_item_gives_the_members_as_attributes() {
    let json = Json::Object(vec![
        (s("year"), Json::Number(s("2013"))),
        (s("title"), Json::String(s("Turn It Down, Or Else!"))),
    ]);
    assert_eq!(
        parse_item(&json),
        Item {
            entries: vec![
                (s("year"), AttributeValue::N(s("2013"))),
                (s("title"), AttributeValue::S(s("Turn It Down, Or Else!"))),
            ]
        }
    );
}

#[test]
fn parse_item_lets_the_last_of_equal_names_stand() {
    let json = Json::Object(vec![
        (s("a"), Json::Number(s("1"))),
        (s("b"), Json::Number(s("2"))),
        (s("a"), Json::Number(s("3"))),
    ]);
    assert_eq!(
        parse_item(&json),
        Item {
            entries: vec![(s("a"), AttributeValue::N(s("3"))), (s("b"), AttributeValue::N(s("2")))]
        }
    );
}

#[test]
fn parse_item_of_an_empty_object() {
    assert_eq!(parse_item(&Json::Object(vec![])), Item { entries: vec![] });
}

#[test]
fn query_for_a_year() {
    assert_eq!(
        movies_in_year(&s("movies"), 2013),
        QueryInput {
            table_name: s("movies"),
            key_condition_expression: s("#yr = :yyyy"),
            expression_attribute_names: vec![(s("#yr"), s("year"))],
            expression_attribute_values: Item {
                entries: vec![(s(":yyyy"), AttributeValue::N(s("2013")))]
            },
        }
    );
}

#[test]
fn year_is_written_in_decimal() {
    let year_of = |year: u16| movies_in_year(&s("m"), year).expression_attribute_values;
    assert_eq!(year_of(0).get(":yyyy"), Some(&AttributeValue::N(s("0"))));
    assert_eq!(year_of(7).get(":yyyy"), Some(&AttributeValue::N(s("7"))));
    assert_eq!(year_of(10).get(":yyyy"), Some(&AttributeValue::N(s("10"))));
    assert_eq!(year_of(2222).get(":yyyy"), Some(&AttributeValue::N(s("2222"))));
    assert_eq!(year_of(65535).get(":yyyy"), Some(&AttributeValue::N(s("65535"))));
}

#[test]
fn movies_table_is_keyed_by_year_and_title() {
    let input = create_table(&s("movies"));
    assert_eq!(input.table_name, "movies");
    assert_eq!(
        input.key_schema,
        vec![
            KeySchemaElement { attribute_name: s("year"), key_type: KeyType::Hash },
            KeySchemaElement { attribute_name: s("title"), key_type: KeyType::Range },
        ]
    );
    assert_eq!(
        input.attribute_definitions,
        vec![
            AttributeDefinition { attribute_name: s("year"), attribute_type: ScalarAttributeType::N },
            AttributeDefinition { attribute_name: s("title"), attribute_type: ScalarAttributeType::S },
        ]
    );
    assert_eq!(
        input.provisioned_throughput,
        ProvisionedThroughput { read_capacity_units: 10, write_capacity_units: 10 }
    );
}
