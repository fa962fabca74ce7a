use cloud_waiter::tables::{
    create_table, keyed_table_input, AttributeDefinition, CreateTableInput, KeySchemaElement,
    KeyType, ProvisionedThroughput, ScalarAttributeType,
};

#[test]
fn create_table_has_one_string_key() {
    assert_eq!(
        create_table("users", "username"),
        CreateTableInput {
            table_name: "users".to_string(),
            key_schema: vec![KeySchemaElement {
                attribute_name: "username".to_string(),
                key_type: KeyType::Hash
            }],
            attribute_definitions: vec![AttributeDefinition {
                attribute_name: "username".to_string(),
                attribute_type: ScalarAttributeType::S
            }],
            provisioned_throughput: ProvisionedThroughput {
                read_capacity_units: 10,
                write_capacity_units: 10
            },
        }
    );
}

#[test]
fn keyed_table_input_takes_the_write_capacity() {
    let input = keyed_table_input("t", "k", 3);
    assert_eq!(input.provisioned_throughput.read_capacity_units, 10);
    assert_eq!(input.provisioned_throughput.write_capacity_units, 3);
    assert_eq!(input.table_name, "t");
}

#[test]
fn create_table_with_empty_names() {
    let input = create_table("", "");
    assert_eq!(input.table_name, "");
    assert_eq!(input.key_schema.len(), 1);
    assert_eq!(input.key_schema[0].attribute_name, "");
}
