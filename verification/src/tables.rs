//! The shape of a table, as a request to create it states it.

use vstd::prelude::*;

verus! {

/// The role of an attribute in a table's key.
#[derive(Clone, Copy, Debug, PartialEq, Eq, Structural)]
pub enum KeyType {
    /// The partition key.
    Hash,
    /// The sort key.
    Range,
}

/// The type of a key attribute.
#[derive(Clone, Copy, Debug, PartialEq, Eq, Structural)]
pub enum ScalarAttributeType {
    /// A string.
    S,
    /// A number.
    N,
    /// Binary data.
    B,
}

/// One attribute of a table's key.
#[derive(Debug, PartialEq, Eq)]
pub struct KeySchemaElement {
    /// The attribute's name.
    pub attribute_name: String,
    /// The attribute's role in the key.
    pub key_type: KeyType,
}

/// The type of one attribute.
#[derive(Debug, PartialEq, Eq)]
pub struct AttributeDefinition {
    /// The attribute's name.
    pub attribute_name: String,
    /// The attribute's type.
    pub attribute_type: ScalarAttributeType,
}

/// The capacity that a table is provisioned with.
#[derive(Clone, Copy, Debug, PartialEq, Eq, Structural)]
pub struct ProvisionedThroughput {
    /// Reads per second.
    pub read_capacity_units: i64,
    /// Writes per second.
    pub write_capacity_units: i64,
}

/// A request to create a table.
#[derive(Debug, PartialEq, Eq)]
pub struct CreateTableInput {
    /// The table's name.
    pub table_name: String,
    /// The attributes that make up the key.
    pub key_schema: Vec<KeySchemaElement>,
    /// The types of the key attributes.
    pub attribute_definitions: Vec<AttributeDefinition>,
    /// The capacity to provision.
    pub provisioned_throughput: ProvisionedThroughput,
}

/// The mathematical counterpart of [`CreateTableInput`].
pub ghost struct TableShape {
    pub table_name: Seq<char>,
    pub key_schema: Seq<(Seq<char>, KeyType)>,
    pub attribute_definitions: Seq<(Seq<char>, ScalarAttributeType)>,
    pub provisioned_throughput: ProvisionedThroughput,
}

impl View for KeySchemaElement {
    type V = (Seq<char>, KeyType);

    open spec fn view(&self) -> (Seq<char>, KeyType) {
        (self.attribute_name@, self.key_type)
    }
}

impl View for AttributeDefinition {
    type V = (Seq<char>, ScalarAttributeType);

    open spec fn view(&self) -> (Seq<char>, ScalarAttributeType) {
        (self.attribute_name@, self.attribute_type)
    }
}

impl View for CreateTableInput {
    type V = TableShape;

    open spec fn view(&self) -> TableShape {
        TableShape {
            table_name: self.table_name@,
            key_schema: Seq::new(self.key_schema@.len(), |i: int| self.key_schema@[i]@),
            attribute_definitions: Seq::new(
                self.attribute_definitions@.len(),
                |i: int| self.attribute_definitions@[i]@,
            ),
            provisioned_throughput: self.provisioned_throughput,
        }
    }
}

/// The shape of a table with a single string key named `key_name`, ten
/// reads and `writes` writes per second.
pub open spec fn keyed_table(table_name: Seq<char>, key_name: Seq<char>, writes: i64) -> TableShape {
    TableShape {
        table_name,
        key_schema: seq![(key_name, KeyType::Hash)],
        attribute_definitions: seq![(key_name, ScalarAttributeType::S)],
        provisioned_throughput: ProvisionedThroughput {
            read_capacity_units: 10,
            write_capacity_units: writes,
        },
    }
}

/// Builds the request for a table with a single string key named
/// `key_name`, ten reads and `writes` writes per second.
pub fn keyed_table_input(table_name: &str, key_name: &str, writes: i64) -> (input: CreateTableInput)
    ensures
        input@ == keyed_table(table_name@, key_name@, writes),
{
    let mut key_schema: Vec<KeySchemaElement> = Vec::new();
    key_schema.push(
        KeySchemaElement { attribute_name: key_name.to_owned(), key_type: KeyType::Hash },
    );
    let mut attribute_definitions: Vec<AttributeDefinition> = Vec::new();
    attribute_definitions.push(
        AttributeDefinition {
            attribute_name: key_name.to_owned(),
            attribute_type: ScalarAttributeType::S,
        },
    );
    let input = CreateTableInput {
        table_name: table_name.to_owned(),
        key_schema,
        attribute_definitions,
        provisioned_throughput: ProvisionedThroughput {
            read_capacity_units: 10,
            write_capacity_units: writes,
        },
    };
    assert(input@.key_schema =~= seq![(key_name@, KeyType::Hash)]);
    assert(input@.attribute_definitions =~= seq![(key_name@, ScalarAttributeType::S)]);
    input
}

/// Builds the request for a table named `table_name` whose key is the
/// string attribute `key_name`, with ten reads and ten writes per second.
pub fn create_table(table_name: &str, key_name: &str) -> (input: CreateTableInput)
    ensures
        input@ == keyed_table(table_name@, key_name@, 10),
{
    keyed_table_input(table_name, key_name, 10)
}

} // verus!
