//! A table of movies, keyed by year and title: its shape, its items as
//! they come out of a JSON document, and the query for one year.

use vstd::prelude::*;
use vstd::std_specs::vec::axiom_vec_index_decreases;
use crate::tables::AttributeDefinition;
use crate::tables::CreateTableInput;
use crate::tables::KeySchemaElement;
use crate::tables::KeyType;
use crate::tables::ProvisionedThroughput;
use crate::tables::ScalarAttributeType;
use crate::tables::TableShape;
use crate::values::Attribute;
use crate::values::AttributeValue;
use crate::values::Entries;
use crate::values::Item;
use crate::values::first_at;
use crate::values::put;

verus! {

/// A JSON value. A number is held as it is written in decimal, and the
/// members of an object in the order of the document.
#[derive(Debug, PartialEq, Eq)]
pub enum Json {
    Null,
    Bool(bool),
    Number(String),
    String(String),
    Array(Vec<Json>),
    Object(Vec<(String, Json)>),
}

/// The mathematical counterpart of [`Json`].
pub ghost enum JsonTree {
    Null,
    Bool(bool),
    Number(Seq<char>),
    String(Seq<char>),
    Array(Seq<JsonTree>),
    Object(Seq<(Seq<char>, JsonTree)>),
}

/// The mathematical counterpart of a JSON value.
pub open spec fn tree_of(value: Json) -> JsonTree
    decreases value,
{
    match value {
        Json::Null => JsonTree::Null,
        Json::Bool(b) => JsonTree::Bool(b),
        Json::Number(n) => JsonTree::Number(n@),
        Json::String(s) => JsonTree::String(s@),
        Json::Array(values) => JsonTree::Array(
            Seq::new(
                values@.len(),
                |i: int|
                    if 0 <= i < values@.len() {
                        tree_of(values@[i])
                    } else {
                        JsonTree::Null
                    },
            ),
        ),
        Json::Object(members) => JsonTree::Object(
            Seq::new(
                members@.len(),
                |i: int|
                    if 0 <= i < members@.len() {
                        (members@[i].0@, tree_of(members@[i].1))
                    } else {
                        (Seq::empty(), JsonTree::Null)
                    },
            ),
        ),
    }
}

impl View for Json {
    type V = JsonTree;

    open spec fn view(&self) -> JsonTree {
        tree_of(*self)
    }
}

/// The attribute value that stands for a JSON value: null becomes the null
/// value, booleans, numbers and strings keep what they hold, an array
/// becomes the list of its elements' values, and an object the map of its
/// members' values, in the same order.
pub open spec fn attribute_for(tree: JsonTree) -> Attribute
    decreases tree,
{
    match tree {
        JsonTree::Null => Attribute::Null(true),
        JsonTree::Bool(b) => Attribute::Bool(b),
        JsonTree::Number(n) => Attribute::N(n),
        JsonTree::String(s) => Attribute::S(s),
        JsonTree::Array(values) => Attribute::L(
            Seq::new(
                values.len(),
                |i: int|
                    if 0 <= i < values.len() {
                        attribute_for(values[i])
                    } else {
                        Attribute::Null(true)
                    },
            ),
        ),
        JsonTree::Object(members) => Attribute::M(
            Seq::new(
                members.len(),
                |i: int|
                    if 0 <= i < members.len() {
                        (members[i].0, attribute_for(members[i].1))
                    } else {
                        (Seq::empty(), Attribute::Null(true))
                    },
            ),
        ),
    }
}

/// Turns a JSON value into the attribute value that stands for it.
pub fn value_to_item(value: &Json) -> (item: AttributeValue)
    ensures
        item@ == attribute_for(value@),
    decreases value,
{
    match value {
        Json::Null => AttributeValue::Null(true),
        Json::Bool(b) => AttributeValue::Bool(*b),
        Json::Number(n) => AttributeValue::N(n.clone()),
        Json::String(s) => AttributeValue::S(s.clone()),
        Json::Array(values) => {
            let mut items: Vec<AttributeValue> = Vec::new();
            let mut i: usize = 0;
            while i < values.len()
                invariant
                    i <= values.len(),
                    items@.len() == i,
                    *value == Json::Array(*values),
                    forall|j: int| 0 <= j < i ==> (#[trigger] items@[j])@ == attribute_for(values@[j]@),
                decreases values.len() - i,
            {
                proof {
                    axiom_vec_index_decreases(*values, i as int);
                    assert(decreases_to!(*value => value->Array_0));
                }
                let item = value_to_item(&values[i]);
                items.push(item);
                i = i + 1;
            }
            let list = AttributeValue::L(items);
            assert(list@->L_0 =~= attribute_for(value@)->L_0);
            list
        },
        Json::Object(members) => {
            let mut entries: Vec<(String, AttributeValue)> = Vec::new();
            let mut i: usize = 0;
            while i < members.len()
                invariant
                    i <= members.len(),
                    entries@.len() == i,
                    *value == Json::Object(*members),
                    forall|j: int|
                        0 <= j < i ==> (#[trigger] entries@[j]).0@ == members@[j].0@
                            && entries@[j].1@ == attribute_for(members@[j].1@),
                decreases members.len() - i,
            {
                proof {
                    axiom_vec_index_decreases(*members, i as int);
                    assert(decreases_to!(*value => value->Object_0));
                }
                let item = value_to_item(&members[i].1);
                entries.push((members[i].0.clone(), item));
                i = i + 1;
            }
            let map = AttributeValue::M(entries);
            assert(map@->M_0 =~= attribute_for(value@)->M_0);
            map
        },
    }
}

/// `entries` stored one after the other into `base`: a name that occurs
/// again replaces what it held.
pub open spec fn put_all(base: Entries, entries: Entries) -> Entries
    decreases entries.len(),
{
    if entries.len() == 0 {
        base
    } else {
        put(put_all(base, entries.drop_last()), entries.last().0, entries.last().1)
    }
}

/// The item that a JSON object stands for.
pub open spec fn item_for(tree: JsonTree) -> Entries
    recommends
        tree is Object,
{
    put_all(Seq::empty(), attribute_for(tree)->M_0)
}

/// Turns a JSON object into an item: each member becomes an attribute, and
/// of members with the same name the last one stands.
pub fn parse_item(value: &Json) -> (item: Item)
    requires
        value@ is Object,
    ensures
        item@ == item_for(value@),
{
    match value {
        Json::Object(members) => {
            let ghost all = attribute_for(value@)->M_0;
            let mut item = Item::new();
            let mut i: usize = 0;
            while i < members.len()
                invariant
                    i <= members.len(),
                    *value == Json::Object(*members),
                    all == attribute_for(value@)->M_0,
                    all.len() == members.len(),
                    item@ == put_all(Seq::empty(), all.take(i as int)),
                decreases members.len() - i,
            {
                let converted = value_to_item(&members[i].1);
                item = item.item(members[i].0.as_str(), converted);
                proof {
                    let next = all.take(i + 1);
                    assert(next.drop_last() =~= all.take(i as int));
                    assert(next.last() == all[i as int]);
                }
                i = i + 1;
            }
            assert(all.take(i as int) =~= all);
            item
        },
        _ => Item::new(),
    }
}

/// The decimal digit for `d`, which is below ten.
pub open spec fn digit(d: nat) -> char {
    ((48 + d) as u8) as char
}

/// `n` written out in decimal, without leading zeros.
pub open spec fn decimal(n: nat) -> Seq<char>
    decreases n,
{
    if n < 10 {
        seq![digit(n)]
    } else {
        decimal(n / 10).push(digit(n % 10))
    }
}

/// Appends `n`, written out in decimal, to `text`.
fn push_decimal(text: &mut String, n: u16)
    ensures
        final(text)@ == old(text)@ + decimal(n as nat),
    decreases n,
{
    if n >= 10 {
        push_decimal(text, n / 10);
    }
    let ghost before = text@;
    let last: u8 = 48 + (n % 10) as u8;
    text.push(last as char);
    proof {
        if n >= 10 {
            assert(text@ =~= old(text)@ + decimal((n / 10) as nat).push(digit((n % 10) as nat)));
        } else {
            assert(text@ =~= old(text)@ + seq![digit(n as nat)]);
        }
    }
}

/// Writes a year out in decimal.
fn year_text(year: u16) -> (text: String)
    ensures
        text@ == decimal(year as nat),
{
    let mut text = String::new();
    push_decimal(&mut text, year);
    assert(Seq::<char>::empty() + decimal(year as nat) =~= decimal(year as nat));
    text
}

/// A query by key condition.
#[derive(Debug, PartialEq, Eq)]
pub struct QueryInput {
    /// The table to query.
    pub table_name: String,
    /// The condition that the keys of the items must meet.
    pub key_condition_expression: String,
    /// What each `#name` in the condition stands for.
    pub expression_attribute_names: Vec<(String, String)>,
    /// What each `:value` in the condition stands for.
    pub expression_attribute_values: Item,
}

/// The mathematical counterpart of [`QueryInput`].
pub ghost struct QueryShape {
    pub table_name: Seq<char>,
    pub key_condition_expression: Seq<char>,
    pub expression_attribute_names: Seq<(Seq<char>, Seq<char>)>,
    pub expression_attribute_values: Entries,
}

impl View for QueryInput {
    type V = QueryShape;

    open spec fn view(&self) -> QueryShape {
        QueryShape {
            table_name: self.table_name@,
            key_condition_expression: self.key_condition_expression@,
            expression_attribute_names: Seq::new(
                self.expression_attribute_names@.len(),
                |i: int|
                    (
                        self.expression_attribute_names@[i].0@,
                        self.expression_attribute_names@[i].1@,
                    ),
            ),
            expression_attribute_values: self.expression_attribute_values@,
        }
    }
}

/// The query for the movies of `year`: the attribute `year`, under the
/// name `#yr`, equals the year, written in decimal as the number `:yyyy`.
pub open spec fn year_query(table_name: Seq<char>, year: u16) -> QueryShape {
    QueryShape {
        table_name,
        key_condition_expression: "#yr = :yyyy"@,
        expression_attribute_names: seq![("#yr"@, "year"@)],
        expression_attribute_values: seq![(":yyyy"@, Attribute::N(decimal(year as nat)))],
    }
}

/// Builds the query for the movies of `year` in the table `table_name`.
pub fn movies_in_year(table_name: &String, year: u16) -> (query: QueryInput)
    ensures
        query@ == year_query(table_name@, year),
{
    let mut names: Vec<(String, String)> = Vec::new();
    names.push(("#yr".to_owned(), "year".to_owned()));
    let values = Item::new().item(":yyyy", AttributeValue::N(year_text(year)));
    proof {
        assert forall|i: int| !first_at(Seq::<(Seq<char>, Attribute)>::empty(), ":yyyy"@, i) by {}
        assert(values@ =~= seq![(":yyyy"@, Attribute::N(decimal(year as nat)))]);
    }
    let query = QueryInput {
        table_name: table_name.clone(),
        key_condition_expression: "#yr = :yyyy".to_owned(),
        expression_attribute_names: names,
        expression_attribute_values: values,
    };
    assert(query@.expression_attribute_names =~= seq![("#yr"@, "year"@)]);
    query
}

/// The shape of the table of movies: the year, a number, is the partition
/// key and the title, a string, the sort key; ten reads and ten writes per
/// second.
pub open spec fn movies_table(table_name: Seq<char>) -> TableShape {
    TableShape {
        table_name,
        key_schema: seq![("year"@, KeyType::Hash), ("title"@, KeyType::Range)],
        attribute_definitions: seq![
            ("year"@, ScalarAttributeType::N),
            ("title"@, ScalarAttributeType::S),
        ],
        provisioned_throughput: ProvisionedThroughput {
            read_capacity_units: 10,
            write_capacity_units: 10,
        },
    }
}

/// Builds the request that creates the table of movies under the name
/// `table_name`.
pub fn create_table(table_name: &String) -> (input: CreateTableInput)
    ensures
        input@ == movies_table(table_name@),
{
    let mut key_schema: Vec<KeySchemaElement> = Vec::new();
    key_schema.push(KeySchemaElement { attribute_name: "year".to_owned(), key_type: KeyType::Hash });
    key_schema.push(
        KeySchemaElement { attribute_name: "title".to_owned(), key_type: KeyType::Range },
    );
    let mut attribute_definitions: Vec<AttributeDefinition> = Vec::new();
    attribute_definitions.push(
        AttributeDefinition {
            attribute_name: "year".to_owned(),
            attribute_type: ScalarAttributeType::N,
        },
    );
    attribute_definitions.push(
        AttributeDefinition {
            attribute_name: "title".to_owned(),
            attribute_type: ScalarAttributeType::S,
        },
    );
    let input = CreateTableInput {
        table_name: table_name.clone(),
        key_schema,
        attribute_definitions,
        provisioned_throughput: ProvisionedThroughput {
            read_capacity_units: 10,
            write_capacity_units: 10,
        },
    };
    assert(input@.key_schema =~= movies_table(table_name@).key_schema);
    assert(input@.attribute_definitions =~= movies_table(table_name@).attribute_definitions);
    input
}

} // verus!
