//! Records of the remote structured store.
//!
//! An [`Entity`] is a read-only snapshot of a record: a stable identifier, a
//! type and a display name. A [`Field`] binds an entity identifier and a field
//! name to a [`Value`]. The store addresses a write by the pair of entity
//! identifier and field name, so every operation on a field keeps that pair.

use vstd::prelude::*;
use vstd::string::*;

verus! {

/// The tagged content of a field.
#[derive(Debug, Clone, PartialEq, Eq)]
pub enum Value {
    /// No content was given yet.
    Unspecified,
    /// Text.
    String(String),
    /// A 64-bit signed integer.
    Integer(i64),
    /// A truth value.
    Boolean(bool),
}

/// A [`Value`] as a mathematical value.
pub enum ValueView {
    Unspecified,
    String(Seq<char>),
    Integer(int),
    Boolean(bool),
}

impl View for Value {
    type V = ValueView;

    open spec fn view(&self) -> ValueView {
        match self {
            Value::Unspecified => ValueView::Unspecified,
            Value::String(text) => ValueView::String(text@),
            Value::Integer(number) => ValueView::Integer(*number as int),
            Value::Boolean(flag) => ValueView::Boolean(*flag),
        }
    }
}

/// A record of the store, as returned by a query.
#[derive(Debug, Clone, PartialEq, Eq)]
pub struct Entity {
    pub id: String,
    pub entity_type: String,
    pub name: String,
}

/// An [`Entity`] as a mathematical value.
pub struct EntityView {
    pub id: Seq<char>,
    pub entity_type: Seq<char>,
    pub name: Seq<char>,
}

impl View for Entity {
    type V = EntityView;

    open spec fn view(&self) -> EntityView {
        EntityView { id: self.id@, entity_type: self.entity_type@, name: self.name@ }
    }
}

/// A named attribute of one entity, with its content.
#[derive(Debug, Clone, PartialEq, Eq)]
pub struct Field {
    entity_id: String,
    name: String,
    value: Value,
}

/// A [`Field`] as a mathematical value.
pub struct FieldView {
    pub entity_id: Seq<char>,
    pub name: Seq<char>,
    pub value: ValueView,
}

impl FieldView {
    /// The pair by which the store addresses a write of this field.
    pub open spec fn key(self) -> (Seq<char>, Seq<char>) {
        (self.entity_id, self.name)
    }

    /// This field with `value` as its content.
    pub open spec fn with_value(self, value: ValueView) -> FieldView {
        FieldView { entity_id: self.entity_id, name: self.name, value }
    }
}

impl EntityView {
    /// The field `name` of this entity, without content.
    pub open spec fn field(self, name: Seq<char>) -> FieldView {
        FieldView { entity_id: self.id, name, value: ValueView::Unspecified }
    }
}

impl View for Field {
    type V = FieldView;

    closed spec fn view(&self) -> FieldView {
        FieldView { entity_id: self.entity_id@, name: self.name@, value: self.value@ }
    }
}

impl Entity {
    /// A record with the given identifier, type and name.
    pub fn new(id: &str, entity_type: &str, name: &str) -> (entity: Self)
        ensures
            entity@ == (EntityView { id: id@, entity_type: entity_type@, name: name@ }),
    {
        Entity {
            id: String::from_str(id),
            entity_type: String::from_str(entity_type),
            name: String::from_str(name),
        }
    }

    /// The field `name` of this entity, ready to be given a value and written.
    pub fn field(&self, name: &str) -> (field: Field)
        ensures
            field@ == self@.field(name@),
    {
        Field {
            entity_id: self.id.clone(),
            name: String::from_str(name),
            value: Value::Unspecified,
        }
    }
}

impl Field {
    /// The field `name` of the entity `entity_id`, with `value` as its content.
    pub fn new(entity_id: &str, name: &str, value: Value) -> (field: Self)
        ensures
            field@ == (FieldView { entity_id: entity_id@, name: name@, value: value@ }),
    {
        Field { entity_id: String::from_str(entity_id), name: String::from_str(name), value }
    }

    /// The identifier of the entity this field belongs to.
    pub fn entity_id(&self) -> (id: &str)
        ensures
            id@ == self@.entity_id,
    {
        self.entity_id.as_str()
    }

    /// The name of this field.
    pub fn name(&self) -> (name: &str)
        ensures
            name@ == self@.name,
    {
        self.name.as_str()
    }

    /// The content of this field.
    pub fn value(&self) -> (value: &Value)
        ensures
            value@ == self@.value,
    {
        &self.value
    }

    /// This field with the text `value` as its content.
    pub fn set_str_value(self, value: &str) -> (field: Self)
        ensures
            field@ == self@.with_value(ValueView::String(value@)),
    {
        Field {
            entity_id: self.entity_id,
            name: self.name,
            value: Value::String(String::from_str(value)),
        }
    }

    /// This field with the integer `value` as its content.
    pub fn set_i64_value(self, value: i64) -> (field: Self)
        ensures
            field@ == self@.with_value(ValueView::Integer(value as int)),
    {
        Field { entity_id: self.entity_id, name: self.name, value: Value::Integer(value) }
    }

    /// This field with the truth value `value` as its content.
    pub fn set_bool_value(self, value: bool) -> (field: Self)
        ensures
            field@ == self@.with_value(ValueView::Boolean(value)),
    {
        Field { entity_id: self.entity_id, name: self.name, value: Value::Boolean(value) }
    }
}

/// Write key preservation. A field taken from an entity addresses that entity
/// under the name asked for, and giving it a value, any number of times,
/// changes its content and nothing else.
pub proof fn lemma_write_key_preserved(
    entity: EntityView,
    name: Seq<char>,
    first: ValueView,
    second: ValueView,
)
    ensures
        entity.field(name).key() == (entity.id, name),
        entity.field(name).with_value(first).key() == (entity.id, name),
        entity.field(name).with_value(first).value == first,
        entity.field(name).with_value(first).with_value(second) == entity.field(name).with_value(
            second,
        ),
{
}

} // verus!
