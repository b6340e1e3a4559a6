//! Schema compatibility: which types the columnar model can carry, and what
//! becomes of a schema that holds others.

use crate::connection::DuckDbConnection;
use crate::error::ConnectionError;
use crate::policy::UnsupportedTypeAction;
use crate::schema::{share, DataType, Field, Schema};
use std::sync::Arc;
use vstd::prelude::*;

verus! {

impl DataType {
    /// Whether the type is numeric: an integer, a float or a decimal.
    pub open spec fn numeric(self) -> bool {
        match self {
            DataType::UInt8
            | DataType::UInt16
            | DataType::UInt32
            | DataType::UInt64
            | DataType::Int8
            | DataType::Int16
            | DataType::Int32
            | DataType::Int64
            | DataType::Float16
            | DataType::Float32
            | DataType::Float64
            | DataType::Decimal32(_, _)
            | DataType::Decimal64(_, _)
            | DataType::Decimal128(_, _)
            | DataType::Decimal256(_, _) => true,
            _ => false,
        }
    }

    /// Whether the type is temporal: a date, a time, a timestamp, a duration
    /// or an interval.
    pub open spec fn temporal(self) -> bool {
        match self {
            DataType::Date32
            | DataType::Date64
            | DataType::Timestamp(_, _)
            | DataType::Time32(_)
            | DataType::Time64(_)
            | DataType::Duration(_)
            | DataType::Interval(_) => true,
            _ => false,
        }
    }

    /// Whether the type is primitive: numeric or temporal.
    pub open spec fn primitive(self) -> bool {
        self.numeric() || self.temporal()
    }

    /// Whether a list may hold elements of this type: primitives, text,
    /// binary, their view forms, and booleans.
    pub open spec fn list_element(self) -> bool {
        self.primitive() || match self {
            DataType::Utf8
            | DataType::Binary
            | DataType::Utf8View
            | DataType::BinaryView
            | DataType::Boolean => true,
            _ => false,
        }
    }

    /// The structural rule: a list of any kind is supported iff its element
    /// type may stand in a list, a record iff every member is supported, and
    /// every other type is.
    pub open spec fn supported(self) -> bool
        decreases self,
    {
        match self {
            DataType::List(element)
            | DataType::FixedSizeList(element, _)
            | DataType::LargeList(element) => element.data_type.list_element(),
            DataType::Struct(members) => forall|i: int|
                0 <= i < members@.len() ==> (#[trigger] members@[i]).data_type.supported(),
            _ => true,
        }
    }

    /// The built-in rule of which types the engine has a native type for.
    /// It goes by the outermost shape alone: there is no counterpart for the
    /// null type, half-precision floats, list views, dictionaries and
    /// run-end encoded values.
    pub open spec fn engine_native(self) -> bool {
        match self {
            DataType::Null
            | DataType::Float16
            | DataType::ListView(_)
            | DataType::LargeListView(_)
            | DataType::Dictionary(_, _)
            | DataType::RunEndEncoded(_, _) => false,
            _ => true,
        }
    }

    /// Whether the type is numeric: an integer, a float or a decimal.
    pub fn is_numeric(&self) -> (r: bool)
        ensures
            r == self.numeric(),
    {
        match self {
            DataType::UInt8
            | DataType::UInt16
            | DataType::UInt32
            | DataType::UInt64
            | DataType::Int8
            | DataType::Int16
            | DataType::Int32
            | DataType::Int64
            | DataType::Float16
            | DataType::Float32
            | DataType::Float64
            | DataType::Decimal32(_, _)
            | DataType::Decimal64(_, _)
            | DataType::Decimal128(_, _)
            | DataType::Decimal256(_, _) => true,
            _ => false,
        }
    }

    /// Whether the type is temporal.
    pub fn is_temporal(&self) -> (r: bool)
        ensures
            r == self.temporal(),
    {
        match self {
            DataType::Date32
            | DataType::Date64
            | DataType::Timestamp(_, _)
            | DataType::Time32(_)
            | DataType::Time64(_)
            | DataType::Duration(_)
            | DataType::Interval(_) => true,
            _ => false,
        }
    }

    /// Whether the type is primitive: numeric or temporal.
    pub fn is_primitive(&self) -> (r: bool)
        ensures
            r == self.primitive(),
    {
        self.is_numeric() || self.is_temporal()
    }

    /// Decides the built-in rule of which types the engine has a native
    /// type for.
    pub fn has_engine_type(&self) -> (r: bool)
        ensures
            r == self.engine_native(),
    {
        match self {
            DataType::Null
            | DataType::Float16
            | DataType::ListView(_)
            | DataType::LargeListView(_)
            | DataType::Dictionary(_, _)
            | DataType::RunEndEncoded(_, _) => false,
            _ => true,
        }
    }
}

/// The engine's side of compatibility: which types it has a native
/// counterpart for. The reconciler asks it about the type of each field of a
/// schema, and about nothing nested in it.
pub trait TypeMapper {
    /// Whether the engine accepts the type: the rule that `has_type`
    /// decides. A mapper written outside verified code gives it as what its
    /// `has_type` returns.
    spec fn accepts(&self, data_type: DataType) -> bool;

    /// Decides whether the engine accepts the type.
    fn has_type(&self, data_type: &DataType) -> (r: bool)
        ensures
            r == self.accepts(*data_type),
    ;
}

/// The type mapper that goes by the built-in rule.
#[derive(Clone, Copy, Debug, PartialEq, Eq, Structural)]
pub struct DuckDbTypes;

impl TypeMapper for DuckDbTypes {
    open spec fn accepts(&self, data_type: DataType) -> bool {
        data_type.engine_native()
    }

    fn has_type(&self, data_type: &DataType) -> (r: bool) {
        data_type.has_engine_type()
    }
}

impl Field {
    /// Whether the field can cross into the columnar model: its type passes
    /// the structural rule and the engine accepts it. Both must hold.
    pub open spec fn supported_by<M: TypeMapper>(self, mapper: M) -> bool {
        self.data_type.supported() && mapper.accepts(self.data_type)
    }
}

/// The predicate that keeps supported fields.
pub open spec fn keeps<M: TypeMapper>(mapper: M) -> spec_fn(Arc<Field>) -> bool {
    |field: Arc<Field>| field.supported_by(mapper)
}

/// The predicate that keeps unsupported fields.
pub open spec fn rejects<M: TypeMapper>(mapper: M) -> spec_fn(Arc<Field>) -> bool {
    |field: Arc<Field>| !field.supported_by(mapper)
}

/// The supported fields of `fields`, in their order.
pub open spec fn surviving<M: TypeMapper>(mapper: M, fields: Seq<Arc<Field>>) -> Seq<Arc<Field>> {
    fields.filter(keeps(mapper))
}

/// The unsupported fields of `fields`, in their order.
pub open spec fn offending<M: TypeMapper>(mapper: M, fields: Seq<Arc<Field>>) -> Seq<Arc<Field>> {
    fields.filter(rejects(mapper))
}

/// Whether every field of `fields` is supported.
pub open spec fn all_supported<M: TypeMapper>(mapper: M, fields: Seq<Arc<Field>>) -> bool {
    forall|i: int| 0 <= i < fields.len() ==> (#[trigger] fields[i]).supported_by(mapper)
}

/// Whether `k` is the position of the first unsupported field of `fields`.
pub open spec fn first_offender<M: TypeMapper>(mapper: M, fields: Seq<Arc<Field>>, k: int) -> bool {
    &&& 0 <= k < fields.len()
    &&& !fields[k].supported_by(mapper)
    &&& all_supported(mapper, fields.take(k))
}

/// Whether `error` names the field `field` and its type.
pub open spec fn names_field(error: ConnectionError, field: Field) -> bool {
    error matches ConnectionError::UnsupportedDataType { data_type, field_name }
        && data_type == field.data_type && field_name@ == field.name@
}

/// What reconciling `fields` under `action` may return. With every field
/// supported the schema comes back as it is. Otherwise the dropping policies
/// return the supported fields in their order, and the failing policy
/// returns an error that names the first unsupported field.
pub open spec fn reconciled<M: TypeMapper>(
    mapper: M,
    fields: Seq<Arc<Field>>,
    action: UnsupportedTypeAction,
    outcome: Result<Arc<Schema>, ConnectionError>,
) -> bool {
    match outcome {
        Ok(schema) => {
            &&& action.drops() || all_supported(mapper, fields)
            &&& schema@ == surviving(mapper, fields)
        },
        Err(error) => {
            &&& !action.drops()
            &&& exists|k: int| first_offender(mapper, fields, k) && names_field(error, *fields[k])
        },
    }
}

/// One more field at the end is kept iff it is supported.
proof fn lemma_surviving_push<M: TypeMapper>(mapper: M, fields: Seq<Arc<Field>>, field: Arc<Field>)
    ensures
        surviving(mapper, fields.push(field)) == if field.supported_by(mapper) {
            surviving(mapper, fields).push(field)
        } else {
            surviving(mapper, fields)
        },
        offending(mapper, fields.push(field)) == if field.supported_by(mapper) {
            offending(mapper, fields)
        } else {
            offending(mapper, fields).push(field)
        },
{
    reveal(Seq::filter);
    assert(fields.push(field).drop_last() == fields);
}

/// A schema whose fields are all supported survives whole.
proof fn lemma_surviving_all<M: TypeMapper>(mapper: M, fields: Seq<Arc<Field>>)
    requires
        all_supported(mapper, fields),
    ensures
        surviving(mapper, fields) == fields,
        offending(mapper, fields) == Seq::<Arc<Field>>::empty(),
    decreases fields.len(),
{
    reveal(Seq::filter);
    if fields.len() > 0 {
        let rest = fields.drop_last();
        assert forall|i: int| 0 <= i < rest.len() implies (#[trigger] rest[i]).supported_by(
            mapper,
        ) by {
            assert(rest[i] == fields[i]);
        }
        lemma_surviving_all(mapper, rest);
        assert(fields.last().supported_by(mapper));
        assert(rest.push(fields.last()) == fields);
    }
}

impl DuckDbConnection {
    /// Decides the structural rule for one type.
    pub fn is_data_type_supported(data_type: &DataType) -> (r: bool)
        ensures
            r == data_type.supported(),
        decreases data_type,
    {
        match data_type {
            DataType::List(element)
            | DataType::FixedSizeList(element, _)
            | DataType::LargeList(element) => {
                let inner = element.data_type();
                if inner.is_primitive() {
                    true
                } else {
                    match inner {
                        DataType::Utf8
                        | DataType::Binary
                        | DataType::Utf8View
                        | DataType::BinaryView
                        | DataType::Boolean => true,
                        _ => false,
                    }
                }
            },
            DataType::Struct(members) => {
                let mut i: usize = 0;
                while i < members.len()
                    invariant
                        i <= members@.len(),
                        *data_type == DataType::Struct(*members),
                        forall|j: int|
                            0 <= j < i ==> (#[trigger] members@[j]).data_type.supported(),
                    decreases members@.len() - i,
                {
                    let member = members[i].data_type();
                    assert(decreases_to!(*data_type => *member)) by {
                        assert(data_type->Struct_0 == *members);
                    }
                    if !Self::is_data_type_supported(member) {
                        return false;
                    }
                    i += 1;
                }
                true
            },
            _ => true,
        }
    }

    /// Decides whether a field can cross into the columnar model, with the
    /// given mapper for the engine's side.
    pub fn is_field_supported_by<M: TypeMapper>(mapper: &M, field: &Arc<Field>) -> (r: bool)
        ensures
            r == field.supported_by(*mapper),
    {
        let accepted = mapper.has_type(field.data_type());
        Self::is_data_type_supported(field.data_type()) && accepted
    }

    /// Decides whether a field can cross into the columnar model, by the
    /// built-in rule for the engine's side.
    pub fn is_field_supported(field: &Arc<Field>) -> (r: bool)
        ensures
            r == field.supported_by(DuckDbTypes),
    {
        Self::is_field_supported_by(&DuckDbTypes, field)
    }

    /// The error that rejects a field of the given type and name.
    pub fn unsupported_type_error(data_type: &DataType, field_name: &str) -> (r: ConnectionError)
        ensures
            r matches ConnectionError::UnsupportedDataType { data_type: named_type, field_name: name }
                && named_type == *data_type && name@ == field_name@,
    {
        ConnectionError::UnsupportedDataType {
            data_type: data_type.clone(),
            field_name: field_name.to_owned(),
        }
    }

    /// Reconciles a schema with the columnar model under a policy, with the
    /// given mapper for the engine's side: returns the schema without its
    /// unsupported fields, or, under the failing policy, the error that
    /// names the first of them.
    pub fn reconcile_with<M: TypeMapper>(
        mapper: &M,
        schema: &Arc<Schema>,
        unsupported_type_action: UnsupportedTypeAction,
    ) -> (r: Result<Arc<Schema>, ConnectionError>)
        ensures
            reconciled(*mapper, schema@, unsupported_type_action, r),
    {
        let fields = schema.fields();
        let mut kept: Vec<Arc<Field>> = Vec::new();
        let mut i: usize = 0;
        while i < fields.len()
            invariant
                i <= fields@.len(),
                fields@ == schema@,
                kept@ == surviving(*mapper, fields@.take(i as int)),
                unsupported_type_action.drops() || all_supported(*mapper, fields@.take(i as int)),
            decreases fields@.len() - i,
        {
            let field = &fields[i];
            proof {
                lemma_surviving_push(*mapper, fields@.take(i as int), *field);
                assert(fields@.take(i as int).push(*field) == fields@.take(i as int + 1));
            }
            if Self::is_field_supported_by(mapper, field) {
                kept.push(share(field));
            } else if !unsupported_type_action.drops_fields() {
                let error = Self::unsupported_type_error(field.data_type(), field.name().as_str());
                assert(first_offender(*mapper, fields@, i as int) && names_field(
                    error,
                    *fields@[i as int],
                ));
                return Err(error);
            }
            i += 1;
        }
        assert(fields@.take(i as int) == fields@);
        Ok(Arc::new(Schema::new(kept)))
    }

    /// Reconciles a schema with the columnar model under a policy, by the
    /// built-in rule for the engine's side.
    pub fn handle_unsupported_schema(
        schema: &Arc<Schema>,
        unsupported_type_action: UnsupportedTypeAction,
    ) -> (r: Result<Arc<Schema>, ConnectionError>)
        ensures
            reconciled(DuckDbTypes, schema@, unsupported_type_action, r),
    {
        Self::reconcile_with(&DuckDbTypes, schema, unsupported_type_action)
    }

    /// The position of the first field that reconciliation rejects or drops,
    /// if there is one.
    pub fn first_unsupported_by<M: TypeMapper>(mapper: &M, schema: &Arc<Schema>) -> (r: Option<
        usize,
    >)
        ensures
            match r {
                Some(k) => first_offender(*mapper, schema@, k as int),
                None => all_supported(*mapper, schema@),
            },
    {
        let fields = schema.fields();
        let mut i: usize = 0;
        while i < fields.len()
            invariant
                i <= fields@.len(),
                fields@ == schema@,
                all_supported(*mapper, fields@.take(i as int)),
            decreases fields@.len() - i,
        {
            if !Self::is_field_supported_by(mapper, &fields[i]) {
                return Some(i);
            }
            assert forall|j: int| 0 <= j < i + 1 implies (#[trigger] fields@.take(
                i as int + 1,
            )[j]).supported_by(*mapper) by {
                if j < i {
                    assert(fields@.take(i as int)[j] == fields@[j]);
                }
            }
            i += 1;
        }
        assert(fields@.take(i as int) == fields@);
        None
    }

    /// The fields that reconciliation drops, in their order: the ones a
    /// warning is owed for under the warning policy.
    pub fn unsupported_fields_by<M: TypeMapper>(mapper: &M, schema: &Arc<Schema>) -> (r: Vec<
        Arc<Field>,
    >)
        ensures
            r@ == offending(*mapper, schema@),
    {
        let fields = schema.fields();
        let mut dropped: Vec<Arc<Field>> = Vec::new();
        let mut i: usize = 0;
        while i < fields.len()
            invariant
                i <= fields@.len(),
                fields@ == schema@,
                dropped@ == offending(*mapper, fields@.take(i as int)),
            decreases fields@.len() - i,
        {
            let field = &fields[i];
            proof {
                lemma_surviving_push(*mapper, fields@.take(i as int), *field);
                assert(fields@.take(i as int).push(*field) == fields@.take(i as int + 1));
            }
            if !Self::is_field_supported_by(mapper, field) {
                dropped.push(share(field));
            }
            i += 1;
        }
        assert(fields@.take(i as int) == fields@);
        dropped
    }

    /// The fields that reconciliation drops by the built-in rule for the
    /// engine's side, in their order.
    pub fn unsupported_fields(schema: &Arc<Schema>) -> (r: Vec<Arc<Field>>)
        ensures
            r@ == offending(DuckDbTypes, schema@),
    {
        Self::unsupported_fields_by(&DuckDbTypes, schema)
    }
}

/// Reconciling a schema whose fields are all supported returns a schema
/// equal to the input, under every policy and with every mapper.
pub proof fn lemma_supported_schema_unchanged<M: TypeMapper>(
    mapper: M,
    fields: Seq<Arc<Field>>,
    action: UnsupportedTypeAction,
    outcome: Result<Arc<Schema>, ConnectionError>,
)
    requires
        all_supported(mapper, fields),
        reconciled(mapper, fields, action, outcome),
    ensures
        outcome is Ok,
        outcome->Ok_0@ == fields,
{
    lemma_surviving_all(mapper, fields);
    if outcome is Err {
        let k = choose|k: int| first_offender(mapper, fields, k);
        assert(fields[k].supported_by(mapper));
    }
}

/// Reconciling keeps the supported fields and nothing else, and keeps them
/// in their order: every survivor is a supported field of the input, and of
/// two survivors the earlier one stands earlier in the input too.
pub proof fn lemma_survivors_keep_order<M: TypeMapper>(mapper: M, fields: Seq<Arc<Field>>)
    ensures
        forall|i: int|
            0 <= i < surviving(mapper, fields).len() ==> (#[trigger] surviving(
                mapper,
                fields,
            )[i]).supported_by(mapper),
        forall|a: int|
            0 <= a < fields.len() && fields[a].supported_by(mapper) ==> surviving(
                mapper,
                fields,
            ).contains(#[trigger] fields[a]),
        forall|i: int, j: int|
            0 <= i < j < surviving(mapper, fields).len() ==> exists|a: int, b: int|
                0 <= a < b < fields.len() && fields[a] == #[trigger] surviving(mapper, fields)[i]
                    && fields[b] == #[trigger] surviving(mapper, fields)[j],
    decreases fields.len(),
{
    reveal(Seq::filter);
    let kept = surviving(mapper, fields);
    if fields.len() > 0 {
        let shorter = fields.drop_last();
        let before = surviving(mapper, shorter);
        lemma_survivors_keep_order(mapper, shorter);
        lemma_survivor_positions(mapper, shorter);
        assert(shorter.push(fields.last()) == fields);
        lemma_surviving_push(mapper, shorter, fields.last());
        assert forall|a: int|
            0 <= a < fields.len() && fields[a].supported_by(mapper) implies kept.contains(
            #[trigger] fields[a],
        ) by {
            if a < shorter.len() {
                assert(shorter[a] == fields[a]);
                assert(before.contains(shorter[a]));
                let n = choose|n: int| 0 <= n < before.len() && before[n] == shorter[a];
                assert(kept[n] == fields[a]);
            } else {
                assert(kept[kept.len() - 1] == fields[a]);
            }
        }
        assert forall|i: int, j: int| 0 <= i < j < kept.len() implies exists|a: int, b: int|
            0 <= a < b < fields.len() && fields[a] == #[trigger] kept[i] && fields[b]
                == #[trigger] kept[j] by {
            if j < before.len() {
                let (a, b) = choose|a: int, b: int|
                    0 <= a < b < shorter.len() && shorter[a] == before[i] && shorter[b]
                        == before[j];
                assert(0 <= a < b < fields.len() && fields[a] == kept[i] && fields[b] == kept[j]);
            } else {
                let a = choose|a: int| 0 <= a < shorter.len() && shorter[a] == before[i];
                let b = fields.len() - 1;
                assert(0 <= a < b < fields.len() && fields[a] == kept[i] && fields[b] == kept[j]);
            }
        }
    }
}

/// Reconciling twice is reconciling once: what survived is supported, and
/// survives again as it is.
pub proof fn lemma_reconcile_idempotent<M: TypeMapper>(mapper: M, fields: Seq<Arc<Field>>)
    ensures
        all_supported(mapper, surviving(mapper, fields)),
        surviving(mapper, surviving(mapper, fields)) == surviving(mapper, fields),
{
    lemma_survivors_keep_order(mapper, fields);
    lemma_surviving_all(mapper, surviving(mapper, fields));
}

/// Every survivor stands somewhere in the input.
proof fn lemma_survivor_positions<M: TypeMapper>(mapper: M, fields: Seq<Arc<Field>>)
    ensures
        forall|i: int|
            0 <= i < surviving(mapper, fields).len() ==> exists|a: int|
                0 <= a < fields.len() && fields[a] == #[trigger] surviving(mapper, fields)[i],
    decreases fields.len(),
{
    reveal(Seq::filter);
    let kept = surviving(mapper, fields);
    if fields.len() > 0 {
        let shorter = fields.drop_last();
        let before = surviving(mapper, shorter);
        lemma_survivor_positions(mapper, shorter);
        assert(shorter.push(fields.last()) == fields);
        lemma_surviving_push(mapper, shorter, fields.last());
        assert forall|i: int| 0 <= i < kept.len() implies exists|a: int|
            0 <= a < fields.len() && fields[a] == #[trigger] kept[i] by {
            if i < before.len() {
                let a = choose|a: int| 0 <= a < shorter.len() && shorter[a] == before[i];
                assert(fields[a] == kept[i]);
            } else {
                assert(fields[fields.len() - 1] == kept[i]);
            }
        }
    }
}

} // verus!
