//! How a model declaration splits into its view and update projections:
//! which declarations are accepted, and what each field becomes.
use vstd::prelude::*;

verus! {

/// The kind of item a model is declared as.
#[derive(PartialEq, Eq, Structural, Clone, Copy, Debug)]
pub enum ItemKind {
    /// A struct with named fields.
    NamedStruct,
    /// A struct with positional fields.
    TupleStruct,
    /// A struct without fields.
    UnitStruct,
    Enum,
    Union,
}

/// What the split needs to know of one field of a model.
#[derive(PartialEq, Eq, Structural, Clone, Copy, Debug)]
pub struct FieldShape {
    /// The field is marked as holding a nested model.
    pub nested: bool,
    /// The field's type is written as a path (`a::B<C>`), which is where a
    /// nested model's projection types are named from.
    pub path_type: bool,
}

/// What one field of a model becomes in the projections.
#[derive(PartialEq, Eq, Structural, Clone, Copy, Debug)]
pub enum FieldProjection {
    /// One reactive cell: writable in the update projection, read-only in
    /// the view projection.
    Cell,
    /// The nested model's own update and view projections.
    Nested,
}

/// A model declaration that cannot be split.
#[derive(PartialEq, Eq, Structural, Clone, Copy, Debug)]
pub enum ProjectionMismatch {
    UnitStruct,
    Enum,
    Union,
    /// The field at this position holds a nested model but its type is not
    /// a path.
    NestedNotAPath(usize),
}

/// What a field becomes in the projections.
pub open spec fn projection_of(f: FieldShape) -> FieldProjection {
    if f.nested {
        FieldProjection::Nested
    } else {
        FieldProjection::Cell
    }
}

/// A nested model whose type is not a path cannot name its projections.
pub open spec fn is_bad_field(f: FieldShape) -> bool {
    f.nested && !f.path_type
}

/// The declaration kinds that split.
pub open spec fn splits(kind: ItemKind) -> bool {
    kind == ItemKind::NamedStruct || kind == ItemKind::TupleStruct
}

/// Decides how a model declaration splits: one projection per field, in
/// field order. Unit structs, enums and unions are refused, and so is the
/// first field that holds a nested model under a type that is not a path.
pub fn plan_fields(kind: ItemKind, fields: &Vec<FieldShape>) -> (r: Result<
    Vec<FieldProjection>,
    ProjectionMismatch,
>)
    ensures
        kind == ItemKind::UnitStruct ==> r == Err::<Vec<FieldProjection>, _>(
            ProjectionMismatch::UnitStruct,
        ),
        kind == ItemKind::Enum ==> r == Err::<Vec<FieldProjection>, _>(ProjectionMismatch::Enum),
        kind == ItemKind::Union ==> r == Err::<Vec<FieldProjection>, _>(ProjectionMismatch::Union),
        splits(kind) ==> match r {
            Ok(plan) => {
                &&& forall|i: int| 0 <= i < fields@.len() ==> !is_bad_field(#[trigger] fields@[i])
                &&& plan@ == fields@.map_values(|f: FieldShape| projection_of(f))
            },
            Err(ProjectionMismatch::NestedNotAPath(i)) => {
                &&& i < fields@.len()
                &&& is_bad_field(fields@[i as int])
                &&& forall|j: int| 0 <= j < i ==> !is_bad_field(#[trigger] fields@[j])
            },
            Err(_) => false,
        },
{
    match kind {
        ItemKind::UnitStruct => {
            return Err(ProjectionMismatch::UnitStruct);
        },
        ItemKind::Enum => {
            return Err(ProjectionMismatch::Enum);
        },
        ItemKind::Union => {
            return Err(ProjectionMismatch::Union);
        },
        _ => {},
    }
    let mut plan: Vec<FieldProjection> = Vec::new();
    let mut i: usize = 0;
    while i < fields.len()
        invariant
            i <= fields@.len(),
            splits(kind),
            plan@ == fields@.subrange(0, i as int).map_values(|f: FieldShape| projection_of(f)),
            forall|j: int| 0 <= j < i ==> !is_bad_field(#[trigger] fields@[j]),
        decreases fields@.len() - i,
    {
        let f = fields[i];
        if f.nested && !f.path_type {
            return Err(ProjectionMismatch::NestedNotAPath(i));
        }
        if f.nested {
            plan.push(FieldProjection::Nested);
        } else {
            plan.push(FieldProjection::Cell);
        }
        proof {
            assert(fields@.subrange(0, i + 1).map_values(|f: FieldShape| projection_of(f))
                =~= fields@.subrange(0, i as int).map_values(|f: FieldShape| projection_of(f)).push(
                projection_of(f),
            ));
        }
        i = i + 1;
    }
    proof {
        assert(fields@.subrange(0, i as int) =~= fields@);
    }
    Ok(plan)
}

} // verus!
