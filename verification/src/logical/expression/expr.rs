use vstd::prelude::*;

use crate::datatypes::eval::combine_kind;
use crate::datatypes::operator::{op_symbol, Operator};
use crate::datatypes::schema::{lookup, Field, FieldModel, Schema};
use crate::datatypes::values::{scalar_kind, scalar_text, DataType, ScalarValue};
use crate::error::{matches_fault, DBError, FaultModel};
use crate::logical::expression::aggregate::AggregateExpr;
use crate::logical::expression::binary::BinaryExpr;
use crate::logical::expression::column::Column;

verus! {

/// A declarative expression over the columns of an upstream plan.
#[derive(Debug, Clone)]
pub enum LogicalExpr {
    Column(Column),
    Literal(ScalarValue),
    Binary(BinaryExpr),
    Aggregate(AggregateExpr),
}

/// The canonical text of an expression: a bare column name, a literal's
/// value, or the left-associative infix rendering of a binary application
/// with no added parentheses.
pub open spec fn expr_text(e: LogicalExpr) -> Seq<char>
    decreases e,
{
    match e {
        LogicalExpr::Column(c) => c.name@,
        LogicalExpr::Literal(v) => scalar_text(v@),
        LogicalExpr::Binary(b) => expr_text(*b.lhs) + seq![' '] + op_symbol(b.op) + seq![' ']
            + expr_text(*b.rhs),
        LogicalExpr::Aggregate(a) => a.func@ + seq!['('] + expr_text(*a.expr) + seq![')'],
    }
}

/// The output field an expression resolves to against a schema: a column
/// resolves to the first field of its name; a literal to a nullable field of
/// its intrinsic type named by its text; a binary application to a nullable
/// field of the combined operand type named by the canonical rendering.
pub open spec fn expr_field(schema: Seq<FieldModel>, e: LogicalExpr) -> Result<
    FieldModel,
    FaultModel,
>
    decreases e,
{
    match e {
        LogicalExpr::Column(c) => match lookup(schema, c.name@) {
            Some(i) => Ok(schema[i]),
            None => Err(FaultModel::UnknownColumn(c.name@)),
        },
        LogicalExpr::Literal(v) => Ok(
            FieldModel { name: scalar_text(v@), data_type: scalar_kind(v@), nullable: true },
        ),
        LogicalExpr::Binary(b) => match expr_field(schema, *b.lhs) {
            Err(f) => Err(f),
            Ok(f1) => match expr_field(schema, *b.rhs) {
                Err(f) => Err(f),
                Ok(f2) => match combine_kind(b.op, f1.data_type, f2.data_type) {
                    Some(k) => Ok(
                        FieldModel { name: expr_text(e), data_type: k, nullable: true },
                    ),
                    None => Err(FaultModel::TypeMismatch),
                },
            },
        },
        LogicalExpr::Aggregate(_) => Err(FaultModel::NotImplemented),
    }
}

/// The output field an expression resolves to against a whole plan: a
/// literal resolves on its own, for every plan; any other expression resolves
/// against the schema the plan produces, inheriting the plan's fault when the
/// schema itself cannot be derived.
pub open spec fn expr_field_for_plan<S: crate::datasource::DataSource>(
    p: crate::logical::plan::plan::LogicalPlan<S>,
    e: LogicalExpr,
) -> Result<FieldModel, FaultModel> {
    match e {
        LogicalExpr::Literal(v) => Ok(
            FieldModel { name: scalar_text(v@), data_type: scalar_kind(v@), nullable: true },
        ),
        _ => match crate::logical::plan::plan::plan_schema(p) {
            Ok(s) => expr_field(s, e),
            Err(f) => Err(f),
        },
    }
}

/// The result type of an expression against a schema.
pub open spec fn expr_kind(schema: Seq<FieldModel>, e: LogicalExpr) -> Result<
    DataType,
    FaultModel,
> {
    match expr_field(schema, e) {
        Ok(f) => Ok(f.data_type),
        Err(f) => Err(f),
    }
}

impl LogicalExpr {
    /// Renders the expression in its canonical text.
    pub fn to_text(&self) -> (r: String)
        ensures
            r@ == expr_text(*self),
        decreases *self,
    {
        match self {
            LogicalExpr::Column(c) => c.name.clone(),
            LogicalExpr::Literal(v) => v.value_text(),
            LogicalExpr::Binary(b) => {
                let mut s = b.lhs.to_text();
                let space = String::from_str(" ");
                proof {
                    reveal_strlit(" ");
                    assert(space@ =~= seq![' ']);
                }
                s.append(space.as_str());
                let sym = b.op.symbol();
                s.append(sym.as_str());
                s.append(space.as_str());
                let rhs = b.rhs.to_text();
                s.append(rhs.as_str());
                proof {
                    assert(s@ =~= expr_text(*self));
                }
                s
            },
            LogicalExpr::Aggregate(a) => {
                let mut s = a.func.clone();
                let open_paren = String::from_str("(");
                let close_paren = String::from_str(")");
                proof {
                    reveal_strlit("(");
                    reveal_strlit(")");
                    assert(open_paren@ =~= seq!['(']);
                    assert(close_paren@ =~= seq![')']);
                }
                s.append(open_paren.as_str());
                let inner = a.expr.to_text();
                s.append(inner.as_str());
                s.append(close_paren.as_str());
                proof {
                    assert(s@ =~= expr_text(*self));
                }
                s
            },
        }
    }

    /// Resolves the expression's output field against a schema, exactly as
    /// [`expr_field`] describes.
    pub fn to_field_from_schema(&self, schema: &Schema) -> (r: Result<Field, DBError>)
        ensures
            match r {
                Ok(f) => expr_field(schema@, *self) == Ok::<FieldModel, FaultModel>(f@),
                Err(e) => expr_field(schema@, *self) matches Err(f) && matches_fault(e, f),
            },
        decreases *self,
    {
        match self {
            LogicalExpr::Column(c) => c.to_field(schema),
            LogicalExpr::Literal(v) => Ok(
                Field { name: self.to_text(), data_type: v.data_type(), nullable: true },
            ),
            LogicalExpr::Binary(b) => {
                let f1 = match b.lhs.to_field_from_schema(schema) {
                    Ok(f) => f,
                    Err(e) => {
                        return Err(e);
                    },
                };
                let f2 = match b.rhs.to_field_from_schema(schema) {
                    Ok(f) => f,
                    Err(e) => {
                        return Err(e);
                    },
                };
                match crate::datatypes::eval::combined_type(&b.op, f1.data_type, f2.data_type) {
                    Some(k) => Ok(Field { name: self.to_text(), data_type: k, nullable: true }),
                    None => Err(
                        DBError::TypeMismatch(
                            String::from_str("operand types do not combine under the operator"),
                        ),
                    ),
                }
            },
            LogicalExpr::Aggregate(_) => Err(
                DBError::NotImplemented(String::from_str("aggregate expressions")),
            ),
        }
    }

    /// Resolves the expression's output field against the schema a plan
    /// produces. A literal resolves on its own, for every plan, without
    /// consulting the plan's schema.
    pub fn to_field<S: crate::datasource::DataSource>(
        &self,
        plan: &crate::logical::plan::plan::LogicalPlan<S>,
    ) -> (r: Result<Field, DBError>)
        ensures
            match r {
                Ok(f) => expr_field_for_plan(*plan, *self) == Ok::<FieldModel, FaultModel>(f@),
                Err(e) => expr_field_for_plan(*plan, *self) matches Err(ff) && matches_fault(
                    e,
                    ff,
                ),
            },
    {
        match self {
            LogicalExpr::Literal(v) => Ok(
                Field { name: self.to_text(), data_type: v.data_type(), nullable: true },
            ),
            _ => match plan.schema() {
                Ok(s) => self.to_field_from_schema(&s),
                Err(e) => Err(e),
            },
        }
    }

    /// The result type of the expression against a schema.
    pub fn data_type(&self, schema: &Schema) -> (r: Result<DataType, DBError>)
        ensures
            match r {
                Ok(k) => expr_kind(schema@, *self) == Ok::<DataType, FaultModel>(k),
                Err(e) => expr_kind(schema@, *self) matches Err(f) && matches_fault(e, f),
            },
    {
        match self.to_field_from_schema(schema) {
            Ok(f) => Ok(f.data_type),
            Err(e) => Err(e),
        }
    }
}

} // verus!
