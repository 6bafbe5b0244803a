use vstd::prelude::*;

use crate::datasource::DataSource;
use crate::datatypes::schema::{lookup, Field, FieldModel, Schema};
use crate::error::{matches_fault, DBError, FaultModel};
use crate::logical::expression::expr::{expr_field, LogicalExpr};
use crate::logical::plan::plan::{
    fields_of_exprs, lemma_fields_of_exprs_err, lemma_fields_of_exprs_ok, plan_schema, LogicalPlan,
};
use crate::physical::expr::{binary::BinaryExpr, column::ColumnExpr, literal::LiteralExpr};
use crate::physical::expr::PhysicalExpression;
use crate::physical::plan::filter::FilterExec;
use crate::physical::plan::projection::ProjectionExec;
use crate::physical::plan::scan::ScanExec;
use crate::physical::plan::PhysicalPlan;
use std::sync::Arc;

verus! {

/// Lowers logical trees into physical trees: the single place where column
/// names are bound to positions.
pub struct Planner;

/// Whether a physical expression is the lowering of a logical expression
/// against a schema: columns are bound to the position of the first field of
/// their name, literals and operators carry over unchanged.
pub open spec fn expr_lowered(
    schema: Seq<FieldModel>,
    le: LogicalExpr,
    pe: PhysicalExpression,
) -> bool
    decreases le,
{
    match le {
        LogicalExpr::Column(c) => pe matches PhysicalExpression::Column(ce) && ce.name@ == c.name@
            && lookup(schema, c.name@) == Some(ce.index as int),
        LogicalExpr::Literal(v) => pe matches PhysicalExpression::Literal(l) && l.value@ == v@,
        LogicalExpr::Binary(b) => pe matches PhysicalExpression::Binary(pb) && pb.op == b.op
            && expr_lowered(schema, *b.lhs, *pb.lhs) && expr_lowered(schema, *b.rhs, *pb.rhs),
        LogicalExpr::Aggregate(_) => false,
    }
}

/// The fault that lowering an expression against a schema owes, if any: the
/// leftmost unknown column name, or a reserved variant.
pub open spec fn lower_fault(schema: Seq<FieldModel>, le: LogicalExpr) -> Option<FaultModel>
    decreases le,
{
    match le {
        LogicalExpr::Column(c) => match lookup(schema, c.name@) {
            Some(_) => None,
            None => Some(FaultModel::UnknownColumn(c.name@)),
        },
        LogicalExpr::Literal(_) => None,
        LogicalExpr::Binary(b) => match lower_fault(schema, *b.lhs) {
            Some(f) => Some(f),
            None => lower_fault(schema, *b.rhs),
        },
        LogicalExpr::Aggregate(_) => Some(FaultModel::NotImplemented),
    }
}

/// An expression that resolves to a field also lowers: binding can only fail
/// on names that resolution would also miss.
pub proof fn lemma_field_ok_lowerable(schema: Seq<FieldModel>, le: &LogicalExpr)
    requires
        expr_field(schema, *le) is Ok,
    ensures
        lower_fault(schema, *le) is None,
    decreases *le,
{
    match le {
        LogicalExpr::Binary(b) => {
            lemma_field_ok_lowerable(schema, &*b.lhs);
            lemma_field_ok_lowerable(schema, &*b.rhs);
        },
        _ => {},
    }
}

/// Law of planned evaluation: an expression that resolved to a field at
/// planning time, lowered against the same schema, evaluates over any
/// well-formed batch whose column types match that schema without an
/// unknown-column or type-mismatch failure — only a division by zero can stop
/// it — and its result carries the resolved field's type and fits the batch.
pub proof fn lemma_planned_expr_evaluates(
    schema: Seq<FieldModel>,
    le: &LogicalExpr,
    pe: &PhysicalExpression,
    b: crate::datatypes::array::BatchModel,
)
    requires
        crate::datatypes::array::batch_wf(b),
        b.schema.len() == schema.len(),
        forall|i: int|
            0 <= i < schema.len() ==> (#[trigger] b.schema[i]).data_type == schema[i].data_type,
        expr_field(schema, *le) is Ok,
        expr_lowered(schema, *le, *pe),
    ensures
        match crate::physical::expr::eval_expr(*pe, b) {
            Ok(v) => crate::physical::expr::cval_kind(v) == expr_field(
                schema,
                *le,
            )->Ok_0.data_type && crate::physical::expr::cval_fits(v, b.rows),
            Err(f) => f is DivZero,
        },
    decreases *le,
{
    match le {
        LogicalExpr::Column(c) => {
            crate::datatypes::schema::lemma_lookup_from(schema, c.name@, 0);
        },
        LogicalExpr::Literal(_) => {},
        LogicalExpr::Binary(be) => {
            match pe {
                PhysicalExpression::Binary(pb) => {
                    lemma_planned_expr_evaluates(schema, &*be.lhs, &*pb.lhs, b);
                    lemma_planned_expr_evaluates(schema, &*be.rhs, &*pb.rhs, b);
                    let lr = crate::physical::expr::eval_expr_at(&*pb.lhs, b);
                    let rr = crate::physical::expr::eval_expr_at(&*pb.rhs, b);
                    if lr is Ok && rr is Ok {
                        crate::physical::expr::lemma_combine_columnar_typed(
                            pb.op,
                            lr->Ok_0,
                            rr->Ok_0,
                            b.rows,
                        );
                    }
                },
                _ => {},
            }
        },
        LogicalExpr::Aggregate(_) => {},
    }
}

/// Whether a physical plan is the lowering of a logical plan: a scan carries
/// its source and projection over unchanged; a filter lowers its predicate
/// against its input's schema; a projection derives its owned schema from its
/// expressions against its input's schema and lowers each expression against
/// that same schema, in order.
pub open spec fn plan_lowered<S: DataSource>(lp: LogicalPlan<S>, pp: PhysicalPlan<S>) -> bool
    decreases lp,
{
    match lp {
        LogicalPlan::Scan(s) => pp matches PhysicalPlan::Scan(se) && se.path@ == s.path@ && se.ds
            == s.source && se.projection.deep_view() == s.projection.deep_view(),
        LogicalPlan::Filter(f) => pp matches PhysicalPlan::Filter(fe) && plan_lowered(
            *f.input,
            *fe.input,
        ) && (plan_schema(*f.input) matches Ok(is) && expr_lowered(is, f.predicate, fe.predicate)),
        LogicalPlan::Projection(pr) => pp matches PhysicalPlan::Projection(pe) && plan_lowered(
            *pr.input,
            *pe.input,
        ) && (plan_schema(*pr.input) matches Ok(is) && {
            &&& fields_of_exprs(is, pr.exprs@, 0) matches Ok(fs) && pe.schema@ == fs
            &&& pe.exprs@.len() == pr.exprs@.len()
            &&& forall|j: int|
                0 <= j < pr.exprs@.len() ==> expr_lowered(
                    is,
                    #[trigger] pr.exprs@[j],
                    pe.exprs@[j],
                )
        }),
        LogicalPlan::Aggregate(_) => false,
    }
}

/// Law of schema preservation: a lowered physical plan describes its batches
/// under exactly the schema its logical plan derives.
pub proof fn lemma_lowered_schema<S: DataSource>(lp: &LogicalPlan<S>, pp: &PhysicalPlan<S>)
    requires
        plan_lowered(*lp, *pp),
        plan_schema(*lp) is Ok,
    ensures
        crate::physical::plan::phys_schema(*pp) == plan_schema(*lp),
    decreases *lp,
{
    match lp {
        LogicalPlan::Scan(_) => {},
        LogicalPlan::Filter(f) => {
            match pp {
                PhysicalPlan::Filter(fe) => {
                    lemma_lowered_schema(&*f.input, &*fe.input);
                },
                _ => {},
            }
        },
        LogicalPlan::Projection(pr) => {
            match pp {
                PhysicalPlan::Projection(pe) => {
                    lemma_lowered_schema(&*pr.input, &*pe.input);
                },
                _ => {},
            }
        },
        LogicalPlan::Aggregate(_) => {},
    }
}

/// Law of schema derivation at the planner: lowering a projection whose
/// expressions are all bare column references to fields of its input's schema
/// yields a physical projection owning exactly the selected input fields —
/// name, type and nullability — in the requested order.
pub proof fn lemma_planned_projection_all_columns<S: DataSource>(
    lp: &LogicalPlan<S>,
    pp: &PhysicalPlan<S>,
)
    requires
        plan_lowered(*lp, *pp),
        *lp is Projection,
        forall|j: int|
            0 <= j < (lp->Projection_0).exprs@.len() ==> ((#[trigger] (lp->Projection_0).exprs@[j])
                matches LogicalExpr::Column(c) && lookup(
                plan_schema(*(lp->Projection_0).input)->Ok_0,
                c.name@,
            ) is Some),
    ensures
        *pp is Projection,
        (pp->Projection_0).schema@.len() == (lp->Projection_0).exprs@.len(),
        forall|j: int|
            0 <= j < (lp->Projection_0).exprs@.len() ==> ((#[trigger] (lp->Projection_0).exprs@[j])
                matches LogicalExpr::Column(c) && (pp->Projection_0).schema@[j] == plan_schema(
                *(lp->Projection_0).input,
            )->Ok_0[lookup(plan_schema(*(lp->Projection_0).input)->Ok_0, c.name@)->Some_0]),
{
    match lp {
        LogicalPlan::Projection(pr) => {
            crate::logical::plan::plan::lemma_schema_derivation_all_columns(
                crate::logical::plan::plan::plan_schema_at(&*pr.input)->Ok_0,
                pr.exprs@,
            );
        },
        _ => {},
    }
}

/// The fault that lowering a plan owes, if any: faults of the input subtree
/// first, then of the input's schema, then of the node's own expressions.
pub open spec fn plan_lower_fault<S: DataSource>(lp: LogicalPlan<S>) -> Option<FaultModel>
    decreases lp,
{
    match lp {
        LogicalPlan::Scan(_) => None,
        LogicalPlan::Filter(f) => match plan_lower_fault(*f.input) {
            Some(fa) => Some(fa),
            None => match plan_schema(*f.input) {
                Err(fa) => Some(fa),
                Ok(is) => lower_fault(is, f.predicate),
            },
        },
        LogicalPlan::Projection(pr) => match plan_lower_fault(*pr.input) {
            Some(fa) => Some(fa),
            None => match plan_schema(*pr.input) {
                Err(fa) => Some(fa),
                Ok(is) => match fields_of_exprs(is, pr.exprs@, 0) {
                    Err(fa) => Some(fa),
                    Ok(_) => None,
                },
            },
        },
        LogicalPlan::Aggregate(_) => Some(FaultModel::NotImplemented),
    }
}

/// Relies on `Arc::clone` of the standard library: the clone is the same
/// shared value, sharing rather than copying the pointee.
#[verifier::external_body]
fn clone_arc<T>(v: &Arc<T>) -> (r: Arc<T>)
    ensures
        r == *v,
{
    v.clone()
}

/// Duplicates an optional projection list.
fn clone_projection(p: &Option<Vec<String>>) -> (r: Option<Vec<String>>)
    ensures
        r.deep_view() == p.deep_view(),
        r is Some <==> p is Some,
{
    match p {
        None => None,
        Some(names) => {
            let mut out: Vec<String> = Vec::new();
            let mut i: usize = 0;
            while i < names.len()
                invariant
                    i <= names@.len(),
                    out@.len() == i as nat,
                    forall|j: int| 0 <= j < i ==> out@[j] == names@[j],
                decreases names@.len() - i,
            {
                out.push(names[i].clone());
                i += 1;
            }
            proof {
                assert(out.deep_view() =~= names.deep_view());
            }
            Some(out)
        },
    }
}

impl Planner {
    /// Lowers a logical plan into an executable physical plan: scans carry
    /// over unchanged, filters and projections bind their expressions against
    /// their input's schema, and a projection's output schema is derived once,
    /// here. Fails exactly when a column name cannot be bound, operand types
    /// do not combine, or a reserved variant occurs.
    #[verifier::loop_isolation(false)]
    pub fn create_physical_plan<S: DataSource>(plan: &LogicalPlan<S>) -> (r: Result<
        Arc<PhysicalPlan<S>>,
        DBError,
    >)
        ensures
            match r {
                Ok(pp) => plan_lower_fault(*plan) is None && plan_lowered(*plan, *pp),
                Err(e) => plan_lower_fault(*plan) matches Some(f) && matches_fault(e, f),
            },
        decreases *plan,
    {
        match plan {
            LogicalPlan::Scan(s) => Ok(
                Arc::new(
                    PhysicalPlan::Scan(
                        ScanExec::new(
                            s.path.clone(),
                            clone_arc(&s.source),
                            clone_projection(&s.projection),
                        ),
                    ),
                ),
            ),
            LogicalPlan::Filter(f) => {
                let input = match Self::create_physical_plan(&*f.input) {
                    Ok(p) => p,
                    Err(e) => {
                        return Err(e);
                    },
                };
                let input_schema = match f.input.schema() {
                    Ok(s) => s,
                    Err(e) => {
                        return Err(e);
                    },
                };
                let predicate = match Self::create_physical_expr(&input_schema, &f.predicate) {
                    Ok(p) => p,
                    Err(e) => {
                        return Err(e);
                    },
                };
                Ok(Arc::new(PhysicalPlan::Filter(FilterExec::new(input, predicate))))
            },
            LogicalPlan::Projection(pr) => {
                let input = match Self::create_physical_plan(&*pr.input) {
                    Ok(p) => p,
                    Err(e) => {
                        return Err(e);
                    },
                };
                let input_schema = match pr.input.schema() {
                    Ok(s) => s,
                    Err(e) => {
                        return Err(e);
                    },
                };
                let mut fields: Vec<Field> = Vec::new();
                let mut project_exprs: Vec<PhysicalExpression> = Vec::new();
                let mut i: usize = 0;
                while i < pr.exprs.len()
                    invariant
                        fields@.len() == i as nat,
                        project_exprs@.len() == i as nat,
                        i <= pr.exprs@.len(),
                        forall|j: int|
                            0 <= j < i ==> expr_field(
                                input_schema@,
                                #[trigger] pr.exprs@[j],
                            ) is Ok,
                        forall|j: int|
                            0 <= j < i ==> (#[trigger] fields@[j])@ == expr_field(
                                input_schema@,
                                pr.exprs@[j],
                            )->Ok_0,
                        forall|j: int|
                            0 <= j < i ==> expr_lowered(
                                input_schema@,
                                #[trigger] pr.exprs@[j],
                                project_exprs@[j],
                            ),
                    decreases pr.exprs@.len() - i,
                {
                    let field = match pr.exprs[i].to_field_from_schema(&input_schema) {
                        Ok(f) => f,
                        Err(e) => {
                            proof {
                                lemma_fields_of_exprs_err(input_schema@, pr.exprs@, 0, i as int);
                            }
                            return Err(e);
                        },
                    };
                    let pexpr = match Self::create_physical_expr(&input_schema, &pr.exprs[i]) {
                        Ok(p) => p,
                        Err(e) => {
                            proof {
                                lemma_field_ok_lowerable(input_schema@, &pr.exprs[i as int]);
                                assert(false);
                            }
                            return Err(e);
                        },
                    };
                    fields.push(field);
                    project_exprs.push(pexpr);
                    i += 1;
                }
                let schema = Schema { fields };
                proof {
                    lemma_fields_of_exprs_ok(input_schema@, pr.exprs@, 0);
                    assert(schema@ =~= fields_of_exprs(input_schema@, pr.exprs@, 0)->Ok_0);
                }
                Ok(
                    Arc::new(
                        PhysicalPlan::Projection(
                            ProjectionExec::new(input, schema, project_exprs),
                        ),
                    ),
                )
            },
            LogicalPlan::Aggregate(_) => Err(
                DBError::NotImplemented(String::from_str("aggregation plans")),
            ),
        }
    }

    /// Lowers one expression against a schema: the single point where a name
    /// becomes a position; after it, the physical tree never looks up by name
    /// again. Fails exactly on the leftmost unknown column or a reserved
    /// variant.
    pub fn create_physical_expr(schema: &Schema, expr: &LogicalExpr) -> (r: Result<
        PhysicalExpression,
        DBError,
    >)
        ensures
            match r {
                Ok(pe) => lower_fault(schema@, *expr) is None && expr_lowered(schema@, *expr, pe),
                Err(e) => lower_fault(schema@, *expr) matches Some(f) && matches_fault(e, f),
            },
        decreases *expr,
    {
        match expr {
            LogicalExpr::Column(c) => match schema.index_of(&c.name) {
                Some(index) => Ok(
                    PhysicalExpression::Column(ColumnExpr::new(c.name.clone(), index)),
                ),
                None => Err(DBError::UnknownColumn(c.name.clone())),
            },
            LogicalExpr::Literal(v) => Ok(PhysicalExpression::Literal(LiteralExpr::new(v.clone()))),
            LogicalExpr::Binary(b) => {
                let lhs = match Self::create_physical_expr(schema, &*b.lhs) {
                    Ok(p) => p,
                    Err(e) => {
                        return Err(e);
                    },
                };
                let rhs = match Self::create_physical_expr(schema, &*b.rhs) {
                    Ok(p) => p,
                    Err(e) => {
                        return Err(e);
                    },
                };
                Ok(PhysicalExpression::Binary(BinaryExpr::new(Arc::new(lhs), b.op, Arc::new(rhs))))
            },
            LogicalExpr::Aggregate(_) => Err(
                DBError::NotImplemented(String::from_str("aggregate expressions")),
            ),
        }
    }
}

} // verus!
