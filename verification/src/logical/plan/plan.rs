use vstd::prelude::*;

use crate::datasource::DataSource;
use crate::datatypes::schema::{lookup, Field, FieldModel, Schema};
use crate::error::{matches_fault, DBError, FaultModel};
use crate::logical::expression::expr::{expr_field, expr_text, LogicalExpr};
use crate::logical::plan::aggregate::Aggregate;
use crate::logical::plan::filter::Filter;
use crate::logical::plan::projection::Projection;
use crate::logical::plan::scan::{proj_text, render_quoted_names, Scan};

verus! {

/// A declarative plan tree: what to compute, independent of physical column
/// positions.
#[derive(Debug)]
pub enum LogicalPlan<S: DataSource> {
    Scan(Scan<S>),
    Filter(Filter<S>),
    Projection(Projection<S>),
    Aggregate(Aggregate<S>),
}

/// The fields a pushed-down projection selects from a source schema, from
/// position `i` on; the leftmost absent name is the fault.
pub open spec fn project_fields_from(
    schema: Seq<FieldModel>,
    names: Seq<Seq<char>>,
    i: int,
) -> Result<Seq<FieldModel>, FaultModel>
    decreases names.len() - i,
{
    if i < 0 || i >= names.len() {
        Ok(Seq::empty())
    } else {
        match lookup(schema, names[i]) {
            None => Err(FaultModel::UnknownColumn(names[i])),
            Some(j) => match project_fields_from(schema, names, i + 1) {
                Ok(rest) => Ok(seq![schema[j]] + rest),
                Err(f) => Err(f),
            },
        }
    }
}

/// The fields a projection's expressions resolve to against an input schema,
/// from position `i` on; the leftmost failing expression is the fault.
pub open spec fn fields_of_exprs(
    schema: Seq<FieldModel>,
    exprs: Seq<LogicalExpr>,
    i: int,
) -> Result<Seq<FieldModel>, FaultModel>
    decreases exprs.len() - i,
{
    if i < 0 || i >= exprs.len() {
        Ok(Seq::empty())
    } else {
        match expr_field(schema, exprs[i]) {
            Err(f) => Err(f),
            Ok(f) => match fields_of_exprs(schema, exprs, i + 1) {
                Ok(rest) => Ok(seq![f] + rest),
                Err(e) => Err(e),
            },
        }
    }
}

/// The schema a logical plan produces: a scan yields the source schema,
/// reduced by a pushed-down projection; a filter passes its input's schema
/// through; a projection derives one field per expression; aggregation is
/// reserved.
pub open spec fn plan_schema<S: DataSource>(p: LogicalPlan<S>) -> Result<
    Seq<FieldModel>,
    FaultModel,
>
    decreases p,
{
    match p {
        LogicalPlan::Scan(s) => {
            let src = s.source.source_schema();
            match s.projection.deep_view() {
                None => Ok(src),
                Some(names) => project_fields_from(src, names, 0),
            }
        },
        LogicalPlan::Filter(f) => plan_schema(*f.input),
        LogicalPlan::Projection(p) => match plan_schema(*p.input) {
            Ok(s) => fields_of_exprs(s, p.exprs@, 0),
            Err(f) => Err(f),
        },
        LogicalPlan::Aggregate(_) => Err(FaultModel::NotImplemented),
    }
}

/// [`plan_schema`], taken through a reference.
pub open spec fn plan_schema_at<S: DataSource>(p: &LogicalPlan<S>) -> Result<
    Seq<FieldModel>,
    FaultModel,
> {
    plan_schema(*p)
}

/// The texts of a projection's expressions from position `i` on, separated by
/// comma and space.
pub open spec fn exprs_text(exprs: Seq<LogicalExpr>, i: int) -> Seq<char>
    decreases exprs.len() - i,
{
    if i < 0 || i >= exprs.len() {
        Seq::empty()
    } else if i == exprs.len() - 1 {
        expr_text(exprs[i])
    } else {
        expr_text(exprs[i]) + seq![',', ' '] + exprs_text(exprs, i + 1)
    }
}

/// One plan node's own line, without indentation or newline.
pub open spec fn node_text<S: DataSource>(p: LogicalPlan<S>) -> Seq<char> {
    match p {
        LogicalPlan::Scan(s) => seq!['S', 'c', 'a', 'n', ':', ' '] + s.path@ + seq![
            ';',
            ' ',
            'p',
            'r',
            'o',
            'j',
            'e',
            'c',
            't',
            'i',
            'o',
            'n',
            '=',
        ] + proj_text(s.projection.deep_view()),
        LogicalPlan::Filter(f) => seq!['F', 'i', 'l', 't', 'e', 'r', ':', ' '] + expr_text(
            f.predicate,
        ),
        LogicalPlan::Projection(p) => seq![
            'P',
            'r',
            'o',
            'j',
            'e',
            'c',
            't',
            'i',
            'o',
            'n',
            ':',
            ' ',
        ] + exprs_text(p.exprs@, 0),
        LogicalPlan::Aggregate(a) => seq![
            'A',
            'g',
            'g',
            'r',
            'e',
            'g',
            'a',
            't',
            'e',
            ':',
            ' ',
        ] + exprs_text(a.aggregate_exprs@, 0),
    }
}

/// The rendering of a plan subtree: each node's line prefixed by the
/// indentation it stands at and terminated by a newline, pre-order, children
/// one tab deeper.
pub open spec fn plan_text_pre<S: DataSource>(p: LogicalPlan<S>, prefix: Seq<char>) -> Seq<char>
    decreases p,
{
    prefix + node_text(p) + seq!['\n'] + (match p {
        LogicalPlan::Scan(_) => Seq::<char>::empty(),
        LogicalPlan::Filter(f) => plan_text_pre(*f.input, prefix + seq!['\t']),
        LogicalPlan::Projection(pr) => plan_text_pre(*pr.input, prefix + seq!['\t']),
        LogicalPlan::Aggregate(a) => plan_text_pre(*a.input, prefix + seq!['\t']),
    })
}

/// The sequence of `n` tab characters.
pub open spec fn tabs(n: nat) -> Seq<char>
    decreases n,
{
    if n == 0 {
        Seq::empty()
    } else {
        tabs((n - 1) as nat) + seq!['\t']
    }
}

/// Renders a plan subtree with every line carrying the given indentation
/// prefix, children one tab deeper.
fn render_plan_pre<S: DataSource>(plan: &LogicalPlan<S>, prefix: &String) -> (r: String)
    ensures
        r@ == plan_text_pre(*plan, prefix@),
    decreases *plan,
{
    let mut s = prefix.clone();
    let line = render_node(plan);
    s.append(line.as_str());
    let newline = String::from_str("\n");
    proof {
        reveal_strlit("\n");
        assert(newline@ =~= seq!['\n']);
    }
    s.append(newline.as_str());
    match plan {
        LogicalPlan::Scan(_) => {
            proof {
                assert(s@ =~= plan_text_pre(*plan, prefix@));
            }
            s
        },
        LogicalPlan::Filter(f) => {
            let mut child_prefix = prefix.clone();
            let tab = String::from_str("\t");
            proof {
                reveal_strlit("\t");
                assert(tab@ =~= seq!['\t']);
            }
            child_prefix.append(tab.as_str());
            let child = render_plan_pre(&*f.input, &child_prefix);
            s.append(child.as_str());
            proof {
                assert(s@ =~= plan_text_pre(*plan, prefix@));
            }
            s
        },
        LogicalPlan::Projection(p) => {
            let mut child_prefix = prefix.clone();
            let tab = String::from_str("\t");
            proof {
                reveal_strlit("\t");
                assert(tab@ =~= seq!['\t']);
            }
            child_prefix.append(tab.as_str());
            let child = render_plan_pre(&*p.input, &child_prefix);
            s.append(child.as_str());
            proof {
                assert(s@ =~= plan_text_pre(*plan, prefix@));
            }
            s
        },
        LogicalPlan::Aggregate(a) => {
            let mut child_prefix = prefix.clone();
            let tab = String::from_str("\t");
            proof {
                reveal_strlit("\t");
                assert(tab@ =~= seq!['\t']);
            }
            child_prefix.append(tab.as_str());
            let child = render_plan_pre(&*a.input, &child_prefix);
            s.append(child.as_str());
            proof {
                assert(s@ =~= plan_text_pre(*plan, prefix@));
            }
            s
        },
    }
}

/// Renders one plan node's own line.
fn render_node<S: DataSource>(plan: &LogicalPlan<S>) -> (r: String)
    ensures
        r@ == node_text(*plan),
{
    match plan {
        LogicalPlan::Scan(sc) => {
            let mut s = String::from_str("Scan: ");
            proof {
                reveal_strlit("Scan: ");
                assert(s@ =~= seq!['S', 'c', 'a', 'n', ':', ' ']);
            }
            s.append(sc.path.as_str());
            let mid = String::from_str("; projection=");
            proof {
                reveal_strlit("; projection=");
                assert(mid@ =~= seq![
                    ';',
                    ' ',
                    'p',
                    'r',
                    'o',
                    'j',
                    'e',
                    'c',
                    't',
                    'i',
                    'o',
                    'n',
                    '=',
                ]);
            }
            s.append(mid.as_str());
            match &sc.projection {
                None => {
                    let none_text = String::from_str("None");
                    proof {
                        reveal_strlit("None");
                        assert(none_text@ =~= seq!['N', 'o', 'n', 'e']);
                    }
                    s.append(none_text.as_str());
                },
                Some(names) => {
                    let open_bracket = String::from_str("[");
                    let close_bracket = String::from_str("]");
                    proof {
                        reveal_strlit("[");
                        reveal_strlit("]");
                        assert(open_bracket@ =~= seq!['[']);
                        assert(close_bracket@ =~= seq![']']);
                    }
                    s.append(open_bracket.as_str());
                    let inner = render_quoted_names(names, 0);
                    s.append(inner.as_str());
                    s.append(close_bracket.as_str());
                },
            }
            proof {
                assert(s@ =~= node_text(*plan));
            }
            s
        },
        LogicalPlan::Filter(f) => {
            let mut s = String::from_str("Filter: ");
            proof {
                reveal_strlit("Filter: ");
                assert(s@ =~= seq!['F', 'i', 'l', 't', 'e', 'r', ':', ' ']);
            }
            let pred = f.predicate.to_text();
            s.append(pred.as_str());
            proof {
                assert(s@ =~= node_text(*plan));
            }
            s
        },
        LogicalPlan::Projection(p) => {
            let mut s = String::from_str("Projection: ");
            proof {
                reveal_strlit("Projection: ");
                assert(s@ =~= seq!['P', 'r', 'o', 'j', 'e', 'c', 't', 'i', 'o', 'n', ':', ' ']);
            }
            let inner = render_exprs(&p.exprs, 0);
            s.append(inner.as_str());
            proof {
                assert(s@ =~= node_text(*plan));
            }
            s
        },
        LogicalPlan::Aggregate(a) => {
            let mut s = String::from_str("Aggregate: ");
            proof {
                reveal_strlit("Aggregate: ");
                assert(s@ =~= seq!['A', 'g', 'g', 'r', 'e', 'g', 'a', 't', 'e', ':', ' ']);
            }
            let inner = render_exprs(&a.aggregate_exprs, 0);
            s.append(inner.as_str());
            proof {
                assert(s@ =~= node_text(*plan));
            }
            s
        },
    }
}

/// Renders the expressions from position `i` on, comma-separated.
fn render_exprs(exprs: &Vec<LogicalExpr>, i: usize) -> (r: String)
    requires
        i <= exprs@.len(),
    ensures
        r@ == exprs_text(exprs@, i as int),
    decreases exprs@.len() - i,
{
    if i >= exprs.len() {
        let s = String::new();
        proof {
            assert(s@ =~= exprs_text(exprs@, i as int));
        }
        s
    } else {
        let mut s = exprs[i].to_text();
        if i + 1 < exprs.len() {
            let sep = String::from_str(", ");
            proof {
                reveal_strlit(", ");
                assert(sep@ =~= seq![',', ' ']);
            }
            s.append(sep.as_str());
            let rest = render_exprs(exprs, i + 1);
            s.append(rest.as_str());
        }
        proof {
            assert(s@ =~= exprs_text(exprs@, i as int));
        }
        s
    }
}

/// Renders a plan subtree at an indentation depth: each node as
/// `<Label>: <detail>`, one line per node, pre-order, tabs by depth.
pub fn format_plan<S: DataSource>(plan: &LogicalPlan<S>, indent: usize) -> (r: String)
    ensures
        r@ == plan_text_pre(*plan, tabs(indent as nat)),
{
    let tab = String::from_str("\t");
    proof {
        reveal_strlit("\t");
        assert(tab@ =~= seq!['\t']);
    }
    let mut prefix = String::new();
    let mut i: usize = 0;
    while i < indent
        invariant
            i <= indent,
            tab@ == seq!['\t'],
            prefix@ == tabs(i as nat),
        decreases indent - i,
    {
        prefix.append(tab.as_str());
        i += 1;
    }
    render_plan_pre(plan, &prefix)
}

impl<S: DataSource> LogicalPlan<S> {
    /// The direct children of this node, in order.
    pub fn children(&self) -> (r: Vec<&LogicalPlan<S>>)
        ensures
            match self {
                LogicalPlan::Scan(_) => r@.len() == 0,
                LogicalPlan::Filter(f) => r@.len() == 1 && *r@[0] == *f.input,
                LogicalPlan::Projection(p) => r@.len() == 1 && *r@[0] == *p.input,
                LogicalPlan::Aggregate(a) => r@.len() == 1 && *r@[0] == *a.input,
            },
    {
        match self {
            LogicalPlan::Scan(_) => Vec::new(),
            LogicalPlan::Filter(f) => {
                let mut v: Vec<&LogicalPlan<S>> = Vec::new();
                v.push(&*f.input);
                v
            },
            LogicalPlan::Projection(p) => {
                let mut v: Vec<&LogicalPlan<S>> = Vec::new();
                v.push(&*p.input);
                v
            },
            LogicalPlan::Aggregate(a) => {
                let mut v: Vec<&LogicalPlan<S>> = Vec::new();
                v.push(&*a.input);
                v
            },
        }
    }

    /// Renders the whole plan tree, the root at depth zero.
    pub fn to_text(&self) -> (r: String)
        ensures
            r@ == plan_text_pre(*self, Seq::empty()),
    {
        let r = format_plan(self, 0);
        proof {
            assert(tabs(0) =~= Seq::<char>::empty());
        }
        r
    }

    /// The schema this plan produces, exactly as [`plan_schema`] describes.
    #[verifier::loop_isolation(false)]
    pub fn schema(&self) -> (r: Result<Schema, DBError>)
        ensures
            match r {
                Ok(s) => plan_schema(*self) == Ok::<Seq<FieldModel>, FaultModel>(s@),
                Err(e) => plan_schema(*self) matches Err(f) && matches_fault(e, f),
            },
        decreases *self,
    {
        match self {
            LogicalPlan::Scan(sc) => {
                let src = sc.source.schema();
                match &sc.projection {
                    None => Ok(src),
                    Some(names) => {
                        let mut fields: Vec<Field> = Vec::new();
                        let mut i: usize = 0;
                        while i < names.len()
                            invariant
                                i <= names@.len(),
                                src@ == sc.source.source_schema(),
                                fields@.len() == i as nat,
                                forall|j: int|
                                    0 <= j < i ==> lookup(
                                        src@,
                                        #[trigger] names.deep_view()[j],
                                    ) is Some,
                                forall|j: int|
                                    0 <= j < i ==> (#[trigger] fields@[j])@ == src@[lookup(
                                        src@,
                                        names.deep_view()[j],
                                    )->Some_0],
                            decreases names@.len() - i,
                        {
                            proof {
                                assert(names.deep_view()[i as int] == names@[i as int]@);
                            }
                            match src.index_of(&names[i]) {
                                Some(idx) => {
                                    fields.push(src.field(idx).clone());
                                },
                                None => {
                                    proof {
                                        lemma_project_fields_err(
                                            src@,
                                            names.deep_view(),
                                            0,
                                            i as int,
                                        );
                                    }
                                    return Err(DBError::UnknownColumn(names[i].clone()));
                                },
                            }
                            i += 1;
                        }
                        let s = Schema { fields };
                        proof {
                            lemma_project_fields_ok(src@, names.deep_view(), 0);
                            assert(s@ =~= project_fields_from(
                                src@,
                                names.deep_view(),
                                0,
                            )->Ok_0);
                        }
                        Ok(s)
                    },
                }
            },
            LogicalPlan::Filter(f) => f.input.schema(),
            LogicalPlan::Projection(p) => {
                let input_schema = match p.input.schema() {
                    Ok(s) => s,
                    Err(e) => {
                        return Err(e);
                    },
                };
                let mut fields: Vec<Field> = Vec::new();
                let mut i: usize = 0;
                while i < p.exprs.len()
                    invariant
                        i <= p.exprs@.len(),
                        plan_schema(*p.input) == Ok::<Seq<FieldModel>, FaultModel>(input_schema@),
                        fields@.len() == i as nat,
                        forall|j: int|
                            0 <= j < i ==> expr_field(input_schema@, #[trigger] p.exprs@[j]) is Ok,
                        forall|j: int|
                            0 <= j < i ==> (#[trigger] fields@[j])@ == expr_field(
                                input_schema@,
                                p.exprs@[j],
                            )->Ok_0,
                    decreases p.exprs@.len() - i,
                {
                    match p.exprs[i].to_field_from_schema(&input_schema) {
                        Ok(f) => {
                            fields.push(f);
                        },
                        Err(e) => {
                            proof {
                                lemma_fields_of_exprs_err(input_schema@, p.exprs@, 0, i as int);
                            }
                            return Err(e);
                        },
                    }
                    i += 1;
                }
                let s = Schema { fields };
                proof {
                    lemma_fields_of_exprs_ok(input_schema@, p.exprs@, 0);
                    assert(s@ =~= fields_of_exprs(input_schema@, p.exprs@, 0)->Ok_0);
                }
                Ok(s)
            },
            LogicalPlan::Aggregate(_) => Err(
                DBError::NotImplemented(String::from_str("aggregation plans")),
            ),
        }
    }
}

/// When every name from `i` on resolves, the projected fields are exactly the
/// looked-up fields in order.
pub proof fn lemma_project_fields_ok(schema: Seq<FieldModel>, names: Seq<Seq<char>>, i: int)
    requires
        0 <= i <= names.len(),
        forall|j: int| i <= j < names.len() ==> lookup(schema, #[trigger] names[j]) is Some,
    ensures
        project_fields_from(schema, names, i) matches Ok(fs) && fs.len() == names.len() - i
            && forall|j: int|
            i <= j < names.len() ==> fs[j - i] == schema[lookup(schema, #[trigger] names[j])->Some_0],
    decreases names.len() - i,
{
    if i < names.len() {
        lemma_project_fields_ok(schema, names, i + 1);
    }
}

/// When some name up to position `e` fails to resolve while the earlier ones
/// resolve, projection fails with the leftmost absent name.
pub proof fn lemma_project_fields_err(schema: Seq<FieldModel>, names: Seq<Seq<char>>, i: int, e: int)
    requires
        0 <= i <= e < names.len(),
        forall|j: int| i <= j < e ==> lookup(schema, #[trigger] names[j]) is Some,
        lookup(schema, names[e]) is None,
    ensures
        project_fields_from(schema, names, i) == Err::<Seq<FieldModel>, FaultModel>(
            FaultModel::UnknownColumn(names[e]),
        ),
    decreases e - i,
{
    if i < e {
        lemma_project_fields_err(schema, names, i + 1, e);
    }
}

/// Law of schema derivation: for a projection whose expressions are all bare
/// column references to present names, the derived output schema is exactly
/// the selected input fields, in the requested order, types included.
pub proof fn lemma_schema_derivation_all_columns(schema: Seq<FieldModel>, exprs: Seq<LogicalExpr>)
    requires
        forall|i: int|
            0 <= i < exprs.len() ==> ((#[trigger] exprs[i]) matches LogicalExpr::Column(c)
                && lookup(schema, c.name@) is Some),
    ensures
        fields_of_exprs(schema, exprs, 0) matches Ok(fs) && fs.len() == exprs.len() && forall|
            i: int,
        |
            0 <= i < exprs.len() ==> ((#[trigger] exprs[i]) matches LogicalExpr::Column(c) && fs[i]
                == schema[lookup(schema, c.name@)->Some_0]),
{
    assert forall|i: int| 0 <= i < exprs.len() implies expr_field(
        schema,
        #[trigger] exprs[i],
    ) is Ok by {
        assert(exprs[i] matches LogicalExpr::Column(c) && lookup(schema, c.name@) is Some);
    }
    lemma_fields_of_exprs_ok(schema, exprs, 0);
}

/// When every expression from `i` on resolves, the derived fields are exactly
/// the expressions' fields in order.
pub proof fn lemma_fields_of_exprs_ok(schema: Seq<FieldModel>, exprs: Seq<LogicalExpr>, i: int)
    requires
        0 <= i <= exprs.len(),
        forall|j: int| i <= j < exprs.len() ==> expr_field(schema, #[trigger] exprs[j]) is Ok,
    ensures
        fields_of_exprs(schema, exprs, i) matches Ok(fs) && fs.len() == exprs.len() - i && forall|
            j: int,
        |
            i <= j < exprs.len() ==> fs[j - i] == expr_field(schema, #[trigger] exprs[j])->Ok_0,
    decreases exprs.len() - i,
{
    if i < exprs.len() {
        lemma_fields_of_exprs_ok(schema, exprs, i + 1);
    }
}

/// When some expression up to position `e` fails to resolve while the earlier
/// ones resolve, schema derivation fails with the leftmost fault.
pub proof fn lemma_fields_of_exprs_err(
    schema: Seq<FieldModel>,
    exprs: Seq<LogicalExpr>,
    i: int,
    e: int,
)
    requires
        0 <= i <= e < exprs.len(),
        forall|j: int| i <= j < e ==> expr_field(schema, #[trigger] exprs[j]) is Ok,
        expr_field(schema, exprs[e]) is Err,
    ensures
        fields_of_exprs(schema, exprs, i) == Err::<Seq<FieldModel>, FaultModel>(
            expr_field(schema, exprs[e])->Err_0,
        ),
    decreases e - i,
{
    if i < e {
        lemma_fields_of_exprs_err(schema, exprs, i + 1, e);
    }
}

} // verus!
