use vstd::prelude::*;

verus! {

/// The error vocabulary of the engine.
///
/// Every failure of planning or execution surfaces as one of these; an error
/// aborts the enclosing call, and there is no partial result or retry.
#[derive(Debug, Clone, PartialEq, Eq)]
pub enum DBError {
    /// A column reference names a field absent from the resolved schema.
    UnknownColumn(String),
    /// An operator was applied to operands of incompatible types, or a batch
    /// did not have the shape an operation demands.
    TypeMismatch(String),
    /// A reserved plan or expression variant reached the planner or evaluator.
    NotImplemented(String),
    /// Integer division by zero during expression evaluation.
    DivideByZero,
    /// A failure reported by the data source collaborator, carried verbatim.
    SourceError(String),
}

/// The mathematical model of a planning failure: which kind of error is owed,
/// and for an unknown column, its name.
pub enum FaultModel {
    UnknownColumn(Seq<char>),
    TypeMismatch,
    NotImplemented,
}

/// Whether an error is of the kind (and, for an unknown column, carries the
/// name) that a fault model demands.
pub open spec fn matches_fault(e: DBError, f: FaultModel) -> bool {
    match f {
        FaultModel::UnknownColumn(n) => e matches DBError::UnknownColumn(s) && s@ == n,
        FaultModel::TypeMismatch => e is TypeMismatch,
        FaultModel::NotImplemented => e is NotImplemented,
    }
}

} // verus!
