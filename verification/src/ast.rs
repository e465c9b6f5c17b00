// The statement model the engine works on: an immutable tagged union over
// SELECT, INSERT, UPDATE and DELETE, holding plain values only. The parser
// collaborator produces it; every classifier, extractor and builder reads it.
//
// Node kinds the engine never inspects are collapsed into `Unsupported`
// variants; every predicate and extractor treats those as a non-match,
// never as an error.

pub mod delete;
pub mod insert;
pub mod select;
pub mod update;

pub use delete::extract_conditions;
pub use delete::extract_field_condition;
pub use insert::ins_extract_value;
pub use insert::ins_get_all_column_values;
pub use insert::ins_get_column_map;
pub use insert::ins_get_column_names;
pub use insert::ins_get_column_value;
pub use insert::ins_get_table_name;
pub use insert::ins_get_values_as_maps;
pub use insert::ins_get_values_as_strings;
pub use select::sel_get_field_filter;
pub use select::sel_get_field_name;
pub use select::sel_get_field_names;
pub use select::sel_get_key_value;
pub use select::sel_get_limit;
pub use select::sel_get_query;
pub use select::sel_get_score_range;
pub use select::sel_get_select;
pub use select::sel_get_table_name;
pub use select::sel_is_order_by_score_desc;
pub use select::sel_is_wildcard;
pub use update::upd_extract_value;
pub use update::upd_get_assignments;
pub use update::upd_get_field_filter;
pub use update::upd_get_key_value;
pub use update::upd_get_table_name;

use vstd::prelude::*;

verus! {

/// A literal as the engine sees it: the raw text plus how it was quoted.
/// Single- and double-quoted strings and numbers all collapse to their text;
/// every other literal kind is unsupported and fails extraction.
pub enum LiteralValue {
    SingleQuoted(String),
    DoubleQuoted(String),
    Number(String),
    Unsupported,
}

/// Binary operators that any extractor distinguishes.
#[derive(Debug, Clone, Copy, PartialEq, Eq, Structural)]
pub enum BinOp {
    Eq,
    Gt,
    GtEq,
    Lt,
    LtEq,
    And,
    Or,
    Other,
}

/// A WHERE/SET expression tree.
pub enum SqlExpr {
    Identifier(String),
    CompoundIdentifier(Vec<String>),
    Value(LiteralValue),
    BinaryOp { op: BinOp, left: Box<SqlExpr>, right: Box<SqlExpr> },
    UnaryOp(Box<SqlExpr>),
    Nested(Box<SqlExpr>),
    Subquery(Box<SqlQuery>),
    Exists { subquery: Box<SqlQuery>, negated: bool },
    InSubquery { operand: Box<SqlExpr>, subquery: Box<SqlQuery>, negated: bool },
    Unsupported,
}

/// One projected item of a SELECT.
pub enum SqlSelectItem {
    UnnamedExpr(SqlExpr),
    ExprWithAlias { expr: SqlExpr, alias: String },
    Wildcard,
    QualifiedWildcard,
}

/// A table reference in a FROM clause.
pub enum SqlTableFactor {
    Table { name: Vec<String>, alias: Option<String> },
    Derived { alias: Option<String>, subquery: Box<SqlQuery> },
    NestedJoin { alias: Option<String> },
    Unsupported,
}

/// The constraint of one JOIN.
pub enum JoinConstraintKind {
    On(SqlExpr),
    Using(Vec<String>),
    Natural,
    Unconstrained,
}

/// The operator of one JOIN, carrying its constraint where the grammar has
/// one.
pub enum JoinOperatorKind {
    Join(JoinConstraintKind),
    Inner(JoinConstraintKind),
    Left(JoinConstraintKind),
    LeftOuter(JoinConstraintKind),
    Right(JoinConstraintKind),
    RightOuter(JoinConstraintKind),
    FullOuter(JoinConstraintKind),
    CrossJoin,
    CrossApply,
    OuterApply,
    Unsupported,
}

pub struct Join {
    pub relation: SqlTableFactor,
    pub join_operator: JoinOperatorKind,
}

pub struct SqlTableWithJoins {
    pub relation: SqlTableFactor,
    pub joins: Vec<Join>,
}

/// One ORDER BY term: the ordering expression and the explicit direction,
/// if one was written.
pub struct OrderByItem {
    pub expr: SqlExpr,
    pub asc: Option<bool>,
}

pub enum OrderByKind {
    Expressions(Vec<OrderByItem>),
    Other,
}

/// One common table expression of a WITH clause.
pub struct Cte {
    pub name: String,
    pub columns: Vec<String>,
    pub query: Box<SqlQuery>,
}

pub struct SqlWith {
    pub recursive: bool,
    pub cte_tables: Vec<Cte>,
}

/// The body of a query: a plain SELECT, a nested query, or VALUES rows.
pub enum SetExprKind {
    Select(Box<SqlSelect>),
    Query(Box<SqlQuery>),
    Values(Vec<Vec<SqlExpr>>),
    Unsupported,
}

pub struct SqlSelect {
    pub projection: Vec<SqlSelectItem>,
    pub from: Vec<SqlTableWithJoins>,
    pub selection: Option<SqlExpr>,
    pub having: Option<SqlExpr>,
}

pub struct SqlQuery {
    pub with: Option<SqlWith>,
    pub body: SetExprKind,
    pub order_by: Option<OrderByKind>,
    pub limit: Option<SqlExpr>,
}

/// The table an INSERT targets.
pub enum TableObjectKind {
    TableName(Vec<String>),
    Unsupported,
}

pub struct SqlInsert {
    pub table: TableObjectKind,
    pub columns: Vec<String>,
    pub source: Option<Box<SqlQuery>>,
}

/// The target of one SET assignment.
pub enum AssignmentTargetKind {
    ColumnName(Vec<String>),
    Unsupported,
}

pub struct SqlAssignment {
    pub target: AssignmentTargetKind,
    pub value: SqlExpr,
}

pub struct Update {
    pub table: SqlTableWithJoins,
    pub assignments: Vec<SqlAssignment>,
    pub selection: Option<SqlExpr>,
}

pub struct SqlDelete {
    pub tables: Vec<Vec<String>>,
    pub from: Vec<SqlTableWithJoins>,
    pub selection: Option<SqlExpr>,
}

/// One parsed statement.
pub enum SqlStatement {
    Query(Box<SqlQuery>),
    Insert(SqlInsert),
    Update(Update),
    Delete(SqlDelete),
    Unsupported,
}

/// The text of a literal usable as a value: quoted strings and numbers
/// collapse to their raw text, all other literal kinds yield nothing.
pub open spec fn spec_literal_text(v: LiteralValue) -> Option<Seq<char>> {
    match v {
        LiteralValue::SingleQuoted(s) => Some(s@),
        LiteralValue::DoubleQuoted(s) => Some(s@),
        LiteralValue::Number(n) => Some(n@),
        LiteralValue::Unsupported => None,
    }
}

/// The text of a literal expression, per `spec_literal_text`.
pub open spec fn spec_expr_value_text(e: SqlExpr) -> Option<Seq<char>> {
    match e {
        SqlExpr::Value(v) => spec_literal_text(v),
        _ => None,
    }
}

/// The raw text of a numeric literal expression; any other node yields
/// nothing.
pub open spec fn spec_expr_number_text(e: SqlExpr) -> Option<Seq<char>> {
    match e {
        SqlExpr::Value(LiteralValue::Number(n)) => Some(n@),
        _ => None,
    }
}

/// The first name part of a table factor, when it is a plain table.
pub open spec fn spec_table_factor_name(t: SqlTableFactor) -> Option<Seq<char>> {
    match t {
        SqlTableFactor::Table { name, .. } => {
            if name@.len() > 0 {
                Some(name@[0]@)
            } else {
                None
            }
        },
        _ => None,
    }
}

/// Extract the text of a literal expression.
pub fn expr_value_text(e: &SqlExpr) -> (r: Option<String>)
    ensures
        match (r, spec_expr_value_text(*e)) {
            (Some(a), Some(b)) => a@ == b,
            (None, None) => true,
            _ => false,
        },
{
    match e {
        SqlExpr::Value(LiteralValue::SingleQuoted(s)) => Some(s.clone()),
        SqlExpr::Value(LiteralValue::DoubleQuoted(s)) => Some(s.clone()),
        SqlExpr::Value(LiteralValue::Number(n)) => Some(n.clone()),
        _ => None,
    }
}

/// Extract the raw text of a numeric literal expression.
pub fn expr_number_text(e: &SqlExpr) -> (r: Option<String>)
    ensures
        match (r, spec_expr_number_text(*e)) {
            (Some(a), Some(b)) => a@ == b,
            (None, None) => true,
            _ => false,
        },
{
    match e {
        SqlExpr::Value(LiteralValue::Number(n)) => Some(n.clone()),
        _ => None,
    }
}

} // verus!
