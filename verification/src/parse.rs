// The parser boundary: SQL text goes to the outside SQL parser, and the
// resulting syntax tree is converted, node kind by node kind, into the
// statement model. Each conversion moves fields one for one; node kinds the
// engine never reads collapse into the model's `Unsupported` variants.
// Parsing is deterministic, so the whole step is named by `spec_parse_sql`
// and nothing more is assumed about it.

use sqlparser::ast::Expr;
use sqlparser::ast::JoinOperator;
use vstd::prelude::*;

use crate::ast::{
    SqlAssignment, AssignmentTargetKind, BinOp, Cte, SqlDelete, SqlExpr, SqlInsert, Join, JoinConstraintKind,
    JoinOperatorKind, LiteralValue, OrderByItem, OrderByKind, SqlQuery, SqlSelect, SqlSelectItem,
    SetExprKind, SqlStatement, SqlTableFactor, TableObjectKind, SqlTableWithJoins, Update, SqlWith,
};

verus! {

#[verifier::external_type_specification]
#[verifier::external_body]
pub struct ExSqlStatement(sqlparser::ast::Statement);

#[verifier::external_type_specification]
#[verifier::external_body]
pub struct ExSqlQuery(sqlparser::ast::Query);

#[verifier::external_type_specification]
#[verifier::external_body]
pub struct ExSqlSetExpr(sqlparser::ast::SetExpr);

#[verifier::external_type_specification]
#[verifier::external_body]
pub struct ExSqlSelect(sqlparser::ast::Select);

#[verifier::external_type_specification]
#[verifier::external_body]
pub struct ExSqlSelectItem(sqlparser::ast::SelectItem);

#[verifier::external_type_specification]
#[verifier::external_body]
pub struct ExSqlExpr(sqlparser::ast::Expr);

#[verifier::external_type_specification]
#[verifier::external_body]
pub struct ExSqlValueWithSpan(sqlparser::ast::ValueWithSpan);

#[verifier::external_type_specification]
#[verifier::external_body]
pub struct ExSqlBinaryOperator(sqlparser::ast::BinaryOperator);

#[verifier::external_type_specification]
#[verifier::external_body]
pub struct ExSqlObjectName(sqlparser::ast::ObjectName);

#[verifier::external_type_specification]
#[verifier::external_body]
pub struct ExSqlTableWithJoins(sqlparser::ast::TableWithJoins);

#[verifier::external_type_specification]
#[verifier::external_body]
pub struct ExSqlTableFactor(sqlparser::ast::TableFactor);

#[verifier::external_type_specification]
#[verifier::external_body]
pub struct ExSqlJoinOperator(sqlparser::ast::JoinOperator);

#[verifier::external_type_specification]
#[verifier::external_body]
pub struct ExSqlJoinConstraint(sqlparser::ast::JoinConstraint);

#[verifier::external_type_specification]
#[verifier::external_body]
pub struct ExSqlOrderBy(sqlparser::ast::OrderBy);

#[verifier::external_type_specification]
#[verifier::external_body]
pub struct ExSqlWith(sqlparser::ast::With);

#[verifier::external_type_specification]
#[verifier::external_body]
pub struct ExSqlInsert(sqlparser::ast::Insert);

#[verifier::external_type_specification]
#[verifier::external_body]
pub struct ExSqlDelete(sqlparser::ast::Delete);

#[verifier::external_type_specification]
#[verifier::external_body]
pub struct ExSqlAssignment(sqlparser::ast::Assignment);

/// What parsing one SQL text yields: the first statement's model, or the
/// parser's message. Parsing is a function of the text alone.
pub uninterp spec fn spec_parse_sql(sql: Seq<char>) -> Result<SqlStatement, String>;

/// Relies on sqlparser's `Parser::parse_sql` with the generic dialect: the
/// outcome is deterministic in the SQL text; an empty statement list is an
/// error, and only the first statement is kept.
#[verifier::external_body]
pub fn parse_statement(sql: &str) -> (r: Result<SqlStatement, String>)
    ensures
        r == spec_parse_sql(sql@),
{
    let dialect = sqlparser::dialect::GenericDialect {};
    match sqlparser::parser::Parser::parse_sql(&dialect, sql) {
        Ok(stmts) => match stmts.first() {
            Some(s) => Ok(convert_statement(s)),
            None => Err("Empty SQL statement".to_string()),
        },
        Err(e) => Err(e.to_string()),
    }
}

/// Relies on sqlparser's `Statement`: one arm per statement kind the engine
/// reads, moving fields only.
#[verifier::external_body]
fn convert_statement(stmt: &sqlparser::ast::Statement) -> (r: SqlStatement) {
    match stmt {
        sqlparser::ast::Statement::Query(q) => SqlStatement::Query(Box::new(convert_query(q))),
        sqlparser::ast::Statement::Insert(i) => SqlStatement::Insert(convert_insert(i)),
        sqlparser::ast::Statement::Update { table, assignments, selection, .. } => {
            SqlStatement::Update(Update {
                table: convert_table_with_joins(table),
                assignments: assignments.iter().map(|a| convert_assignment(a)).collect(),
                selection: selection.as_ref().map(|e| convert_expr(e)),
            })
        },
        sqlparser::ast::Statement::Delete(d) => SqlStatement::Delete(convert_delete(d)),
        _ => SqlStatement::Unsupported,
    }
}

/// Relies on sqlparser's `Query`: moves the WITH clause, body, ORDER BY and
/// LIMIT expression.
#[verifier::external_body]
fn convert_query(q: &sqlparser::ast::Query) -> (r: SqlQuery) {
    SqlQuery {
        with: q.with.as_ref().map(|w| convert_with(w)),
        body: convert_setexpr(&q.body),
        order_by: q.order_by.as_ref().map(|o| convert_order_by(o)),
        limit: q.limit.as_ref().map(|e| convert_expr(e)),
    }
}

/// Relies on sqlparser's `SetExpr`: SELECT bodies, nested queries and
/// VALUES rows; set operations are unsupported.
#[verifier::external_body]
fn convert_setexpr(b: &sqlparser::ast::SetExpr) -> (r: SetExprKind) {
    match b {
        sqlparser::ast::SetExpr::Select(s) => SetExprKind::Select(Box::new(convert_select(s))),
        sqlparser::ast::SetExpr::Query(q) => SetExprKind::Query(Box::new(convert_query(q))),
        sqlparser::ast::SetExpr::Values(v) => SetExprKind::Values(
            v.rows.iter().map(|row| row.iter().map(|e| convert_expr(e)).collect()).collect(),
        ),
        _ => SetExprKind::Unsupported,
    }
}

/// Relies on sqlparser's `Select`: moves the projection, FROM list, WHERE
/// and HAVING clauses.
#[verifier::external_body]
fn convert_select(s: &sqlparser::ast::Select) -> (r: SqlSelect) {
    SqlSelect {
        projection: s.projection.iter().map(|i| convert_select_item(i)).collect(),
        from: s.from.iter().map(|t| convert_table_with_joins(t)).collect(),
        selection: s.selection.as_ref().map(|e| convert_expr(e)),
        having: s.having.as_ref().map(|e| convert_expr(e)),
    }
}

/// Relies on sqlparser's `SelectItem`: bare expressions, aliased
/// expressions and wildcards.
#[verifier::external_body]
fn convert_select_item(i: &sqlparser::ast::SelectItem) -> (r: SqlSelectItem) {
    match i {
        sqlparser::ast::SelectItem::UnnamedExpr(e) => SqlSelectItem::UnnamedExpr(convert_expr(e)),
        sqlparser::ast::SelectItem::ExprWithAlias { expr, alias } => SqlSelectItem::ExprWithAlias {
            expr: convert_expr(expr),
            alias: alias.value.clone(),
        },
        sqlparser::ast::SelectItem::Wildcard(_) => SqlSelectItem::Wildcard,
        sqlparser::ast::SelectItem::QualifiedWildcard(..) => SqlSelectItem::QualifiedWildcard,
    }
}

/// Relies on sqlparser's `Expr`: the scalar node kinds the engine reads;
/// subquery nodes go to `convert_subquery_expr`.
#[verifier::external_body]
fn convert_expr(e: &sqlparser::ast::Expr) -> (r: SqlExpr) {
    match e {
        Expr::Identifier(id) => SqlExpr::Identifier(id.value.clone()),
        Expr::CompoundIdentifier(ids) => SqlExpr::CompoundIdentifier(
            ids.iter().map(|i| i.value.clone()).collect(),
        ),
        Expr::Value(v) => SqlExpr::Value(convert_value(v)),
        Expr::BinaryOp { left, op, right } => SqlExpr::BinaryOp {
            op: convert_binop(op),
            left: Box::new(convert_expr(left)),
            right: Box::new(convert_expr(right)),
        },
        Expr::UnaryOp { expr, .. } => SqlExpr::UnaryOp(Box::new(convert_expr(expr))),
        Expr::Nested(inner) => SqlExpr::Nested(Box::new(convert_expr(inner))),
        _ => convert_subquery_expr(e),
    }
}

/// Relies on sqlparser's `Expr`: the subquery node kinds; anything else is
/// unsupported.
#[verifier::external_body]
fn convert_subquery_expr(e: &sqlparser::ast::Expr) -> (r: SqlExpr) {
    match e {
        Expr::Subquery(q) => SqlExpr::Subquery(Box::new(convert_query(q))),
        Expr::Exists { subquery, negated } => SqlExpr::Exists {
            subquery: Box::new(convert_query(subquery)),
            negated: *negated,
        },
        Expr::InSubquery { expr, subquery, negated } => SqlExpr::InSubquery {
            operand: Box::new(convert_expr(expr)),
            subquery: Box::new(convert_query(subquery)),
            negated: *negated,
        },
        _ => SqlExpr::Unsupported,
    }
}

/// Relies on sqlparser's `Value`: single- and double-quoted strings and
/// numbers keep their raw text; every other literal kind is unsupported.
#[verifier::external_body]
fn convert_value(v: &sqlparser::ast::ValueWithSpan) -> (r: LiteralValue) {
    match &v.value {
        sqlparser::ast::Value::SingleQuotedString(s) => LiteralValue::SingleQuoted(s.clone()),
        sqlparser::ast::Value::DoubleQuotedString(s) => LiteralValue::DoubleQuoted(s.clone()),
        sqlparser::ast::Value::Number(n, _) => LiteralValue::Number(n.clone()),
        _ => LiteralValue::Unsupported,
    }
}

/// Relies on sqlparser's `BinaryOperator`: one arm per operator the engine
/// distinguishes.
#[verifier::external_body]
fn convert_binop(op: &sqlparser::ast::BinaryOperator) -> (r: BinOp) {
    match op {
        sqlparser::ast::BinaryOperator::Eq => BinOp::Eq,
        sqlparser::ast::BinaryOperator::Gt => BinOp::Gt,
        sqlparser::ast::BinaryOperator::GtEq => BinOp::GtEq,
        sqlparser::ast::BinaryOperator::Lt => BinOp::Lt,
        sqlparser::ast::BinaryOperator::LtEq => BinOp::LtEq,
        sqlparser::ast::BinaryOperator::And => BinOp::And,
        sqlparser::ast::BinaryOperator::Or => BinOp::Or,
        _ => BinOp::Other,
    }
}

/// Relies on sqlparser's `ObjectName`: each part's identifier text, in
/// order.
#[verifier::external_body]
fn convert_object_name(n: &sqlparser::ast::ObjectName) -> (r: Vec<String>) {
    n.0.iter().map(|p| match p {
        sqlparser::ast::ObjectNamePart::Identifier(id) => id.value.clone(),
    }).collect()
}

/// Relies on sqlparser's `TableWithJoins`: the base relation and each join.
#[verifier::external_body]
fn convert_table_with_joins(t: &sqlparser::ast::TableWithJoins) -> (r: SqlTableWithJoins) {
    SqlTableWithJoins {
        relation: convert_table_factor(&t.relation),
        joins: t.joins.iter().map(|j| Join {
            relation: convert_table_factor(&j.relation),
            join_operator: convert_join_operator(&j.join_operator),
        }).collect(),
    }
}

/// Relies on sqlparser's `TableFactor`: plain tables, derived tables and
/// nested joins, with their aliases.
#[verifier::external_body]
fn convert_table_factor(t: &sqlparser::ast::TableFactor) -> (r: SqlTableFactor) {
    match t {
        sqlparser::ast::TableFactor::Table { name, alias, .. } => SqlTableFactor::Table {
            name: convert_object_name(name),
            alias: alias.as_ref().map(|a| a.name.value.clone()),
        },
        sqlparser::ast::TableFactor::Derived { subquery, alias, .. } => SqlTableFactor::Derived {
            alias: alias.as_ref().map(|a| a.name.value.clone()),
            subquery: Box::new(convert_query(subquery)),
        },
        sqlparser::ast::TableFactor::NestedJoin { alias, .. } => SqlTableFactor::NestedJoin {
            alias: alias.as_ref().map(|a| a.name.value.clone()),
        },
        _ => SqlTableFactor::Unsupported,
    }
}

/// Relies on sqlparser's `JoinOperator`: one arm per operator the analysis
/// utilities distinguish.
#[verifier::external_body]
fn convert_join_operator(op: &sqlparser::ast::JoinOperator) -> (r: JoinOperatorKind) {
    match op {
        JoinOperator::Join(c) => JoinOperatorKind::Join(convert_join_constraint(c)),
        JoinOperator::Inner(c) => JoinOperatorKind::Inner(convert_join_constraint(c)),
        JoinOperator::Left(c) => JoinOperatorKind::Left(convert_join_constraint(c)),
        JoinOperator::LeftOuter(c) => JoinOperatorKind::LeftOuter(convert_join_constraint(c)),
        JoinOperator::Right(c) => JoinOperatorKind::Right(convert_join_constraint(c)),
        JoinOperator::RightOuter(c) => JoinOperatorKind::RightOuter(convert_join_constraint(c)),
        JoinOperator::FullOuter(c) => JoinOperatorKind::FullOuter(convert_join_constraint(c)),
        JoinOperator::CrossJoin => JoinOperatorKind::CrossJoin,
        JoinOperator::CrossApply => JoinOperatorKind::CrossApply,
        JoinOperator::OuterApply => JoinOperatorKind::OuterApply,
        _ => JoinOperatorKind::Unsupported,
    }
}

/// Relies on sqlparser's `JoinConstraint`: ON expressions, USING columns
/// (first name part each), NATURAL, and the absent constraint.
#[verifier::external_body]
fn convert_join_constraint(c: &sqlparser::ast::JoinConstraint) -> (r: JoinConstraintKind) {
    match c {
        sqlparser::ast::JoinConstraint::On(e) => JoinConstraintKind::On(convert_expr(e)),
        sqlparser::ast::JoinConstraint::Using(cols) => JoinConstraintKind::Using(
            cols.iter().map(|c| match c.0.first() {
                Some(sqlparser::ast::ObjectNamePart::Identifier(id)) => id.value.clone(),
                None => String::new(),
            }).collect(),
        ),
        sqlparser::ast::JoinConstraint::Natural => JoinConstraintKind::Natural,
        sqlparser::ast::JoinConstraint::None => JoinConstraintKind::Unconstrained,
    }
}

/// Relies on sqlparser's `OrderBy`: the ordered expressions with their
/// explicit directions; the ALL form is kept as another kind.
#[verifier::external_body]
fn convert_order_by(o: &sqlparser::ast::OrderBy) -> (r: OrderByKind) {
    match &o.kind {
        sqlparser::ast::OrderByKind::Expressions(items) => OrderByKind::Expressions(
            items.iter().map(|i| OrderByItem {
                expr: convert_expr(&i.expr),
                asc: i.options.asc,
            }).collect(),
        ),
        sqlparser::ast::OrderByKind::All(_) => OrderByKind::Other,
    }
}

/// Relies on sqlparser's `With`: the recursion flag and each common table
/// expression's alias, columns and query.
#[verifier::external_body]
fn convert_with(w: &sqlparser::ast::With) -> (r: SqlWith) {
    SqlWith {
        recursive: w.recursive,
        cte_tables: w.cte_tables.iter().map(|c| Cte {
            name: c.alias.name.value.clone(),
            columns: c.alias.columns.iter().map(|col| col.name.value.clone()).collect(),
            query: Box::new(convert_query(&c.query)),
        }).collect(),
    }
}

/// Relies on sqlparser's `Insert`: the target table name, the column list
/// and the source query.
#[verifier::external_body]
fn convert_insert(i: &sqlparser::ast::Insert) -> (r: SqlInsert) {
    SqlInsert {
        table: match &i.table {
            sqlparser::ast::TableObject::TableName(n) => TableObjectKind::TableName(
                convert_object_name(n),
            ),
            _ => TableObjectKind::Unsupported,
        },
        columns: i.columns.iter().map(|c| c.value.clone()).collect(),
        source: i.source.as_ref().map(|q| Box::new(convert_query(q))),
    }
}

/// Relies on sqlparser's `Delete`: the multi-table list, the FROM tables
/// (with or without the keyword) and the WHERE clause.
#[verifier::external_body]
fn convert_delete(d: &sqlparser::ast::Delete) -> (r: SqlDelete) {
    SqlDelete {
        tables: d.tables.iter().map(|n| convert_object_name(n)).collect(),
        from: match &d.from {
            sqlparser::ast::FromTable::WithFromKeyword(ts)
            | sqlparser::ast::FromTable::WithoutKeyword(ts) => ts.iter().map(
                |t| convert_table_with_joins(t),
            ).collect(),
        },
        selection: d.selection.as_ref().map(|e| convert_expr(e)),
    }
}

/// Relies on sqlparser's `Assignment`: a single-column target and its value
/// expression.
#[verifier::external_body]
fn convert_assignment(a: &sqlparser::ast::Assignment) -> (r: SqlAssignment) {
    SqlAssignment {
        target: match &a.target {
            sqlparser::ast::AssignmentTarget::ColumnName(n) => AssignmentTargetKind::ColumnName(
                convert_object_name(n),
            ),
            _ => AssignmentTargetKind::Unsupported,
        },
        value: convert_expr(&a.value),
    }
}

} // verus!
