// Declarative SQL pattern matching: shape predicates and structured
// extractors over the statement model.

pub mod combinators;
pub mod cte;
pub mod extractors;
pub mod join;
pub mod matchers;
pub mod subquery;
