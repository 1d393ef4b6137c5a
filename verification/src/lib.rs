//! Keyset (cursor-based) pagination clauses for `sqlx`'s `QueryBuilder`.
//!
//! A [`Page`] holds an immutable pagination configuration: a direction, a
//! page size, and an ordered list of key columns.  Its methods append the
//! three clauses a keyset-paginated query needs — a row-tuple `where`
//! predicate comparing the key columns against a cursor, a matching
//! `order by` clause, and a bound `limit` — to a caller-owned
//! [`sqlx::QueryBuilder`].  It never runs SQL itself.

mod builder;
mod fragment;
mod page;

pub use builder::{qb_args, qb_open, qb_sql, PgBuilder};
pub use fragment::{
    dec_str, digit_char, int_seq, join, lemma_join_push, lemma_order_pairs_shape,
    lemma_placeholders_shape,
    limit_sql, order_by_sql, order_pairs, placeholder, placeholders, where_none_sql,
    where_some_sql,
};
pub use page::{lemma_config_determines_fragments, lemma_direction_pairing, Page};
