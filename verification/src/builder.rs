//! The trusted interface to `sqlx`'s query builder.
//!
//! `sqlx::QueryBuilder` is generic over a `DB: sqlx::Database` parameter,
//! a bound Verus does not take in a type declaration, so the Postgres
//! builder is held inside an opaque wrapper struct instead.  The builder is
//! modelled by two abstract quantities: the SQL text it has accumulated
//! ([`qb_sql`]) and the sequence of bound parameters it has registered
//! ([`qb_args`]).  Every method the library calls is wrapped here with a
//! contract over those two quantities, taken from what `sqlx-core`'s
//! `query_builder` source does.

use vstd::prelude::*;

verus! {

/// A `sqlx::QueryBuilder` for Postgres, accumulating SQL text and bound
/// parameters for one query.
#[verifier::external_body]
pub struct PgBuilder {
    inner: sqlx::QueryBuilder<sqlx::Postgres>,
}

/// The SQL text a builder has accumulated so far.
pub uninterp spec fn qb_sql(b: PgBuilder) -> Seq<char>;

/// The bound parameters a builder has registered so far, in binding order.
/// This library only ever binds eight-byte integers, so each parameter is
/// modelled by its integer value.
pub uninterp spec fn qb_args(b: PgBuilder) -> Seq<int>;

/// The builder is still open for appending: `build()` has not taken its
/// argument list away, and no clone of its SQL text is outstanding.
/// `sqlx::QueryBuilder::push` and `push_bind` panic on a builder for which
/// this does not hold, so every appending wrapper below requires it.
pub uninterp spec fn qb_open(b: PgBuilder) -> bool;

impl PgBuilder {
    /// Relies on `sqlx::QueryBuilder::new`: a fresh builder holds exactly
    /// the initial SQL fragment, no bound parameters, and is open for
    /// appending.
    #[verifier::external_body]
    pub fn new(init: &str) -> (r: PgBuilder)
        ensures
            qb_open(r),
            qb_sql(r) == init@,
            qb_args(r) == Seq::<int>::empty(),
    {
        PgBuilder { inner: sqlx::QueryBuilder::new(init) }
    }

    /// Relies on `sqlx::QueryBuilder::push`: it appends the `Display`
    /// rendering of its argument — for a `&str`, the string itself — to the
    /// query text, and leaves the bound parameters alone.
    #[verifier::external_body]
    pub(crate) fn push(&mut self, sql: &str)
        requires
            qb_open(*old(self)),
        ensures
            qb_open(*final(self)),
            qb_sql(*final(self)) == qb_sql(*old(self)) + sql@,
            qb_args(*final(self)) == qb_args(*old(self)),
    {
        self.inner.push(sql);
    }

    /// Relies on `sqlx::QueryBuilder::push_bind` with an `i64` value: it
    /// registers the value as one new bound parameter and appends the
    /// Postgres placeholder `$N` to the query text, where `N` is the new
    /// parameter count written in decimal.
    #[verifier::external_body]
    pub(crate) fn push_bind_i64(&mut self, value: i64)
        requires
            qb_open(*old(self)),
        ensures
            qb_open(*final(self)),
            qb_sql(*final(self)) == qb_sql(*old(self))
                + crate::fragment::placeholder(qb_args(*old(self)).len() + 1),
            qb_args(*final(self)) == qb_args(*old(self)).push(value as int),
    {
        self.inner.push_bind(value);
    }

    /// Relies on `sqlx::QueryBuilder::sql` and `SqlStr::as_str`: the
    /// returned string is the SQL text built so far.
    #[verifier::external_body]
    pub fn sql(&self) -> (r: String)
        ensures
            r@ == qb_sql(*self),
    {
        self.inner.sql().as_str().to_string()
    }
}

} // verus!
