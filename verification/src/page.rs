//! The pagination configuration and its clause-emission methods.

use vstd::prelude::*;

use crate::builder::{qb_args, qb_open, qb_sql, PgBuilder};
use crate::fragment::{
    int_seq, join, lemma_join_push, limit_sql, order_by_sql, order_pairs, placeholder,
    placeholders, where_none_sql, where_some_sql,
};

verus! {

/// The struct used to perform pagination.
///
/// Immutable once constructed; each method appends one clause to a
/// caller-owned `sqlx::QueryBuilder`.
pub struct Page {
    columns: Vec<String>,
    compare: &'static str,
    sort: &'static str,
    size: u32,
}

impl Page {
    /// The configured key columns, as sequences of characters,
    /// in configured order.
    pub closed spec fn cols(self) -> Seq<Seq<char>> {
        self.columns.deep_view()
    }

    /// The row-comparison operator derived from the direction.
    pub closed spec fn compare_op(self) -> Seq<char> {
        self.compare@
    }

    /// The sort order derived from the direction.
    pub closed spec fn sort_order(self) -> Seq<char> {
        self.sort@
    }

    /// The configured page size.
    pub closed spec fn page_size(self) -> u32 {
        self.size
    }

    /// The derived operator and sort order are the matched pair of one
    /// direction: `<` with `desc`, or `>` with `asc`.
    pub closed spec fn wf(self) -> bool {
        ||| (self.compare@ == "<"@ && self.sort@ == "desc"@)
        ||| (self.compare@ == ">"@ && self.sort@ == "asc"@)
    }

    /// Create a new `Page`.
    ///
    /// `smaller`: Controls the direction of the pagination.
    ///
    /// - `true`: Select the rows towards the direction in which the cursor
    ///   becomes smaller.  The returned rows will be sorted `desc`.
    /// - `false`: Select the rows towards the direction in which the cursor
    ///   becomes bigger.  The returned rows will be sorted `asc`.
    ///
    /// For example, if the sorting columns are `(time_of_insertion,
    /// table_pkey)`, and you want to scroll to the past, you should set
    /// `smaller = true`.
    ///
    /// `size`: Size of the page.
    ///
    /// `columns`:
    /// Sort rows using these columns (up to 5).
    /// Note that the joint of these columns should uniquely identify a row.
    pub fn new(smaller: bool, size: u32, columns: Vec<String>) -> (r: Page)
        ensures
            r.wf(),
            smaller ==> r.compare_op() == "<"@ && r.sort_order() == "desc"@,
            !smaller ==> r.compare_op() == ">"@ && r.sort_order() == "asc"@,
            r.cols() == columns.deep_view(),
            r.page_size() == size,
    {
        let compare: &'static str = if smaller { "<" } else { ">" };
        let sort: &'static str = if smaller { "desc" } else { "asc" };

        Page { columns, compare, sort, size }
    }

    /// Append the configured columns to the builder, comma-separated.
    fn push_columns(&self, builder: &mut PgBuilder)
        requires
            qb_open(*old(builder)),
        ensures
            qb_open(*final(builder)),
            qb_sql(*final(builder)) == qb_sql(*old(builder)) + join(self.cols(), ", "@),
            qb_args(*final(builder)) == qb_args(*old(builder)),
    {
        let ghost sql0 = qb_sql(*builder);
        let ghost args0 = qb_args(*builder);
        let ghost cols = self.cols();
        let n = self.columns.len();
        let mut i: usize = 0;
        while i < n
            invariant
                i <= n,
                n == self.columns.len(),
                cols == self.cols(),
                qb_open(*builder),
                qb_args(*builder) == args0,
                qb_sql(*builder) == sql0 + join(cols.take(i as int), ", "@),
            decreases n - i,
        {
            proof {
                lemma_join_push(cols.take(i as int), ", "@, cols[i as int]);
                assert(cols.take(i as int).push(cols[i as int]) =~= cols.take(i as int + 1));
                assert(cols[i as int] == self.columns@[i as int]@);
            }
            if i > 0 {
                builder.push(", ");
            }
            builder.push(self.columns[i].as_str());
            proof {
                if i > 0 {
                    assert(qb_sql(*builder) =~= sql0 + (join(cols.take(i as int), ", "@)
                        + ", "@ + cols[i as int]));
                } else {
                    assert(cols.take(0).len() == 0);
                    assert(join(cols.take(0), ", "@) == Seq::<char>::empty());
                    assert(qb_sql(*builder) =~= sql0 + cols[0]);
                }
                assert(qb_sql(*builder) =~= sql0 + join(cols.take(i as int + 1), ", "@));
            }
            i = i + 1;
        }
        proof {
            assert(cols.take(n as int) =~= cols);
        }
    }

    /// Append one placeholder per cursor value, comma-separated, binding
    /// the values in tuple order.
    fn push_cursor_binds(&self, builder: &mut PgBuilder, vals: &Vec<i64>)
        requires
            qb_open(*old(builder)),
        ensures
            qb_open(*final(builder)),
            qb_sql(*final(builder)) == qb_sql(*old(builder)) + join(
                placeholders(qb_args(*old(builder)).len() + 1, vals@.len()),
                ", "@,
            ),
            qb_args(*final(builder)) == qb_args(*old(builder)) + int_seq(vals@),
    {
        let ghost sql0 = qb_sql(*builder);
        let ghost args0 = qb_args(*builder);
        let m = vals.len();
        let mut j: usize = 0;
        while j < m
            invariant
                j <= m,
                m == vals.len(),
                qb_open(*builder),
                qb_args(*builder) == args0 + int_seq(vals@.take(j as int)),
                qb_sql(*builder) == sql0 + join(placeholders(args0.len() + 1, j as nat), ", "@),
            decreases m - j,
        {
            proof {
                lemma_join_push(placeholders(args0.len() + 1, j as nat), ", "@,
                    placeholder(args0.len() + 1 + j as nat));
                assert(placeholders(args0.len() + 1, j as nat).push(placeholder(args0.len() + 1 + j as nat))
                    =~= placeholders(args0.len() + 1, j as nat + 1));
                assert(vals@.take(j as int).len() == j as int);
                assert(int_seq(vals@.take(j as int)).len() == j as int);
                assert(qb_args(*builder).len() == args0.len() + j as nat);
            }
            let ghost before_args = qb_args(*builder);
            if j > 0 {
                builder.push(", ");
            }
            builder.push_bind_i64(vals[j]);
            proof {
                assert(qb_args(*builder) =~= args0 + int_seq(vals@.take(j as int + 1))) by {
                    assert(int_seq(vals@.take(j as int)).push(vals@[j as int] as int)
                        =~= int_seq(vals@.take(j as int + 1)));
                    assert(qb_args(*builder) =~= before_args.push(vals@[j as int] as int));
                }
                if j > 0 {
                    assert(qb_sql(*builder) =~= sql0 + (join(placeholders(args0.len() + 1, j as nat), ", "@)
                        + ", "@ + placeholder(args0.len() + 1 + j as nat)));
                } else {
                    assert(placeholders(args0.len() + 1, 0).len() == 0);
                    assert(join(placeholders(args0.len() + 1, 0), ", "@) == Seq::<char>::empty());
                    assert(placeholders(args0.len() + 1, 1)[0] == placeholder(args0.len() + 1));
                    assert(qb_sql(*builder) =~= sql0 + placeholder(args0.len() + 1));
                }
                assert(qb_sql(*builder) =~= sql0 + join(placeholders(args0.len() + 1, j as nat + 1), ", "@));
            }
            j = j + 1;
        }
        proof {
            assert(vals@.take(m as int) =~= vals@);
        }
    }

    /// Append the full row-comparison predicate for a present cursor:
    /// the configured columns against one placeholder per cursor value,
    /// under the configured operator.
    fn push_where_some(&self, builder: &mut PgBuilder, vals: &Vec<i64>)
        requires
            qb_open(*old(builder)),
        ensures
            qb_open(*final(builder)),
            qb_sql(*final(builder)) == qb_sql(*old(builder)) + where_some_sql(
                self.cols(),
                self.compare_op(),
                qb_args(*old(builder)).len() + 1,
                vals@.len(),
            ),
            qb_args(*final(builder)) == qb_args(*old(builder)) + int_seq(vals@),
    {
        let ghost sql0 = qb_sql(*builder);
        let ghost args0 = qb_args(*builder);
        builder.push(" ((");
        self.push_columns(builder);
        builder.push(") ");
        builder.push(self.compare);
        builder.push(" (");
        self.push_cursor_binds(builder, vals);
        builder.push("))");
        proof {
            assert(qb_sql(*builder) =~= sql0 + where_some_sql(
                self.cols(),
                self.compare_op(),
                args0.len() + 1,
                vals@.len(),
            ));
        }
    }

    /// Push the pagination condition to the `builder`.
    ///
    /// Roughly, `push_whereN` pushes and binds
    /// `((col_1, col_2, ..., col_N) op ($_, $_, ..., $_))` to the
    /// `builder`, where `op` is chosen according to the pagination
    /// direction, and `N` is the number of cursor columns.  Without a
    /// cursor it pushes the neutral predicate ` true` instead.
    ///
    /// Note, internally this calls `push`/`push_bind` of the query
    /// builder, so it is as secure as the `QueryBuilder`.
    pub fn push_where1(&self, builder: &mut PgBuilder, cursors: Option<i64>)
        requires
            qb_open(*old(builder)),
        ensures
            qb_open(*final(builder)),
            cursors is None ==> (qb_sql(*final(builder)) == qb_sql(*old(builder))
                + where_none_sql() && qb_args(*final(builder)) == qb_args(*old(builder))),
            cursors matches Some(t1) ==> (qb_sql(*final(builder)) == qb_sql(*old(builder))
                + where_some_sql(
                    self.cols(),
                    self.compare_op(),
                    qb_args(*old(builder)).len() + 1,
                    1,
                ) && qb_args(*final(builder)) == qb_args(*old(builder)) + seq![t1 as int]),
    {
        match cursors {
            None => {
                self.push_where_none(builder);
            },
            Some(t1) => {
                let vals: Vec<i64> = vec![t1];
                self.push_where_some(builder, &vals);
                proof {
                    assert(int_seq(vals@) =~= seq![t1 as int]);
                }
            },
        }
    }

    /// Push the pagination condition for a cursor of 2 columns.
    ///
    /// See [`Page::push_where1`].
    pub fn push_where2(&self, builder: &mut PgBuilder, cursors: Option<(i64, i64)>)
        requires
            qb_open(*old(builder)),
        ensures
            qb_open(*final(builder)),
            cursors is None ==> (qb_sql(*final(builder)) == qb_sql(*old(builder))
                + where_none_sql() && qb_args(*final(builder)) == qb_args(*old(builder))),
            cursors matches Some((t1, t2)) ==> (qb_sql(*final(builder)) == qb_sql(*old(builder))
                + where_some_sql(
                    self.cols(),
                    self.compare_op(),
                    qb_args(*old(builder)).len() + 1,
                    2,
                ) && qb_args(*final(builder)) == qb_args(*old(builder)) + seq![t1 as int, t2 as int]),
    {
        match cursors {
            None => {
                self.push_where_none(builder);
            },
            Some((t1, t2)) => {
                let vals: Vec<i64> = vec![t1, t2];
                self.push_where_some(builder, &vals);
                proof {
                    assert(int_seq(vals@) =~= seq![t1 as int, t2 as int]);
                }
            },
        }
    }

    /// Push the pagination condition for a cursor of 3 columns.
    ///
    /// See [`Page::push_where1`].
    pub fn push_where3(&self, builder: &mut PgBuilder, cursors: Option<(i64, i64, i64)>)
        requires
            qb_open(*old(builder)),
        ensures
            qb_open(*final(builder)),
            cursors is None ==> (qb_sql(*final(builder)) == qb_sql(*old(builder))
                + where_none_sql() && qb_args(*final(builder)) == qb_args(*old(builder))),
            cursors matches Some((t1, t2, t3)) ==> (qb_sql(*final(builder)) == qb_sql(*old(builder))
                + where_some_sql(
                    self.cols(),
                    self.compare_op(),
                    qb_args(*old(builder)).len() + 1,
                    3,
                ) && qb_args(*final(builder)) == qb_args(*old(builder)) + seq![t1 as int, t2 as int, t3 as int]),
    {
        match cursors {
            None => {
                self.push_where_none(builder);
            },
            Some((t1, t2, t3)) => {
                let vals: Vec<i64> = vec![t1, t2, t3];
                self.push_where_some(builder, &vals);
                proof {
                    assert(int_seq(vals@) =~= seq![t1 as int, t2 as int, t3 as int]);
                }
            },
        }
    }

    /// Push the pagination condition for a cursor of 4 columns.
    ///
    /// See [`Page::push_where1`].
    pub fn push_where4(&self, builder: &mut PgBuilder, cursors: Option<(i64, i64, i64, i64)>)
        requires
            qb_open(*old(builder)),
        ensures
            qb_open(*final(builder)),
            cursors is None ==> (qb_sql(*final(builder)) == qb_sql(*old(builder))
                + where_none_sql() && qb_args(*final(builder)) == qb_args(*old(builder))),
            cursors matches Some((t1, t2, t3, t4)) ==> (qb_sql(*final(builder)) == qb_sql(*old(builder))
                + where_some_sql(
                    self.cols(),
                    self.compare_op(),
                    qb_args(*old(builder)).len() + 1,
                    4,
                ) && qb_args(*final(builder)) == qb_args(*old(builder)) + seq![t1 as int, t2 as int, t3 as int, t4 as int]),
    {
        match cursors {
            None => {
                self.push_where_none(builder);
            },
            Some((t1, t2, t3, t4)) => {
                let vals: Vec<i64> = vec![t1, t2, t3, t4];
                self.push_where_some(builder, &vals);
                proof {
                    assert(int_seq(vals@) =~= seq![t1 as int, t2 as int, t3 as int, t4 as int]);
                }
            },
        }
    }

    /// Push the pagination condition for a cursor of 5 columns.
    ///
    /// See [`Page::push_where1`].
    pub fn push_where5(&self, builder: &mut PgBuilder, cursors: Option<(i64, i64, i64, i64, i64)>)
        requires
            qb_open(*old(builder)),
        ensures
            qb_open(*final(builder)),
            cursors is None ==> (qb_sql(*final(builder)) == qb_sql(*old(builder))
                + where_none_sql() && qb_args(*final(builder)) == qb_args(*old(builder))),
            cursors matches Some((t1, t2, t3, t4, t5)) ==> (qb_sql(*final(builder)) == qb_sql(*old(builder))
                + where_some_sql(
                    self.cols(),
                    self.compare_op(),
                    qb_args(*old(builder)).len() + 1,
                    5,
                ) && qb_args(*final(builder)) == qb_args(*old(builder)) + seq![t1 as int, t2 as int, t3 as int, t4 as int, t5 as int]),
    {
        match cursors {
            None => {
                self.push_where_none(builder);
            },
            Some((t1, t2, t3, t4, t5)) => {
                let vals: Vec<i64> = vec![t1, t2, t3, t4, t5];
                self.push_where_some(builder, &vals);
                proof {
                    assert(int_seq(vals@) =~= seq![t1 as int, t2 as int, t3 as int, t4 as int, t5 as int]);
                }
            },
        }
    }

    /// Append the neutral no-cursor predicate ` true`.
    fn push_where_none(&self, builder: &mut PgBuilder)
        requires
            qb_open(*old(builder)),
        ensures
            qb_open(*final(builder)),
            qb_sql(*final(builder)) == qb_sql(*old(builder)) + where_none_sql(),
            qb_args(*final(builder)) == qb_args(*old(builder)),
    {
        let ghost sql0 = qb_sql(*builder);
        builder.push(" ");
        builder.push("true");
        proof {
            reveal_strlit(" ");
            reveal_strlit("true");
            reveal_strlit(" true");
            assert(qb_sql(*builder) =~= sql0 + where_none_sql());
        }
    }

    /// Push the order by clause `order by col_1 sort, col_2 sort, ...`.
    pub fn push_order_by(&self, builder: &mut PgBuilder)
        requires
            qb_open(*old(builder)),
        ensures
            qb_open(*final(builder)),
            qb_sql(*final(builder)) == qb_sql(*old(builder))
                + order_by_sql(self.cols(), self.sort_order()),
            qb_args(*final(builder)) == qb_args(*old(builder)),
    {
        let ghost sql0 = qb_sql(*builder);
        let ghost args0 = qb_args(*builder);
        let ghost pairs = order_pairs(self.cols(), self.sort_order());
        builder.push(" ");
        builder.push("order by");
        builder.push(" ");
        proof {
            reveal_strlit(" ");
            reveal_strlit("order by");
            reveal_strlit(" order by ");
            assert(pairs.take(0).len() == 0);
            assert(join(pairs.take(0), ", "@) == Seq::<char>::empty());
            assert(qb_sql(*builder) =~= sql0 + " order by "@ + join(pairs.take(0), ", "@));
        }
        let n = self.columns.len();
        let mut i: usize = 0;
        while i < n
            invariant
                i <= n,
                n == self.columns.len(),
                pairs == order_pairs(self.cols(), self.sort_order()),
                qb_open(*builder),
                qb_args(*builder) == args0,
                qb_sql(*builder) == sql0 + " order by "@ + join(pairs.take(i as int), ", "@),
            decreases n - i,
        {
            proof {
                assert(pairs[i as int] == self.cols()[i as int] + " "@ + self.sort_order());
                lemma_join_push(pairs.take(i as int), ", "@, pairs[i as int]);
                assert(pairs.take(i as int).push(pairs[i as int]) =~= pairs.take(i as int + 1));
                assert(self.cols()[i as int] == self.columns@[i as int]@);
            }
            if i > 0 {
                builder.push(", ");
            }
            builder.push(self.columns[i].as_str());
            builder.push(" ");
            builder.push(self.sort);
            proof {
                if i > 0 {
                    assert(qb_sql(*builder) =~= sql0 + " order by "@
                        + (join(pairs.take(i as int), ", "@) + ", "@ + pairs[i as int]));
                } else {
                    assert(qb_sql(*builder) =~= sql0 + " order by "@ + pairs[0]);
                }
                assert(qb_sql(*builder) =~= sql0 + " order by "@
                    + join(pairs.take(i as int + 1), ", "@));
            }
            i = i + 1;
        }
        proof {
            assert(pairs.take(n as int) =~= pairs);
            assert(qb_sql(*builder) =~= sql0 + order_by_sql(self.cols(), self.sort_order()));
        }
    }

    /// Push the limit clause `limit $_`, binding the page size.
    pub fn push_limit(&self, builder: &mut PgBuilder)
        requires
            qb_open(*old(builder)),
        ensures
            qb_open(*final(builder)),
            qb_sql(*final(builder)) == qb_sql(*old(builder))
                + limit_sql(qb_args(*old(builder)).len() + 1),
            qb_args(*final(builder)) == qb_args(*old(builder)).push(self.page_size() as int),
    {
        let ghost sql0 = qb_sql(*builder);
        builder.push(" ");
        builder.push("limit");
        builder.push(" ");
        builder.push_bind_i64(self.size as i64);
        proof {
            reveal_strlit(" ");
            reveal_strlit("limit");
            reveal_strlit(" limit ");
            assert(qb_sql(*builder) =~= sql0 + limit_sql(qb_args(*old(builder)).len() + 1));
        }
    }
}

/// A `Page` built by [`Page::new`] never mixes its derived pair: the `<`
/// operator goes with the `desc` sort order and the `>` operator with
/// `asc`, whichever direction was chosen.
pub proof fn lemma_direction_pairing(p: Page)
    requires
        p.wf(),
    ensures
        p.compare_op() == "<"@ <==> p.sort_order() == "desc"@,
        p.compare_op() == ">"@ <==> p.sort_order() == "asc"@,
{
    reveal_strlit("<");
    reveal_strlit(">");
    reveal_strlit("desc");
    reveal_strlit("asc");
    assert("<"@[0] == '<' && ">"@[0] == '>');
    assert("<"@ != ">"@);
    assert("desc"@.len() == 4 && "asc"@.len() == 3);
    assert("desc"@ != "asc"@);
}

/// Emission depends on the configuration and on the builder's prior
/// parameter count alone: two pages configured alike emit, at the same
/// position, character-identical where and order-by fragments.  (The limit
/// fragment's text depends on the parameter position alone, and the value
/// it binds is the shared page size, so the same holds of it.)
pub proof fn lemma_config_determines_fragments(p: Page, q: Page, first: nat, count: nat)
    requires
        p.cols() == q.cols(),
        p.compare_op() == q.compare_op(),
        p.sort_order() == q.sort_order(),
        p.page_size() == q.page_size(),
    ensures
        where_some_sql(p.cols(), p.compare_op(), first, count) == where_some_sql(
            q.cols(),
            q.compare_op(),
            first,
            count,
        ),
        order_by_sql(p.cols(), p.sort_order()) == order_by_sql(q.cols(), q.sort_order()),
{
}

} // verus!
