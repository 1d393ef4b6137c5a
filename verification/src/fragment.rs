//! The SQL fragments this library emits, as mathematical functions.
//!
//! Every emission method of [`crate::Page`] promises in its `ensures` that
//! the text appended to the builder equals one of these functions of the
//! configuration and of the builder's parameter count.

use vstd::prelude::*;

verus! {

/// The decimal digit `d` (0 through 9) as a character.
pub open spec fn digit_char(d: nat) -> char {
    if d == 0 { '0' }
    else if d == 1 { '1' }
    else if d == 2 { '2' }
    else if d == 3 { '3' }
    else if d == 4 { '4' }
    else if d == 5 { '5' }
    else if d == 6 { '6' }
    else if d == 7 { '7' }
    else if d == 8 { '8' }
    else { '9' }
}

/// `n` written in decimal, without a sign and without leading zeros
/// (except for `n == 0`, which is written `0`).
pub open spec fn dec_str(n: nat) -> Seq<char>
    decreases n,
{
    if n < 10 {
        seq![digit_char(n)]
    } else {
        dec_str(n / 10) + seq![digit_char(n % 10)]
    }
}

/// The Postgres placeholder for the `n`-th bound parameter: `$n`.
pub open spec fn placeholder(n: nat) -> Seq<char> {
    seq!['$'] + dec_str(n)
}

/// The placeholders for `count` consecutive parameters starting at
/// number `start`: `$start`, `$start+1`, ...
pub open spec fn placeholders(start: nat, count: nat) -> Seq<Seq<char>> {
    Seq::new(count, |i: int| placeholder((start + i) as nat))
}

/// `parts` joined with `sep` between successive elements, as
/// `QueryBuilder::separated` writes a list.
pub open spec fn join(parts: Seq<Seq<char>>, sep: Seq<char>) -> Seq<char>
    decreases parts.len(),
{
    if parts.len() == 0 {
        Seq::empty()
    } else if parts.len() == 1 {
        parts[0]
    } else {
        parts[0] + sep + join(parts.drop_first(), sep)
    }
}

/// Joining one more part appends the separator and that part
/// (or is that part alone, when there was nothing yet).
pub proof fn lemma_join_push(parts: Seq<Seq<char>>, sep: Seq<char>, last: Seq<char>)
    ensures
        parts.len() == 0 ==> join(parts.push(last), sep) == last,
        parts.len() > 0 ==> join(parts.push(last), sep) == join(parts, sep) + sep + last,
    decreases parts.len(),
{
    if parts.len() == 0 {
        assert(parts.push(last)[0] == last);
        assert(join(parts.push(last), sep) == last);
    } else if parts.len() == 1 {
        let two = parts.push(last);
        assert(two.drop_first() =~= seq![last]);
        assert(seq![last].len() == 1 && seq![last][0] == last);
        assert(join(seq![last], sep) == last);
        assert(join(two, sep) == two[0] + sep + join(two.drop_first(), sep));
        assert(two[0] == parts[0]);
        assert(join(parts, sep) == parts[0]);
    } else {
        lemma_join_push(parts.drop_first(), sep, last);
        assert(parts.push(last).drop_first() =~= parts.drop_first().push(last));
        assert(join(parts, sep) + sep + last
            == parts[0] + sep + (join(parts.drop_first(), sep) + sep + last)) by {
            assert(join(parts, sep) == parts[0] + sep + join(parts.drop_first(), sep));
            assert((parts[0] + sep + join(parts.drop_first(), sep)) + sep + last
                =~= parts[0] + sep + (join(parts.drop_first(), sep) + sep + last));
        }
    }
}

/// A sequence of eight-byte integers as the mathematical integers they
/// stand for, in order — how bound cursor values appear in the builder
/// model.
pub open spec fn int_seq(vals: Seq<i64>) -> Seq<int> {
    vals.map_values(|v: i64| v as int)
}

/// The where-fragment emitted when a cursor is present: a parenthesized
/// row comparison of the configured columns against `count` placeholders
/// numbered from `first`, using the configured operator.
pub open spec fn where_some_sql(
    columns: Seq<Seq<char>>,
    compare: Seq<char>,
    first: nat,
    count: nat,
) -> Seq<char> {
    " (("@ + join(columns, ", "@) + ") "@ + compare + " ("@
        + join(placeholders(first, count), ", "@) + "))"@
}

/// The where-fragment emitted when there is no cursor yet: the neutral
/// predicate ` true`, whatever the configuration.
pub open spec fn where_none_sql() -> Seq<char> {
    " true"@
}

/// The column/sort-order pairs of the `order by` clause: every configured
/// column, in configured order, each followed by the one sort order.
pub open spec fn order_pairs(columns: Seq<Seq<char>>, sort: Seq<char>) -> Seq<Seq<char>> {
    columns.map_values(|c: Seq<char>| c + " "@ + sort)
}

/// The `order by` fragment: the pairs of [`order_pairs`], comma-joined.
pub open spec fn order_by_sql(columns: Seq<Seq<char>>, sort: Seq<char>) -> Seq<char> {
    " order by "@ + join(order_pairs(columns, sort), ", "@)
}

/// The `limit` fragment: the literal keyword and one placeholder numbered
/// `param`.
pub open spec fn limit_sql(param: nat) -> Seq<char> {
    " limit "@ + placeholder(param)
}

/// A where-fragment for a present cursor carries exactly `count`
/// placeholders, consecutively numbered upward from `first`, in order.
pub proof fn lemma_placeholders_shape(first: nat, count: nat)
    ensures
        placeholders(first, count).len() == count,
        forall|i: int|
            0 <= i < count ==> placeholders(first, count)[i] == placeholder((first + i) as nat),
{
}

/// The order-by clause holds exactly one column/sort-order pair per
/// configured column, in configured order, all sharing the one sort order.
pub proof fn lemma_order_pairs_shape(columns: Seq<Seq<char>>, sort: Seq<char>)
    ensures
        order_pairs(columns, sort).len() == columns.len(),
        forall|i: int|
            0 <= i < columns.len() ==> order_pairs(columns, sort)[i] == columns[i] + " "@ + sort,
{
}

} // verus!
