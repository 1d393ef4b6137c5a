use sqlx_page::{Page, PgBuilder};

fn columns(names: &[&str]) -> Vec<String> {
    names.iter().map(|n| n.to_string()).collect()
}

#[test]
fn builder_starts_with_init_fragment() {
    let b = PgBuilder::new("select 1");
    assert_eq!(b.sql(), "select 1");
}

#[test]
fn backward_single_column_scenario() {
    let page = Page::new(true, 100, columns(&["row_id"]));
    let mut b = PgBuilder::new("select row_id from users where true and");
    page.push_where1(&mut b, Some(11));
    assert_eq!(
        b.sql(),
        "select row_id from users where true and ((row_id) < ($1))"
    );
    page.push_order_by(&mut b);
    assert_eq!(
        b.sql(),
        "select row_id from users where true and ((row_id) < ($1)) order by row_id desc"
    );
    page.push_limit(&mut b);
    assert_eq!(
        b.sql(),
        "select row_id from users where true and ((row_id) < ($1)) order by row_id desc limit $2"
    );
}

#[test]
fn forward_two_column_scenario() {
    let page = Page::new(false, 20, columns(&["ts", "id"]));
    let mut b = PgBuilder::new("select ts, id from events where true and");
    page.push_where2(&mut b, Some((1000, 5)));
    assert_eq!(
        b.sql(),
        "select ts, id from events where true and ((ts, id) > ($1, $2))"
    );
    page.push_order_by(&mut b);
    assert_eq!(
        b.sql(),
        "select ts, id from events where true and ((ts, id) > ($1, $2)) order by ts asc, id asc"
    );
    page.push_limit(&mut b);
    assert_eq!(
        b.sql(),
        "select ts, id from events where true and ((ts, id) > ($1, $2)) order by ts asc, id asc limit $3"
    );
}

#[test]
fn no_cursor_emits_neutral_predicate_only() {
    let backward = Page::new(true, 10, columns(&["a"]));
    let mut b = PgBuilder::new("x");
    backward.push_where1(&mut b, None);
    assert_eq!(b.sql(), "x true");

    let forward = Page::new(false, 10, columns(&["a", "b", "c"]));
    let mut b = PgBuilder::new("y");
    forward.push_where3(&mut b, None);
    assert_eq!(b.sql(), "y true");

    let five = Page::new(true, 1, columns(&["a", "b", "c", "d", "e"]));
    let mut b = PgBuilder::new("z");
    five.push_where5(&mut b, None);
    assert_eq!(b.sql(), "z true");
}

#[test]
fn no_cursor_then_later_binds_start_at_one() {
    let page = Page::new(true, 10, columns(&["a"]));
    let mut b = PgBuilder::new("q");
    page.push_where1(&mut b, None);
    page.push_limit(&mut b);
    assert_eq!(b.sql(), "q true limit $1");
}

#[test]
fn three_column_backward_cursor() {
    let page = Page::new(true, 50, columns(&["a", "b", "c"]));
    let mut b = PgBuilder::new("");
    page.push_where3(&mut b, Some((7, 8, 9)));
    assert_eq!(b.sql(), " ((a, b, c) < ($1, $2, $3))");
}

#[test]
fn four_column_forward_cursor() {
    let page = Page::new(false, 50, columns(&["a", "b", "c", "d"]));
    let mut b = PgBuilder::new("");
    page.push_where4(&mut b, Some((1, 2, 3, 4)));
    assert_eq!(b.sql(), " ((a, b, c, d) > ($1, $2, $3, $4))");
}

#[test]
fn five_column_cursor_and_two_digit_placeholders() {
    let page = Page::new(false, 3, columns(&["a", "b", "c", "d", "e"]));
    let mut b = PgBuilder::new("s");
    page.push_where5(&mut b, Some((1, 2, 3, 4, 5)));
    page.push_where5(&mut b, Some((6, 7, 8, 9, 10)));
    page.push_limit(&mut b);
    assert_eq!(
        b.sql(),
        "s ((a, b, c, d, e) > ($1, $2, $3, $4, $5)) \
         ((a, b, c, d, e) > ($6, $7, $8, $9, $10)) limit $11"
    );
}

#[test]
fn order_by_uses_one_sort_order_per_direction() {
    let backward = Page::new(true, 10, columns(&["x", "y"]));
    let mut b = PgBuilder::new("");
    backward.push_order_by(&mut b);
    assert_eq!(b.sql(), " order by x desc, y desc");

    let forward = Page::new(false, 10, columns(&["x", "y"]));
    let mut b = PgBuilder::new("");
    forward.push_order_by(&mut b);
    assert_eq!(b.sql(), " order by x asc, y asc");
}

#[test]
fn limit_binds_exactly_one_parameter() {
    let page = Page::new(true, 100, columns(&["k"]));
    let mut b = PgBuilder::new("select k from t");
    page.push_limit(&mut b);
    assert_eq!(b.sql(), "select k from t limit $1");
}

#[test]
fn repeated_emission_into_fresh_builders_is_identical() {
    let page = Page::new(true, 25, columns(&["ts", "id"]));
    let mut first = PgBuilder::new("select ts, id from t where true and");
    let mut second = PgBuilder::new("select ts, id from t where true and");
    for b in [&mut first, &mut second] {
        page.push_where2(b, Some((123, 456)));
        page.push_order_by(b);
        page.push_limit(b);
    }
    assert_eq!(first.sql(), second.sql());
    assert_eq!(
        first.sql(),
        "select ts, id from t where true and ((ts, id) < ($1, $2)) \
         order by ts desc, id desc limit $3"
    );
}
