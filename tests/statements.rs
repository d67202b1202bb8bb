use typed_sql::{
    Assignment, CmpOp, DeleteStatement, Field, InsertStatement, Literal, Predicate, Projection,
    Query, QueryError, Row, SelectStatement, Table, UpdateStatement,
};

fn table(name: &str, fields: &[&str]) -> Table {
    Table::new(name.to_string(), fields.iter().map(|f| f.to_string()).collect())
}

fn posts() -> Table {
    table("posts", &["id", "name", "content"])
}

fn users() -> Table {
    table("users", &["id", "name"])
}

fn field(t: &Table, name: &str) -> Field {
    t.field(name).unwrap()
}

fn text(s: &str) -> Literal {
    Literal::Text(s.to_string())
}

fn select_sql(s: Result<SelectStatement, QueryError>) -> String {
    s.unwrap().to_sql()
}

#[test]
fn select_filter_on_text() {
    let t = posts();
    let content = field(&t, "content");
    let stmt = t.select().filter(content.eq(text("foo")));
    assert_eq!(select_sql(stmt), "SELECT * FROM posts WHERE posts.content = 'foo';");
}

#[test]
fn count_of_field() {
    let t = posts();
    let content = field(&t, "content");
    let stmt = t.count(Some(content));
    assert_eq!(select_sql(stmt), "SELECT COUNT(posts.content) FROM posts;");
}

#[test]
fn count_of_all() {
    let stmt = posts().count(None);
    assert_eq!(select_sql(stmt), "SELECT COUNT(*) FROM posts;");
}

#[test]
fn neq_and_lt() {
    let t = users();
    let id = field(&t, "id");
    let stmt = t.select().filter(id.neq(Literal::Int(2)).and(id.lt(Literal::Int(5))));
    assert_eq!(select_sql(stmt), "SELECT * FROM users WHERE users.id != 2 AND users.id < 5;");
}

#[test]
fn eq_or_eq() {
    let t = users();
    let id = field(&t, "id");
    let stmt = t.select().filter(id.eq(Literal::Int(1)).or(id.eq(Literal::Int(3))));
    assert_eq!(select_sql(stmt), "SELECT * FROM users WHERE users.id = 1 OR users.id = 3;");
}

#[test]
fn update_with_filter() {
    let t = posts();
    let id = field(&t, "id");
    let name = field(&t, "name");
    let set = id.set(Literal::Int(2)).and(name.set(text("foo")));
    let stmt = t.update(set).unwrap().filter(id.eq(Literal::Int(1))).unwrap();
    assert_eq!(stmt.to_sql(), "UPDATE posts SET posts.id = 2,posts.name = 'foo' WHERE posts.id = 1;");
}

#[test]
fn delete_with_filter() {
    let t = posts();
    let id = field(&t, "id");
    let stmt = t.delete().filter(id.eq(Literal::Int(2))).unwrap();
    assert_eq!(stmt.to_sql(), "DELETE FROM posts WHERE posts.id = 2;");
}

#[test]
fn delete_everything() {
    let stmt: DeleteStatement = posts().delete();
    assert_eq!(stmt.to_sql(), "DELETE FROM posts;");
}

#[test]
fn group_by_one_field() {
    let t = users();
    let id = field(&t, "id");
    let stmt = t.select().group_by(vec![id]);
    assert_eq!(select_sql(stmt), "SELECT * FROM users GROUP BY users.id;");
}

#[test]
fn group_by_keeps_field_order() {
    let t = users();
    let id = field(&t, "id");
    let name = field(&t, "name");
    let stmt = t.select().group_by(vec![name, id]);
    assert_eq!(select_sql(stmt), "SELECT * FROM users GROUP BY users.name,users.id;");
}

#[test]
fn group_by_empty_is_refused() {
    let stmt = users().select().group_by(vec![]);
    assert!(matches!(stmt, Err(QueryError::EmptyList)));
}

#[test]
fn order_by_without_direction() {
    let t = users();
    let id = field(&t, "id");
    let stmt = t.select().order_by(vec![id.ordering()]);
    assert_eq!(select_sql(stmt), "SELECT * FROM users ORDER BY users.id;");
}

#[test]
fn order_by_ascending() {
    let t = users();
    let id = field(&t, "id");
    let stmt = t.select().order_by(vec![id.ascending()]);
    assert_eq!(select_sql(stmt), "SELECT * FROM users ORDER BY users.id ASC;");
}

#[test]
fn order_by_several() {
    let t = users();
    let id = field(&t, "id");
    let name = field(&t, "name");
    let stmt = t.select().order_by(vec![id.ascending(), name.descending()]);
    assert_eq!(select_sql(stmt), "SELECT * FROM users ORDER BY users.id ASC,users.name DESC;");
}

#[test]
fn order_and_limit_commute() {
    let t1 = users();
    let id1 = field(&t1, "id");
    let a = t1.select().order_by(vec![id1.descending()]).unwrap().limit(10);
    let t2 = users();
    let id2 = field(&t2, "id");
    let b = t2.select().limit(10).order_by(vec![id2.descending()]).unwrap();
    assert_eq!(a.to_sql(), b.to_sql());
    assert_eq!(a.to_sql(), "SELECT * FROM users ORDER BY users.id DESC LIMIT 10;");
}

#[test]
fn clauses_render_in_fixed_order() {
    let t = users();
    let id = field(&t, "id");
    let name = field(&t, "name");
    let stmt = t
        .query(Projection::Column(name.copied()))
        .unwrap()
        .limit(3)
        .order_by(vec![name.ordering()])
        .unwrap()
        .group_by(vec![name.copied()])
        .unwrap()
        .filter(id.gt(Literal::Int(0)))
        .unwrap();
    assert_eq!(
        stmt.to_sql(),
        "SELECT users.name FROM users WHERE users.id > 0 GROUP BY users.name ORDER BY users.name LIMIT 3;"
    );
}

#[test]
fn second_filter_is_joined_with_and() {
    let t = users();
    let id = field(&t, "id");
    let stmt = t
        .select()
        .filter(id.ge(Literal::Int(1)))
        .unwrap()
        .filter(id.le(Literal::Int(9)))
        .unwrap();
    assert_eq!(stmt.to_sql(), "SELECT * FROM users WHERE users.id >= 1 AND users.id <= 9;");
}

#[test]
fn mixed_chain_has_no_parentheses() {
    let t = users();
    let id = field(&t, "id");
    let p = id
        .eq(Literal::Int(1))
        .or(id.eq(Literal::Int(2)))
        .and(id.eq(Literal::Int(3)))
        .or(id.eq(Literal::Int(4)));
    let stmt = t.select().filter(p);
    assert_eq!(
        select_sql(stmt),
        "SELECT * FROM users WHERE users.id = 1 OR users.id = 2 AND users.id = 3 OR users.id = 4;"
    );
}

#[test]
fn compare_builds_any_operator() {
    let t = users();
    let id = field(&t, "id");
    let stmt = t.select().filter(Predicate::compare(id, CmpOp::Neq, Literal::Null));
    assert_eq!(select_sql(stmt), "SELECT * FROM users WHERE users.id != NULL;");
}

#[test]
fn foreign_field_in_filter_is_refused() {
    let p = posts();
    let post_id = field(&p, "id");
    let stmt = users().select().filter(post_id.eq(Literal::Int(1)));
    assert!(matches!(stmt, Err(QueryError::ForeignField)));
}

#[test]
fn foreign_field_in_projection_is_refused() {
    let p = posts();
    let post_id = field(&p, "id");
    assert!(matches!(users().count(Some(post_id)), Err(QueryError::ForeignField)));
}

#[test]
fn unknown_field_is_not_found() {
    assert!(users().field("email").is_none());
}

#[test]
fn field_with_unknown_name_is_refused() {
    let stray = Field { table: "users".to_string(), name: "email".to_string() };
    let stmt = users().delete().filter(stray.eq(Literal::Int(1)));
    assert!(matches!(stmt, Err(QueryError::ForeignField)));
}

#[test]
fn update_of_foreign_field_is_refused() {
    let p = posts();
    let content = field(&p, "content");
    assert!(matches!(users().update(content.set(text("x"))), Err(QueryError::ForeignField)));
}

#[test]
fn update_with_no_assignments_is_refused() {
    let empty = typed_sql::Assignments { items: vec![] };
    assert!(matches!(users().update(empty), Err(QueryError::EmptyList)));
}

#[test]
fn update_without_filter() {
    let t = users();
    let name = field(&t, "name");
    let stmt: UpdateStatement = t.update(name.set(Literal::Null)).unwrap();
    assert_eq!(stmt.to_sql(), "UPDATE users SET users.name = NULL;");
}

fn user_row(t: &Table, id: i64, name: &str) -> Row {
    field(t, "id").set(Literal::Int(id)).and(field(t, "name").set(text(name))).into_row()
}

#[test]
fn insert_one_row() {
    let t = users();
    let row = user_row(&t, 1, "ann");
    let stmt: InsertStatement = t.insert(row).unwrap();
    assert_eq!(stmt.to_sql(), "INSERT INTO users (id,name) VALUES (1,'ann');");
}

#[test]
fn insert_subset_of_fields() {
    let t = posts();
    let row = Row::new(vec![Assignment { field: field(&t, "content"), value: text("hi") }]);
    let stmt = t.insert(row).unwrap();
    assert_eq!(stmt.to_sql(), "INSERT INTO posts (content) VALUES ('hi');");
}

#[test]
fn insert_several_rows_in_order() {
    let t = users();
    let rows = vec![user_row(&t, 1, "ann"), user_row(&t, 2, "bob"), user_row(&t, 3, "cy")];
    let stmt = t.insert_values(rows).unwrap();
    assert_eq!(
        stmt.to_sql(),
        "INSERT INTO users (id,name) VALUES (1,'ann'),(2,'bob'),(3,'cy');"
    );
}

#[test]
fn insert_no_rows_is_refused() {
    assert!(matches!(users().insert_values(vec![]), Err(QueryError::EmptyRows)));
}

#[test]
fn insert_rows_of_different_shape_is_refused() {
    let t = users();
    let short = field(&t, "id").set(Literal::Int(2)).into_row();
    let rows = vec![user_row(&t, 1, "ann"), short];
    assert!(matches!(t.insert_values(rows), Err(QueryError::MismatchedRows)));
}

#[test]
fn insert_columns_in_table_order() {
    let t = users();
    let row = field(&t, "name").set(text("ann")).and(field(&t, "id").set(Literal::Int(1))).into_row();
    let stmt = t.insert(row).unwrap();
    assert_eq!(stmt.to_sql(), "INSERT INTO users (id,name) VALUES (1,'ann');");
}

#[test]
fn insert_subset_in_table_order() {
    let t = posts();
    let row = field(&t, "content")
        .set(text("hi"))
        .and(field(&t, "id").set(Literal::Int(4)))
        .into_row();
    let stmt = t.insert(row).unwrap();
    assert_eq!(stmt.to_sql(), "INSERT INTO posts (id,content) VALUES (4,'hi');");
}

#[test]
fn bulk_rows_in_any_column_order() {
    let t = users();
    let flipped = field(&t, "name").set(text("bob")).and(field(&t, "id").set(Literal::Int(2))).into_row();
    let rows = vec![user_row(&t, 1, "ann"), flipped];
    let stmt = t.insert_values(rows).unwrap();
    assert_eq!(stmt.to_sql(), "INSERT INTO users (id,name) VALUES (1,'ann'),(2,'bob');");
}

#[test]
fn bulk_rows_swapped_swap_tuples() {
    let t1 = users();
    let rows1 = vec![user_row(&t1, 1, "ann"), user_row(&t1, 2, "bob")];
    let a = t1.insert_values(rows1).unwrap();
    let t2 = users();
    let rows2 = vec![user_row(&t2, 2, "bob"), user_row(&t2, 1, "ann")];
    let b = t2.insert_values(rows2).unwrap();
    assert_eq!(a.to_sql(), "INSERT INTO users (id,name) VALUES (1,'ann'),(2,'bob');");
    assert_eq!(b.to_sql(), "INSERT INTO users (id,name) VALUES (2,'bob'),(1,'ann');");
}

#[test]
fn bulk_equal_rows_are_kept() {
    let t = users();
    let rows = vec![user_row(&t, 1, "ann"), user_row(&t, 1, "ann")];
    let stmt = t.insert_values(rows).unwrap();
    assert_eq!(stmt.to_sql(), "INSERT INTO users (id,name) VALUES (1,'ann'),(1,'ann');");
}

#[test]
fn bulk_rows_over_different_columns_are_refused() {
    let t = users();
    let only_id = field(&t, "id").set(Literal::Int(2)).into_row();
    let only_name = field(&t, "name").set(text("bob")).into_row();
    assert!(matches!(t.insert_values(vec![only_id, only_name]), Err(QueryError::MismatchedRows)));
}

#[test]
fn insert_repeated_column_is_refused() {
    let t = users();
    let row = field(&t, "id").set(Literal::Int(1)).and(field(&t, "id").set(Literal::Int(2))).into_row();
    assert!(matches!(t.insert(row), Err(QueryError::DuplicateColumn)));
}

#[test]
fn insert_empty_row_is_refused() {
    assert!(matches!(users().insert(Row::new(vec![])), Err(QueryError::EmptyList)));
}

#[test]
fn insert_foreign_column_is_refused() {
    let p = posts();
    let row = field(&p, "id").set(Literal::Int(1)).into_row();
    assert!(matches!(users().insert(row), Err(QueryError::ForeignField)));
}

#[test]
fn text_literal_doubles_quotes() {
    assert_eq!(text("it's").to_sql(), "'it''s'");
    assert_eq!(text("").to_sql(), "''");
    assert_eq!(text("''").to_sql(), "''''''");
}

#[test]
fn integer_literals() {
    assert_eq!(Literal::Int(0).to_sql(), "0");
    assert_eq!(Literal::Int(-42).to_sql(), "-42");
    assert_eq!(Literal::Int(1234567890).to_sql(), "1234567890");
    assert_eq!(Literal::Int(i64::MAX).to_sql(), "9223372036854775807");
    assert_eq!(Literal::Int(i64::MIN).to_sql(), "-9223372036854775808");
}

#[test]
fn boolean_and_null_literals() {
    assert_eq!(Literal::Bool(true).to_sql(), "TRUE");
    assert_eq!(Literal::Bool(false).to_sql(), "FALSE");
    assert_eq!(Literal::Null.to_sql(), "NULL");
}

#[test]
fn limit_largest_value() {
    let stmt = users().select().limit(usize::MAX);
    assert_eq!(stmt.to_sql(), format!("SELECT * FROM users LIMIT {};", usize::MAX));
}

#[test]
fn rendering_twice_gives_the_same_text() {
    let t = users();
    let id = field(&t, "id");
    let stmt = t.select().filter(id.eq(Literal::Int(7))).unwrap();
    assert_eq!(stmt.to_sql(), stmt.to_sql());
}
