use rusquery::{CreateTable, Delete, Insert, QueryBuilder, SQLType, Select, Update};

#[test]
fn select_without_columns_uses_star() {
    assert_eq!(QueryBuilder::select().table("t").build().get(), "SELECT * FROM t;");
}

#[test]
fn select_with_one_column_and_no_condition() {
    let q = QueryBuilder::select().table("t").column("a").build();
    assert_eq!(q.get(), "SELECT a FROM t;");
}

#[test]
fn create_table_from_columns() {
    let q = QueryBuilder::create_table()
        .table("users")
        .columns(&["id PRIMARY KEY", "name TEXT", "age INTEGER"])
        .build();
    assert_eq!(q.get(), "CREATE TABLE users (id PRIMARY KEY, name TEXT, age INTEGER);");
}

#[test]
fn create_table_one_column_at_a_time() {
    let q = QueryBuilder::create_table()
        .table("users")
        .column("id PRIMARY KEY")
        .column("name TEXT")
        .column("age INTEGER")
        .build();
    assert_eq!(q.get(), "CREATE TABLE users (id PRIMARY KEY, name TEXT, age INTEGER);");
}

#[test]
fn same_calls_give_same_text() {
    let make = || {
        QueryBuilder::select()
            .table("users")
            .columns(&["id"])
            .where_clause("id = 1")
            .build()
            .get()
    };
    assert_eq!(make(), make());
}

#[test]
fn rendering_twice_gives_same_text() {
    let q = QueryBuilder::delete().table("t").where_clause("x = 1").build();
    let first = q.to_string();
    let second = q.to_string();
    assert_eq!(first, "DELETE FROM t WHERE x = 1;");
    assert_eq!(first, second);
    assert_eq!(q.get(), first);
}

#[test]
fn columns_twice_keeps_second_list() {
    let q = QueryBuilder::select()
        .table("t")
        .columns(&["a", "b"])
        .columns(&["c"])
        .build();
    assert_eq!(q.get(), "SELECT c FROM t;");
}

#[test]
fn column_after_columns_appends() {
    let q = QueryBuilder::select()
        .table("t")
        .column("z")
        .columns(&["a", "b"])
        .column("c")
        .build();
    assert_eq!(q.get(), "SELECT a, b, c FROM t;");
}

#[test]
fn conditions_chain_in_order() {
    let q = QueryBuilder::delete()
        .table("t")
        .where_clause("a")
        .and_where("b")
        .or_where("c")
        .build();
    assert_eq!(q.get(), "DELETE FROM t WHERE a AND b OR c;");
}

#[test]
fn where_clause_discards_earlier_condition() {
    let q = QueryBuilder::select()
        .table("t")
        .where_clause("a")
        .and_where("b")
        .where_clause("c")
        .build();
    assert_eq!(q.get(), "SELECT * FROM t WHERE c;");
}

#[test]
fn and_where_without_condition_sets_it() {
    let q = QueryBuilder::select().table("t").and_where("b").build();
    assert_eq!(q.get(), "SELECT * FROM t WHERE b;");
}

#[test]
fn or_where_without_condition_sets_it() {
    let q = QueryBuilder::delete().table("t").or_where("c").build();
    assert_eq!(q.get(), "DELETE FROM t WHERE c;");
}

#[test]
fn delete_without_condition() {
    assert_eq!(QueryBuilder::delete().table("t").build().get(), "DELETE FROM t;");
}

#[test]
fn table_replaces_earlier_name() {
    let q = QueryBuilder::delete().table("a").table("b").build();
    assert_eq!(q.get(), "DELETE FROM b;");
}

#[test]
fn update_pairs_columns_with_values() {
    let q = QueryBuilder::update()
        .table("users")
        .columns(&["name", "age"])
        .values(&["'Ann'", "31"])
        .where_clause("id = 7")
        .build();
    assert_eq!(q.get(), "UPDATE users SET name = 'Ann', age = 31 WHERE id = 7;");
}

#[test]
fn update_one_column_without_condition() {
    let q = QueryBuilder::update().table("t").column("a").values(&["1"]).build();
    assert_eq!(q.get(), "UPDATE t SET a = 1;");
}

#[test]
fn insert_does_not_compare_list_lengths() {
    let q = QueryBuilder::insert()
        .table("t")
        .columns(&["a", "b"])
        .values(&["1"])
        .build();
    assert_eq!(q.get(), "INSERT INTO t (a, b) VALUES (1);");
}

#[test]
fn select_ignores_values() {
    let q = QueryBuilder::select().table("t").values(&["1"]).build();
    assert_eq!(q.get(), "SELECT * FROM t;");
}

#[test]
fn keywords_of_each_kind() {
    assert_eq!(Select::KEYWORD, "SELECT");
    assert_eq!(Insert::KEYWORD, "INSERT");
    assert_eq!(Update::KEYWORD, "UPDATE");
    assert_eq!(Delete::KEYWORD, "DELETE");
    assert_eq!(CreateTable::KEYWORD, "CREATE TABLE");
}

#[test]
fn base_text_is_the_keyword() {
    let b = QueryBuilder::update().table("t");
    assert_eq!(Update::build_base(&b), "UPDATE");
    let c = QueryBuilder::create_table();
    assert_eq!(CreateTable::build_base(&c), "CREATE TABLE");
}

#[test]
fn query_new_keeps_text() {
    let q: rusquery::Query<Select> = rusquery::Query::new(String::from("SELECT 1;"));
    assert_eq!(q.to_string(), "SELECT 1;");
    assert_eq!(q.get(), "SELECT 1;");
}
