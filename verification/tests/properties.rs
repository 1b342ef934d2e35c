use stmt_builder::KV;
use stmt_builder::PLACEHOLDER;
use stmt_builder::StmtBuilder;
use stmt_builder::Type;

fn pair<'a>(key: &'a str, val: &'a str) -> KV<'a> {
    KV { key, val }
}

fn builder(typ: Type) -> StmtBuilder {
    StmtBuilder::new(String::from("my_tbl"), typ)
}

#[test]
fn escape_wildcard_unchanged() {
    assert_eq!(builder(Type::MySQL).escape_col("*"), "*");
    assert_eq!(builder(Type::PostgreSQL).escape_col("*"), "*");
    assert_eq!(builder(Type::SQLite).escape_col("*"), "*");
}

#[test]
fn escape_quotes_per_dialect() {
    assert_eq!(builder(Type::MySQL).escape_col("name"), "`name`");
    assert_eq!(builder(Type::PostgreSQL).escape_col("name"), "\"name\"");
    assert_eq!(builder(Type::SQLite).escape_col("name"), "\"name\"");
}

#[test]
fn convert_marker_per_dialect() {
    let mut seen: usize = 0;
    assert_eq!(builder(Type::MySQL).convert_placeholder(&mut seen, "?"), "?");
    assert_eq!(seen, 0);
    assert_eq!(builder(Type::SQLite).convert_placeholder(&mut seen, "?"), "?");
    assert_eq!(seen, 0);
    assert_eq!(builder(Type::PostgreSQL).convert_placeholder(&mut seen, "?"), "$1");
    assert_eq!(seen, 1);
    assert_eq!(builder(Type::PostgreSQL).convert_placeholder(&mut seen, "?"), "$2");
    assert_eq!(seen, 2);
}

#[test]
fn convert_leaves_other_values() {
    let mut seen: usize = 0;
    assert_eq!(builder(Type::PostgreSQL).convert_placeholder(&mut seen, "NOW()"), "NOW()");
    assert_eq!(seen, 0);
    assert_eq!(builder(Type::MySQL).convert_placeholder(&mut seen, "25"), "25");
    assert_eq!(seen, 0);
}

#[test]
fn convert_numbers_past_nine() {
    let mut seen: usize = 99;
    assert_eq!(builder(Type::PostgreSQL).convert_placeholder(&mut seen, "?"), "$100");
    assert_eq!(seen, 100);
}

#[test]
fn conds_continue_numbering() {
    let sb = builder(Type::PostgreSQL);
    let conds = vec![pair("age", PLACEHOLDER), pair("gender", "'male'")];
    let mut seen: usize = 2;
    assert_eq!(sb.build_conds(&mut seen, &conds), " WHERE age = $3 AND gender = 'male'");
    assert_eq!(seen, 3);
}

#[test]
fn postgres_numbers_every_marker() {
    let sb = builder(Type::PostgreSQL);
    let names: Vec<String> = (0..11).map(|i| format!("c{}", i)).collect();
    let cols: Vec<KV> = names.iter().map(|n| pair(n.as_str(), PLACEHOLDER)).collect();
    assert_eq!(
        sb.build_insert_stmt(&cols),
        "INSERT INTO my_tbl (\"c0\", \"c1\", \"c2\", \"c3\", \"c4\", \"c5\", \"c6\", \"c7\", \
         \"c8\", \"c9\", \"c10\") VALUES ($1, $2, $3, $4, $5, $6, $7, $8, $9, $10, $11)"
    );
}

#[test]
fn mysql_and_sqlite_keep_markers() {
    let cols = vec![pair("a", PLACEHOLDER), pair("b", PLACEHOLDER)];
    let conds = vec![pair("c", PLACEHOLDER)];
    assert_eq!(
        builder(Type::MySQL).build_update_stmt(&cols, &conds),
        "UPDATE my_tbl SET `a` = ?, `b` = ? WHERE c = ?"
    );
    assert_eq!(
        builder(Type::SQLite).build_update_stmt(&cols, &conds),
        "UPDATE my_tbl SET \"a\" = ?, \"b\" = ? WHERE c = ?"
    );
}

#[test]
fn repeated_calls_identical() {
    let sb = builder(Type::PostgreSQL);
    let cols = vec![pair("username", PLACEHOLDER), pair("age", "20")];
    let sel = vec![String::from("username")];
    let conds = vec![pair("id", PLACEHOLDER)];
    assert_eq!(sb.build_insert_stmt(&cols), sb.build_insert_stmt(&cols));
    assert_eq!(sb.build_query_stmt(&sel, &conds), sb.build_query_stmt(&sel, &conds));
    assert_eq!(
        sb.build_update_stmt(&cols, &conds),
        sb.build_update_stmt(&cols, &conds)
    );
    assert_eq!(sb.build_delete_stmt(&conds), sb.build_delete_stmt(&conds));
}

#[test]
fn empty_columns_empty_string() {
    let cols: Vec<KV> = Vec::new();
    let conds = vec![pair("id", PLACEHOLDER)];
    assert_eq!(builder(Type::MySQL).build_insert_stmt(&cols), "");
    assert_eq!(builder(Type::PostgreSQL).build_insert_stmt(&cols), "");
    assert_eq!(builder(Type::SQLite).build_insert_stmt(&cols), "");
    assert_eq!(builder(Type::MySQL).build_update_stmt(&cols, &conds), "");
    assert_eq!(builder(Type::PostgreSQL).build_update_stmt(&cols, &conds), "");
    assert_eq!(builder(Type::SQLite).build_update_stmt(&cols, &conds), "");
}

#[test]
fn empty_conditions_omit_where() {
    let conds: Vec<KV> = Vec::new();
    let sel = vec![String::from("age")];
    let cols = vec![pair("age", "21")];
    assert_eq!(
        builder(Type::PostgreSQL).build_query_stmt(&sel, &conds),
        "SELECT \"age\" FROM my_tbl"
    );
    assert_eq!(
        builder(Type::MySQL).build_update_stmt(&cols, &conds),
        "UPDATE my_tbl SET `age` = 21"
    );
    assert_eq!(builder(Type::SQLite).build_delete_stmt(&conds), "DELETE FROM my_tbl");
}

#[test]
fn empty_selected_columns_wildcard() {
    let sel: Vec<String> = Vec::new();
    let conds = vec![pair("id", "7")];
    assert_eq!(
        builder(Type::MySQL).build_query_stmt(&sel, &conds),
        "SELECT * FROM my_tbl WHERE id = 7"
    );
    assert_eq!(builder(Type::MySQL).build_query_stmt(&sel, &Vec::new()), "SELECT * FROM my_tbl");
}

#[test]
fn postgres_update_scenario() {
    let sb = builder(Type::PostgreSQL);
    let cols = vec![
        pair("username", PLACEHOLDER),
        pair("nickname", PLACEHOLDER),
        pair("update_at", "NOW()"),
    ];
    let conds = vec![pair("age", PLACEHOLDER), pair("gender", "'male'")];
    assert_eq!(
        sb.build_update_stmt(&cols, &conds),
        "UPDATE my_tbl SET \"username\" = $1, \"nickname\" = $2, \"update_at\" = NOW() \
         WHERE age = $3 AND gender = 'male'"
    );
}

#[test]
fn mysql_update_scenario() {
    let sb = builder(Type::MySQL);
    let cols = vec![
        pair("username", PLACEHOLDER),
        pair("nickname", PLACEHOLDER),
        pair("update_at", "NOW()"),
    ];
    let conds = vec![pair("age", PLACEHOLDER), pair("gender", "'male'")];
    assert_eq!(
        sb.build_update_stmt(&cols, &conds),
        "UPDATE my_tbl SET `username` = ?, `nickname` = ?, `update_at` = NOW() \
         WHERE age = ? AND gender = 'male'"
    );
}

#[test]
fn sqlite_delete_scenario() {
    let sb = builder(Type::SQLite);
    let conds = vec![pair("username", PLACEHOLDER), pair("age", "25")];
    assert_eq!(
        sb.build_delete_stmt(&conds),
        "DELETE FROM my_tbl WHERE username = ? AND age = 25"
    );
}
