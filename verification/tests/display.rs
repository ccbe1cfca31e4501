use plan_rewrite::strings::join_strings;
use plan_rewrite::update_stmt::UpdateExpr;
use plan_rewrite::update_stmt::UpdateStmt;

fn assign(name: &str, expr: &str) -> UpdateExpr {
    UpdateExpr { name: name.to_string(), expr: expr.to_string() }
}

#[test]
fn update_expr_renders_assignment() {
    let e = assign("a", "1");
    assert_eq!(e.display_string().as_str(), "a = 1");
}

#[test]
fn update_stmt_renders_with_where_clause() {
    let stmt = UpdateStmt {
        table: "t".to_string(),
        update_list: vec![assign("a", "1"), assign("b", "x + 2")],
        selection: Some("c > 0".to_string()),
    };
    assert_eq!(
        stmt.display_string().as_str(),
        "UPDATE t SET a = 1, b = x + 2 WHERE c > 0"
    );
}

#[test]
fn update_stmt_renders_without_where_clause() {
    let stmt = UpdateStmt {
        table: "t".to_string(),
        update_list: vec![assign("a", "1")],
        selection: None,
    };
    assert_eq!(stmt.display_string().as_str(), "UPDATE t SET a = 1");
}

#[test]
fn join_strings_separates_items() {
    let items = vec!["a".to_string(), "b".to_string(), "c".to_string()];
    assert_eq!(join_strings(&items, ", ").as_str(), "a, b, c");
    let one = vec!["only".to_string()];
    assert_eq!(join_strings(&one, ", ").as_str(), "only");
    let none: Vec<String> = vec![];
    assert_eq!(join_strings(&none, ", ").as_str(), "");
}
