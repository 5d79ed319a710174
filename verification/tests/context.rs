use substrate_lint::context::{parse_ast, FileContext};

fn ctx(content: &str, is_rust: bool) -> FileContext {
    FileContext {
        path: "pallets/a/src/lib.rs".to_string(),
        rel_path: "pallets/a/src/lib.rs".to_string(),
        content: content.to_string(),
        is_rust,
        is_text: !is_rust,
        is_test_file: false,
        is_benchmark_file: false,
        is_proc_macro_target: false,
        in_cfg_gated_module: false,
    }
}

#[test]
fn parse_ast_accepts_rust_and_refuses_other_text() {
    let parsed = parse_ast("fn main() { let x = 1; }").expect("parses");
    assert_eq!(parsed.items.len(), 1);
    assert!(parse_ast("fn main( {").is_none());
}

#[test]
fn syntax_tree_only_for_rust_files_that_parse() {
    assert!(ctx("pub struct A;", true).syntax_tree().is_some());
    assert!(ctx("pub struct A;", false).syntax_tree().is_none());
    assert!(ctx("pub struct {", true).syntax_tree().is_none());
}
