use wavetable::resources::{flatten_nested_results, tables};

#[test]
fn flatten_keeps_order_and_errors() {
    let outer: Vec<Result<Vec<Result<u32, String>>, String>> = vec![
        Ok(vec![Ok(1), Ok(2)]),
        Err("unreadable".to_string()),
        Ok(vec![]),
        Ok(vec![Err("entry".to_string()), Ok(3)]),
    ];
    let flat = flatten_nested_results(outer);
    assert_eq!(
        flat,
        vec![Ok(1), Ok(2), Err("unreadable".to_string()), Err("entry".to_string()), Ok(3)]
    );
}

#[test]
fn flatten_empty() {
    let outer: Vec<Result<Vec<Result<u32, String>>, String>> = vec![];
    assert!(flatten_nested_results(outer).is_empty());
}

#[test]
fn tables_lists_builtins_first() {
    let found: Vec<Result<&str, String>> = vec![Ok("a.wav"), Ok("b.wav")];
    assert_eq!(tables(vec!["builtin"], found), Ok(vec!["builtin", "a.wav", "b.wav"]));
}

#[test]
fn tables_reports_first_error() {
    let found: Vec<Result<&str, u8>> = vec![Ok("a.wav"), Err(1), Ok("b.wav"), Err(2)];
    assert_eq!(tables(vec!["builtin"], found), Err(1));
}

#[test]
fn tables_without_presets() {
    let found: Vec<Result<&str, u8>> = vec![];
    assert_eq!(tables(vec!["builtin"], found), Ok(vec!["builtin"]));
}

#[test]
fn print_tables() {
    let builtins = vec!["Basic Shapes"];
    let found: Vec<Result<&str, String>> = vec![Ok("Analog.wav"), Ok("Digital.wav")];
    let tables = tables(builtins, found).unwrap();
    println!("{:#?}", tables);
    assert_eq!(tables, vec!["Basic Shapes", "Analog.wav", "Digital.wav"]);
}
