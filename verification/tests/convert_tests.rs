use js_to_ts_compiler::convert_js_to_ts;

#[test]
fn test_nested_objects() {
    let js_code = r#"
            let person = {
                name: "Tara",
                age: 30,
                address: {
                    city: "New York",
                    zip: 10001
                }
            };
        "#;
    let ts_code = convert_js_to_ts(js_code).unwrap();
    assert_eq!(ts_code, r#"
            let person: { name: string, age: number, address: { city: string, zip: number } } = {
                name: "Tara",
                age: 30,
                address: {
                    city: "New York",
                    zip: 10001
                }
            };
        "#);
}

#[test]
fn test_function_multiple_return_types() {
    let js_code = r#"
            function getValue(x) {
                if (x > 0) {
                    return "Positive";
                } else {
                    return 0;
                }
            }
        "#;
    let ts_code = convert_js_to_ts(js_code).unwrap();
    assert_eq!(ts_code, r#"
            function getValue(x: number): string | number {
                if (x > 0) {
                    return "Positive";
                } else {
                    return 0;
                }
            }
        "#);
}

#[test]
fn test_empty_object() {
    let js_code = r#"
            let obj = {};
        "#;
    let ts_code = convert_js_to_ts(js_code).unwrap();
    assert_eq!(ts_code, r#"
            let obj: {} = {};
        "#);
}

#[test]
fn test_invalid_syntax() {
    let js_code = r#"
            let x = ;
        "#;
    let result = convert_js_to_ts(js_code);
    assert!(result.is_err());
}

#[test]
fn test_optional_properties() {
    let js_code = r#"
            let obj = { name?: string };
        "#;
    let ts_code = convert_js_to_ts(js_code).unwrap();
    assert_eq!(ts_code, r#"
            let obj: { name?: string } = { name?: string };
        "#);
}

#[test]
fn test_union_types() {
    let js_code = r#"
            let x: string | number;
        "#;
    let ts_code = convert_js_to_ts(js_code).unwrap();
    assert_eq!(ts_code, r#"
            let x: string | number;
        "#);
}

#[test]
fn test_interfaces() {
    let js_code = r#"
            interface Person {
                name: string;
                age: number;
            }
        "#;
    let ts_code = convert_js_to_ts(js_code).unwrap();
    assert_eq!(ts_code, r#"
            interface Person {
                name: string;
                age: number;
            }
        "#);
}

#[test]
fn test_complex_function() {
    let js_code = r#"
            function complexFunction(a, b, c) {
                if (a > b) {
                    return { result: a + b, type: "sum" };
                } else {
                    return { result: c, type: "value" };
                }
            }
        "#;
    let ts_code = convert_js_to_ts(js_code).unwrap();
    assert_eq!(
        ts_code,
        r#"
            function complexFunction(a: number, b: number, c: number): { result: number, type: string } {
                if (a > b) {
                    return { result: a + b, type: "sum" };
                } else {
                    return { result: c, type: "value" };
                }
            }
        "#
    );
}

#[test]
fn test_deterministic() {
    let js_code = "function add(a, b) { return a + b; }\nlet x = 10;\n";
    let first = convert_js_to_ts(js_code);
    let second = convert_js_to_ts(js_code);
    assert_eq!(first, second);
}

#[test]
fn test_invalid_syntax_message() {
    let js_code = "let y = 1;\nlet x = ;\nlet z = 2;\n";
    let result = convert_js_to_ts(js_code);
    assert_eq!(
        result.unwrap_err(),
        "Invalid JavaScript syntax: incomplete expression"
    );
}

#[test]
fn test_function_signature_annotated() {
    let js_code = r#"
        function add(a, b) {
            return a + b;
        }
    "#;
    let ts_code = convert_js_to_ts(js_code).unwrap();
    assert!(ts_code.contains("function add(a: number, b: number): number {"));
}

#[test]
fn test_unmatched_input_unchanged() {
    let js_code = "const total = items.reduce((acc, item) => acc + item.price, 0);\n";
    let ts_code = convert_js_to_ts(js_code).unwrap();
    assert_eq!(ts_code, js_code);
}

#[test]
fn test_empty_input() {
    let ts_code = convert_js_to_ts("").unwrap();
    assert_eq!(ts_code, "");
}

#[test]
fn test_repeated_substitution() {
    let js_code = "let x = 10;\n".repeat(10000);
    let ts_code = convert_js_to_ts(&js_code).unwrap();
    assert_eq!(ts_code, "let x: number = 10;\n".repeat(10000));
}

#[test]
fn test_guard_tested_against_original() {
    // The guard text is present in the original input, so the conditional
    // rule fires even though earlier rules have already rewritten other
    // parts of the working text.
    let js_code = "let x = 10;\nfunction getValue(x) { return x; }\n";
    let ts_code = convert_js_to_ts(js_code).unwrap();
    assert_eq!(
        ts_code,
        "let x: number = 10;\nfunction getValue(x: number): string | number { return x; }\n"
    );
}
