//! Tests of the export analyzer.

use mjsc::analysis::AnalysisError;
use mjsc::js::JS;

fn parse(js: &str) -> Result<Vec<String>, AnalysisError> {
    JS::from_string(js.to_string()).exports()
}

#[test]
fn parse_no_exports() {
    let exports = parse("function foo() {}").unwrap();
    assert_eq!(Vec::<&str>::default(), exports);
}

#[test]
fn parse_invalid_js() {
    let res = parse("fun foo() {}");
    assert_eq!("Invalid JavaScript", res.err().unwrap().message());
}

#[test]
fn parse_one_func_export() {
    let exports = parse("export function foo() {}").unwrap();
    assert_eq!(vec!["foo"], exports);
}

#[test]
fn parse_func_export_with_parameter() {
    let res = parse("export function foo(bar) {}");
    assert_eq!(
        "Exported functions with parameters are not supported",
        res.err().unwrap().message()
    );
}

#[test]
fn parse_generator_export() {
    let res = parse("export function *foo() {}");
    assert_eq!(
        "Exported generators are not supported",
        res.err().unwrap().message()
    );
}

#[test]
fn parse_two_func_exports() {
    let exports = parse("export function foo() {}; export function bar() {};").unwrap();
    assert_eq!(vec!["foo", "bar"], exports);
}

#[test]
fn parse_const_export() {
    let exports = parse("export const x = 1;").unwrap();
    let expected_exports: Vec<&str> = vec![];
    assert_eq!(expected_exports, exports);
}

#[test]
fn parse_const_export_and_func_export() {
    let exports = parse("export const x = 1; export function foo() {}").unwrap();
    assert_eq!(vec!["foo"], exports);
}

#[test]
fn parse_named_func_export() {
    let exports = parse("function foo() {}; export { foo };").unwrap();
    assert_eq!(vec!["foo"], exports);
}

#[test]
fn parse_named_func_export_with_arg() {
    let res = parse("function foo(bar) {}; export { foo };");
    assert_eq!(
        "Exported functions with parameters are not supported",
        res.err().unwrap().message()
    );
}

#[test]
fn parse_funcs_with_args() {
    let exports = parse("function foo(bar) {}").unwrap();
    assert_eq!(Vec::<&str>::default(), exports);
}

#[test]
fn parse_named_func_export_and_const_export() {
    let exports = parse("function foo() {}; const bar = 1; export { foo, bar };").unwrap();
    assert_eq!(vec!["foo"], exports);
}

#[test]
fn parse_func_export_and_named_func_export() {
    let exports = parse("export function foo() {}; function bar() {}; export { bar };").unwrap();
    assert_eq!(vec!["foo", "bar"], exports);
}

#[test]
fn parse_renamed_func_export() {
    let exports = parse("function foo() {}; export { foo as bar };").unwrap();
    assert_eq!(vec!["bar"], exports);
}

#[test]
fn parse_hoisted_func_export() {
    let exports = parse("export { foo }; function foo() {}").unwrap();
    assert_eq!(vec!["foo"], exports);
}

#[test]
fn parse_renamed_hosted_func_export() {
    let exports = parse("export { foo as bar }; function foo() {}").unwrap();
    assert_eq!(vec!["bar"], exports);
}

#[test]
fn parse_hoisted_exports_with_func_and_const() {
    let exports = parse("export { foo, bar }; function foo() {}; const bar = 1;").unwrap();
    assert_eq!(vec!["foo"], exports);
}

#[test]
fn parse_default_arrow_export() {
    let exports = parse("export default () => {}").unwrap();
    assert_eq!(vec!["default"], exports);
}

#[test]
fn parse_default_function_export() {
    let exports = parse("export default function() {}").unwrap();
    assert_eq!(vec!["default"], exports);
}

#[test]
fn parse_default_parenthesized_arrow_export() {
    let exports = parse("export default (() => {})").unwrap();
    assert_eq!(vec!["default"], exports);
}

#[test]
fn parse_default_function_with_parameter() {
    let res = parse("export default function(bar) {}");
    assert_eq!(
        "Exported functions with parameters are not supported",
        res.err().unwrap().message()
    );
}

#[test]
fn parse_default_generator() {
    let res = parse("export default function *() {}");
    assert_eq!(
        "Exported generators are not supported",
        res.err().unwrap().message()
    );
}

#[test]
fn parse_named_generator_export() {
    let res = parse("function *gen() {}; export { gen };");
    assert_eq!(
        "Exported generators are not supported",
        res.err().unwrap().message()
    );
}

#[test]
fn parse_let_and_var_bindings() {
    let exports = parse("let a = 1; var b = a; function c() {}; export { a, b, c };").unwrap();
    assert_eq!(vec!["c"], exports);
}

#[test]
fn parse_duplicate_named_export() {
    let exports = parse("function foo() {}; export { foo, foo };").unwrap();
    assert_eq!(vec!["foo", "foo"], exports);
}

#[test]
fn parse_unbound_named_export_is_dropped() {
    let exports = parse("export { missing }; function foo() {}; export { foo };").unwrap();
    assert_eq!(vec!["foo"], exports);
}

#[test]
fn parse_first_violation_wins() {
    let res = parse("export function foo(a) {}; export function *bar() {};");
    assert_eq!(
        "Exported functions with parameters are not supported",
        res.err().unwrap().message()
    );
}

#[test]
fn parse_whitespace_and_semicolons() {
    let exports = parse("  ;;\n\texport   function\n spaced () {}\n;;  ").unwrap();
    assert_eq!(vec!["spaced"], exports);
}

#[test]
fn parse_empty_source() {
    let exports = parse("").unwrap();
    assert_eq!(Vec::<&str>::default(), exports);
}

#[test]
fn parse_unclosed_brace_is_invalid() {
    let res = parse("function foo() {");
    assert_eq!("Invalid JavaScript", res.err().unwrap().message());
}

#[test]
fn parse_export_default_number_is_dropped() {
    let exports = parse("export default 42").unwrap();
    assert_eq!(Vec::<&str>::default(), exports);
}

#[test]
fn error_kinds_are_distinct() {
    assert_ne!(
        AnalysisError::InvalidSyntax.message(),
        AnalysisError::ExportHasParameters.message()
    );
    assert_ne!(
        AnalysisError::ExportHasParameters.message(),
        AnalysisError::ExportIsGenerator.message()
    );
}

#[test]
fn parse_string_initializer_no_exports() {
    let exports = parse("const s = \"x\";").unwrap();
    assert_eq!(Vec::<&str>::default(), exports);
}

#[test]
fn parse_trailing_line_comment_param_error() {
    let res = parse("export function f(a) {} // x");
    assert_eq!(
        "Exported functions with parameters are not supported",
        res.err().unwrap().message()
    );
}

#[test]
fn parse_trailing_line_comment_generator_error() {
    let res = parse("export function *g() {} // x");
    assert_eq!(
        "Exported generators are not supported",
        res.err().unwrap().message()
    );
}

#[test]
fn parse_leading_block_comment() {
    let exports = parse("/* header */ export function foo() {}").unwrap();
    assert_eq!(vec!["foo"], exports);
}

#[test]
fn parse_brace_inside_string_body() {
    let exports = parse("export function foo() { let s = \"{\"; }").unwrap();
    assert_eq!(vec!["foo"], exports);
}

#[test]
fn parse_brace_inside_body_comment() {
    let exports = parse("function foo() { /* } */ }").unwrap();
    assert_eq!(Vec::<&str>::default(), exports);
}

#[test]
fn parse_escaped_quote_in_string_body() {
    let exports = parse("export function foo() { let s = \"a\\\"{\"; }").unwrap();
    assert_eq!(vec!["foo"], exports);
}

#[test]
fn parse_template_string_body() {
    let exports = parse("export function foo() { let t = `{ ${x} `; }").unwrap();
    assert_eq!(vec!["foo"], exports);
}

#[test]
fn parse_unterminated_string_in_body_is_invalid() {
    let res = parse("export function foo() { let s = \"; }");
    assert_eq!("Invalid JavaScript", res.err().unwrap().message());
}

#[test]
fn parse_string_bound_named_export_dropped() {
    let exports = parse("export { b }; const b = \"x\";").unwrap();
    assert_eq!(Vec::<&str>::default(), exports);
}

#[test]
fn parse_renamed_export_with_trailing_comment() {
    let exports = parse("function a() {}; export { a as b }; // x").unwrap();
    assert_eq!(vec!["b"], exports);
}

#[test]
fn parse_arrow_initializer_dropped() {
    let exports = parse("const f = () => {}; export { f };").unwrap();
    assert_eq!(Vec::<&str>::default(), exports);
}

#[test]
fn parse_function_expression_initializer_dropped() {
    let exports = parse("const f = function() {}; function g() {}; export { f, g };").unwrap();
    assert_eq!(vec!["g"], exports);
}

#[test]
fn parse_multiple_declarators() {
    let exports = parse("const a = 1, b = 2; export { a, b };").unwrap();
    assert_eq!(Vec::<&str>::default(), exports);
}

#[test]
fn parse_decimal_initializer() {
    let exports = parse("export const x = 1.5; export function foo() {}").unwrap();
    assert_eq!(vec!["foo"], exports);
}

#[test]
fn parse_object_literal_initializer() {
    let exports = parse("const o = { a: 1 }; export { o };").unwrap();
    assert_eq!(Vec::<&str>::default(), exports);
}

#[test]
fn parse_default_string_is_dropped() {
    let exports = parse("export default \"greeting\"").unwrap();
    assert_eq!(Vec::<&str>::default(), exports);
}

#[test]
fn parse_comment_between_tokens() {
    let exports = parse("export /* inline */ function foo() {} // end").unwrap();
    assert_eq!(vec!["foo"], exports);
}
