use full_moon::node::Node;
use full_moon::tokenizer::TokenReference;
use full_moon::visitors::Visitor;

use function_name_casing::casing::correct_name_casing;
use function_name_casing::casing::is_wrong_casing;
use function_name_casing::config::FunctionNameCasingLintConfig;
use function_name_casing::diagnostic::Diagnostic;
use function_name_casing::diagnostic::Severity;
use function_name_casing::lint::FunctionNameCasingLint;
use function_name_casing::tree::Ast;
use function_name_casing::tree::FunctionStmt;
use function_name_casing::tree::NameToken;

struct Collector {
    functions: Vec<FunctionStmt>,
}

fn name_token(token: &TokenReference) -> NameToken {
    let text = token.to_string();
    assert!(!text.is_empty(), "the parser never produces an empty name token");
    let (start, end) = token.range().expect("a name token always has a position");
    NameToken {
        text,
        start: start.bytes(),
        end: end.bytes(),
    }
}

impl Visitor for Collector {
    fn visit_function_declaration(&mut self, declaration: &full_moon::ast::FunctionDeclaration) {
        let function_name = declaration.name();
        self.functions.push(FunctionStmt::Declaration {
            names: function_name.names().iter().map(name_token).collect(),
            method: function_name.method_name().map(name_token),
        });
    }

    fn visit_local_function(&mut self, function: &full_moon::ast::LocalFunction) {
        self.functions.push(FunctionStmt::Local {
            name: name_token(function.name()),
        });
    }
}

fn lint_code(code: &str, config: FunctionNameCasingLintConfig) -> Vec<Diagnostic> {
    let parsed = full_moon::parse(code).expect("test code should parse");
    let mut collector = Collector {
        functions: Vec::new(),
    };
    collector.visit_ast(&parsed);
    let lint = FunctionNameCasingLint::new(config).expect("construction cannot fail");
    lint.pass(&Ast {
        functions: collector.functions,
    })
}

fn default_config() -> FunctionNameCasingLintConfig {
    let config = FunctionNameCasingLintConfig::default();
    assert!(!config.use_uppercase);
    assert!(config.allow.is_empty());
    config
}

#[test]
fn test_function_name_casing() {
    let diagnostics = lint_code(
        "function foo() end\n\
         function Bar() end\n\
         local function baz() end\n\
         local function Qux() end\n\
         function a.b.Upper() end\n\
         function Obj:Method() end\n\
         function _private() end\n",
        default_config(),
    );
    let suggestions: Vec<&str> = diagnostics
        .iter()
        .map(|d| d.suggestions[0].as_str())
        .collect();
    assert_eq!(
        suggestions,
        vec![
            "try: bar(...) instead",
            "try: qux(...) instead",
            "try: upper(...) instead",
            "try: method(...) instead",
        ],
    );
    for diagnostic in &diagnostics {
        assert_eq!(diagnostic.code, "function_name_casing");
        assert!(matches!(diagnostic.severity, Severity::Warning));
        assert_eq!(
            diagnostic.message,
            "function names must start with a lowercase letter",
        );
    }
}

#[test]
fn test_use_upper() {
    let diagnostics = lint_code(
        "function foo() end\n\
         function Bar() end\n\
         local function baz() end\n\
         function Obj:quux() end\n",
        FunctionNameCasingLintConfig {
            use_uppercase: true,
            allow: Vec::new(),
        },
    );
    let suggestions: Vec<&str> = diagnostics
        .iter()
        .map(|d| d.suggestions[0].as_str())
        .collect();
    assert_eq!(
        suggestions,
        vec![
            "try: Foo(...) instead",
            "try: Baz(...) instead",
            "try: Quux(...) instead",
        ],
    );
    for diagnostic in &diagnostics {
        assert_eq!(
            diagnostic.message,
            "function names must start with an uppercase letter",
        );
    }
}

#[test]
fn test_allow() {
    let diagnostics = lint_code(
        "function Foo() end\n\
         function Baz() end\n\
         function Bar() end\n",
        FunctionNameCasingLintConfig {
            use_uppercase: false,
            allow: vec!["Foo".to_string(), "Baz".to_string()],
        },
    );
    assert_eq!(diagnostics.len(), 1);
    assert_eq!(diagnostics[0].suggestions[0], "try: bar(...) instead");
}

#[test]
fn scenario_uppercase_declaration() {
    let diagnostics = lint_code("function Foo() end", default_config());
    assert_eq!(diagnostics.len(), 1);
    assert_eq!(diagnostics[0].start, 9);
    assert_eq!(diagnostics[0].end, 12);
    assert_eq!(diagnostics[0].suggestions.len(), 1);
    assert_eq!(diagnostics[0].suggestions[0], "try: foo(...) instead");
}

#[test]
fn scenario_allowlisted_declaration() {
    let diagnostics = lint_code(
        "function Foo() end",
        FunctionNameCasingLintConfig {
            use_uppercase: false,
            allow: vec!["Foo".to_string()],
        },
    );
    assert_eq!(diagnostics.len(), 0);
}

#[test]
fn scenario_uppercase_direction() {
    let diagnostics = lint_code(
        "function Foo() end",
        FunctionNameCasingLintConfig {
            use_uppercase: true,
            allow: Vec::new(),
        },
    );
    assert_eq!(diagnostics.len(), 0);
}

#[test]
fn scenario_local_function() {
    let diagnostics = lint_code("local function Bar() end", default_config());
    assert_eq!(diagnostics.len(), 1);
    assert_eq!(diagnostics[0].suggestions[0], "try: bar(...) instead");
}

#[test]
fn scenario_method_declaration() {
    let diagnostics = lint_code("function Obj:Method() end", default_config());
    assert_eq!(diagnostics.len(), 1);
    assert_eq!(diagnostics[0].suggestions[0], "try: method(...) instead");
    assert_eq!(diagnostics[0].start, 13);
    assert_eq!(diagnostics[0].end, 19);
}

#[test]
fn scenario_dotted_path() {
    let diagnostics = lint_code("function a.b.C() end", default_config());
    assert_eq!(diagnostics.len(), 1);
    assert_eq!(diagnostics[0].suggestions[0], "try: c(...) instead");
    assert_eq!(diagnostics[0].start, 13);
    assert_eq!(diagnostics[0].end, 14);
}

#[test]
fn test_caseless_first_char_never_flagged() {
    assert!(!is_wrong_casing("_private", false));
    assert!(!is_wrong_casing("_private", true));
    assert!(!is_wrong_casing("1abc", false));
    assert!(!is_wrong_casing("1abc", true));
}

#[test]
fn test_direction_flip() {
    assert!(is_wrong_casing("Foo", false));
    assert!(!is_wrong_casing("Foo", true));
    assert!(!is_wrong_casing("foo", false));
    assert!(is_wrong_casing("foo", true));
}

#[test]
fn test_correct_name_exact() {
    assert_eq!(correct_name_casing("Foo", false), "foo");
    assert_eq!(correct_name_casing("foo", true), "Foo");
    assert_eq!(correct_name_casing("BAR", false), "bAR");
    assert_eq!(correct_name_casing("x", true), "X");
}

#[test]
fn test_multichar_case_mapping() {
    assert_eq!(correct_name_casing("\u{df}eta", true), "SSeta");
    assert_eq!(correct_name_casing("\u{130}stanbul", false), "i\u{307}stanbul");
}

#[test]
fn test_allowlist_case_sensitive() {
    let diagnostics = lint_code(
        "function Foo() end",
        FunctionNameCasingLintConfig {
            use_uppercase: false,
            allow: vec!["foo".to_string()],
        },
    );
    assert_eq!(diagnostics.len(), 1);
}

#[test]
fn test_empty_tree() {
    let diagnostics = lint_code("local x = 1", default_config());
    assert_eq!(diagnostics.len(), 0);
}
