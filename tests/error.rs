use feed::error::{load_error_to_string, CliError, CliErrorKind, InterpretError, LoadError, StorageError};
use feed::statement::{SyntaxError, Token};

fn at(line: usize, column: usize) -> Token {
    Token { text: "x".to_string(), line, column }
}

#[test]
fn as_token_of_syntax_error() {
    let kind = CliErrorKind::SyntaxError(SyntaxError { message: "m".to_string(), token: Some(at(4, 2)) });
    let t = kind.as_token().unwrap();
    assert_eq!((t.line, t.column), (4, 2));
    let kind = CliErrorKind::SyntaxError(SyntaxError { message: "m".to_string(), token: None });
    assert!(kind.as_token().is_none());
}

#[test]
fn as_token_of_interpret_error() {
    let kind = CliErrorKind::InterpretError(InterpretError { message: "m".to_string(), origin: Some(at(9, 13)) });
    let t = kind.as_token().unwrap();
    assert_eq!((t.line, t.column), (9, 13));
    let kind = CliErrorKind::InterpretError(InterpretError { message: "m".to_string(), origin: None });
    assert!(kind.as_token().is_none());
}

#[test]
fn as_token_of_other_kinds() {
    let kinds = vec![
        CliErrorKind::WrongAction,
        CliErrorKind::PluginPathIsNotADir("/plugins".to_string()),
        CliErrorKind::Openvas { args: None, err_msg: "e".to_string() },
        CliErrorKind::LoadError(LoadError::NotFound("a.nasl".to_string())),
        CliErrorKind::StorageError(StorageError { message: "s".to_string() }),
        CliErrorKind::Corrupt("c".to_string()),
    ];
    for k in &kinds {
        assert!(k.as_token().is_none());
    }
}

#[test]
fn load_error_names_its_path() {
    assert_eq!(load_error_to_string(&LoadError::Retry("a".to_string())), "a");
    assert_eq!(load_error_to_string(&LoadError::NotFound("b".to_string())), "b");
    assert_eq!(load_error_to_string(&LoadError::PermissionDenied("c".to_string())), "c");
    assert_eq!(load_error_to_string(&LoadError::Dirty("d".to_string())), "d");
}

#[test]
fn kinds_from_each_domain() {
    let k: CliErrorKind = LoadError::Dirty("f".to_string()).into();
    assert!(matches!(k, CliErrorKind::LoadError(LoadError::Dirty(ref f)) if f == "f"));
    let k: CliErrorKind = StorageError { message: "s".to_string() }.into();
    assert!(matches!(k, CliErrorKind::StorageError(ref e) if e.message == "s"));
    let k: CliErrorKind = InterpretError { message: "i".to_string(), origin: None }.into();
    assert!(matches!(k, CliErrorKind::InterpretError(ref e) if e.message == "i"));
    let k: CliErrorKind = SyntaxError { message: "p".to_string(), token: Some(at(1, 5)) }.into();
    let err = CliError { filename: "a.nasl".to_string(), kind: k };
    assert_eq!(err.filename, "a.nasl");
    assert_eq!(err.kind.as_token().map(|t| t.column), Some(5));
}
