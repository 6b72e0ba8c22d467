use ftpy::parser::{cmd_parser, tokenize};

#[test]
fn tokenize_simple_command() {
    let toks = tokenize("USER alice");
    assert_eq!(toks, vec!["USER".to_string(), "alice".to_string()]);
}

#[test]
fn tokenize_collapses_whitespace_runs() {
    let toks = tokenize("  LIST   -l\t.  ");
    assert_eq!(toks, vec!["LIST".to_string(), "-l".to_string(), ".".to_string()]);
}

#[test]
fn tokenize_empty_line_has_no_tokens() {
    assert!(tokenize("").is_empty());
    assert!(tokenize("   \t ").is_empty());
}

#[test]
fn cmd_parser_splits_keyword_and_args() {
    let (kw, args) = cmd_parser("RETR file.txt").expect("line has tokens");
    assert_eq!(kw, "RETR");
    assert_eq!(args, vec!["file.txt".to_string()]);
}

#[test]
fn cmd_parser_keyword_alone() {
    let (kw, args) = cmd_parser("PASV").expect("line has tokens");
    assert_eq!(kw, "PASV");
    assert!(args.is_empty());
}

#[test]
fn cmd_parser_rejects_empty_line() {
    assert!(cmd_parser("").is_none());
    assert!(cmd_parser(" \t ").is_none());
}

#[test]
fn tokenization_is_idempotent_under_rejoining() {
    for line in ["USER  alice ", "\tPORT 127,0,0,1,10,20", "  a  b   c ", "", "QUIT"] {
        let toks = tokenize(line);
        let rejoined = toks.join(" ");
        assert_eq!(tokenize(&rejoined), toks);
    }
}
