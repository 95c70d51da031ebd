use unseemly::session::{
    classify, classify_prelude_line, completions, split_type, split_value, Command, PreludeLine,
};

fn pair(n: &str, e: &str) -> Option<(String, String)> {
    Some((n.to_string(), e.to_string()))
}

#[test]
fn value_bindings_split_at_the_operator() {
    assert_eq!(split_value("x := (plus one one)"), pair("x", " (plus one one)"));
    assert_eq!(split_value("mt_ilist:=fold"), pair("mt_ilist", "fold"));
    assert_eq!(split_value("x y := 1"), None);
    assert_eq!(split_value(":= 1"), None);
    assert_eq!(split_value("x = 1"), None);
}

#[test]
fn type_bindings_split_at_the_operator() {
    assert_eq!(
        split_type("IntList t= mu_type IntList . enum { Nil () Cons (Int IntList) }"),
        pair("IntList", " mu_type IntList . enum { Nil () Cons (Int IntList) }")
    );
    assert_eq!(split_type("at= Int"), pair("a", " Int"));
    assert_eq!(split_type("t= Int"), None);
    assert_eq!(split_type("x  t=Int"), pair("x", "Int"));
    assert_eq!(split_type("x t = Int"), None);
}

#[test]
fn prompt_commands() {
    assert!(matches!(classify(":p (plus one one)"), Command::Parse(e) if e == "(plus one one)"));
    assert!(matches!(classify(":t five"), Command::Type(e) if e == "five"));
    assert!(matches!(classify(":e five"), Command::Eval(e) if e == "five"));
    assert!(matches!(classify(":tt Int"), Command::Canonicalize(e) if e == "Int"));
    assert!(matches!(classify("ident := forall T . .[ a : T . a ]."),
        Command::AssignValue(n, e) if n == "ident" && e == " forall T . .[ a : T . a ]."));
    assert!(matches!(classify("IntListUF t= enum { Nil () }"),
        Command::AssignType(n, e) if n == "IntListUF" && e == " enum { Nil () }"));
    assert!(matches!(classify("(zero? zero)"), Command::TypeAndEval(e) if e == "(zero? zero)"));
    assert!(matches!(classify(":x five"), Command::TypeAndEval(e) if e == ":x five"));
}

#[test]
fn save_commands_keep_the_binding_text() {
    assert!(matches!(classify(":s   x := three"),
        Command::SaveValue(l, n, e) if l == "x := three" && n == "x" && e == " three"));
    assert!(matches!(classify(":s T t= Int"),
        Command::SaveType(l, n, e) if l == "T t= Int" && n == "T" && e == " Int"));
    assert!(matches!(classify(":s nothing"), Command::TypeAndEval(_)));
}

#[test]
fn commands_span_one_line() {
    assert!(matches!(classify(":p a\nb"), Command::TypeAndEval(_)));
    assert_eq!(split_value("x := a\nb"), None);
}

#[test]
fn prelude_lines() {
    assert!(matches!(classify_prelude_line("# x := 1"), PreludeLine::Comment));
    assert!(matches!(classify_prelude_line("x := 1"), PreludeLine::Value(n, e) if n == "x" && e == " 1"));
    assert!(matches!(classify_prelude_line("T t= Int"), PreludeLine::Type(n, e) if n == "T" && e == " Int"));
    assert!(matches!(classify_prelude_line(""), PreludeLine::Ignored));
    assert!(matches!(classify_prelude_line(":s x := 1"), PreludeLine::Ignored));
}

#[test]
fn completions_keep_matching_names_in_order() {
    let names: Vec<String> = vec!["map".to_string(), "mt_list".to_string(), "list_len".to_string(), "m".to_string()];
    assert_eq!(completions(&names, "m"), vec!["map".to_string(), "mt_list".to_string(), "m".to_string()]);
    assert_eq!(completions(&names, "ma"), vec!["map".to_string()]);
    assert_eq!(completions(&names, ""), names);
    assert!(completions(&names, "zz").is_empty());
    assert!(completions(&names, "mapper").is_empty());
}
