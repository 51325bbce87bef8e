use fact_gen::errors::ConversionError;
use fact_gen::term::{create_function, create_id, create_number, create_string, Term};

#[test]
fn numbers_and_ids_always_build() {
    assert!(matches!(create_number(-7), Term::NumberTerm(-7)));
    match create_id("red".to_string(), true) {
        Term::IdTerm { name, positive } => {
            assert_eq!(name, "red");
            assert!(positive);
        },
        other => panic!("expected an identifier, got {:?}", other),
    }
}

#[test]
fn ascii_text_builds_and_other_text_is_refused() {
    match create_string("plain".to_string()) {
        Ok(Term::TextTerm(v)) => assert_eq!(v, "plain"),
        other => panic!("expected a text term, got {:?}", other),
    }
    match create_string("gr\u{fc}n".to_string()) {
        Err(ConversionError::UnrepresentableText { text }) => assert_eq!(text, "gr\u{fc}n"),
        other => panic!("expected a charset refusal, got {:?}", other),
    }
}

#[test]
fn function_with_empty_name_is_refused() {
    assert!(matches!(
        create_function(String::new(), vec![], true),
        Err(ConversionError::EmptyName)
    ));
}

#[test]
fn function_keeps_its_arguments_in_order() {
    let args = vec![create_number(1), create_number(2)];
    match create_function("pair".to_string(), args, true) {
        Ok(Term::FunctionTerm { name, args, positive }) => {
            assert_eq!(name, "pair");
            assert!(positive);
            assert!(matches!(args[0], Term::NumberTerm(1)));
            assert!(matches!(args[1], Term::NumberTerm(2)));
        },
        other => panic!("expected a function term, got {:?}", other),
    }
}
