use threshold_ceremony::callvalue::into_scale_composite;
use threshold_ceremony::callvalue::parse_call_arguments;
use threshold_ceremony::callvalue::parse_string_into_scale_value;
use threshold_ceremony::callvalue::value_into_composite;
use threshold_ceremony::callvalue::CallComposite;
use threshold_ceremony::callvalue::CallValue;
use threshold_ceremony::errors::CeremonyError;

#[test]
fn a_composite_input_passes_through_unchanged() {
    let text = "{ dest: (1, 2), value: 3 }";
    let parsed = parse_string_into_scale_value(text).unwrap();
    let expected = match scale_value::stringify::from_str(text).0.unwrap().value {
        scale_value::ValueDef::Composite(c) => c,
        _ => panic!("the sample input must parse as a composite"),
    };
    match parsed {
        CallValue::Composite(ref c) => assert_eq!(c, &expected),
        CallValue::Plain(_) => panic!("a composite must be recognized as one"),
    }
    let normalized = value_into_composite(parsed);
    assert_eq!(into_scale_composite(normalized), expected);
}

#[test]
fn a_scalar_input_is_wrapped_as_a_single_unnamed_field() {
    let parsed = parse_string_into_scale_value("123").unwrap();
    let inner = scale_value::stringify::from_str("123").0.unwrap();
    match parsed {
        CallValue::Plain(ref v) => assert_eq!(v, &inner),
        CallValue::Composite(_) => panic!("a bare integer is not a composite"),
    }
    let normalized = value_into_composite(parsed);
    match normalized {
        CallComposite::WrappedSingle(ref v) => assert_eq!(v, &inner),
        CallComposite::Passed(_) => panic!("a scalar must be wrapped, not passed"),
    }
    assert_eq!(
        into_scale_composite(normalized),
        scale_value::Composite::Unnamed(vec![inner])
    );
}

#[test]
fn an_unnamed_tuple_is_a_composite_too() {
    let parsed = parse_call_arguments("(1, true)").unwrap();
    let expected = match scale_value::stringify::from_str("(1, true)").0.unwrap().value {
        scale_value::ValueDef::Composite(c) => c,
        _ => panic!("a tuple must parse as a composite"),
    };
    assert_eq!(into_scale_composite(parsed), expected);
}

#[test]
fn malformed_input_is_an_argument_parse_error() {
    let err = parse_call_arguments("{ not closed").unwrap_err();
    match err {
        CeremonyError::ArgumentParse(input, diagnostic) => {
            assert_eq!(input, "{ not closed");
            assert!(!diagnostic.is_empty());
        }
        other => panic!("expected an argument parse error, got {:?}", other),
    }
}
