use indexify::gen::resolve;
use indexify::gen::Binding;
use indexify::gen::FieldShape;
use indexify::gen::GenError;
use indexify::gen::TypeShape;

fn plain() -> FieldShape {
    FieldShape { marked: false, executable: false }
}

fn subcommand() -> FieldShape {
    FieldShape { marked: true, executable: true }
}

#[test]
fn record_with_one_marked_field_is_a_composite() {
    let shape = TypeShape::Record { fields: vec![plain(), subcommand(), plain()] };
    assert_eq!(resolve(&shape), Ok(Binding::Child { field: 1 }));
}

#[test]
fn record_with_no_marked_field_is_a_leaf() {
    let shape = TypeShape::Record { fields: vec![plain(), plain(), plain()] };
    assert_eq!(resolve(&shape), Ok(Binding::Leaf));
    let empty = TypeShape::Record { fields: vec![] };
    assert_eq!(resolve(&empty), Ok(Binding::Leaf));
}

#[test]
fn record_with_two_marked_fields_is_rejected() {
    let shape = TypeShape::Record { fields: vec![subcommand(), plain(), subcommand()] };
    assert_eq!(resolve(&shape), Err(GenError::MultipleMarkedFields));
}

#[test]
fn marked_field_that_is_not_executable_is_rejected() {
    let shape = TypeShape::Record {
        fields: vec![plain(), FieldShape { marked: true, executable: false }],
    };
    assert_eq!(resolve(&shape), Err(GenError::ChildNotExecutable));
}

#[test]
fn closed_choice_of_single_payload_alternatives_is_a_selector() {
    let shape = TypeShape::Choice { payloads: vec![1, 1, 1, 1, 1], closed: true };
    assert_eq!(resolve(&shape), Ok(Binding::Selector));
}

#[test]
fn open_choice_is_rejected() {
    let shape = TypeShape::Choice { payloads: vec![1, 1], closed: false };
    assert_eq!(resolve(&shape), Err(GenError::OpenChoice));
}

#[test]
fn alternative_without_exactly_one_payload_is_rejected() {
    let none = TypeShape::Choice { payloads: vec![1, 0], closed: true };
    assert_eq!(resolve(&none), Err(GenError::BadAlternative));
    let two = TypeShape::Choice { payloads: vec![2], closed: true };
    assert_eq!(resolve(&two), Err(GenError::BadAlternative));
}

#[test]
fn rejections_carry_a_descriptive_message() {
    assert_eq!(
        GenError::MultipleMarkedFields.message(),
        "more than one subcommand field"
    );
    assert_eq!(
        GenError::ChildNotExecutable.message(),
        "subcommand field is not executable"
    );
    assert_eq!(GenError::OpenChoice.message(), "choice type is not closed");
    assert_eq!(
        GenError::BadAlternative.message(),
        "alternative must wrap exactly one payload"
    );
}
