use isograph_schema::normalization_key::{
    into_name_and_arguments, ArgumentKeyAndValue, NameAndArguments, NormalizationKey,
    PathToRefetchField,
};
use isograph_schema::selection::{LinkedFieldSelection, SelectionFieldArgument};
use isograph_schema::source_location::{Location, Span, WithLocation, WithSpan};
use isograph_schema::values::NonConstantValue;

fn argument(key: &str, value: NonConstantValue) -> ArgumentKeyAndValue {
    ArgumentKeyAndValue { key: key.to_string(), value }
}

fn integer(value: i64) -> NonConstantValue {
    NonConstantValue::Integer(value)
}

fn text(value: &str) -> NonConstantValue {
    NonConstantValue::String(value.to_string())
}

fn normalize(name: &str, arguments: Vec<ArgumentKeyAndValue>) -> NormalizationKey {
    NameAndArguments { name: name.to_string(), arguments }.normalization_key()
}

#[test]
fn the_order_of_the_arguments_makes_no_difference() {
    let one = normalize("post", vec![argument("id", integer(1)), argument("lang", text("en"))]);
    let other = normalize("post", vec![argument("lang", text("en")), argument("id", integer(1))]);
    assert!(one == other);
    assert!(other == one);
}

#[test]
fn the_field_named_id_has_the_sentinel_key() {
    assert!(matches!(normalize("id", Vec::new()), NormalizationKey::Id));
    assert!(matches!(
        normalize("id", vec![argument("x", integer(1))]),
        NormalizationKey::Id
    ));
    assert!(normalize("id", Vec::new()) == NormalizationKey::Id);
    for other in ["ID", "Id", "id ", "ids", "i", "", "identifier", "__id"] {
        let key = normalize(other, Vec::new());
        assert!(matches!(key, NormalizationKey::ServerField(_)));
        assert!(key != NormalizationKey::Id);
        assert!(NormalizationKey::Id != key);
    }
    let with_id_value = normalize("node", vec![argument("id", text("id"))]);
    assert!(with_id_value != NormalizationKey::Id);
}

#[test]
fn a_key_holds_the_name_and_the_arguments() {
    match normalize("post", vec![argument("id", integer(1))]) {
        NormalizationKey::ServerField(field) => {
            assert_eq!(field.name, "post");
            assert_eq!(field.arguments, vec![argument("id", integer(1))]);
        }
        NormalizationKey::Id => panic!("expected the key of a field"),
    }
}

#[test]
fn a_different_value_gives_a_different_key() {
    let base = normalize("post", vec![argument("id", integer(1)), argument("lang", text("en"))]);
    let other_value =
        normalize("post", vec![argument("id", integer(2)), argument("lang", text("en"))]);
    let other_text =
        normalize("post", vec![argument("id", integer(1)), argument("lang", text("fr"))]);
    let other_kind =
        normalize("post", vec![argument("id", text("1")), argument("lang", text("en"))]);
    let other_key =
        normalize("post", vec![argument("ID", integer(1)), argument("lang", text("en"))]);
    let other_name =
        normalize("posts", vec![argument("id", integer(1)), argument("lang", text("en"))]);
    let fewer = normalize("post", vec![argument("id", integer(1))]);
    let more = normalize(
        "post",
        vec![argument("id", integer(1)), argument("lang", text("en")), argument("n", integer(0))],
    );
    for different in [other_value, other_text, other_kind, other_key, other_name, fewer, more] {
        assert!(base != different);
        assert!(different != base);
    }
}

#[test]
fn values_of_different_kinds_are_different() {
    let values = || {
        vec![
            NonConstantValue::Variable("a".to_string()),
            NonConstantValue::String("a".to_string()),
            NonConstantValue::Enum("a".to_string()),
            NonConstantValue::Integer(0),
            NonConstantValue::Integer(1),
            NonConstantValue::Boolean(false),
            NonConstantValue::Boolean(true),
            NonConstantValue::Null,
        ]
    };
    for (i, one) in values().iter().enumerate() {
        for (j, other) in values().iter().enumerate() {
            assert_eq!(one == other, i == j);
            let equal_keys = normalize("f", vec![argument("x", one.clone())])
                == normalize("f", vec![argument("x", other.clone())]);
            assert_eq!(equal_keys, i == j);
        }
    }
}

#[test]
fn arguments_count_as_a_set() {
    let once = normalize("post", vec![argument("id", integer(1))]);
    let twice = normalize("post", vec![argument("id", integer(1)), argument("id", integer(1))]);
    assert!(once == twice);
    let none = normalize("post", Vec::new());
    assert!(none == normalize("post", Vec::new()));
    assert!(none != once);
}

#[test]
fn each_step_of_a_path_has_its_key() {
    let path = PathToRefetchField {
        linked_fields: vec![
            NameAndArguments {
                name: "node".to_string(),
                arguments: vec![argument("id", NonConstantValue::Variable("id".to_string()))],
            },
            NameAndArguments { name: "id".to_string(), arguments: Vec::new() },
            NameAndArguments { name: "author".to_string(), arguments: Vec::new() },
        ],
        field_name: "__refetch".to_string(),
    };
    let keys = path.normalization_keys();
    assert_eq!(keys.len(), 3);
    assert!(
        keys[0]
            == normalize("node", vec![argument("id", NonConstantValue::Variable("id".to_string()))])
    );
    assert!(keys[1] == NormalizationKey::Id);
    assert!(keys[2] == normalize("author", Vec::new()));
    let empty = PathToRefetchField { linked_fields: Vec::new(), field_name: "f".to_string() };
    assert!(empty.normalization_keys().is_empty());
}

fn selection_argument(name: &str, value: NonConstantValue) -> WithLocation<SelectionFieldArgument> {
    WithLocation::new(
        SelectionFieldArgument {
            name: WithSpan::new(name.to_string(), Span::new(1, 5)),
            value: WithLocation::new(value, Location::generated()),
        },
        Location::generated(),
    )
}

#[test]
fn a_linked_field_gives_its_name_and_arguments() {
    let field: LinkedFieldSelection<(), ()> = LinkedFieldSelection {
        name: WithLocation::new("post".to_string(), Location::generated()),
        reader_alias: None,
        associated_data: (),
        selection_set: Vec::new(),
        unwraps: Vec::new(),
        arguments: vec![
            selection_argument("id", integer(1)),
            selection_argument("lang", text("en")),
            selection_argument("first", NonConstantValue::Variable("count".to_string())),
        ],
        directives: Vec::new(),
    };
    let selected = into_name_and_arguments(&field);
    assert_eq!(
        selected,
        NameAndArguments {
            name: "post".to_string(),
            arguments: vec![
                argument("id", integer(1)),
                argument("lang", text("en")),
                argument("first", NonConstantValue::Variable("count".to_string())),
            ],
        }
    );
    assert_eq!(field.arguments.len(), 3);
    assert!(selected.clone() == selected);
}
