use isograph_schema::boulton_literal_parse_error::{
    BoultonLangTokenKind, BoultonLiteralParseError, LowLevelParseError, ParseResult,
};
use isograph_schema::process_type_definition_error::{
    InternalConsistencyError, ProcessTypeDefinitionError, TypeDefinitionKind,
};

#[test]
fn a_token_kind_error_names_both_kinds() {
    let error = LowLevelParseError::ParseTokenKindError {
        expected_kind: BoultonLangTokenKind::OpenBrace,
        found_kind: BoultonLangTokenKind::EndOfFile,
    };
    assert_eq!(error.message(), "Expected open brace ('{'), found end of file.");
}

#[test]
fn an_identifier_error_quotes_what_was_found() {
    let error = LowLevelParseError::ParseMatchingIdentifierError {
        expected_identifier: "field".to_string(),
        found_text: "fied".to_string(),
    };
    assert_eq!(error.message(), "Expected field, found \"fied\"");
}

#[test]
fn a_low_level_error_becomes_a_parse_error() {
    let low_level = || LowLevelParseError::ParseTokenKindError {
        expected_kind: BoultonLangTokenKind::Identifier,
        found_kind: BoultonLangTokenKind::Comma,
    };
    let error = BoultonLiteralParseError::from(low_level());
    assert_eq!(error, BoultonLiteralParseError::ParseError { error: low_level() });
    assert_eq!(error.message(), low_level().message());
    assert_eq!(error.message(), "Expected identifier, found comma (',').");
    let converted: ParseResult<()> = Err(low_level()).map_err(BoultonLiteralParseError::from);
    assert_eq!(converted, Err(BoultonLiteralParseError::ParseError { error: low_level() }));
}

#[test]
fn each_parse_error_has_its_message() {
    assert_eq!(
        BoultonLiteralParseError::TopLevelSchemaDeclarationExpected {
            found_text: "typo".to_string()
        }
        .message(),
        "Expected scalar, type, interface, union, enum, input object, schema or directive, found \"typo\""
    );
    assert_eq!(
        BoultonLiteralParseError::UnableToParseConstantValue.message(),
        "Unable to parse constant value"
    );
    assert_eq!(
        BoultonLiteralParseError::InvalidIntValue { text: "12x".to_string() }.message(),
        "Invalid integer value. Received 12x"
    );
    assert_eq!(
        BoultonLiteralParseError::InvalidFloatValue { text: "1.2.3".to_string() }.message(),
        "Invalid float value. Received 1.2.3"
    );
    assert_eq!(
        BoultonLiteralParseError::ExpectedTypeAnnotation.message(),
        "Expected a type (e.g. String, [String], or String!)"
    );
    assert_eq!(
        BoultonLiteralParseError::LeftoverTokens { token: BoultonLangTokenKind::CloseBrace }
            .message(),
        "Leftover tokens. Next token: closed brace ('}')"
    );
}

#[test]
fn each_token_kind_has_its_text() {
    let kinds = [
        (BoultonLangTokenKind::BeginningOfFile, "beginning of file"),
        (BoultonLangTokenKind::EndOfFile, "end of file"),
        (BoultonLangTokenKind::Exclamation, "exclamation point ('!')"),
        (BoultonLangTokenKind::Dollar, "dollar ('$')"),
        (BoultonLangTokenKind::OpenParen, "open parenthesis ('(')"),
        (BoultonLangTokenKind::CloseParen, "closed parenthesis (')')"),
        (BoultonLangTokenKind::Colon, "colon (':')"),
        (BoultonLangTokenKind::Equals, "equals ('=')"),
        (BoultonLangTokenKind::At, "at ('@')"),
        (BoultonLangTokenKind::OpenBracket, "open bracket ('[')"),
        (BoultonLangTokenKind::CloseBracket, "closed bracket (']')"),
        (BoultonLangTokenKind::OpenBrace, "open brace ('{')"),
        (BoultonLangTokenKind::CloseBrace, "closed brace ('}')"),
        (BoultonLangTokenKind::Comma, "comma (',')"),
        (BoultonLangTokenKind::Period, "period ('.')"),
        (BoultonLangTokenKind::Identifier, "identifier"),
        (BoultonLangTokenKind::IntegerLiteral, "integer literal"),
        (BoultonLangTokenKind::FloatLiteral, "float literal"),
        (BoultonLangTokenKind::StringLiteral, "string literal"),
        (BoultonLangTokenKind::Error, "error"),
    ];
    for (kind, text) in kinds {
        assert_eq!(kind.as_str(), text);
    }
}

#[test]
fn each_schema_error_has_its_message() {
    assert_eq!(
        ProcessTypeDefinitionError::DuplicateTypeDefinition {
            type_definition_type: TypeDefinitionKind::Object,
            defined_name: "User".to_string(),
        }
        .message(),
        "Duplicate type definition (object) named \"User\""
    );
    assert_eq!(
        ProcessTypeDefinitionError::DuplicateTypeDefinition {
            type_definition_type: TypeDefinitionKind::Scalar,
            defined_name: "Date".to_string(),
        }
        .message(),
        "Duplicate type definition (scalar) named \"Date\""
    );
    assert_eq!(
        ProcessTypeDefinitionError::FieldExistsOnType {
            field_name: "asUser".to_string(),
            parent_type: "Node".to_string(),
        }
        .message(),
        "Failed to add field \"asUser\" to type \"Node\": a field with that name already exists"
    );
    assert_eq!(
        ProcessTypeDefinitionError::IdFieldAlreadyDefined { parent_type: "User".to_string() }
            .message(),
        "The type \"User\" already has an id field"
    );
    assert_eq!(TypeDefinitionKind::Object.as_str(), "object");
    assert_eq!(TypeDefinitionKind::Scalar.as_str(), "scalar");
}

#[test]
fn internal_faults_are_told_apart_from_errors_in_the_schema() {
    let faults = [
        (
            InternalConsistencyError::ExpectedTypenameToExist { parent_type: "User".to_string() },
            "Expected __typename to exist on type User. This is indicative of a bug in Isograph.",
        ),
        (
            InternalConsistencyError::ExpectedTypenameToBeServerField {
                parent_type: "User".to_string(),
            },
            "Expected __typename to be a server field on type User. This is indicative of a bug in Isograph.",
        ),
        (
            InternalConsistencyError::ExpectedIdFieldToBeValid { field_name: "id".to_string() },
            "Expected id field to be valid, but the field id is not. This is indicative of a bug in Isograph.",
        ),
        (
            InternalConsistencyError::ExpectedSelectionSetOrRefetchStrategy {
                field_name: "greeting".to_string(),
            },
            "Expected client field greeting to have either a reader selection set or a refetch strategy. This is indicative of a bug in Isograph.",
        ),
    ];
    for (fault, message) in faults {
        assert_eq!(fault.message(), message);
        let error = ProcessTypeDefinitionError::Internal(fault);
        assert!(error.is_internal_fault());
        assert_eq!(error.message(), message);
    }
    let user_facing = [
        ProcessTypeDefinitionError::DuplicateTypeDefinition {
            type_definition_type: TypeDefinitionKind::Object,
            defined_name: "User".to_string(),
        },
        ProcessTypeDefinitionError::FieldExistsOnType {
            field_name: "a".to_string(),
            parent_type: "B".to_string(),
        },
        ProcessTypeDefinitionError::IdFieldAlreadyDefined { parent_type: "B".to_string() },
    ];
    for error in user_facing {
        assert!(!error.is_internal_fault());
    }
}
