//! The errors of parsing a literal or a schema text.

use vstd::prelude::*;
use vstd::std_specs::convert::FromSpecImpl;
use vstd::string::StringExecFns;

verus! {

/// The kinds of tokens that a text is made of.
#[derive(Debug, Clone, Copy, PartialEq, Eq, Structural, Hash)]
pub enum BoultonLangTokenKind {
    BeginningOfFile,
    EndOfFile,
    Exclamation,
    Dollar,
    OpenParen,
    CloseParen,
    Colon,
    Equals,
    At,
    OpenBracket,
    CloseBracket,
    OpenBrace,
    CloseBrace,
    Comma,
    Period,
    Identifier,
    IntegerLiteral,
    FloatLiteral,
    StringLiteral,
    Error,
}

impl BoultonLangTokenKind {
    /// The text by which messages call the kind.
    pub open spec fn text(self) -> Seq<char> {
        match self {
            BoultonLangTokenKind::BeginningOfFile => "beginning of file"@,
            BoultonLangTokenKind::EndOfFile => "end of file"@,
            BoultonLangTokenKind::Exclamation => "exclamation point ('!')"@,
            BoultonLangTokenKind::Dollar => "dollar ('$')"@,
            BoultonLangTokenKind::OpenParen => "open parenthesis ('(')"@,
            BoultonLangTokenKind::CloseParen => "closed parenthesis (')')"@,
            BoultonLangTokenKind::Colon => "colon (':')"@,
            BoultonLangTokenKind::Equals => "equals ('=')"@,
            BoultonLangTokenKind::At => "at ('@')"@,
            BoultonLangTokenKind::OpenBracket => "open bracket ('[')"@,
            BoultonLangTokenKind::CloseBracket => "closed bracket (']')"@,
            BoultonLangTokenKind::OpenBrace => "open brace ('{')"@,
            BoultonLangTokenKind::CloseBrace => "closed brace ('}')"@,
            BoultonLangTokenKind::Comma => "comma (',')"@,
            BoultonLangTokenKind::Period => "period ('.')"@,
            BoultonLangTokenKind::Identifier => "identifier"@,
            BoultonLangTokenKind::IntegerLiteral => "integer literal"@,
            BoultonLangTokenKind::FloatLiteral => "float literal"@,
            BoultonLangTokenKind::StringLiteral => "string literal"@,
            BoultonLangTokenKind::Error => "error"@,
        }
    }

    /// The text by which messages call the kind.
    pub fn as_str(&self) -> (text: &'static str)
        ensures
            text@ == self.text(),
    {
        match self {
            BoultonLangTokenKind::BeginningOfFile => "beginning of file",
            BoultonLangTokenKind::EndOfFile => "end of file",
            BoultonLangTokenKind::Exclamation => "exclamation point ('!')",
            BoultonLangTokenKind::Dollar => "dollar ('$')",
            BoultonLangTokenKind::OpenParen => "open parenthesis ('(')",
            BoultonLangTokenKind::CloseParen => "closed parenthesis (')')",
            BoultonLangTokenKind::Colon => "colon (':')",
            BoultonLangTokenKind::Equals => "equals ('=')",
            BoultonLangTokenKind::At => "at ('@')",
            BoultonLangTokenKind::OpenBracket => "open bracket ('[')",
            BoultonLangTokenKind::CloseBracket => "closed bracket (']')",
            BoultonLangTokenKind::OpenBrace => "open brace ('{')",
            BoultonLangTokenKind::CloseBrace => "closed brace ('}')",
            BoultonLangTokenKind::Comma => "comma (',')",
            BoultonLangTokenKind::Period => "period ('.')",
            BoultonLangTokenKind::Identifier => "identifier",
            BoultonLangTokenKind::IntegerLiteral => "integer literal",
            BoultonLangTokenKind::FloatLiteral => "float literal",
            BoultonLangTokenKind::StringLiteral => "string literal",
            BoultonLangTokenKind::Error => "error",
        }
    }
}

/// An error of the lexer: a token other than the one that was expected.
#[derive(Debug, PartialEq, Eq)]
pub enum LowLevelParseError {
    ParseTokenKindError { expected_kind: BoultonLangTokenKind, found_kind: BoultonLangTokenKind },
    ParseMatchingIdentifierError { expected_identifier: String, found_text: String },
}

impl LowLevelParseError {
    /// The text of `message`.
    pub open spec fn message_text(self) -> Seq<char> {
        match self {
            LowLevelParseError::ParseTokenKindError { expected_kind, found_kind } => {
                "Expected "@ + expected_kind.text() + ", found "@ + found_kind.text() + "."@
            },
            LowLevelParseError::ParseMatchingIdentifierError {
                expected_identifier,
                found_text,
            } => { "Expected "@ + expected_identifier@ + ", found \""@ + found_text@ + "\""@ },
        }
    }

    /// Describes the error for a reader.
    pub fn message(&self) -> (text: String)
        ensures
            text@ == self.message_text(),
    {
        match self {
            LowLevelParseError::ParseTokenKindError { expected_kind, found_kind } => {
                let mut text = String::from_str("Expected ");
                text.append(expected_kind.as_str());
                text.append(", found ");
                text.append(found_kind.as_str());
                text.append(".");
                text
            },
            LowLevelParseError::ParseMatchingIdentifierError {
                expected_identifier,
                found_text,
            } => {
                let mut text = String::from_str("Expected ");
                text.append(expected_identifier.as_str());
                text.append(", found \"");
                text.append(found_text.as_str());
                text.append("\"");
                text
            },
        }
    }
}

/// Errors that make semantic sense when referring to parsing a literal
#[derive(Debug, PartialEq, Eq)]
pub enum BoultonLiteralParseError {
    ParseError { error: LowLevelParseError },
    TopLevelSchemaDeclarationExpected { found_text: String },
    UnableToParseConstantValue,
    InvalidIntValue { text: String },
    InvalidFloatValue { text: String },
    ExpectedTypeAnnotation,
    LeftoverTokens { token: BoultonLangTokenKind },
}

/// The result of parsing.
pub type ParseResult<T> = Result<T, BoultonLiteralParseError>;

impl BoultonLiteralParseError {
    /// The text of `message`.
    pub open spec fn message_text(self) -> Seq<char> {
        match self {
            BoultonLiteralParseError::ParseError { error } => error.message_text(),
            BoultonLiteralParseError::TopLevelSchemaDeclarationExpected { found_text } => {
                "Expected scalar, type, interface, union, enum, input object, schema or directive, found \""@
                    + found_text@ + "\""@
            },
            BoultonLiteralParseError::UnableToParseConstantValue => {
                "Unable to parse constant value"@
            },
            BoultonLiteralParseError::InvalidIntValue { text } => {
                "Invalid integer value. Received "@ + text@
            },
            BoultonLiteralParseError::InvalidFloatValue { text } => {
                "Invalid float value. Received "@ + text@
            },
            BoultonLiteralParseError::ExpectedTypeAnnotation => {
                "Expected a type (e.g. String, [String], or String!)"@
            },
            BoultonLiteralParseError::LeftoverTokens { token } => {
                "Leftover tokens. Next token: "@ + token.text()
            },
        }
    }

    /// Describes the error for a reader.
    pub fn message(&self) -> (text: String)
        ensures
            text@ == self.message_text(),
    {
        match self {
            BoultonLiteralParseError::ParseError { error } => error.message(),
            BoultonLiteralParseError::TopLevelSchemaDeclarationExpected { found_text } => {
                let mut text = String::from_str(
                    "Expected scalar, type, interface, union, enum, input object, schema or directive, found \"",
                );
                text.append(found_text.as_str());
                text.append("\"");
                text
            },
            BoultonLiteralParseError::UnableToParseConstantValue => String::from_str(
                "Unable to parse constant value",
            ),
            BoultonLiteralParseError::InvalidIntValue { text } => {
                let mut message = String::from_str("Invalid integer value. Received ");
                message.append(text.as_str());
                message
            },
            BoultonLiteralParseError::InvalidFloatValue { text } => {
                let mut message = String::from_str("Invalid float value. Received ");
                message.append(text.as_str());
                message
            },
            BoultonLiteralParseError::ExpectedTypeAnnotation => String::from_str(
                "Expected a type (e.g. String, [String], or String!)",
            ),
            BoultonLiteralParseError::LeftoverTokens { token } => {
                let mut message = String::from_str("Leftover tokens. Next token: ");
                message.append(token.as_str());
                message
            },
        }
    }
}

impl From<LowLevelParseError> for BoultonLiteralParseError {
    fn from(error: LowLevelParseError) -> (parse_error: Self) {
        BoultonLiteralParseError::ParseError { error }
    }
}

impl FromSpecImpl<LowLevelParseError> for BoultonLiteralParseError {
    open spec fn obeys_from_spec() -> bool {
        true
    }

    open spec fn from_spec(error: LowLevelParseError) -> Self {
        BoultonLiteralParseError::ParseError { error }
    }
}

} // verus!
