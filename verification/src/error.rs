//! The ways in which reading a design fails.
//!
//! Every failure ends the reading at once: there are no warnings and no
//! partial results.
use crate::token::{Token, TokenView};
use vstd::prelude::*;
use vstd::string::StringExecFns;

verus! {

/// Why a text could not be turned into tokens.
#[derive(Debug, Clone, PartialEq, Eq)]
pub enum LexError {
    /// The text ended inside a quoted literal.
    UnexpectedEof,
    /// The quote directive names a character that is none of `'`, `"`, `$`.
    UnknownQuote(String),
    /// The pattern engine refused one of the directive patterns.
    Pattern,
}

/// The model of a [`LexError`].
pub enum LexErrorView {
    UnexpectedEof,
    UnknownQuote(Seq<char>),
    Pattern,
}

impl View for LexError {
    type V = LexErrorView;

    open spec fn view(&self) -> LexErrorView {
        match self {
            LexError::UnexpectedEof => LexErrorView::UnexpectedEof,
            LexError::UnknownQuote(s) => LexErrorView::UnknownQuote(s@),
            LexError::Pattern => LexErrorView::Pattern,
        }
    }
}

impl LexErrorView {
    /// The text that describes the failure.
    pub open spec fn message(self) -> Seq<char> {
        match self {
            LexErrorView::UnexpectedEof => "unexpected EOF"@,
            LexErrorView::UnknownQuote(s) => "unknown string quote character "@ + s,
            LexErrorView::Pattern => "invalid directive pattern"@,
        }
    }
}

impl LexError {
    /// Describes the failure.
    pub fn message(&self) -> (r: String)
        ensures
            r@ == self@.message(),
    {
        match self {
            LexError::UnexpectedEof => String::from_str("unexpected EOF"),
            LexError::UnknownQuote(s) => {
                let mut r = String::from_str("unknown string quote character ");
                r.append(s.as_str());
                r
            },
            LexError::Pattern => String::from_str("invalid directive pattern"),
        }
    }
}

/// Why a sequence of tokens is not a design.
#[derive(Debug, Clone, PartialEq, Eq)]
pub enum ParseError {
    /// The tokens ended where one more was needed.
    UnexpectedEof,
    /// A token other than the keyword or parenthesis that the rule requires.
    UnexpectedToken(Token),
    /// A keyword that heads no construct allowed at its place.
    UnrecognisedToken(Token),
    UnrecognisedLayerType,
    UnrecognisedLockType,
    UnrecognisedKeepoutType,
    UnrecognisedClearanceType,
    UnrecognisedShapeType,
    UnrecognisedSide,
    UnknownDimensionUnit,
    ExpectedOnOff,
    /// A text that is no floating-point literal where a number is required.
    InvalidNumber(String),
    /// A text that is no 32-bit integer literal where an integer is required.
    InvalidInteger(String),
    /// A polygon of fewer than three points.
    PolygonTooFewPoints,
    /// A path of fewer than two points.
    PathTooFewPoints,
    /// A pin reference that is not a component and a pin with a hyphen between
    /// them.
    InvalidPinReference(String),
    /// A design whose name is empty.
    EmptyId,
}

/// The model of a [`ParseError`].
pub enum ParseErrorView {
    UnexpectedEof,
    UnexpectedToken(TokenView),
    UnrecognisedToken(TokenView),
    UnrecognisedLayerType,
    UnrecognisedLockType,
    UnrecognisedKeepoutType,
    UnrecognisedClearanceType,
    UnrecognisedShapeType,
    UnrecognisedSide,
    UnknownDimensionUnit,
    ExpectedOnOff,
    InvalidNumber(Seq<char>),
    InvalidInteger(Seq<char>),
    PolygonTooFewPoints,
    PathTooFewPoints,
    InvalidPinReference(Seq<char>),
    EmptyId,
}

impl View for ParseError {
    type V = ParseErrorView;

    open spec fn view(&self) -> ParseErrorView {
        match self {
            ParseError::UnexpectedEof => ParseErrorView::UnexpectedEof,
            ParseError::UnexpectedToken(t) => ParseErrorView::UnexpectedToken(t@),
            ParseError::UnrecognisedToken(t) => ParseErrorView::UnrecognisedToken(t@),
            ParseError::UnrecognisedLayerType => ParseErrorView::UnrecognisedLayerType,
            ParseError::UnrecognisedLockType => ParseErrorView::UnrecognisedLockType,
            ParseError::UnrecognisedKeepoutType => ParseErrorView::UnrecognisedKeepoutType,
            ParseError::UnrecognisedClearanceType => ParseErrorView::UnrecognisedClearanceType,
            ParseError::UnrecognisedShapeType => ParseErrorView::UnrecognisedShapeType,
            ParseError::UnrecognisedSide => ParseErrorView::UnrecognisedSide,
            ParseError::UnknownDimensionUnit => ParseErrorView::UnknownDimensionUnit,
            ParseError::ExpectedOnOff => ParseErrorView::ExpectedOnOff,
            ParseError::InvalidNumber(s) => ParseErrorView::InvalidNumber(s@),
            ParseError::InvalidInteger(s) => ParseErrorView::InvalidInteger(s@),
            ParseError::PolygonTooFewPoints => ParseErrorView::PolygonTooFewPoints,
            ParseError::PathTooFewPoints => ParseErrorView::PathTooFewPoints,
            ParseError::InvalidPinReference(s) => ParseErrorView::InvalidPinReference(s@),
            ParseError::EmptyId => ParseErrorView::EmptyId,
        }
    }
}

impl ParseErrorView {
    /// The text that describes the failure.
    pub open spec fn message(self) -> Seq<char> {
        match self {
            ParseErrorView::UnexpectedEof => "unexpected EOF"@,
            ParseErrorView::UnexpectedToken(t) => "unexpected token "@ + t.describe(),
            ParseErrorView::UnrecognisedToken(t) => "unrecognised token '"@ + t.describe() + "'"@,
            ParseErrorView::UnrecognisedLayerType => "unrecognised layer type"@,
            ParseErrorView::UnrecognisedLockType => "unrecognised lock type"@,
            ParseErrorView::UnrecognisedKeepoutType => "unrecognised keepout type"@,
            ParseErrorView::UnrecognisedClearanceType => "unrecognised clearance type"@,
            ParseErrorView::UnrecognisedShapeType => "unrecognised shape type"@,
            ParseErrorView::UnrecognisedSide => "unrecognised side type"@,
            ParseErrorView::UnknownDimensionUnit => "unknown dimension unit"@,
            ParseErrorView::ExpectedOnOff => "expected off or on"@,
            ParseErrorView::InvalidNumber(s) => "invalid number "@ + s,
            ParseErrorView::InvalidInteger(s) => "invalid integer "@ + s,
            ParseErrorView::PolygonTooFewPoints => "polygon must have at least three points"@,
            ParseErrorView::PathTooFewPoints => "path must have at least two points"@,
            ParseErrorView::InvalidPinReference(s) => "invalid pin reference "@ + s,
            ParseErrorView::EmptyId => "the design has no name"@,
        }
    }
}

impl ParseError {
    /// Describes the failure.
    pub fn message(&self) -> (r: String)
        ensures
            r@ == self@.message(),
    {
        match self {
            ParseError::UnexpectedEof => String::from_str("unexpected EOF"),
            ParseError::UnexpectedToken(t) => {
                let mut r = String::from_str("unexpected token ");
                r.append(t.to_string().as_str());
                r
            },
            ParseError::UnrecognisedToken(t) => {
                let mut r = String::from_str("unrecognised token '");
                r.append(t.to_string().as_str());
                r.append("'");
                r
            },
            ParseError::UnrecognisedLayerType => String::from_str("unrecognised layer type"),
            ParseError::UnrecognisedLockType => String::from_str("unrecognised lock type"),
            ParseError::UnrecognisedKeepoutType => String::from_str("unrecognised keepout type"),
            ParseError::UnrecognisedClearanceType => String::from_str(
                "unrecognised clearance type",
            ),
            ParseError::UnrecognisedShapeType => String::from_str("unrecognised shape type"),
            ParseError::UnrecognisedSide => String::from_str("unrecognised side type"),
            ParseError::UnknownDimensionUnit => String::from_str("unknown dimension unit"),
            ParseError::ExpectedOnOff => String::from_str("expected off or on"),
            ParseError::InvalidNumber(s) => {
                let mut r = String::from_str("invalid number ");
                r.append(s.as_str());
                r
            },
            ParseError::InvalidInteger(s) => {
                let mut r = String::from_str("invalid integer ");
                r.append(s.as_str());
                r
            },
            ParseError::PolygonTooFewPoints => String::from_str(
                "polygon must have at least three points",
            ),
            ParseError::PathTooFewPoints => String::from_str("path must have at least two points"),
            ParseError::InvalidPinReference(s) => {
                let mut r = String::from_str("invalid pin reference ");
                r.append(s.as_str());
                r
            },
            ParseError::EmptyId => String::from_str("the design has no name"),
        }
    }
}

} // verus!
