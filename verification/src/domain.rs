//! The closed vocabularies of the explorer API and the library's error type.
//!
//! Each vocabulary is a closed enum with a fallible string parser: any string
//! outside the recognized set is a hard error, never silently absorbed, so
//! that an upstream contract change surfaces loudly instead of
//! mis-categorizing financial data.

use vstd::prelude::*;
use crate::strutil::str_eq;

verus! {

/// A recognized transaction action.
#[derive(Clone, Copy, Debug, PartialEq, Eq, Structural)]
pub enum Action {
    Mint,
    Transfer,
}

/// The output category a row is filed under.
#[derive(Clone, Copy, Debug, PartialEq, Eq, Structural)]
pub enum Category {
    Buy,
    Mint,
}

/// A recognized terminal transaction status.
///
/// Only successful transactions are understood; anything else must fail the
/// whole record, because the system has no logic path for them.
#[derive(Clone, Copy, Debug, PartialEq, Eq, Structural)]
pub enum State {
    Success,
}

/// A recognized token standard.
#[derive(Clone, Copy, Debug, PartialEq, Eq, Structural)]
pub enum TokenType {
    BRC20,
}

/// Everything that can go wrong while normalizing explorer data, each
/// variant carrying the offending raw value.
#[derive(Debug, PartialEq, Eq)]
pub enum Error {
    UnknownAction(String),
    UnknownState(String),
    UnknownTokenType(String),
    InvalidAmount(String),
    InvalidTimestamp(String),
    InvalidPageCounter(String),
    NoPagination,
    TruncatedResponses,
}

/// Abstract form of `Error`, over character sequences.
pub enum ErrView {
    UnknownAction(Seq<char>),
    UnknownState(Seq<char>),
    UnknownTokenType(Seq<char>),
    InvalidAmount(Seq<char>),
    InvalidTimestamp(Seq<char>),
    InvalidPageCounter(Seq<char>),
    NoPagination,
    TruncatedResponses,
}

impl View for Error {
    type V = ErrView;

    open spec fn view(&self) -> ErrView {
        match self {
            Error::UnknownAction(s) => ErrView::UnknownAction(s@),
            Error::UnknownState(s) => ErrView::UnknownState(s@),
            Error::UnknownTokenType(s) => ErrView::UnknownTokenType(s@),
            Error::InvalidAmount(s) => ErrView::InvalidAmount(s@),
            Error::InvalidTimestamp(s) => ErrView::InvalidTimestamp(s@),
            Error::InvalidPageCounter(s) => ErrView::InvalidPageCounter(s@),
            Error::NoPagination => ErrView::NoPagination,
            Error::TruncatedResponses => ErrView::TruncatedResponses,
        }
    }
}

/// The action named by a raw string, if recognized.
pub open spec fn action_of(s: Seq<char>) -> Option<Action> {
    if s == "mint"@ {
        Some(Action::Mint)
    } else if s == "transfer"@ {
        Some(Action::Transfer)
    } else {
        None
    }
}

/// The status named by a raw string, if recognized.
pub open spec fn state_of(s: Seq<char>) -> Option<State> {
    if s == "success"@ {
        Some(State::Success)
    } else {
        None
    }
}

/// The token standard named by a raw string, if recognized.
pub open spec fn token_type_of(s: Seq<char>) -> Option<TokenType> {
    if s == "BRC20"@ {
        Some(TokenType::BRC20)
    } else {
        None
    }
}

/// Display name of an action, as it appears in row descriptions.
pub open spec fn action_label(a: Action) -> Seq<char> {
    match a {
        Action::Mint => "Mint"@,
        Action::Transfer => "Transfer"@,
    }
}

/// Display name of a token standard, as it appears in row descriptions.
pub open spec fn token_type_label(t: TokenType) -> Seq<char> {
    match t {
        TokenType::BRC20 => "BRC20"@,
    }
}

/// Label of an output category, as written in the CSV type column.
pub open spec fn category_label(c: Category) -> Seq<char> {
    match c {
        Category::Buy => "buy"@,
        Category::Mint => "mint"@,
    }
}

/// The category a recognized action is filed under: mints stay mints, and
/// transfers are treated as acquisitions.
pub open spec fn category_of(a: Action) -> Category {
    match a {
        Action::Mint => Category::Mint,
        Action::Transfer => Category::Buy,
    }
}

impl Action {
    /// Parses a raw action string; exactly "mint" and "transfer" are
    /// recognized, and every other string is an error naming the value.
    pub fn from_str(input: &str) -> (r: Result<Action, Error>)
        ensures
            r is Ok <==> action_of(input@) is Some,
            r matches Ok(a) ==> action_of(input@) == Some(a),
            r matches Err(e) ==> e@ == ErrView::UnknownAction(input@),
    {
        if str_eq(input, "mint") {
            Ok(Action::Mint)
        } else if str_eq(input, "transfer") {
            Ok(Action::Transfer)
        } else {
            Err(Error::UnknownAction(input.to_owned()))
        }
    }

    /// Display name of the action.
    pub fn label(&self) -> (r: &'static str)
        ensures
            r@ == action_label(*self),
    {
        match self {
            Action::Mint => "Mint",
            Action::Transfer => "Transfer",
        }
    }
}

impl State {
    /// Parses a raw status string; only "success" is recognized.
    pub fn from_str(input: &str) -> (r: Result<State, Error>)
        ensures
            r is Ok <==> state_of(input@) is Some,
            r matches Ok(s) ==> state_of(input@) == Some(s),
            r matches Err(e) ==> e@ == ErrView::UnknownState(input@),
    {
        if str_eq(input, "success") {
            Ok(State::Success)
        } else {
            Err(Error::UnknownState(input.to_owned()))
        }
    }
}

impl TokenType {
    /// Parses a raw token-standard string; only "BRC20" is recognized.
    pub fn from_str(input: &str) -> (r: Result<TokenType, Error>)
        ensures
            r is Ok <==> token_type_of(input@) is Some,
            r matches Ok(t) ==> token_type_of(input@) == Some(t),
            r matches Err(e) ==> e@ == ErrView::UnknownTokenType(input@),
    {
        if str_eq(input, "BRC20") {
            Ok(TokenType::BRC20)
        } else {
            Err(Error::UnknownTokenType(input.to_owned()))
        }
    }

    /// Display name of the token standard.
    pub fn label(&self) -> (r: &'static str)
        ensures
            r@ == token_type_label(*self),
    {
        match self {
            TokenType::BRC20 => "BRC20",
        }
    }
}

impl Category {
    /// Derives the output category from an action.
    pub fn from_action(a: &Action) -> (r: Category)
        ensures
            r == category_of(*a),
    {
        match a {
            Action::Mint => Category::Mint,
            Action::Transfer => Category::Buy,
        }
    }

    /// Label written in the CSV type column.
    pub fn label(&self) -> (r: &'static str)
        ensures
            r@ == category_label(*self),
    {
        match self {
            Category::Buy => "buy",
            Category::Mint => "mint",
        }
    }
}

} // verus!
