use vstd::prelude::*;

verus! {

/// Why an `add` call was rejected. Every failure of the parser is one of
/// these four; the registry is left unchanged by a failing call.
#[derive(Debug, PartialEq, Eq, Structural, Clone, Copy)]
pub enum ParseError {
    /// The exact origin string is already registered.
    DuplicateBinding,
    /// Tokenization yielded no tokens at all.
    MissingKey,
    /// The last token names no known key symbol.
    UnknownKey,
    /// A token before the last is not a modifier alias.
    InvalidModifier,
}

impl ParseError {
    /// The human-readable description of the error.
    pub open spec fn message_spec(self) -> Seq<char> {
        match self {
            ParseError::DuplicateBinding => "duplicate keybinding"@,
            ParseError::MissingKey => "no key provided"@,
            ParseError::UnknownKey => "Key not found"@,
            ParseError::InvalidModifier => "invalid modifier"@,
        }
    }

    /// The human-readable description of the error.
    pub fn message(&self) -> (r: String)
        ensures
            r@ == self.message_spec(),
    {
        match self {
            ParseError::DuplicateBinding => "duplicate keybinding".to_owned(),
            ParseError::MissingKey => "no key provided".to_owned(),
            ParseError::UnknownKey => "Key not found".to_owned(),
            ParseError::InvalidModifier => "invalid modifier".to_owned(),
        }
    }
}

} // verus!
