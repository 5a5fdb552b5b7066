//! Account identifiers and their shape check.

use vstd::prelude::*;
use vstd::utf8::{encode_utf8, is_ascii_chars, is_ascii_chars_encode_utf8};

verus! {

/// Fewest bytes that an account identifier has.
pub const MIN_LENGTH: usize = 25;

/// Most bytes that an account identifier has.
pub const MAX_LENGTH: usize = 35;

/// The character that every account identifier starts with.
pub const SENTINEL: char = 'r';

/// Why a text is not an account identifier.
#[derive(Clone, Copy, Debug, PartialEq, Eq, Structural)]
pub enum ValidationError {
    /// The text has fewer than [`MIN_LENGTH`] bytes.
    TooShort,
    /// The text does not start with [`SENTINEL`].
    BadPrefix,
    /// The text has more than [`MAX_LENGTH`] bytes.
    TooLong,
}

/// The length of a text in bytes of UTF-8.
pub open spec fn byte_len(text: Seq<char>) -> nat {
    encode_utf8(text).len()
}

/// The verdict on a text: the first check that it fails, in the order
/// length at least [`MIN_LENGTH`], first character [`SENTINEL`], length at
/// most [`MAX_LENGTH`].
pub open spec fn account_verdict(text: Seq<char>) -> Option<ValidationError> {
    if byte_len(text) < MIN_LENGTH {
        Some(ValidationError::TooShort)
    } else if text[0] != SENTINEL {
        Some(ValidationError::BadPrefix)
    } else if byte_len(text) > MAX_LENGTH {
        Some(ValidationError::TooLong)
    } else {
        None
    }
}

/// True for the texts that are account identifiers.
pub open spec fn is_account(text: Seq<char>) -> bool {
    account_verdict(text) is None
}

/// A text of at least one byte has a first character.
pub proof fn lemma_bytes_need_chars(text: Seq<char>)
    requires
        byte_len(text) > 0,
    ensures
        text.len() > 0,
{
    if text.len() == 0 {
        assert(encode_utf8(text) =~= seq![]);
    }
}

/// A text of ASCII characters has as many bytes as characters, so its
/// verdict goes by the number of its characters.
pub proof fn lemma_ascii_length(text: Seq<char>)
    requires
        is_ascii_chars(text),
    ensures
        byte_len(text) == text.len(),
        is_account(text) <==> MIN_LENGTH <= text.len() <= MAX_LENGTH && text[0] == SENTINEL,
{
    is_ascii_chars_encode_utf8(text);
}

/// Checks the shape of an account identifier and hands the text back unchanged.
pub fn account_validate(s: &str) -> (checked: Result<String, ValidationError>)
    ensures
        checked is Ok <==> is_account(s@),
        checked matches Ok(text) ==> text@ == s@,
        checked matches Err(error) ==> account_verdict(s@) == Some(error),
{
    let length = s.as_bytes().len();
    if length < MIN_LENGTH {
        return Err(ValidationError::TooShort);
    }
    proof {
        lemma_bytes_need_chars(s@);
    }
    if s.get_char(0) != SENTINEL {
        return Err(ValidationError::BadPrefix);
    }
    if length > MAX_LENGTH {
        return Err(ValidationError::TooLong);
    }
    Ok(s.to_owned())
}

impl ValidationError {
    /// A sentence that says which check failed.
    pub fn describe(&self) -> (sentence: String)
        ensures
            sentence@ == match *self {
                ValidationError::TooShort => "shorter than 25 chars"@,
                ValidationError::BadPrefix => "does not start with r"@,
                ValidationError::TooLong => "longer than 35 chars"@,
            },
    {
        match self {
            ValidationError::TooShort => "shorter than 25 chars".to_owned(),
            ValidationError::BadPrefix => "does not start with r".to_owned(),
            ValidationError::TooLong => "longer than 35 chars".to_owned(),
        }
    }
}

/// An account identifier: a text of [`MIN_LENGTH`] to [`MAX_LENGTH`] bytes
/// that starts with [`SENTINEL`].
#[derive(Debug)]
pub struct Account(String);

impl View for Account {
    type V = Seq<char>;

    closed spec fn view(&self) -> Seq<char> {
        self.0@
    }
}

impl DeepView for Account {
    type V = Seq<char>;

    open spec fn deep_view(&self) -> Seq<char> {
        self@
    }
}

impl Account {
    #[verifier::type_invariant]
    spec fn well_formed(self) -> bool {
        is_account(self.0@)
    }

    /// Makes an account identifier of a text, or says which check the text fails.
    pub fn from_str(s: &str) -> (made: Result<Account, ValidationError>)
        ensures
            made is Ok <==> is_account(s@),
            made matches Ok(account) ==> account@ == s@,
            made matches Err(error) ==> account_verdict(s@) == Some(error),
    {
        match account_validate(s) {
            Ok(text) => Ok(Account(text)),
            Err(error) => Err(error),
        }
    }

    /// The identifier's text.
    pub fn as_str(&self) -> (text: &str)
        ensures
            text@ == self@,
            is_account(self@),
    {
        proof {
            use_type_invariant(self);
        }
        self.0.as_str()
    }
}

impl Clone for Account {
    fn clone(&self) -> (same: Account)
        ensures
            same@ == self@,
    {
        proof {
            use_type_invariant(self);
        }
        Account(self.0.clone())
    }
}

impl std::str::FromStr for Account {
    type Err = ValidationError;

    /// Makes an account identifier of a text, as [`Account::from_str`] does.
    fn from_str(s: &str) -> (made: Result<Account, ValidationError>)
        ensures
            made is Ok <==> is_account(s@),
            made matches Ok(account) ==> account@ == s@,
            made matches Err(error) ==> account_verdict(s@) == Some(error),
    {
        Account::from_str(s)
    }
}

} // verus!
