//! Account identifiers of the test network.
//!
//! An identifier is a dot-separated sequence of parts built from lowercase
//! ASCII letters, digits, `-` and `_`: it is 2 to 64 characters long, every
//! character is from that alphabet, and no separator (`-`, `_` or `.`) stands
//! first, last, or immediately after another separator. [`AccountId::parse`]
//! accepts exactly the strings that satisfy [`valid_account_id`].

use vstd::prelude::*;

verus! {

/// A character the account-id alphabet admits.
pub open spec fn is_account_char(c: char) -> bool {
    ||| 'a' <= c && c <= 'z'
    ||| '0' <= c && c <= '9'
    ||| c == '-'
    ||| c == '_'
    ||| c == '.'
}

/// A separator character: it may not start or end an identifier, nor
/// follow another separator.
pub open spec fn is_separator(c: char) -> bool {
    c == '-' || c == '_' || c == '.'
}

/// The validation rule for account identifiers.
pub open spec fn valid_account_id(s: Seq<char>) -> bool {
    &&& 2 <= s.len() <= 64
    &&& forall|i: int| 0 <= i < s.len() ==> is_account_char(#[trigger] s[i])
    &&& !is_separator(s[0])
    &&& !is_separator(s[s.len() - 1])
    &&& forall|i: int| 0 < i < s.len() ==> !(is_separator(#[trigger] s[i]) && is_separator(s[i - 1]))
}

/// Why a string is not an account identifier.
#[derive(Debug, Clone, PartialEq, Eq, Structural)]
pub enum ParseAccountError {
    /// Shorter than 2 characters.
    TooShort,
    /// Longer than 64 characters.
    TooLong,
    /// A character outside the alphabet, or a misplaced separator.
    Invalid,
}

/// The error [`AccountId::parse`] returns on a string that breaks
/// [`valid_account_id`].
pub open spec fn account_parse_error(s: Seq<char>) -> ParseAccountError {
    if s.len() < 2 {
        ParseAccountError::TooShort
    } else if s.len() > 64 {
        ParseAccountError::TooLong
    } else {
        ParseAccountError::Invalid
    }
}

/// A validated account identifier.
#[derive(Debug, Clone, PartialEq, Eq, PartialOrd, Ord, Hash)]
pub struct AccountId {
    id: String,
}

impl View for AccountId {
    type V = Seq<char>;

    closed spec fn view(&self) -> Seq<char> {
        self.id@
    }
}

impl AccountId {
    /// The identifier is well formed: it satisfies [`valid_account_id`].
    pub open spec fn wf(self) -> bool {
        valid_account_id(self@)
    }

    /// Accepts exactly the strings that [`valid_account_id`] admits, and
    /// names the first rule the string breaks otherwise.
    pub fn parse(s: &str) -> (r: Result<AccountId, ParseAccountError>)
        ensures
            r is Ok <==> valid_account_id(s@),
            r matches Ok(a) ==> a@ == s@ && a.wf(),
            r matches Err(e) ==> e == account_parse_error(s@),
    {
        let n = s.unicode_len();
        if n < 2 {
            return Err(ParseAccountError::TooShort);
        }
        if n > 64 {
            return Err(ParseAccountError::TooLong);
        }
        let mut i: usize = 0;
        let mut last_sep = true;
        while i < n
            invariant
                n == s@.len(),
                2 <= n <= 64,
                0 <= i <= n,
                forall|j: int| 0 <= j < i ==> is_account_char(#[trigger] s@[j]),
                last_sep == if i == 0 { true } else { is_separator(s@[i - 1]) },
                i > 0 ==> !is_separator(s@[0]),
                forall|j: int| 0 < j < i ==> !(is_separator(#[trigger] s@[j]) && is_separator(
                    s@[j - 1],
                )),
            decreases n - i,
        {
            let c = s.get_char(i);
            let cur_sep = c == '-' || c == '_' || c == '.';
            let lower = 'a' <= c && c <= 'z';
            let digit = '0' <= c && c <= '9';
            if !(lower || digit || cur_sep) {
                assert(!is_account_char(s@[i as int]));
                return Err(ParseAccountError::Invalid);
            }
            if cur_sep && last_sep {
                return Err(ParseAccountError::Invalid);
            }
            last_sep = cur_sep;
            i = i + 1;
        }
        if last_sep {
            assert(is_separator(s@[n - 1]));
            return Err(ParseAccountError::Invalid);
        }
        Ok(AccountId { id: s.to_owned() })
    }

    /// The identifier as a string slice.
    pub fn as_str(&self) -> (r: &str)
        ensures
            r@ == self@,
    {
        self.id.as_str()
    }
}

} // verus!
