//! Header fields, and which names and values make one.

use http::Error as HttpError;
use vstd::prelude::*;

verus! {

/// One header field of a request.
#[derive(Debug)]
pub struct Header {
    name: String,
    value: String,
}

/// A header field as two texts.
pub struct HeaderView {
    pub name: Seq<char>,
    pub value: Seq<char>,
}

impl HeaderView {
    /// Whether the two texts make a header field: the name is a header name
    /// in lower case, the value is a header value.
    pub open spec fn well_formed(self) -> bool {
        &&& valid_header_name(self.name)
        &&& lower_case(self.name) == self.name
        &&& valid_header_value(self.value)
    }
}

impl View for Header {
    type V = HeaderView;

    closed spec fn view(&self) -> HeaderView {
        HeaderView { name: self.name@, value: self.value@ }
    }
}

/// The header fields of a list, each as two texts.
pub open spec fn views(headers: Seq<Header>) -> Seq<HeaderView> {
    headers.map_values(|header: Header| header@)
}

/// Whether `c` may stand in a header name: a letter, a digit, or one of
/// ``!#$%&'*+-.^_`|~``.
pub open spec fn is_name_char(c: char) -> bool {
    ||| 'a' <= c <= 'z'
    ||| 'A' <= c <= 'Z'
    ||| '0' <= c <= '9'
    ||| c == '!'
    ||| c == '#'
    ||| c == '$'
    ||| c == '%'
    ||| c == '&'
    ||| c == '\''
    ||| c == '*'
    ||| c == '+'
    ||| c == '-'
    ||| c == '.'
    ||| c == '^'
    ||| c == '_'
    ||| c == '`'
    ||| c == '|'
    ||| c == '~'
}

/// Whether a text is a header name: between 1 and 65535 characters, each of
/// them one that may stand in a name.
pub open spec fn valid_header_name(name: Seq<char>) -> bool {
    &&& 1 <= name.len() <= 65535
    &&& forall|i: int| 0 <= i < name.len() ==> is_name_char(#[trigger] name[i])
}

/// The character in lower case, where it is a capital letter of ASCII.
pub open spec fn lower(c: char) -> char {
    if 'A' <= c <= 'Z' {
        ((c as u32) + 32) as char
    } else {
        c
    }
}

/// The text with its capital letters in lower case, which is the form that
/// a header name is kept in.
pub open spec fn lower_case(name: Seq<char>) -> Seq<char> {
    name.map_values(|c: char| lower(c))
}

/// Whether `c` may stand in a header value: a tab, or any character from the
/// space on but for the delete character.
pub open spec fn is_value_char(c: char) -> bool {
    c == '\t' || (' ' <= c && c != '\x7f')
}

/// Whether a text is a header value: every character may stand in one.
pub open spec fn valid_header_value(value: Seq<char>) -> bool {
    forall|i: int| 0 <= i < value.len() ==> is_value_char(#[trigger] value[i])
}

/// The error with which `http::HeaderName::try_from` refuses a text.
pub uninterp spec fn header_name_refusal(name: Seq<char>) -> HttpError;

/// The error with which `http::HeaderValue::try_from` refuses a text.
pub uninterp spec fn header_value_refusal(value: Seq<char>) -> HttpError;

/// `http::HeaderName::try_from` on a text. It takes the texts of 1 to 65535
/// name characters and keeps them in lower case; any other text it refuses.
#[verifier::external_body]
pub(crate) fn header_name(name: &str) -> (outcome: Result<String, HttpError>)
    ensures
        outcome is Ok <==> valid_header_name(name@),
        outcome matches Ok(kept) ==> kept@ == lower_case(name@),
        outcome matches Err(refusal) ==> refusal == header_name_refusal(name@),
{
    match http::HeaderName::try_from(name) {
        Ok(kept) => Ok(kept.as_str().to_string()),
        Err(refusal) => Err(refusal.into()),
    }
}

/// `http::HeaderValue::try_from` on a text. It takes the texts in which every
/// character may stand in a value, and refuses any other.
#[verifier::external_body]
pub(crate) fn header_value(value: &str) -> (outcome: Result<(), HttpError>)
    ensures
        outcome is Ok <==> valid_header_value(value@),
        outcome matches Err(refusal) ==> refusal == header_value_refusal(value@),
{
    match http::HeaderValue::try_from(value) {
        Ok(_) => Ok(()),
        Err(refusal) => Err(refusal.into()),
    }
}

/// A header name in lower case is a header name still, and is its own lower
/// case.
pub proof fn lemma_lower_case_is_a_name(name: Seq<char>)
    requires
        valid_header_name(name),
    ensures
        valid_header_name(lower_case(name)),
        lower_case(lower_case(name)) == lower_case(name),
{
    assert(lower_case(lower_case(name)) =~= lower_case(name));
}

impl Header {
    #[verifier::type_invariant]
    spec fn accepted(&self) -> bool {
        self@.well_formed()
    }

    /// A header field of a name and a value that were both accepted.
    pub(crate) fn new(name: String, value: String) -> (header: Header)
        requires
            (HeaderView { name: name@, value: value@ }).well_formed(),
        ensures
            header@ == (HeaderView { name: name@, value: value@ }),
    {
        Header { name, value }
    }


    /// The name of the field, in lower case.
    pub fn name(&self) -> (name: &str)
        ensures
            name@ == self@.name,
            self@.well_formed(),
    {
        proof {
            use_type_invariant(self);
        }
        self.name.as_str()
    }

    /// The value of the field.
    pub fn value(&self) -> (value: &str)
        ensures
            value@ == self@.value,
            self@.well_formed(),
    {
        proof {
            use_type_invariant(self);
        }
        self.value.as_str()
    }
}

} // verus!
