//! The target of a request, as far as the client looks into it.

use http::Error as HttpError;
use vstd::prelude::*;
use vstd::string::StringExecFns;

verus! {

/// What a target names besides its path: the scheme and the authority, each
/// where the text has one.
#[derive(Debug)]
pub struct Target {
    scheme: Option<String>,
    authority: Option<String>,
}

/// The scheme and the authority of a target as texts.
pub struct TargetView {
    pub scheme: Option<Seq<char>>,
    pub authority: Option<Seq<char>>,
}

impl View for Target {
    type V = TargetView;

    closed spec fn view(&self) -> TargetView {
        TargetView {
            scheme: match self.scheme {
                Some(text) => Some(text@),
                None => None,
            },
            authority: match self.authority {
                Some(text) => Some(text@),
                None => None,
            },
        }
    }
}

/// What `http::Uri::try_from` makes of a text: the scheme and the authority
/// of the target it reads, or the error with which it refuses the text.
pub uninterp spec fn target_of(text: Seq<char>) -> Result<TargetView, HttpError>;

/// `http::Uri::try_from` on a text, and of the target it reads the scheme
/// (`Uri::scheme_str`) and the authority (`Uri::authority`), each as a text
/// where the target has one.
#[verifier::external_body]
pub(crate) fn parse_target(text: &str) -> (outcome: Result<Target, HttpError>)
    ensures
        outcome matches Ok(target) ==> target_of(text@) matches Ok(view) && view == target@,
        outcome matches Err(refusal) ==> target_of(text@) matches Err(error) && error == refusal,
{
    match http::Uri::try_from(text) {
        Ok(uri) => Ok(
            Target {
                scheme: uri.scheme_str().map(str::to_string),
                authority: uri.authority().map(http::uri::Authority::to_string),
            },
        ),
        Err(refusal) => Err(refusal.into()),
    }
}

/// What a target lacks to be sent to, in words after the text `uri` of the
/// target: the scheme first, then the host. None where it lacks neither.
pub open spec fn lacking(uri: Seq<char>, target: TargetView) -> Option<Seq<char>> {
    if target.scheme is None {
        Some(uri + " is missing scheme"@)
    } else if target.authority is None {
        Some(uri + " is missing host"@)
    } else {
        None
    }
}

impl Target {
    /// A target of a scheme and an authority, each where there is one.
    pub fn new(scheme: Option<String>, authority: Option<String>) -> (target: Target)
        ensures
            target@.scheme == match scheme {
                Some(text) => Some(text@),
                None => None,
            },
            target@.authority == match authority {
                Some(text) => Some(text@),
                None => None,
            },
    {
        Target { scheme, authority }
    }

    /// What the target lacks to be sent to, in words after the text `uri`
    /// that it was read from. None where a request can go there.
    pub fn lack(&self, uri: &str) -> (message: Option<String>)
        ensures
            match lacking(uri@, self@) {
                Some(words) => message matches Some(text) && text@ == words,
                None => message is None,
            },
    {
        if self.scheme.is_none() {
            Some(String::from_str(uri).concat(" is missing scheme"))
        } else if self.authority.is_none() {
            Some(String::from_str(uri).concat(" is missing host"))
        } else {
            None
        }
    }

    /// The scheme of the target, where it names one.
    pub fn scheme(&self) -> (scheme: Option<&str>)
        ensures
            match self@.scheme {
                Some(text) => scheme matches Some(found) && found@ == text,
                None => scheme is None,
            },
    {
        match &self.scheme {
            Some(text) => Some(text.as_str()),
            None => None,
        }
    }

    /// The authority of the target, where it names one: the host, with the
    /// port and the user where the text holds them.
    pub fn authority(&self) -> (authority: Option<&str>)
        ensures
            match self@.authority {
                Some(text) => authority matches Some(found) && found@ == text,
                None => authority is None,
            },
    {
        match &self.authority {
            Some(text) => Some(text.as_str()),
            None => None,
        }
    }

    /// Whether the target names a scheme.
    pub fn has_scheme(&self) -> (has: bool)
        ensures
            has == self@.scheme is Some,
    {
        self.scheme.is_some()
    }

    /// Whether the target names a host.
    pub fn has_host(&self) -> (has: bool)
        ensures
            has == self@.authority is Some,
    {
        self.authority.is_some()
    }
}

} // verus!
