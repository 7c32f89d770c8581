//! Configuration names: profile names and the multi-agent mode.
use vstd::prelude::*;

use crate::text::append_str;
use crate::text::chars_of;
use crate::text::string_of;

verus! {

/// A plain profile name: ASCII letters, digits, `_` and `-`, not empty.
#[derive(Clone, Debug, PartialEq, Eq, Hash)]
pub struct ProfileV2Name(String);

/// A value refused as a profile name.
#[derive(Clone, Debug, PartialEq, Eq)]
pub struct ProfileV2NameParseError {
    value: String,
}

pub open spec fn is_profile_char(c: char) -> bool {
    ('a' <= c && c <= 'z') || ('A' <= c && c <= 'Z') || ('0' <= c && c <= '9') || c == '_' || c == '-'
}

/// Not empty, and every character a letter, a digit, `_` or `-`; as bytes
/// these are the ASCII bytes, so a multi-byte character never passes.
pub open spec fn is_profile_name(value: Seq<char>) -> bool {
    value.len() > 0 && forall|i: int| 0 <= i < value.len() ==> is_profile_char(#[trigger] value[i])
}

impl ProfileV2NameParseError {
    pub closed spec fn spec_value(&self) -> Seq<char> {
        self.value@
    }

    /// The refused value.
    pub fn value(&self) -> (r: &str)
        ensures
            r@ == self.spec_value(),
    {
        self.value.as_str()
    }

    /// The error's message, naming the refused value.
    pub fn message(&self) -> (r: String)
        ensures
            r@ == "invalid --profile value `"@ + self.spec_value() + "`; pass a plain name such as `work`"@,
    {
        let mut v = chars_of("invalid --profile value `");
        append_str(&mut v, self.value.as_str());
        append_str(&mut v, "`; pass a plain name such as `work`");
        string_of(&v)
    }
}

impl ProfileV2Name {
    pub closed spec fn spec_name(&self) -> Seq<char> {
        self.0@
    }

    /// Parses a profile name; the error keeps the refused value.
    pub fn from_str(value: &str) -> (r: Result<ProfileV2Name, ProfileV2NameParseError>)
        ensures
            match r {
                Ok(n) => is_profile_name(value@) && n.spec_name() == value@,
                Err(e) => !is_profile_name(value@) && e.spec_value() == value@,
            },
    {
        let c = chars_of(value);
        let mut ok = c.len() > 0;
        for i in 0..c.len()
            invariant
                c@ == value@,
                ok == (c@.len() > 0 && forall|j: int| 0 <= j < i ==> is_profile_char(#[trigger] c@[j])),
        {
            let ch = c[i];
            if !(('a' <= ch && ch <= 'z') || ('A' <= ch && ch <= 'Z') || ('0' <= ch && ch <= '9') || ch == '_'
                || ch == '-') {
                ok = false;
            }
        }
        if ok {
            Ok(ProfileV2Name(string_of(&c)))
        } else {
            Err(ProfileV2NameParseError { value: string_of(&c) })
        }
    }

    pub fn as_str(&self) -> (r: &str)
        ensures
            r@ == self.spec_name(),
    {
        self.0.as_str()
    }

    /// The name itself.
    pub fn fmt(&self) -> (r: String)
        ensures
            r@ == self.spec_name(),
    {
        string_of(&chars_of(self.0.as_str()))
    }
}

/// A name that parses can never reach outside the configuration directory:
/// it holds no dot, slash or backslash, so no `..` and no path separator.
pub proof fn law_profile_names_hold_no_path_characters(value: Seq<char>)
    requires
        is_profile_name(value),
    ensures
        !value.contains('.'),
        !value.contains('/'),
        !value.contains('\\'),
{
    assert forall|i: int| 0 <= i < value.len() implies value[i] != '.' && value[i] != '/' && value[i]
        != '\\' by {
        assert(is_profile_char(value[i]));
    }
}

/// Whether the model spawns sub-agents only on explicit request or may
/// delegate proactively.
#[derive(Clone, Copy, PartialEq, Eq, Structural, Debug)]
pub enum MultiAgentMode {
    ExplicitRequestOnly,
    Proactive,
}

impl Default for MultiAgentMode {
    fn default() -> (r: Self)
        ensures
            r == MultiAgentMode::ExplicitRequestOnly,
    {
        MultiAgentMode::ExplicitRequestOnly
    }
}

impl MultiAgentMode {
    /// The camel-case name.
    pub fn fmt(&self) -> (r: &'static str)
        ensures
            r@ == match self {
                MultiAgentMode::ExplicitRequestOnly => "explicitRequestOnly"@,
                MultiAgentMode::Proactive => "proactive"@,
            },
    {
        match self {
            MultiAgentMode::ExplicitRequestOnly => "explicitRequestOnly",
            MultiAgentMode::Proactive => "proactive",
        }
    }
}

} // verus!
