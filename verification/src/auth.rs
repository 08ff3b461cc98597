//! The kind of principal behind a request or session.

use crate::text::same_text;
use vstd::prelude::*;
use vstd::string::*;

verus! {

/// Who is acting: a person, an automated account, or a guild as a whole.
#[derive(Debug, Clone, Copy, PartialEq, Eq, Hash, Structural)]
pub enum AuthType {
    User,
    Bot,
    Server,
}

impl AuthType {
    /// The canonical lowercase name of the kind, as logs and stored records
    /// carry it.
    pub open spec fn name(self) -> Seq<char> {
        match self {
            AuthType::User => "user"@,
            AuthType::Bot => "bot"@,
            AuthType::Server => "server"@,
        }
    }

    /// The kind that `text` names. Only the three canonical names are
    /// recognised; anything else names no kind.
    pub open spec fn named(text: Seq<char>) -> Option<AuthType> {
        if text == "user"@ {
            Some(AuthType::User)
        } else if text == "bot"@ {
            Some(AuthType::Bot)
        } else if text == "server"@ {
            Some(AuthType::Server)
        } else {
            None
        }
    }

    /// The canonical name, borrowed.
    pub fn as_str(&self) -> (name: &'static str)
        ensures
            name@ == self.name(),
    {
        match self {
            AuthType::User => "user",
            AuthType::Bot => "bot",
            AuthType::Server => "server",
        }
    }

    /// The canonical name, owned.
    pub fn to_string(&self) -> (name: String)
        ensures
            name@ == self.name(),
    {
        String::from_str(self.as_str())
    }

    /// Reads a kind back from its canonical name. Unrecognised text is
    /// rejected, never mapped to some default kind.
    pub fn parse(text: &str) -> (kind: Option<AuthType>)
        ensures
            kind == Self::named(text@),
    {
        if same_text(text, "user") {
            Some(AuthType::User)
        } else if same_text(text, "bot") {
            Some(AuthType::Bot)
        } else if same_text(text, "server") {
            Some(AuthType::Server)
        } else {
            None
        }
    }
}

/// The three names have three different lengths.
proof fn lemma_name_lengths()
    ensures
        "user"@.len() == 4,
        "bot"@.len() == 3,
        "server"@.len() == 6,
{
    reveal_strlit("user");
    reveal_strlit("bot");
    reveal_strlit("server");
}

/// The three names are pairwise different, so a name identifies its kind.
pub proof fn lemma_names_distinct(a: AuthType, b: AuthType)
    requires
        a.name() == b.name(),
    ensures
        a == b,
{
    lemma_name_lengths();
}

/// Parsing the name of a kind gives that kind back.
pub proof fn lemma_name_round_trip(kind: AuthType)
    ensures
        AuthType::named(kind.name()) == Some(kind),
{
    lemma_name_lengths();
}

/// Text is accepted only if it is exactly the canonical name of the kind it
/// yields.
pub proof fn lemma_named_is_canonical(text: Seq<char>, kind: AuthType)
    requires
        AuthType::named(text) == Some(kind),
    ensures
        text == kind.name(),
{
}

} // verus!
