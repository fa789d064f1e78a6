//! The template dialect selected by the settings.
use vstd::prelude::*;

verus! {

/// The template dialect whose parsing rules the formatter follows.
#[derive(Clone, Copy, Debug, PartialEq, Eq, Structural)]
pub enum Profile {
    Django,
    Jinja,
}

/// The dialect named by a settings token: the match is exact and
/// case-sensitive, and any other token names none.
pub open spec fn profile_of(token: Seq<char>) -> Option<Profile> {
    if token == "django"@ {
        Some(Profile::Django)
    } else if token == "jinja"@ {
        Some(Profile::Jinja)
    } else {
        None
    }
}

impl Profile {
    /// Reads a settings token strictly: `"django"` or `"jinja"`, nothing else.
    pub fn from_token(token: &str) -> (r: Option<Profile>)
        ensures
            r == profile_of(token@),
    {
        let t = String::from_str(token);
        if t == String::from_str("django") {
            Some(Profile::Django)
        } else if t == String::from_str("jinja") {
            Some(Profile::Jinja)
        } else {
            None
        }
    }
}

impl std::str::FromStr for Profile {
    type Err = ();

    /// The strict reading of [`Profile::from_token`]: an unknown token is an
    /// error, never the default.
    fn from_str(token: &str) -> (r: Result<Profile, ()>)
        ensures
            match r {
                Ok(p) => profile_of(token@) == Some(p),
                Err(_) => profile_of(token@) is None,
            },
    {
        match Profile::from_token(token) {
            Some(p) => Ok(p),
            None => Err(()),
        }
    }
}

impl Default for Profile {
    fn default() -> (r: Profile)
        ensures
            r == Profile::Django,
    {
        Profile::Django
    }
}

} // verus!
