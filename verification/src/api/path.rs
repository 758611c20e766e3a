//! The path of a route: a regular expression that has to match the whole
//! path of a request.
use crate::pattern::{captures, compiles, regex_captures, regex_compiles};
use vstd::prelude::*;
use vstd::string::StringExecFns;

verus! {

/// Why a route could not be made.
#[derive(Debug)]
pub enum RouteError {
    /// The path, anchored at both ends, is no regular expression. The field
    /// is the path as it was given.
    InvalidPattern(String),
}

/// Represents a path in HTTP sense (starting from `/`).
#[derive(Debug)]
pub struct Path {
    /// The regular expression that a request's path is held against. It is
    /// kept as text, which is what the contracts speak of, and compiled
    /// where it is used.
    pub matcher: String,
}

/// `path` anchored at both ends, so that it matches whole texts only.
pub open spec fn anchored(path: Seq<char>) -> Seq<char> {
    seq!['^'] + path + seq!['$']
}

impl Clone for Path {
    fn clone(&self) -> (copy: Path)
        ensures
            copy == *self,
    {
        Path { matcher: self.matcher.clone() }
    }
}

impl Path {
    /// The path that matches what `path` matches as a whole, or an error
    /// where the anchored `path` is no regular expression.
    pub fn new(path: &str) -> (made: Result<Path, RouteError>)
        ensures
            match made {
                Ok(p) => regex_compiles(anchored(path@)) && p.matcher@ == anchored(path@),
                Err(RouteError::InvalidPattern(given)) => !regex_compiles(anchored(path@))
                    && given@ == path@,
            },
    {
        let mut regex = String::from_str("^");
        regex.append(path);
        regex.append("$");
        proof {
            reveal_strlit("^");
            reveal_strlit("$");
            assert(regex@ =~= anchored(path@));
        }
        if compiles(regex.as_str()) {
            Ok(Path { matcher: regex })
        } else {
            Err(RouteError::InvalidPattern(String::from_str(path)))
        }
    }

    /// What this path captures in `text`: `None` where it does not match.
    pub fn captures(&self, text: &str) -> (groups: Option<Vec<Option<String>>>)
        ensures
            groups.deep_view() == regex_captures(self.matcher@, text@),
    {
        captures(self.matcher.as_str(), text)
    }
}

} // verus!
