use crate::error::{ParseError, ParseErrorSpec};
use crate::meta_data::str_eq;
use core::str::FromStr;
use vstd::prelude::*;

verus! {

/// The determiner that precedes an Open Graph object's title in a
/// sentence. The blank variant stands for "no determiner", written as the
/// empty string.
#[derive(Clone, Copy, Debug, PartialEq, Eq)]
pub enum Determiner {
    A,
    An,
    Auto,
    The,
    Blank,
}

impl View for Determiner {
    type V = Determiner;

    open spec fn view(&self) -> Determiner {
        *self
    }
}

/// Which determiner a content string denotes: matching is exact and
/// case-sensitive against a closed set of tokens, with the empty string
/// denoting the blank variant.
pub open spec fn spec_determiner(s: Seq<char>) -> Option<Determiner> {
    if s.len() == 0 {
        Some(Determiner::Blank)
    } else if s == "a"@ {
        Some(Determiner::A)
    } else if s == "an"@ {
        Some(Determiner::An)
    } else if s == "auto"@ {
        Some(Determiner::Auto)
    } else if s == "the"@ {
        Some(Determiner::The)
    } else {
        None
    }
}

impl Determiner {
    /// Coerce a content string into a determiner; any string outside the
    /// known set is rejected as invalid content carrying the string
    /// itself.
    pub fn parse(content: &str) -> (r: Result<Determiner, ParseError>)
        ensures
            match r {
                Ok(d) => spec_determiner(content@) == Some(d),
                Err(e) => spec_determiner(content@) is None && e@
                    == ParseErrorSpec::InvalidContent(content@),
            },
    {
        if content.is_empty() {
            Ok(Determiner::Blank)
        } else if str_eq(content, "a") {
            Ok(Determiner::A)
        } else if str_eq(content, "an") {
            Ok(Determiner::An)
        } else if str_eq(content, "auto") {
            Ok(Determiner::Auto)
        } else if str_eq(content, "the") {
            Ok(Determiner::The)
        } else {
            Err(ParseError::InvalidContent(content.to_owned()))
        }
    }
}

impl FromStr for Determiner {
    type Err = ParseError;

    fn from_str(s: &str) -> Result<Determiner, ParseError> {
        Determiner::parse(s)
    }
}

} // verus!
