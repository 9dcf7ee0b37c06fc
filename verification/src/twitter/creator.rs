use crate::error::{ParseError, ParseErrorSpec};
use crate::graph_object::{opt_str_view, GraphObject};
use crate::meta_data::{str_eq, MetaData};
use vstd::prelude::*;

verus! {

/// The creator attribution of a Twitter Card. The primary value is the
/// creator's username, stored verbatim.
#[derive(Debug, Default, PartialEq)]
pub struct Creator {
    pub username: String,
    pub id: Option<String>,
}

/// The view of a [`Creator`].
pub struct CreatorV {
    pub username: Seq<char>,
    pub id: Option<Seq<char>>,
}

impl View for Creator {
    type V = CreatorV;

    open spec fn view(&self) -> CreatorV {
        CreatorV { username: self.username@, id: opt_str_view(self.id) }
    }
}

impl GraphObject for Creator {
    open spec fn spec_prefix() -> Seq<char> {
        "creator"@
    }

    open spec fn spec_empty() -> CreatorV {
        CreatorV { username: Seq::empty(), id: None }
    }

    open spec fn spec_update(
        pre: CreatorV,
        tags: Seq<Seq<char>>,
        content: Seq<char>,
        base: Seq<char>,
    ) -> (CreatorV, Result<(), ParseErrorSpec>) {
        if tags.len() == 0 {
            ((CreatorV { username: content, ..pre }), Ok(()))
        } else if tags.len() == 1 && tags[0] == "id"@ {
            ((CreatorV { id: Some(content), ..pre }), Ok(()))
        } else {
            (pre, Err(ParseErrorSpec::InvalidPropertyTag))
        }
    }

    fn prefix() -> (r: &'static str) {
        "creator"
    }

    fn empty() -> (r: Self) {
        Creator { username: String::new(), id: None }
    }

    fn update_from(&mut self, data: MetaData<'_>) -> (r: Result<(), ParseError>) {
        if data.tags.len() == 0 {
            self.username = data.content.to_owned();
            Ok(())
        } else if data.tags.len() == 1 && str_eq(data.tags[0].as_str(), "id") {
            self.id = Some(data.content.to_owned());
            Ok(())
        } else {
            Err(ParseError::InvalidPropertyTag)
        }
    }
}

} // verus!
