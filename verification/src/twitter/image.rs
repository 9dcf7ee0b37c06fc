use crate::error::{ParseError, ParseErrorSpec};
use crate::graph_object::{opt_str_view, GraphObject};
use crate::meta_data::{spec_normalized_url, str_eq, MetaData};
use vstd::prelude::*;

verus! {

/// The image of a Twitter Card. The primary value is the image URL, made
/// absolute against the base URL; its alias segment is `src`.
#[derive(Debug, Default, PartialEq)]
pub struct Image {
    pub url: String,
    pub alt: Option<String>,
}

/// The view of a Twitter Card [`Image`].
pub struct ImageV {
    pub url: Seq<char>,
    pub alt: Option<Seq<char>>,
}

impl View for Image {
    type V = ImageV;

    open spec fn view(&self) -> ImageV {
        ImageV { url: self.url@, alt: opt_str_view(self.alt) }
    }
}

impl GraphObject for Image {
    open spec fn spec_prefix() -> Seq<char> {
        "image"@
    }

    open spec fn spec_empty() -> ImageV {
        ImageV { url: Seq::empty(), alt: None }
    }

    open spec fn spec_update(
        pre: ImageV,
        tags: Seq<Seq<char>>,
        content: Seq<char>,
        base: Seq<char>,
    ) -> (ImageV, Result<(), ParseErrorSpec>) {
        if tags.len() == 0 || (tags.len() == 1 && tags[0] == "src"@) {
            ((ImageV { url: spec_normalized_url(content, base), ..pre }), Ok(()))
        } else if tags.len() == 1 && tags[0] == "alt"@ {
            ((ImageV { alt: Some(content), ..pre }), Ok(()))
        } else {
            (pre, Err(ParseErrorSpec::InvalidPropertyTag))
        }
    }

    fn prefix() -> (r: &'static str) {
        "image"
    }

    fn empty() -> (r: Self) {
        Image { url: String::new(), alt: None }
    }

    fn update_from(&mut self, data: MetaData<'_>) -> (r: Result<(), ParseError>) {
        if data.tags.len() == 0 || (data.tags.len() == 1 && str_eq(data.tags[0].as_str(), "src")) {
            self.url = data.normalized_url();
            Ok(())
        } else if data.tags.len() == 1 && str_eq(data.tags[0].as_str(), "alt") {
            self.alt = Some(data.content.to_owned());
            Ok(())
        } else {
            Err(ParseError::InvalidPropertyTag)
        }
    }
}

} // verus!
