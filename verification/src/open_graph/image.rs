use crate::coerce::{coerce_integer, is_u32_string, u32_string_value};
use crate::error::{ParseError, ParseErrorSpec};
use crate::graph_object::{opt_str_view, GraphObject};
use crate::meta_data::{str_eq, MetaData};
use vstd::prelude::*;

verus! {

/// A nested image entry of an Open Graph object. The primary value is the
/// image URL, stored verbatim; the secondary fields each answer to one
/// path segment.
#[derive(Debug, Default, PartialEq)]
pub struct Image {
    pub url: String,
    pub secure_url: Option<String>,
    pub media_type: Option<String>,
    pub width: Option<u32>,
    pub height: Option<u32>,
    pub alt: Option<String>,
}

/// The view of an [`Image`].
pub struct ImageV {
    pub url: Seq<char>,
    pub secure_url: Option<Seq<char>>,
    pub media_type: Option<Seq<char>>,
    pub width: Option<u32>,
    pub height: Option<u32>,
    pub alt: Option<Seq<char>>,
}

impl View for Image {
    type V = ImageV;

    open spec fn view(&self) -> ImageV {
        ImageV {
            url: self.url@,
            secure_url: opt_str_view(self.secure_url),
            media_type: opt_str_view(self.media_type),
            width: self.width,
            height: self.height,
            alt: opt_str_view(self.alt),
        }
    }
}

impl GraphObject for Image {
    open spec fn spec_prefix() -> Seq<char> {
        "image"@
    }

    open spec fn spec_empty() -> ImageV {
        ImageV {
            url: Seq::empty(),
            secure_url: None,
            media_type: None,
            width: None,
            height: None,
            alt: None,
        }
    }

    open spec fn spec_update(
        pre: ImageV,
        tags: Seq<Seq<char>>,
        content: Seq<char>,
        base: Seq<char>,
    ) -> (ImageV, Result<(), ParseErrorSpec>) {
        if tags.len() == 0 || (tags.len() == 1 && tags[0] == "url"@) {
            ((ImageV { url: content, ..pre }), Ok(()))
        } else if tags.len() == 1 && tags[0] == "secure_url"@ {
            ((ImageV { secure_url: Some(content), ..pre }), Ok(()))
        } else if tags.len() == 1 && tags[0] == "type"@ {
            ((ImageV { media_type: Some(content), ..pre }), Ok(()))
        } else if tags.len() == 1 && tags[0] == "width"@ {
            if is_u32_string(content) {
                ((ImageV { width: Some(u32_string_value(content) as u32), ..pre }), Ok(()))
            } else {
                (pre, Err(ParseErrorSpec::InvalidContent(content)))
            }
        } else if tags.len() == 1 && tags[0] == "height"@ {
            if is_u32_string(content) {
                ((ImageV { height: Some(u32_string_value(content) as u32), ..pre }), Ok(()))
            } else {
                (pre, Err(ParseErrorSpec::InvalidContent(content)))
            }
        } else if tags.len() == 1 && tags[0] == "alt"@ {
            ((ImageV { alt: Some(content), ..pre }), Ok(()))
        } else {
            (pre, Err(ParseErrorSpec::InvalidPropertyTag))
        }
    }

    fn prefix() -> (r: &'static str) {
        "image"
    }

    fn empty() -> (r: Self) {
        Image {
            url: String::new(),
            secure_url: None,
            media_type: None,
            width: None,
            height: None,
            alt: None,
        }
    }

    fn update_from(&mut self, data: MetaData<'_>) -> (r: Result<(), ParseError>) {
        if data.tags.len() == 0 || (data.tags.len() == 1 && str_eq(data.tags[0].as_str(), "url")) {
            self.url = data.content.to_owned();
            Ok(())
        } else if data.tags.len() == 1 && str_eq(data.tags[0].as_str(), "secure_url") {
            self.secure_url = Some(data.content.to_owned());
            Ok(())
        } else if data.tags.len() == 1 && str_eq(data.tags[0].as_str(), "type") {
            self.media_type = Some(data.content.to_owned());
            Ok(())
        } else if data.tags.len() == 1 && str_eq(data.tags[0].as_str(), "width") {
            match coerce_integer(data.content) {
                Ok(w) => {
                    self.width = Some(w);
                    Ok(())
                },
                Err(e) => Err(e),
            }
        } else if data.tags.len() == 1 && str_eq(data.tags[0].as_str(), "height") {
            match coerce_integer(data.content) {
                Ok(h) => {
                    self.height = Some(h);
                    Ok(())
                },
                Err(e) => Err(e),
            }
        } else if data.tags.len() == 1 && str_eq(data.tags[0].as_str(), "alt") {
            self.alt = Some(data.content.to_owned());
            Ok(())
        } else {
            Err(ParseError::InvalidPropertyTag)
        }
    }
}

} // verus!
