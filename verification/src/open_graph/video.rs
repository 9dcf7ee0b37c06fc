use crate::coerce::{coerce_integer, is_u32_string, u32_string_value};
use crate::error::{ParseError, ParseErrorSpec};
use crate::graph_object::{opt_str_view, GraphObject};
use crate::meta_data::{str_eq, MetaData};
use vstd::prelude::*;

verus! {

/// A nested video entry of an Open Graph object. The primary value is the
/// video URL, stored verbatim.
#[derive(Debug, Default, PartialEq)]
pub struct Video {
    pub url: String,
    pub secure_url: Option<String>,
    pub media_type: Option<String>,
    pub width: Option<u32>,
    pub height: Option<u32>,
    pub alt: Option<String>,
}

/// The view of a [`Video`].
pub struct VideoV {
    pub url: Seq<char>,
    pub secure_url: Option<Seq<char>>,
    pub media_type: Option<Seq<char>>,
    pub width: Option<u32>,
    pub height: Option<u32>,
    pub alt: Option<Seq<char>>,
}

impl View for Video {
    type V = VideoV;

    open spec fn view(&self) -> VideoV {
        VideoV {
            url: self.url@,
            secure_url: opt_str_view(self.secure_url),
            media_type: opt_str_view(self.media_type),
            width: self.width,
            height: self.height,
            alt: opt_str_view(self.alt),
        }
    }
}

impl GraphObject for Video {
    open spec fn spec_prefix() -> Seq<char> {
        "video"@
    }

    open spec fn spec_empty() -> VideoV {
        VideoV {
            url: Seq::empty(),
            secure_url: None,
            media_type: None,
            width: None,
            height: None,
            alt: None,
        }
    }

    open spec fn spec_update(
        pre: VideoV,
        tags: Seq<Seq<char>>,
        content: Seq<char>,
        base: Seq<char>,
    ) -> (VideoV, Result<(), ParseErrorSpec>) {
        if tags.len() == 0 || (tags.len() == 1 && tags[0] == "url"@) {
            ((VideoV { url: content, ..pre }), Ok(()))
        } else if tags.len() == 1 && tags[0] == "secure_url"@ {
            ((VideoV { secure_url: Some(content), ..pre }), Ok(()))
        } else if tags.len() == 1 && tags[0] == "type"@ {
            ((VideoV { media_type: Some(content), ..pre }), Ok(()))
        } else if tags.len() == 1 && tags[0] == "width"@ {
            if is_u32_string(content) {
                ((VideoV { width: Some(u32_string_value(content) as u32), ..pre }), Ok(()))
            } else {
                (pre, Err(ParseErrorSpec::InvalidContent(content)))
            }
        } else if tags.len() == 1 && tags[0] == "height"@ {
            if is_u32_string(content) {
                ((VideoV { height: Some(u32_string_value(content) as u32), ..pre }), Ok(()))
            } else {
                (pre, Err(ParseErrorSpec::InvalidContent(content)))
            }
        } else if tags.len() == 1 && tags[0] == "alt"@ {
            ((VideoV { alt: Some(content), ..pre }), Ok(()))
        } else {
            (pre, Err(ParseErrorSpec::InvalidPropertyTag))
        }
    }

    fn prefix() -> (r: &'static str) {
        "video"
    }

    fn empty() -> (r: Self) {
        Video {
            url: String::new(),
            secure_url: None,
            media_type: None,
            width: None,
            height: None,
            alt: None,
        }
    }

    fn update_from(&mut self, data: MetaData<'_>) -> (r: Result<(), ParseError>) {
        if data.tags.len() == 0 || (data.tags.len() == 1 && str_eq(data.tags[0].as_str(), "url")) {
            self.url = data.content.to_owned();
            Ok(())
        } else if data.tags.len() == 1 && str_eq(data.tags[0].as_str(), "secure_url") {
            self.secure_url = Some(data.content.to_owned());
            Ok(())
        } else if data.tags.len() == 1 && str_eq(data.tags[0].as_str(), "type") {
            self.media_type = Some(data.content.to_owned());
            Ok(())
        } else if data.tags.len() == 1 && str_eq(data.tags[0].as_str(), "width") {
            match coerce_integer(data.content) {
                Ok(w) => {
                    self.width = Some(w);
                    Ok(())
                },
                Err(e) => Err(e),
            }
        } else if data.tags.len() == 1 && str_eq(data.tags[0].as_str(), "height") {
            match coerce_integer(data.content) {
                Ok(h) => {
                    self.height = Some(h);
                    Ok(())
                },
                Err(e) => Err(e),
            }
        } else if data.tags.len() == 1 && str_eq(data.tags[0].as_str(), "alt") {
            self.alt = Some(data.content.to_owned());
            Ok(())
        } else {
            Err(ParseError::InvalidPropertyTag)
        }
    }
}

} // verus!
