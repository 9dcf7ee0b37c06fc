use crate::error::{ParseError, ParseErrorSpec};
use crate::graph_object::{opt_str_view, GraphObject};
use crate::meta_data::{spec_normalized_url, str_eq, MetaData};
use vstd::prelude::*;

verus! {

/// A nested audio entry of an Open Graph object. The primary value is the
/// audio URL, made absolute against the base URL.
#[derive(Debug, Default, PartialEq)]
pub struct Audio {
    pub url: String,
    pub secure_url: Option<String>,
    pub media_type: Option<String>,
}

/// The view of an [`Audio`].
pub struct AudioV {
    pub url: Seq<char>,
    pub secure_url: Option<Seq<char>>,
    pub media_type: Option<Seq<char>>,
}

impl View for Audio {
    type V = AudioV;

    open spec fn view(&self) -> AudioV {
        AudioV {
            url: self.url@,
            secure_url: opt_str_view(self.secure_url),
            media_type: opt_str_view(self.media_type),
        }
    }
}

impl GraphObject for Audio {
    open spec fn spec_prefix() -> Seq<char> {
        "audio"@
    }

    open spec fn spec_empty() -> AudioV {
        AudioV { url: Seq::empty(), secure_url: None, media_type: None }
    }

    open spec fn spec_update(
        pre: AudioV,
        tags: Seq<Seq<char>>,
        content: Seq<char>,
        base: Seq<char>,
    ) -> (AudioV, Result<(), ParseErrorSpec>) {
        if tags.len() == 0 || (tags.len() == 1 && tags[0] == "url"@) {
            ((AudioV { url: spec_normalized_url(content, base), ..pre }), Ok(()))
        } else if tags.len() == 1 && tags[0] == "secure_url"@ {
            ((AudioV { secure_url: Some(content), ..pre }), Ok(()))
        } else if tags.len() == 1 && tags[0] == "type"@ {
            ((AudioV { media_type: Some(content), ..pre }), Ok(()))
        } else {
            (pre, Err(ParseErrorSpec::InvalidPropertyTag))
        }
    }

    fn prefix() -> (r: &'static str) {
        "audio"
    }

    fn empty() -> (r: Self) {
        Audio { url: String::new(), secure_url: None, media_type: None }
    }

    fn update_from(&mut self, data: MetaData<'_>) -> (r: Result<(), ParseError>) {
        if data.tags.len() == 0 || (data.tags.len() == 1 && str_eq(data.tags[0].as_str(), "url")) {
            self.url = data.normalized_url();
            Ok(())
        } else if data.tags.len() == 1 && str_eq(data.tags[0].as_str(), "secure_url") {
            self.secure_url = Some(data.content.to_owned());
            Ok(())
        } else if data.tags.len() == 1 && str_eq(data.tags[0].as_str(), "type") {
            self.media_type = Some(data.content.to_owned());
            Ok(())
        } else {
            Err(ParseError::InvalidPropertyTag)
        }
    }
}

} // verus!
