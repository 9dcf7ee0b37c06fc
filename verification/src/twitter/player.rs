use crate::coerce::{coerce_integer, is_u32_string, u32_string_value};
use crate::error::{ParseError, ParseErrorSpec};
use crate::graph_object::{opt_str_view, GraphObject};
use crate::meta_data::{spec_normalized_url, str_eq, MetaData};
use vstd::prelude::*;

verus! {

/// The embedded player of a Twitter Card. The primary value is the player
/// URL, made absolute against the base URL, as is the stream URL.
#[derive(Debug, Default, PartialEq)]
pub struct Player {
    pub url: String,
    pub width: Option<u32>,
    pub height: Option<u32>,
    pub stream: Option<String>,
}

/// The view of a [`Player`].
pub struct PlayerV {
    pub url: Seq<char>,
    pub width: Option<u32>,
    pub height: Option<u32>,
    pub stream: Option<Seq<char>>,
}

impl View for Player {
    type V = PlayerV;

    open spec fn view(&self) -> PlayerV {
        PlayerV {
            url: self.url@,
            width: self.width,
            height: self.height,
            stream: opt_str_view(self.stream),
        }
    }
}

impl GraphObject for Player {
    open spec fn spec_prefix() -> Seq<char> {
        "player"@
    }

    open spec fn spec_empty() -> PlayerV {
        PlayerV { url: Seq::empty(), width: None, height: None, stream: None }
    }

    open spec fn spec_update(
        pre: PlayerV,
        tags: Seq<Seq<char>>,
        content: Seq<char>,
        base: Seq<char>,
    ) -> (PlayerV, Result<(), ParseErrorSpec>) {
        if tags.len() == 0 {
            ((PlayerV { url: spec_normalized_url(content, base), ..pre }), Ok(()))
        } else if tags.len() == 1 && tags[0] == "width"@ {
            if is_u32_string(content) {
                ((PlayerV { width: Some(u32_string_value(content) as u32), ..pre }), Ok(()))
            } else {
                (pre, Err(ParseErrorSpec::InvalidContent(content)))
            }
        } else if tags.len() == 1 && tags[0] == "height"@ {
            if is_u32_string(content) {
                ((PlayerV { height: Some(u32_string_value(content) as u32), ..pre }), Ok(()))
            } else {
                (pre, Err(ParseErrorSpec::InvalidContent(content)))
            }
        } else if tags.len() == 1 && tags[0] == "stream"@ {
            ((PlayerV { stream: Some(spec_normalized_url(content, base)), ..pre }), Ok(()))
        } else {
            (pre, Err(ParseErrorSpec::InvalidPropertyTag))
        }
    }

    fn prefix() -> (r: &'static str) {
        "player"
    }

    fn empty() -> (r: Self) {
        Player { url: String::new(), width: None, height: None, stream: None }
    }

    fn update_from(&mut self, data: MetaData<'_>) -> (r: Result<(), ParseError>) {
        if data.tags.len() == 0 {
            self.url = data.normalized_url();
            Ok(())
        } else if data.tags.len() == 1 && str_eq(data.tags[0].as_str(), "width") {
            match coerce_integer(data.content) {
                Ok(w) => {
                    self.width = Some(w);
                    Ok(())
                },
                Err(e) => Err(e),
            }
        } else if data.tags.len() == 1 && str_eq(data.tags[0].as_str(), "height") {
            match coerce_integer(data.content) {
                Ok(h) => {
                    self.height = Some(h);
                    Ok(())
                },
                Err(e) => Err(e),
            }
        } else if data.tags.len() == 1 && str_eq(data.tags[0].as_str(), "stream") {
            self.stream = Some(data.normalized_url());
            Ok(())
        } else {
            Err(ParseError::InvalidPropertyTag)
        }
    }
}

} // verus!
