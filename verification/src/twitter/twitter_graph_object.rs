use super::creator::{Creator, CreatorV};
use super::image::{Image, ImageV};
use super::player::{Player, PlayerV};
use crate::error::{ParseError, ParseErrorSpec};
use crate::graph_object::{opt_str_view, GraphObject};
use crate::meta_data::{str_eq, MetaData};
use vstd::prelude::*;

verus! {

/// The Twitter Card root object: scalar fields plus single-valued nested
/// image, creator and player objects, each populated from tags under the
/// `twitter` prefix. Unknown top-level segments are silently ignored for
/// this root.
#[derive(Debug, Default)]
pub struct TwitterGraphObject {
    pub card: Option<String>,
    pub site: Option<String>,
    pub creator: Option<Creator>,
    pub description: Option<String>,
    pub title: Option<String>,
    pub image: Option<Image>,
    pub player: Option<Player>,
}

/// The view of a [`TwitterGraphObject`].
pub struct TwitterGraphObjectV {
    pub card: Option<Seq<char>>,
    pub site: Option<Seq<char>>,
    pub creator: Option<CreatorV>,
    pub description: Option<Seq<char>>,
    pub title: Option<Seq<char>>,
    pub image: Option<ImageV>,
    pub player: Option<PlayerV>,
}

impl View for TwitterGraphObject {
    type V = TwitterGraphObjectV;

    open spec fn view(&self) -> TwitterGraphObjectV {
        TwitterGraphObjectV {
            card: opt_str_view(self.card),
            site: opt_str_view(self.site),
            creator: match self.creator {
                Some(c) => Some(c@),
                None => None,
            },
            description: opt_str_view(self.description),
            title: opt_str_view(self.title),
            image: match self.image {
                Some(i) => Some(i@),
                None => None,
            },
            player: match self.player {
                Some(p) => Some(p@),
                None => None,
            },
        }
    }
}

impl GraphObject for TwitterGraphObject {
    open spec fn spec_prefix() -> Seq<char> {
        "twitter"@
    }

    open spec fn spec_empty() -> TwitterGraphObjectV {
        TwitterGraphObjectV {
            card: None,
            site: None,
            creator: None,
            description: None,
            title: None,
            image: None,
            player: None,
        }
    }

    open spec fn spec_update(
        pre: TwitterGraphObjectV,
        tags: Seq<Seq<char>>,
        content: Seq<char>,
        base: Seq<char>,
    ) -> (TwitterGraphObjectV, Result<(), ParseErrorSpec>) {
        if tags.len() == 0 {
            (pre, Ok(()))
        } else if tags[0] == Image::spec_prefix() {
            let i0 = match pre.image {
                Some(i) => i,
                None => Image::spec_empty(),
            };
            let (i, r) = Image::spec_update(i0, tags.drop_first(), content, base);
            ((TwitterGraphObjectV { image: Some(i), ..pre }), r)
        } else if tags[0] == Creator::spec_prefix() {
            let c0 = match pre.creator {
                Some(c) => c,
                None => Creator::spec_empty(),
            };
            let (c, r) = Creator::spec_update(c0, tags.drop_first(), content, base);
            ((TwitterGraphObjectV { creator: Some(c), ..pre }), r)
        } else if tags[0] == Player::spec_prefix() {
            let p0 = match pre.player {
                Some(p) => p,
                None => Player::spec_empty(),
            };
            let (p, r) = Player::spec_update(p0, tags.drop_first(), content, base);
            ((TwitterGraphObjectV { player: Some(p), ..pre }), r)
        } else if tags[0] == "card"@ {
            ((TwitterGraphObjectV { card: Some(content), ..pre }), Ok(()))
        } else if tags[0] == "site"@ {
            ((TwitterGraphObjectV { site: Some(content), ..pre }), Ok(()))
        } else if tags[0] == "description"@ {
            ((TwitterGraphObjectV { description: Some(content), ..pre }), Ok(()))
        } else if tags[0] == "title"@ {
            ((TwitterGraphObjectV { title: Some(content), ..pre }), Ok(()))
        } else {
            (pre, Ok(()))
        }
    }

    fn prefix() -> (r: &'static str) {
        "twitter"
    }

    fn empty() -> (r: Self) {
        TwitterGraphObject {
            card: None,
            site: None,
            creator: None,
            description: None,
            title: None,
            image: None,
            player: None,
        }
    }

    fn update_from(&mut self, data: MetaData<'_>) -> (r: Result<(), ParseError>) {
        if data.tags.len() == 0 {
            return Ok(());
        }
        let first = data.tags[0].as_str();
        if str_eq(first, Image::prefix()) {
            let mut i = match self.image.take() {
                Some(i) => i,
                None => Image::empty(),
            };
            let r = i.update_from(data.next());
            self.image = Some(i);
            r
        } else if str_eq(first, Creator::prefix()) {
            let mut c = match self.creator.take() {
                Some(c) => c,
                None => Creator::empty(),
            };
            let r = c.update_from(data.next());
            self.creator = Some(c);
            r
        } else if str_eq(first, Player::prefix()) {
            let mut p = match self.player.take() {
                Some(p) => p,
                None => Player::empty(),
            };
            let r = p.update_from(data.next());
            self.player = Some(p);
            r
        } else if str_eq(first, "card") {
            self.card = Some(data.content.to_owned());
            Ok(())
        } else if str_eq(first, "site") {
            self.site = Some(data.content.to_owned());
            Ok(())
        } else if str_eq(first, "description") {
            self.description = Some(data.content.to_owned());
            Ok(())
        } else if str_eq(first, "title") {
            self.title = Some(data.content.to_owned());
            Ok(())
        } else {
            Ok(())
        }
    }
}

/// An unknown top-level segment on a Twitter Card root is silently
/// ignored: no error and no mutation.
pub proof fn lemma_unknown_segment_ignored(
    pre: TwitterGraphObjectV,
    tags: Seq<Seq<char>>,
    content: Seq<char>,
    base: Seq<char>,
)
    requires
        tags.len() > 0,
        tags[0] != "image"@,
        tags[0] != "creator"@,
        tags[0] != "player"@,
        tags[0] != "card"@,
        tags[0] != "site"@,
        tags[0] != "description"@,
        tags[0] != "title"@,
    ensures
        TwitterGraphObject::spec_update(pre, tags, content, base) == (
            pre,
            Ok::<(), ParseErrorSpec>(()),
        ),
{
}

} // verus!
