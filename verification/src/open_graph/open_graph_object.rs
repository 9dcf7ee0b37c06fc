use super::audio::{Audio, AudioV};
use super::determiner::{spec_determiner, Determiner};
use super::image::{Image, ImageV};
use super::locale::{Locale, LocaleV};
use super::video::{Video, VideoV};
use crate::error::{ParseError, ParseErrorSpec};
use crate::graph_object::{
    extend_or_update_last_opt, opt_str_view, opt_vec_view, spec_extend_opt, GraphObject,
};
use crate::meta_data::{str_eq, MetaData};
use vstd::prelude::*;

verus! {

/// The Open Graph root object: scalar fields, repeated media collections
/// and a locale, each populated from tags under the `og` prefix. Unknown
/// top-level segments are a hard error for this root.
#[derive(Debug, Default)]
pub struct OpenGraphObject {
    pub title: Option<String>,
    pub media_type: Option<String>,
    pub url: Option<String>,
    pub description: Option<String>,
    pub determiner: Option<Determiner>,
    pub site_name: Option<String>,
    pub images: Option<Vec<Image>>,
    pub audio: Option<Vec<Audio>>,
    pub video: Option<Vec<Video>>,
    pub locale: Option<Locale>,
}

/// The view of an [`OpenGraphObject`].
pub struct OpenGraphObjectV {
    pub title: Option<Seq<char>>,
    pub media_type: Option<Seq<char>>,
    pub url: Option<Seq<char>>,
    pub description: Option<Seq<char>>,
    pub determiner: Option<Determiner>,
    pub site_name: Option<Seq<char>>,
    pub images: Option<Seq<ImageV>>,
    pub audio: Option<Seq<AudioV>>,
    pub video: Option<Seq<VideoV>>,
    pub locale: Option<LocaleV>,
}

impl View for OpenGraphObject {
    type V = OpenGraphObjectV;

    open spec fn view(&self) -> OpenGraphObjectV {
        OpenGraphObjectV {
            title: opt_str_view(self.title),
            media_type: opt_str_view(self.media_type),
            url: opt_str_view(self.url),
            description: opt_str_view(self.description),
            determiner: self.determiner,
            site_name: opt_str_view(self.site_name),
            images: opt_vec_view(self.images),
            audio: opt_vec_view(self.audio),
            video: opt_vec_view(self.video),
            locale: match self.locale {
                Some(l) => Some(l@),
                None => None,
            },
        }
    }
}

impl GraphObject for OpenGraphObject {
    open spec fn spec_prefix() -> Seq<char> {
        "og"@
    }

    open spec fn spec_empty() -> OpenGraphObjectV {
        OpenGraphObjectV {
            title: None,
            media_type: None,
            url: None,
            description: None,
            determiner: None,
            site_name: None,
            images: None,
            audio: None,
            video: None,
            locale: None,
        }
    }

    open spec fn spec_update(
        pre: OpenGraphObjectV,
        tags: Seq<Seq<char>>,
        content: Seq<char>,
        base: Seq<char>,
    ) -> (OpenGraphObjectV, Result<(), ParseErrorSpec>) {
        if tags.len() == 0 {
            (pre, Ok(()))
        } else if tags[0] == Image::spec_prefix() {
            let (c, r) = spec_extend_opt::<Image>(pre.images, tags.drop_first(), content, base);
            ((OpenGraphObjectV { images: c, ..pre }), r)
        } else if tags[0] == Audio::spec_prefix() {
            let (c, r) = spec_extend_opt::<Audio>(pre.audio, tags.drop_first(), content, base);
            ((OpenGraphObjectV { audio: c, ..pre }), r)
        } else if tags[0] == Video::spec_prefix() {
            let (c, r) = spec_extend_opt::<Video>(pre.video, tags.drop_first(), content, base);
            ((OpenGraphObjectV { video: c, ..pre }), r)
        } else if tags[0] == "title"@ {
            ((OpenGraphObjectV { title: Some(content), ..pre }), Ok(()))
        } else if tags[0] == "type"@ {
            ((OpenGraphObjectV { media_type: Some(content), ..pre }), Ok(()))
        } else if tags[0] == "url"@ {
            ((OpenGraphObjectV { url: Some(content), ..pre }), Ok(()))
        } else if tags[0] == "description"@ {
            ((OpenGraphObjectV { description: Some(content), ..pre }), Ok(()))
        } else if tags[0] == "determiner"@ {
            match spec_determiner(content) {
                Some(d) => ((OpenGraphObjectV { determiner: Some(d), ..pre }), Ok(())),
                None => (pre, Err(ParseErrorSpec::InvalidContent(content))),
            }
        } else if tags[0] == "site_name"@ {
            ((OpenGraphObjectV { site_name: Some(content), ..pre }), Ok(()))
        } else if tags[0] == Locale::spec_prefix() {
            let l0 = match pre.locale {
                Some(l) => l,
                None => Locale::spec_empty(),
            };
            let (l, r) = Locale::spec_update(l0, tags.drop_first(), content, base);
            ((OpenGraphObjectV { locale: Some(l), ..pre }), r)
        } else {
            (pre, Err(ParseErrorSpec::InvalidPropertyTag))
        }
    }

    fn prefix() -> (r: &'static str) {
        "og"
    }

    fn empty() -> (r: Self) {
        OpenGraphObject {
            title: None,
            media_type: None,
            url: None,
            description: None,
            determiner: None,
            site_name: None,
            images: None,
            audio: None,
            video: None,
            locale: None,
        }
    }

    fn update_from(&mut self, data: MetaData<'_>) -> (r: Result<(), ParseError>) {
        if data.tags.len() == 0 {
            return Ok(());
        }
        let first: &str = data.tags[0].as_str();
        if str_eq(first, Image::prefix()) {
            extend_or_update_last_opt(&mut self.images, data.next())
        } else if str_eq(first, Audio::prefix()) {
            extend_or_update_last_opt(&mut self.audio, data.next())
        } else if str_eq(first, Video::prefix()) {
            extend_or_update_last_opt(&mut self.video, data.next())
        } else if str_eq(first, "title") {
            self.title = Some(data.content.to_owned());
            Ok(())
        } else if str_eq(first, "type") {
            self.media_type = Some(data.content.to_owned());
            Ok(())
        } else if str_eq(first, "url") {
            self.url = Some(data.content.to_owned());
            Ok(())
        } else if str_eq(first, "description") {
            self.description = Some(data.content.to_owned());
            Ok(())
        } else if str_eq(first, "determiner") {
            match Determiner::parse(data.content) {
                Ok(d) => {
                    self.determiner = Some(d);
                    Ok(())
                },
                Err(e) => Err(e),
            }
        } else if str_eq(first, "site_name") {
            self.site_name = Some(data.content.to_owned());
            Ok(())
        } else if str_eq(first, Locale::prefix()) {
            let mut l = match self.locale.take() {
                Some(l) => l,
                None => Locale::empty(),
            };
            let r = l.update_from(data.next());
            self.locale = Some(l);
            r
        } else {
            Err(ParseError::InvalidPropertyTag)
        }
    }
}

/// Scalar fields are last-write-wins: feeding the title segment twice on
/// the same root leaves the second content, whatever both contents are.
pub proof fn lemma_title_last_write_wins(
    pre: OpenGraphObjectV,
    c1: Seq<char>,
    c2: Seq<char>,
    base: Seq<char>,
)
    ensures
        ({
            let (mid, r1) = OpenGraphObject::spec_update(pre, seq!["title"@], c1, base);
            let (post, r2) = OpenGraphObject::spec_update(mid, seq!["title"@], c2, base);
            post.title == Some(c2) && r1 == Ok::<(), ParseErrorSpec>(()) && r2 == Ok::<
                (),
                ParseErrorSpec,
            >(())
        }),
{
    reveal_strlit("title");
    reveal_strlit("image");
    reveal_strlit("audio");
    reveal_strlit("video");
    assert("title"@[0] == 't' && "image"@[0] == 'i' && "audio"@[0] == 'a' && "video"@[0] == 'v');
    assert("title"@ != "image"@ && "title"@ != "audio"@ && "title"@ != "video"@);
}

/// Locale alternates accumulate without bound and without replacing the
/// primary: on a root whose locale is unset, a primary locale tag followed
/// by two alternate tags yields that primary and exactly those alternates,
/// in order.
pub proof fn lemma_locale_alternates_accumulate(
    pre: OpenGraphObjectV,
    c1: Seq<char>,
    c2: Seq<char>,
    c3: Seq<char>,
    base: Seq<char>,
)
    requires
        pre.locale is None,
    ensures
        ({
            let (s1, r1) = OpenGraphObject::spec_update(pre, seq!["locale"@], c1, base);
            let (s2, r2) = OpenGraphObject::spec_update(
                s1,
                seq!["locale"@, "alternate"@],
                c2,
                base,
            );
            let (s3, r3) = OpenGraphObject::spec_update(
                s2,
                seq!["locale"@, "alternate"@],
                c3,
                base,
            );
            s3.locale == Some(LocaleV { locale: c1, alternate: Some(seq![c2, c3]) }) && r1
                == Ok::<(), ParseErrorSpec>(()) && r2 == Ok::<(), ParseErrorSpec>(()) && r3
                == Ok::<(), ParseErrorSpec>(())
        }),
{
    reveal_strlit("locale");
    reveal_strlit("image");
    reveal_strlit("audio");
    reveal_strlit("video");
    reveal_strlit("title");
    reveal_strlit("type");
    reveal_strlit("url");
    reveal_strlit("description");
    reveal_strlit("determiner");
    reveal_strlit("site_name");
    assert("locale"@.len() == 6 && "image"@.len() == 5 && "audio"@.len() == 5 && "video"@.len()
        == 5 && "title"@.len() == 5 && "type"@.len() == 4 && "url"@.len() == 3
        && "description"@.len() == 11 && "determiner"@.len() == 10 && "site_name"@.len() == 9);
    assert(seq!["locale"@].drop_first() =~= Seq::<Seq<char>>::empty());
    assert(seq!["locale"@, "alternate"@].drop_first() =~= seq!["alternate"@]);
    let (s1, r1) = OpenGraphObject::spec_update(pre, seq!["locale"@], c1, base);
    let (s2, r2) = OpenGraphObject::spec_update(s1, seq!["locale"@, "alternate"@], c2, base);
    let (s3, r3) = OpenGraphObject::spec_update(s2, seq!["locale"@, "alternate"@], c3, base);
    assert(s1.locale == Some(LocaleV { locale: c1, alternate: None }));
    assert(s2.locale == Some(LocaleV { locale: c1, alternate: Some(seq![c2]) }));
    assert(seq![c2].push(c3) =~= seq![c2, c3]);
}

/// An unknown top-level segment is a hard error for the Open Graph root:
/// the root is left unchanged and the pair is rejected as an invalid
/// property tag.
pub proof fn lemma_unknown_segment_rejected(
    pre: OpenGraphObjectV,
    tags: Seq<Seq<char>>,
    content: Seq<char>,
    base: Seq<char>,
)
    requires
        tags.len() > 0,
        tags[0] != "image"@,
        tags[0] != "audio"@,
        tags[0] != "video"@,
        tags[0] != "title"@,
        tags[0] != "type"@,
        tags[0] != "url"@,
        tags[0] != "description"@,
        tags[0] != "determiner"@,
        tags[0] != "site_name"@,
        tags[0] != "locale"@,
    ensures
        OpenGraphObject::spec_update(pre, tags, content, base) == (
            pre,
            Err::<(), ParseErrorSpec>(ParseErrorSpec::InvalidPropertyTag),
        ),
{
}

} // verus!
