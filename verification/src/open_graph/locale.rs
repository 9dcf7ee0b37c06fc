use crate::error::{ParseError, ParseErrorSpec};
use crate::graph_object::{opt_vec_view, seq_view, GraphObject};
use crate::meta_data::{str_eq, MetaData};
use vstd::prelude::*;

verus! {

/// The locale of an Open Graph object: one primary tag plus an unbounded
/// ordered sequence of alternate locales, which accumulate and never
/// replace the primary.
#[derive(Debug, Default, PartialEq)]
pub struct Locale {
    pub locale: String,
    pub alternate: Option<Vec<String>>,
}

/// The view of a [`Locale`].
pub struct LocaleV {
    pub locale: Seq<char>,
    pub alternate: Option<Seq<Seq<char>>>,
}

impl View for Locale {
    type V = LocaleV;

    open spec fn view(&self) -> LocaleV {
        LocaleV { locale: self.locale@, alternate: opt_vec_view(self.alternate) }
    }
}

impl Locale {
    /// Create a locale with the given primary tag and no alternates.
    pub fn new(locale: String) -> (r: Self)
        ensures
            r@ == (LocaleV { locale: locale@, alternate: None }),
    {
        Self { locale, alternate: None }
    }
}

impl GraphObject for Locale {
    open spec fn spec_prefix() -> Seq<char> {
        "locale"@
    }

    open spec fn spec_empty() -> LocaleV {
        LocaleV { locale: Seq::empty(), alternate: None }
    }

    open spec fn spec_update(
        pre: LocaleV,
        tags: Seq<Seq<char>>,
        content: Seq<char>,
        base: Seq<char>,
    ) -> (LocaleV, Result<(), ParseErrorSpec>) {
        if tags.len() == 0 {
            ((LocaleV { locale: content, ..pre }), Ok(()))
        } else if tags.len() == 1 && tags[0] == "alternate"@ {
            let alts = match pre.alternate {
                Some(a) => a,
                None => Seq::empty(),
            };
            ((LocaleV { alternate: Some(alts.push(content)), ..pre }), Ok(()))
        } else {
            (pre, Err(ParseErrorSpec::InvalidPropertyTag))
        }
    }

    fn prefix() -> (r: &'static str) {
        "locale"
    }

    fn empty() -> (r: Self) {
        Locale { locale: String::new(), alternate: None }
    }

    fn update_from(&mut self, data: MetaData<'_>) -> (r: Result<(), ParseError>) {
        if data.tags.len() == 0 {
            self.locale = data.content.to_owned();
            Ok(())
        } else if data.tags.len() == 1 && str_eq(data.tags[0].as_str(), "alternate") {
            let mut alts = match self.alternate.take() {
                Some(a) => a,
                None => Vec::new(),
            };
            alts.push(data.content.to_owned());
            proof {
                assert(seq_view(alts@) =~= match old(self)@.alternate {
                    Some(a) => a,
                    None => Seq::<Seq<char>>::empty(),
                }.push(data.content@));
            }
            self.alternate = Some(alts);
            Ok(())
        } else {
            Err(ParseError::InvalidPropertyTag)
        }
    }
}

} // verus!
