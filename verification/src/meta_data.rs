use vstd::prelude::*;
use vstd::slice::slice_subrange;
use vstd::string::*;

verus! {

/// The views of a sequence of path segments, as character sequences.
pub open spec fn segs_view(tags: Seq<String>) -> Seq<Seq<char>> {
    tags.map_values(|t: String| t@)
}

/// One property/content pair in flight: the remaining path segments of a
/// meta-tag name (root prefix already stripped), the raw content string,
/// and the page's base URL used to make relative URLs absolute.
pub struct MetaData<'a> {
    pub site_url: &'a str,
    pub tags: &'a [String],
    pub content: &'a str,
}

impl<'a> MetaData<'a> {
    /// The remaining path segments as character sequences.
    pub open spec fn tag_seqs(self) -> Seq<Seq<char>> {
        segs_view(self.tags@)
    }

    /// The same pair with the first path segment removed; content and base
    /// URL unchanged. Must not be called when no segment remains.
    pub fn next(&self) -> (r: MetaData<'a>)
        requires
            self.tags@.len() > 0,
        ensures
            r.site_url@ == self.site_url@,
            r.content@ == self.content@,
            r.tag_seqs() == self.tag_seqs().drop_first(),
    {
        let r = MetaData {
            site_url: self.site_url,
            tags: slice_subrange(self.tags, 1, self.tags.len()),
            content: self.content,
        };
        proof {
            assert(r.tag_seqs() =~= self.tag_seqs().drop_first());
        }
        r
    }

    /// Coerce this pair's content into a URL string, never failing: an
    /// absolute URL passes through verbatim, a relative reference is made
    /// absolute against the base URL, and anything malformed (or any failed
    /// resolution) passes through unchanged.
    pub fn normalized_url(&self) -> (r: String)
        ensures
            r@ == spec_normalized_url(self.content@, self.site_url@),
    {
        if url_parse_kind(self.content) == URL_PARSE_RELATIVE {
            match url_resolve(self.site_url, self.content) {
                Some(joined) => joined,
                None => self.content.to_owned(),
            }
        } else {
            self.content.to_owned()
        }
    }
}

/// Whether two strings hold the same characters.
pub fn str_eq(a: &str, b: &str) -> (r: bool)
    ensures
        r == (a@ == b@),
{
    let n = a.unicode_len();
    if n != b.unicode_len() {
        proof {
            if a@ == b@ {
                assert(a@.len() == b@.len());
            }
        }
        return false;
    }
    let mut i: usize = 0;
    while i < n
        invariant
            i <= n,
            n == a@.len(),
            n == b@.len(),
            forall|j: int| 0 <= j < i ==> a@[j] == b@[j],
        decreases n - i,
    {
        if a.get_char(i) != b.get_char(i) {
            return false;
        }
        i = i + 1;
    }
    proof {
        assert(a@ =~= b@);
    }
    true
}

/// Code for a string accepted as an absolute URL.
pub const URL_PARSE_OK: u8 = 0;

/// Code for a string rejected only for being a relative reference without a
/// base.
pub const URL_PARSE_RELATIVE: u8 = 1;

/// Code for a string rejected for any other reason.
pub const URL_PARSE_OTHER: u8 = 2;

/// How `url::Url::parse` classifies a string: accepted as an absolute URL,
/// rejected as a relative reference lacking a base, or rejected otherwise.
/// The outcome depends on the string alone.
pub uninterp spec fn url_parse_class(s: Seq<char>) -> u8;

/// Relies on `url::Url::parse`: classifies a string without keeping the
/// parsed value.
#[verifier::external_body]
fn url_parse_kind(s: &str) -> (r: u8)
    ensures
        r == url_parse_class(s@),
        r == URL_PARSE_OK || r == URL_PARSE_RELATIVE || r == URL_PARSE_OTHER,
{
    match url::Url::parse(s) {
        Ok(_) => URL_PARSE_OK,
        Err(url::ParseError::RelativeUrlWithoutBase) => URL_PARSE_RELATIVE,
        Err(_) => URL_PARSE_OTHER,
    }
}

/// What resolving `rel` against the URL parsed from `base` yields: the
/// serialization of the resolved URL, or `None` when either the base does
/// not parse or the resolution fails. The outcome depends on the two
/// strings alone.
pub uninterp spec fn url_join(base: Seq<char>, rel: Seq<char>) -> Option<Seq<char>>;

/// Relies on `url::Url::join`; `url::Url::parse` first converts the base
/// string into the base value the call needs, and `From<Url> for String`
/// converts the resolved value back into its serialization.
#[verifier::external_body]
fn url_resolve(base: &str, rel: &str) -> (r: Option<String>)
    ensures
        match r {
            Some(joined) => url_join(base@, rel@) == Some(joined@),
            None => url_join(base@, rel@) is None,
        },
{
    match url::Url::parse(base) {
        Ok(b) => match b.join(rel) {
            Ok(u) => Some(String::from(u)),
            Err(_) => None,
        },
        Err(_) => None,
    }
}

/// What URL coercion yields: an absolute URL passes through verbatim, a
/// relative reference lacking a base is resolved against the base URL, and
/// any other string (or a failed resolution) degrades to the content
/// unchanged.
pub open spec fn spec_normalized_url(content: Seq<char>, base: Seq<char>) -> Seq<char> {
    if url_parse_class(content) == URL_PARSE_RELATIVE {
        match url_join(base, content) {
            Some(joined) => joined,
            None => content,
        }
    } else {
        content
    }
}

/// URL coercion is idempotent on already-absolute URLs: a string that
/// parses as an absolute URL passes through unchanged, so coercing the
/// result a second time yields the same string.
pub proof fn lemma_normalized_url_idempotent(u: Seq<char>, base: Seq<char>)
    ensures
        url_parse_class(u) == URL_PARSE_OK ==> spec_normalized_url(
            spec_normalized_url(u, base),
            base,
        ) == spec_normalized_url(u, base),
{
}

} // verus!
