use crate::error::{result_view, ParseError};
use crate::graph_object::GraphObject;
use crate::meta_data::{segs_view, MetaData};
use crate::open_graph::OpenGraphObject;
use crate::twitter::TwitterGraphObject;
use vstd::prelude::*;
use vstd::slice::slice_subrange;
use vstd::string::*;

verus! {

/// What splitting a string on ':' yields: the (always non-empty) sequence
/// of pieces between colons, in order, with empty pieces kept.
pub open spec fn spec_split_colon(s: Seq<char>) -> Seq<Seq<char>>
    decreases s.len(),
{
    if s.len() == 0 {
        seq![Seq::<char>::empty()]
    } else if s[0] == ':' {
        seq![Seq::<char>::empty()] + spec_split_colon(s.drop_first())
    } else {
        let rest = spec_split_colon(s.drop_first());
        seq![seq![s[0]] + rest[0]] + rest.drop_first()
    }
}

/// A string without a colon splits into itself alone.
proof fn lemma_split_no_colon(s: Seq<char>)
    requires
        forall|j: int| 0 <= j < s.len() ==> s[j] != ':',
    ensures
        spec_split_colon(s) == seq![s],
    decreases s.len(),
{
    if s.len() == 0 {
        assert(s =~= Seq::<char>::empty());
    } else {
        lemma_split_no_colon(s.drop_first());
        let rest = spec_split_colon(s.drop_first());
        assert(rest[0] == s.drop_first());
        assert(seq![s[0]] + s.drop_first() =~= s);
        assert(spec_split_colon(s) =~~= seq![s]);
    }
}

/// Splitting a string whose first colon stands at `i`: the piece before
/// it, then the split of what follows it.
proof fn lemma_split_at_colon(s: Seq<char>, i: int)
    requires
        0 <= i < s.len(),
        s[i] == ':',
        forall|j: int| 0 <= j < i ==> s[j] != ':',
    ensures
        spec_split_colon(s) == seq![s.subrange(0, i)] + spec_split_colon(
            s.subrange(i + 1, s.len() as int),
        ),
    decreases i,
{
    if i == 0 {
        assert(s.subrange(0, 0) =~= Seq::<char>::empty());
        assert(s.subrange(1, s.len() as int) =~= s.drop_first());
        assert(spec_split_colon(s) =~~= seq![s.subrange(0, 0)] + spec_split_colon(
            s.subrange(1, s.len() as int),
        ));
    } else {
        let d = s.drop_first();
        lemma_split_at_colon(d, i - 1);
        let rest = spec_split_colon(d);
        assert(rest == seq![d.subrange(0, i - 1)] + spec_split_colon(
            d.subrange(i, d.len() as int),
        ));
        assert(rest[0] == d.subrange(0, i - 1));
        assert(seq![s[0]] + d.subrange(0, i - 1) =~= s.subrange(0, i));
        assert(d.subrange(i, d.len() as int) =~= s.subrange(i + 1, s.len() as int));
        assert(rest.drop_first() =~~= spec_split_colon(s.subrange(i + 1, s.len() as int)));
        assert(spec_split_colon(s) =~~= seq![s.subrange(0, i)] + spec_split_colon(
            s.subrange(i + 1, s.len() as int),
        ));
    }
}

/// Split a string on ':' into its pieces, empty pieces kept.
pub fn split_colon(s: &str) -> (r: Vec<String>)
    ensures
        segs_view(r@) == spec_split_colon(s@),
        r@.len() >= 1,
{
    let n = s.unicode_len();
    let mut out: Vec<String> = Vec::new();
    let mut start: usize = 0;
    let mut i: usize = 0;
    proof {
        assert(s@.subrange(0, n as int) =~= s@);
        assert(segs_view(out@) + spec_split_colon(s@) =~~= spec_split_colon(s@));
    }
    while i < n
        invariant
            0 <= start <= i <= n,
            n == s@.len(),
            forall|j: int| start <= j < i ==> s@[j] != ':',
            spec_split_colon(s@) == segs_view(out@) + spec_split_colon(
                s@.subrange(start as int, n as int),
            ),
        decreases n - i,
    {
        let c = s.get_char(i);
        if c == ':' {
            let piece = s.substring_char(start, i).to_owned();
            proof {
                let sub = s@.subrange(start as int, n as int);
                lemma_split_at_colon(sub, i - start);
                assert(sub.subrange(0, i - start) =~= s@.subrange(start as int, i as int));
                assert(sub.subrange(i - start + 1, sub.len() as int) =~= s@.subrange(
                    i as int + 1,
                    n as int,
                ));
                assert(segs_view(out@.push(piece)) =~= segs_view(out@).push(piece@));
                assert(segs_view(out@.push(piece)) + spec_split_colon(
                    s@.subrange(i as int + 1, n as int),
                ) =~~= segs_view(out@) + spec_split_colon(sub));
            }
            out.push(piece);
            start = i + 1;
        }
        i = i + 1;
    }
    let piece = s.substring_char(start, n).to_owned();
    proof {
        let sub = s@.subrange(start as int, n as int);
        lemma_split_no_colon(sub);
        assert(segs_view(out@.push(piece)) =~= segs_view(out@).push(piece@));
        assert(segs_view(out@.push(piece)) =~~= segs_view(out@) + spec_split_colon(sub));
    }
    out.push(piece);
    out
}

/// The scraper configuration for Open Graph roots: tag names start with
/// the `og` prefix and sit in the `property` attribute of a meta element.
pub struct OpenGraphScraper {}

impl OpenGraphScraper {
    /// The meta-tag attribute that carries the property path for this
    /// root.
    pub fn attribute() -> (r: &'static str)
        ensures
            r@ == "property"@,
    {
        "property"
    }

    /// Feed one `(full tag name, content)` pair into an Open Graph root:
    /// split the tag name on ':', discard the leading root-prefix segment
    /// (already validated by the caller), and route the remaining path and
    /// content into the root object.
    pub fn resolve(
        root: &mut OpenGraphObject,
        property: &str,
        content: &str,
        site_url: &str,
    ) -> (r: Result<(), ParseError>)
        ensures
            (final(root)@, result_view(r)) == OpenGraphObject::spec_update(
                old(root)@,
                spec_split_colon(property@).drop_first(),
                content@,
                site_url@,
            ),
    {
        let segs = split_colon(property);
        let data = MetaData {
            site_url,
            tags: slice_subrange(segs.as_slice(), 1, segs.len()),
            content,
        };
        proof {
            assert(data.tag_seqs() =~= spec_split_colon(property@).drop_first());
        }
        root.update_from(data)
    }
}

/// The scraper configuration for Twitter Card roots: tag names start with
/// the `twitter` prefix and sit in the `name` attribute of a meta element.
pub struct TwitterScraper {}

impl TwitterScraper {
    /// The meta-tag attribute that carries the property path for this
    /// root.
    pub fn attribute() -> (r: &'static str)
        ensures
            r@ == "name"@,
    {
        "name"
    }

    /// Feed one `(full tag name, content)` pair into a Twitter Card root:
    /// split the tag name on ':', discard the leading root-prefix segment
    /// (already validated by the caller), and route the remaining path and
    /// content into the root object.
    pub fn resolve(
        root: &mut TwitterGraphObject,
        property: &str,
        content: &str,
        site_url: &str,
    ) -> (r: Result<(), ParseError>)
        ensures
            (final(root)@, result_view(r)) == TwitterGraphObject::spec_update(
                old(root)@,
                spec_split_colon(property@).drop_first(),
                content@,
                site_url@,
            ),
    {
        let segs = split_colon(property);
        let data = MetaData {
            site_url,
            tags: slice_subrange(segs.as_slice(), 1, segs.len()),
            content,
        };
        proof {
            assert(data.tag_seqs() =~= spec_split_colon(property@).drop_first());
        }
        root.update_from(data)
    }
}

} // verus!
