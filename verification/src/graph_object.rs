use crate::error::{result_view, ParseError, ParseErrorSpec};
use crate::meta_data::{segs_view, str_eq, MetaData};
use vstd::prelude::*;

verus! {

/// The views of a sequence of exec values.
pub open spec fn seq_view<T: View>(s: Seq<T>) -> Seq<T::V> {
    s.map_values(|t: T| t@)
}

/// The view of an optional string.
pub open spec fn opt_str_view(o: Option<String>) -> Option<Seq<char>> {
    match o {
        Some(s) => Some(s@),
        None => None,
    }
}

/// The view of an optional collection of schema nodes.
pub open spec fn opt_vec_view<T: View>(o: Option<Vec<T>>) -> Option<Seq<T::V>> {
    match o {
        Some(v) => Some(seq_view(v@)),
        None => None,
    }
}

/// One schema node of the metadata graph: a root object or a nested leaf.
///
/// Each node declares the path segment under which its parent reaches it,
/// and consumes one property path fragment at a time, mutating itself. What
/// an update does is pinned, node by node, by `spec_update`.
pub trait GraphObject: View + Sized {
    /// The path segment under which this node is reached.
    spec fn spec_prefix() -> Seq<char>;

    /// The view of a freshly created node with every field unset.
    spec fn spec_empty() -> Self::V;

    /// What one update yields: the node's new view and the reported
    /// outcome, as a function of the old view, the remaining path segments,
    /// the content string and the base URL.
    spec fn spec_update(
        pre: Self::V,
        tags: Seq<Seq<char>>,
        content: Seq<char>,
        base: Seq<char>,
    ) -> (Self::V, Result<(), ParseErrorSpec>);

    /// The path segment under which this node is reached.
    fn prefix() -> (r: &'static str)
        ensures
            r@ == Self::spec_prefix(),
    ;

    /// Create a node with every field unset.
    fn empty() -> (r: Self)
        ensures
            r@ == Self::spec_empty(),
    ;

    /// Consume one property path fragment, mutating this node.
    fn update_from(&mut self, data: MetaData<'_>) -> (r: Result<(), ParseError>)
        ensures
            (final(self)@, result_view(r)) == Self::spec_update(
                old(self)@,
                data.tag_seqs(),
                data.content@,
                data.site_url@,
            ),
    ;
}

/// Whether a path fragment starts a new element of a repeated collection:
/// a bare tag or an explicit primary-alias tag does, while any other
/// sub-field continues the most recently started element.
pub open spec fn spec_should_create_new(tags: Seq<Seq<char>>) -> bool {
    tags.len() == 0 || tags[0] == "url"@
}

/// Decide whether a path fragment starts a new repeated element.
pub fn should_create_new(tags: &[String]) -> (r: bool)
    ensures
        r == spec_should_create_new(segs_view(tags@)),
{
    if tags.len() == 0 {
        true
    } else {
        str_eq(tags[0].as_str(), "url")
    }
}

/// What feeding one pair to a repeated collection yields: a fragment that
/// starts a new element appends a freshly created, then updated, element
/// (kept even when its own update fails); any other fragment updates the
/// last element in place, or does nothing when the collection is empty.
pub open spec fn spec_extend_vec<T: GraphObject>(
    pre: Seq<T::V>,
    tags: Seq<Seq<char>>,
    content: Seq<char>,
    base: Seq<char>,
) -> (Seq<T::V>, Result<(), ParseErrorSpec>) {
    if spec_should_create_new(tags) {
        let (obj, r) = T::spec_update(T::spec_empty(), tags, content, base);
        (pre.push(obj), r)
    } else if pre.len() == 0 {
        (pre, Ok(()))
    } else {
        let (obj, r) = T::spec_update(pre.last(), tags, content, base);
        (pre.update(pre.len() - 1, obj), r)
    }
}

/// Feed one pair to a repeated collection: append a new element or update
/// the last one, as the path fragment dictates.
pub fn extend_or_update_last<T: GraphObject>(v: &mut Vec<T>, data: MetaData<'_>) -> (r: Result<
    (),
    ParseError,
>)
    ensures
        (seq_view(final(v)@), result_view(r)) == spec_extend_vec::<T>(
            seq_view(old(v)@),
            data.tag_seqs(),
            data.content@,
            data.site_url@,
        ),
{
    if should_create_new(data.tags) {
        let mut obj = T::empty();
        let r = obj.update_from(data);
        v.push(obj);
        proof {
            assert(seq_view(v@) =~= seq_view(old(v)@).push(obj@));
        }
        r
    } else {
        match v.pop() {
            Some(mut obj) => {
                let r = obj.update_from(data);
                v.push(obj);
                proof {
                    assert(seq_view(v@) =~= seq_view(old(v)@).update(
                        old(v)@.len() - 1,
                        obj@,
                    ));
                    assert(seq_view(old(v)@).last() == old(v)@.last()@);
                }
                r
            },
            None => Ok(()),
        }
    }
}

/// What feeding one pair to an optional repeated collection yields: when
/// the collection is absent and the fragment would not start a new element
/// (an orphaned sub-field), the pair is silently dropped and the collection
/// stays absent; otherwise the collection is created on demand and fed.
pub open spec fn spec_extend_opt<T: GraphObject>(
    pre: Option<Seq<T::V>>,
    tags: Seq<Seq<char>>,
    content: Seq<char>,
    base: Seq<char>,
) -> (Option<Seq<T::V>>, Result<(), ParseErrorSpec>) {
    match pre {
        None => if !spec_should_create_new(tags) {
            (None, Ok(()))
        } else {
            let (s, r) = spec_extend_vec::<T>(Seq::empty(), tags, content, base);
            (Some(s), r)
        },
        Some(s0) => {
            let (s, r) = spec_extend_vec::<T>(s0, tags, content, base);
            (Some(s), r)
        },
    }
}

/// Feed one pair to an optional repeated collection, creating it on first
/// append and dropping orphaned sub-fields that arrive before any primary.
pub fn extend_or_update_last_opt<T: GraphObject>(
    v: &mut Option<Vec<T>>,
    data: MetaData<'_>,
) -> (r: Result<(), ParseError>)
    ensures
        (opt_vec_view(*final(v)), result_view(r)) == spec_extend_opt::<T>(
            opt_vec_view(*old(v)),
            data.tag_seqs(),
            data.content@,
            data.site_url@,
        ),
{
    if v.is_none() && !should_create_new(data.tags) {
        return Ok(());
    }
    let mut vec = match v.take() {
        Some(vec) => vec,
        None => Vec::new(),
    };
    let r = extend_or_update_last(&mut vec, data);
    *v = Some(vec);
    r
}

} // verus!
