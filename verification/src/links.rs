//! Hypermedia links and the resolution of a relation to one URL.
//!
//! A relation maps either to a single link or to an ordered collection of
//! candidate links. Resolution is deterministic: a single link resolves to
//! its href, a collection to its first entry (first listed wins). A missing
//! relation or an empty collection is a typed protocol-shape error, never a
//! crash.

use vstd::prelude::*;

use crate::error::VerificationError;
use crate::text::str_eq;

verus! {

/// One hypermedia relation's resolution options: a single link, or an
/// ordered collection of candidate links.
#[derive(Debug, Clone, PartialEq, Eq)]
pub enum Link {
    Single { href: String },
    Multi { hrefs: Vec<String> },
}

/// The first link bound to `rel` in the relation map, in entry order.
pub open spec fn spec_lookup(links: Seq<(String, Link)>, rel: Seq<char>) -> Option<Link>
    decreases links.len(),
{
    if links.len() == 0 {
        None
    } else if links[0].0@ == rel {
        Some(links[0].1)
    } else {
        spec_lookup(links.drop_first(), rel)
    }
}

proof fn lemma_lookup_step(links: Seq<(String, Link)>, rel: Seq<char>, i: int)
    requires
        0 <= i < links.len(),
        forall|j: int| 0 <= j < i ==> links[j].0@ != rel,
    ensures
        spec_lookup(links, rel) == spec_lookup(links.skip(i), rel),
    decreases i,
{
    if i > 0 {
        lemma_lookup_step(links, rel, i - 1);
        assert(links.skip(i - 1).drop_first() =~= links.skip(i));
        assert(links.skip(i - 1)[0] == links[i - 1]);
    } else {
        assert(links.skip(0) =~= links);
    }
}

proof fn lemma_lookup_none(links: Seq<(String, Link)>, rel: Seq<char>)
    requires
        forall|j: int| 0 <= j < links.len() ==> links[j].0@ != rel,
    ensures
        spec_lookup(links, rel) is None,
    decreases links.len(),
{
    if links.len() > 0 {
        lemma_lookup_none(links.drop_first(), rel);
    }
}

/// Resolve `relation` in `links` to the one URL to act on.
///
/// A `Single` link resolves to its href; a `Multi` collection to the href of
/// its first entry. An absent relation or an empty collection is reported as
/// a typed protocol-shape error.
pub fn resolve(links: &Vec<(String, Link)>, relation: &str) -> (r: Result<
    String,
    VerificationError,
>)
    ensures
        (match spec_lookup(links@, relation@) {
            Option::None => r == Err::<String, VerificationError>(
                VerificationError::MissingRelation,
            ),
            Option::Some(l) => match l {
                Link::Single { href } => r matches Ok(u) && u@ == href@,
                Link::Multi { hrefs } => if hrefs@.len() == 0 {
                    r == Err::<String, VerificationError>(VerificationError::EmptyLinkCollection)
                } else {
                    r matches Ok(u) && u@ == hrefs@[0]@
                },
            },
        }),
{
    let n = links.len();
    let mut i: usize = 0;
    while i < n
        invariant
            n == links@.len(),
            0 <= i <= n,
            forall|j: int| 0 <= j < i ==> links@[j].0@ != relation@,
        decreases n - i,
    {
        let pair = &links[i];
        if str_eq(pair.0.as_str(), relation) {
            proof {
                lemma_lookup_step(links@, relation@, i as int);
                assert(links@.skip(i as int)[0] == links@[i as int]);
            }
            match &pair.1 {
                Link::Single { href } => {
                    return Ok(href.clone());
                },
                Link::Multi { hrefs } => {
                    if hrefs.len() == 0 {
                        return Err(VerificationError::EmptyLinkCollection);
                    }
                    return Ok(hrefs[0].clone());
                },
            }
        }
        i = i + 1;
    }
    proof {
        lemma_lookup_none(links@, relation@);
    }
    Err(VerificationError::MissingRelation)
}

} // verus!
