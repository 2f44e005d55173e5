//! The shared-secret check made on every request.
use vstd::prelude::*;
use crate::text::same_text;

verus! {

/// The secret header of a request, as it arrived.
pub enum KeyHeader {
    /// No header: the empty string is presented.
    Missing,
    /// A header that is text.
    Text(String),
    /// A header whose bytes are not text; it matches no secret.
    NotText,
}

/// The secret a request presents, or `None` when its header is not text.
pub open spec fn presented(header: KeyHeader) -> Option<Seq<char>> {
    match header {
        KeyHeader::Missing => Some(Seq::empty()),
        KeyHeader::Text(t) => Some(t@),
        KeyHeader::NotText => None,
    }
}

/// Accepts exactly the secret that equals the configured one.
pub fn authorize(presented_secret: &str, configured_secret: &str) -> (r: bool)
    ensures
        r == (presented_secret@ == configured_secret@),
        presented_secret@.len() == 0 && configured_secret@.len() > 0 ==> !r,
{
    same_text(presented_secret, configured_secret)
}

/// Checks the secret header of a request: a missing header presents the
/// empty string, a header that is not text is refused.
pub fn authorize_header(header: &KeyHeader, configured_secret: &str) -> (r: bool)
    ensures
        r == (presented(*header) == Some(configured_secret@)),
{
    match header {
        KeyHeader::Text(h) => authorize(h.as_str(), configured_secret),
        KeyHeader::Missing => {
            proof {
                reveal_strlit("");
                assert(""@ =~= Seq::<char>::empty());
            }
            authorize("", configured_secret)
        },
        KeyHeader::NotText => false,
    }
}

} // verus!
