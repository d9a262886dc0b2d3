//! Decoding of a registry entry's address, `host/image@reference`, into its
//! three parts.
//!
//! The split is purely syntactic: the reference starts after the first `@`,
//! the host ends at the first `/` before it. Host, image and reference must
//! each be non-empty; everything else about their syntax is left to the
//! registry protocol layer.

use vstd::prelude::*;
use vstd::string::StrSliceExecFns;
use vstd::string::StringExecFns;

use crate::strutil::find_char;
use crate::strutil::spec_idx_of;

verus! {

/// A decoded image address: registry host, image path, and tag or digest.
#[derive(Clone, Debug, PartialEq, Eq)]
pub struct ImageReference {
    pub host: String,
    pub image: String,
    pub reference: String,
}

/// Mathematical model of an [`ImageReference`].
pub struct ImageReferenceView {
    pub host: Seq<char>,
    pub image: Seq<char>,
    pub reference: Seq<char>,
}

impl View for ImageReference {
    type V = ImageReferenceView;

    open spec fn view(&self) -> ImageReferenceView {
        ImageReferenceView { host: self.host@, image: self.image@, reference: self.reference@ }
    }
}

/// The triple denoted by an address: split at the first `@`, then split the
/// locator at its first `/`; all three parts must be non-empty.
pub open spec fn spec_decode(s: Seq<char>) -> Option<ImageReferenceView> {
    let at = spec_idx_of(s, '@');
    if at < 0 {
        None
    } else {
        let locator = s.take(at);
        let reference = s.skip(at + 1);
        if reference.len() == 0 {
            None
        } else {
            let sl = spec_idx_of(locator, '/');
            if sl <= 0 {
                None
            } else {
                let host = locator.take(sl);
                let image = locator.skip(sl + 1);
                if image.len() == 0 {
                    None
                } else {
                    Some(ImageReferenceView { host, image, reference })
                }
            }
        }
    }
}

/// Decode an address into host, image and reference; fails exactly when
/// `spec_decode` gives nothing.
pub fn decode(address: &str) -> (r: Option<ImageReference>)
    ensures
        r matches Some(ir) ==> spec_decode(address@) == Some(ir@),
        r is None ==> spec_decode(address@) is None,
{
    let n = address.unicode_len();
    let at = match find_char(address, '@') {
        Some(at) => at,
        None => {
            return None;
        },
    };
    let locator = address.substring_char(0, at);
    let reference = address.substring_char(at + 1, n);
    if reference.is_empty() {
        return None;
    }
    let ln = locator.unicode_len();
    let sl = match find_char(locator, '/') {
        Some(sl) => sl,
        None => {
            return None;
        },
    };
    if sl == 0 {
        return None;
    }
    let host = locator.substring_char(0, sl);
    let image = locator.substring_char(sl + 1, ln);
    if image.is_empty() {
        return None;
    }
    proof {
        let at_s = spec_idx_of(address@, '@');
        assert(locator@ =~= address@.take(at_s));
        assert(reference@ =~= address@.skip(at_s + 1));
        let sl_s = spec_idx_of(locator@, '/');
        assert(host@ =~= locator@.take(sl_s));
        assert(image@ =~= locator@.skip(sl_s + 1));
    }
    Some(
        ImageReference {
            host: String::from_str(host),
            image: String::from_str(image),
            reference: String::from_str(reference),
        },
    )
}

} // verus!
