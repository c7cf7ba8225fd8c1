//! Classification of a channel identifier by its lexical shape.
//!
//! A caller may hand over a canonical channel id (prefix `"UC"`), an
//! `"@"`-prefixed handle, or a legacy username (anything else). The
//! resolver picks its lookup strategy from this classification alone.

use vstd::prelude::*;
use vstd::string::StrSliceExecFns;

verus! {

/// The identifier names a canonical channel id: it begins with `"UC"`.
pub open spec fn is_id_shape(s: Seq<char>) -> bool {
    s.len() >= 2 && s[0] == 'U' && s[1] == 'C'
}

/// The identifier is a handle: it begins with `"@"`.
pub open spec fn is_handle_shape(s: Seq<char>) -> bool {
    s.len() >= 1 && s[0] == '@'
}

/// The three lookup strategies, ordered: the first matching shape wins.
#[derive(Clone, Copy, Debug, PartialEq, Eq, Structural)]
pub enum IdentifierKind {
    Id,
    Handle,
    Username,
}

/// Which strategy an identifier selects.
pub open spec fn spec_classify(s: Seq<char>) -> IdentifierKind {
    if is_id_shape(s) {
        IdentifierKind::Id
    } else if is_handle_shape(s) {
        IdentifierKind::Handle
    } else {
        IdentifierKind::Username
    }
}

/// Classifies an identifier by its first characters: `"UC"` prefix means a
/// canonical id, `"@"` prefix a handle, anything else a legacy username.
pub fn classify_identifier(s: &str) -> (k: IdentifierKind)
    ensures
        k == spec_classify(s@),
{
    let n = s.unicode_len();
    if n >= 2 && s.get_char(0) == 'U' && s.get_char(1) == 'C' {
        IdentifierKind::Id
    } else if n >= 1 && s.get_char(0) == '@' {
        IdentifierKind::Handle
    } else {
        IdentifierKind::Username
    }
}

/// The handle with its leading `"@"` removed.
pub fn strip_handle_prefix(s: &str) -> (r: String)
    requires
        is_handle_shape(s@),
    ensures
        r@ == s@.skip(1),
{
    let n = s.unicode_len();
    let stripped = s.substring_char(1, n);
    assert(stripped@ =~= s@.skip(1));
    stripped.to_owned()
}

} // verus!
