//! The fixed set of filename suffixes that a listing hides, checked against
//! the lowercased filename.

use vstd::prelude::*;
use crate::strutil::str_ends_with;
use crate::strutil::suffix_of;

verus! {

/// What `str::to_lowercase` returns for `s`; the result depends on the
/// characters of `s` alone.
pub uninterp spec fn lower_of(s: Seq<char>) -> Seq<char>;

/// Relies on str::to_lowercase: the result depends on the characters alone.
#[verifier::external_body]
fn lowercase(s: &str) -> (r: String)
    ensures
        r@ == lower_of(s@),
{
    s.to_lowercase()
}

/// A lowercased filename is hidden when it ends with one of the fixed
/// suffixes.
pub open spec fn name_hidden(lower: Seq<char>) -> bool {
    ||| suffix_of(".exe"@, lower)
    ||| suffix_of(".lock"@, lower)
    ||| suffix_of(".toml"@, lower)
    ||| suffix_of(".dll"@, lower)
    ||| suffix_of(".msi"@, lower)
    ||| suffix_of(".md"@, lower)
    ||| suffix_of(".png"@, lower)
    ||| suffix_of(".jpg"@, lower)
    ||| suffix_of(".jpeg"@, lower)
    ||| suffix_of(".gif"@, lower)
    ||| suffix_of(".webp"@, lower)
    ||| suffix_of(".csv"@, lower)
    ||| suffix_of(".xlsx"@, lower)
    ||| suffix_of(".xls"@, lower)
    ||| suffix_of(".docx"@, lower)
    ||| suffix_of(".doc"@, lower)
    ||| suffix_of(".pptx"@, lower)
    ||| suffix_of(".ppt"@, lower)
    ||| suffix_of(".pdf"@, lower)
    ||| suffix_of(".xml"@, lower)
    ||| suffix_of(".bat"@, lower)
    ||| suffix_of(".vbs"@, lower)
    ||| suffix_of(".git"@, lower)
    ||| suffix_of(".gitignore"@, lower)
}

/// Whether a directory entry named `name` is left out of listings: its
/// lowercased form ends with one of the hidden suffixes.
pub fn is_excluded(name: &str) -> (r: bool)
    ensures
        r == name_hidden(lower_of(name@)),
{
    let lower: String = lowercase(name);
    let l: &str = lower.as_str();
    str_ends_with(l, ".exe") || str_ends_with(l, ".lock") || str_ends_with(l, ".toml")
        || str_ends_with(l, ".dll") || str_ends_with(l, ".msi") || str_ends_with(l, ".md")
        || str_ends_with(l, ".png") || str_ends_with(l, ".jpg") || str_ends_with(l, ".jpeg")
        || str_ends_with(l, ".gif") || str_ends_with(l, ".webp") || str_ends_with(l, ".csv")
        || str_ends_with(l, ".xlsx") || str_ends_with(l, ".xls") || str_ends_with(l, ".docx")
        || str_ends_with(l, ".doc") || str_ends_with(l, ".pptx") || str_ends_with(l, ".ppt")
        || str_ends_with(l, ".pdf") || str_ends_with(l, ".xml") || str_ends_with(l, ".bat")
        || str_ends_with(l, ".vbs") || str_ends_with(l, ".git")
        || str_ends_with(l, ".gitignore")
}

} // verus!
