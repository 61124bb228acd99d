use vstd::prelude::*;

verus! {

/// What `Path::file_stem` gives for a path: the final component without its
/// last extension, if there is a final component.
pub uninterp spec fn stem_of(path: Seq<char>) -> Option<Seq<char>>;

/// What `Path::extension` gives for a path: the part of the final component
/// after its last `.`, if there is one that does not start the component.
pub uninterp spec fn extension_of(path: Seq<char>) -> Option<Seq<char>>;

/// The character sequence held by an optional string.
pub open spec fn opt_view(o: Option<String>) -> Option<Seq<char>> {
    match o {
        Some(s) => Some(s@),
        None => None,
    }
}

/// Relies on `std::path::Path::file_stem`; a stem cut out of UTF-8 text is
/// UTF-8 itself, so the lossy conversion keeps it whole.
#[verifier::external_body]
pub(crate) fn file_stem(path: &str) -> (r: Option<String>)
    ensures
        opt_view(r) == stem_of(path@),
{
    std::path::Path::new(path).file_stem().map(|s| s.to_string_lossy().into_owned())
}

/// Relies on `std::path::Path::extension`; as for the stem, the conversion
/// keeps the text whole.
#[verifier::external_body]
pub(crate) fn file_extension(path: &str) -> (r: Option<String>)
    ensures
        opt_view(r) == extension_of(path@),
{
    std::path::Path::new(path).extension().map(|s| s.to_string_lossy().into_owned())
}

} // verus!
