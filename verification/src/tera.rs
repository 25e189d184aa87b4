use vstd::prelude::*;
use relative_path::RelativePath;

verus! {

/// The extension that loads the application's templates.
#[derive(Debug, Clone, Copy, Default)]
pub struct TeraExt;

/// The key under which the application's configuration holds the template
/// settings.
pub const TEMPLATES_KEY: &'static str = "templates";

/// `base` joined with `other` as relative paths: a leading `/` of `other` is
/// dropped, and a `/` is put between the two unless `base` is empty or
/// already ends with one.
pub open spec fn relative_join(base: Seq<char>, other: Seq<char>) -> Seq<char> {
    let tail = if other.len() > 0 && other[0] == '/' {
        other.drop_first()
    } else {
        other
    };
    if base.len() > 0 && base.last() != '/' {
        base + seq!['/'] + tail
    } else {
        base + tail
    }
}

/// `RelativePath::join` of the `relative-path` crate, on text: copies `base`,
/// then pushes `other` (without its leading `/`), putting a `/` in between
/// when `base` is not empty and does not end with one.
#[verifier::external_body]
fn join_relative(base: &str, other: &str) -> (r: String)
    ensures
        r@ == relative_join(base@, other@),
{
    RelativePath::new(base).join(other).into_string()
}

impl TeraExt {
    /// The pattern of the template files below the configured directory
    /// `path`: every file at any depth.
    pub fn template_glob(path: &str) -> (r: String)
        ensures
            r@ == relative_join(path@, "**/*"@),
    {
        join_relative(path, "**/*")
    }
}

} // verus!
