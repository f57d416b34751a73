//! The template store: the embedded version-file template text.

use vstd::prelude::*;

verus! {

/// The embedded template: an Elm module exposing one value per field of the
/// version record, each value's body a placeholder for that field.
pub open spec fn template_text() -> Seq<char> {
    "module AppVersion exposing (appVersion, buildNumber, hash, timestamp, source)\n\n-- Generated version information\n\nappVersion : String\nappVersion =\n    \"{version}\"\n\nbuildNumber : Int\nbuildNumber =\n    {build_number}\n\nhash : String\nhash =\n    \"{hash}\"\n\ntimestamp : Int\ntimestamp =\n    {timestamp}\n\nsource : String\nsource =\n    \"{source}\"\n"@
}

/// Holds the raw template text, sourced once and never mutated.
pub struct Templates {
    pub elm_app_version_template_contents: String,
}

impl View for Templates {
    type V = Seq<char>;

    open spec fn view(&self) -> Seq<char> {
        self.elm_app_version_template_contents@
    }
}

impl Templates {
    /// Returns the embedded template text.  There is no failure path: the
    /// text is a fixed part of the program, and every call returns the same
    /// content.
    pub fn load() -> (templates: Templates)
        ensures
            templates@ == template_text(),
    {
        Templates {
            elm_app_version_template_contents:
                "module AppVersion exposing (appVersion, buildNumber, hash, timestamp, source)\n\n-- Generated version information\n\nappVersion : String\nappVersion =\n    \"{version}\"\n\nbuildNumber : Int\nbuildNumber =\n    {build_number}\n\nhash : String\nhash =\n    \"{hash}\"\n\ntimestamp : Int\ntimestamp =\n    {timestamp}\n\nsource : String\nsource =\n    \"{source}\"\n".to_owned(),
        }
    }
}

} // verus!
