//! The render engine: compiles the template once, then substitutes a
//! version record's fields into it on each render.

use vstd::prelude::*;
use vstd::string::StringExecFns;
use crate::grammar::{
    parse_text, parse_template, piece_views, Parsed, Piece, Seg, TemplateFault,
};
use crate::record::{field_string, field_text, known_field, AppVersion, AppVersionData};
use crate::store::Templates;

verus! {

/// The message reported when an opening brace is never closed.
pub open spec fn unmatched_open_message() -> Seq<char> {
    "template compile error: '{' without matching '}'"@
}

/// The message reported when a closing brace has no opening brace.
pub open spec fn unmatched_close_message() -> Seq<char> {
    "template compile error: '}' without matching '{'"@
}

/// What constructing an engine from a template text yields: the compiled
/// segments, or the message describing the first grammar fault.
pub open spec fn compile_text(t: Seq<char>) -> Result<Seq<Seg>, Seq<char>> {
    match parse_text(t) {
        Parsed::Segs(segs) => Ok(segs),
        Parsed::UnmatchedOpen => Err(unmatched_open_message()),
        Parsed::UnmatchedClose => Err(unmatched_close_message()),
    }
}

/// The text one segment contributes to the output.
pub open spec fn seg_text(s: Seg, r: AppVersionData) -> Seq<char> {
    match s {
        Seg::Lit(text) => text,
        Seg::Field(name) => field_text(r, name),
    }
}

/// The output of the segments from position `k` onward.
pub open spec fn render_from(segs: Seq<Seg>, r: AppVersionData, k: int) -> Seq<char>
    decreases segs.len() - k,
{
    if !(0 <= k < segs.len()) {
        Seq::empty()
    } else {
        seg_text(segs[k], r) + render_from(segs, r, k + 1)
    }
}

/// The whole output: each literal run verbatim, each placeholder replaced
/// by its field's text.
pub open spec fn rendered_text(segs: Seq<Seg>, r: AppVersionData) -> Seq<char> {
    render_from(segs, r, 0)
}

/// The first placeholder at or after position `k` whose name is no field of
/// the record.
pub open spec fn missing_from(segs: Seq<Seg>, k: int) -> Option<Seq<char>>
    decreases segs.len() - k,
{
    if !(0 <= k < segs.len()) {
        None
    } else {
        match segs[k] {
            Seg::Field(name) => if !known_field(name) {
                Some(name)
            } else {
                missing_from(segs, k + 1)
            },
            Seg::Lit(_) => missing_from(segs, k + 1),
        }
    }
}

/// The first placeholder of the template whose name is no field of the
/// record, if any.
pub open spec fn first_missing(segs: Seq<Seg>) -> Option<Seq<char>> {
    missing_from(segs, 0)
}

/// The message reported when a placeholder names no field of the record.
pub open spec fn render_error_message(name: Seq<char>) -> Seq<char> {
    "template render error: unknown placeholder '"@ + name + "'"@
}

/// What rendering a record against compiled segments yields: the fully
/// substituted text, or the message naming the first unknown placeholder.
pub open spec fn render_result(segs: Seq<Seg>, r: AppVersionData) -> Result<Seq<char>, Seq<char>> {
    match first_missing(segs) {
        None => Ok(rendered_text(segs, r)),
        Some(name) => Err(render_error_message(name)),
    }
}

/// Compiles the template once at construction and renders version records
/// against it thereafter.
#[derive(Debug)]
pub struct TemplateEngine {
    pieces: Vec<Piece>,
}

impl View for TemplateEngine {
    type V = Seq<Seg>;

    closed spec fn view(&self) -> Seq<Seg> {
        piece_views(self.pieces@)
    }
}

impl TemplateEngine {
    /// Creates a new `TemplateEngine` from the store's template text.
    /// Construction succeeds exactly when the text parses, and fails with
    /// the fault's message otherwise; no engine exists in the failure case.
    pub fn new(templates: &Templates) -> (r: Result<TemplateEngine, String>)
        ensures
            match r {
                Ok(engine) => compile_text(templates@) == Ok::<Seq<Seg>, Seq<char>>(engine@),
                Err(message) => compile_text(templates@) == Err::<Seq<Seg>, Seq<char>>(message@),
            },
    {
        match parse_template(templates.elm_app_version_template_contents.as_str()) {
            Ok(pieces) => Ok(TemplateEngine { pieces }),
            Err(TemplateFault::UnmatchedOpen) => Err(
                "template compile error: '{' without matching '}'".to_owned(),
            ),
            Err(TemplateFault::UnmatchedClose) => Err(
                "template compile error: '}' without matching '{'".to_owned(),
            ),
        }
    }

    /// Renders one version record: every placeholder is replaced by the
    /// named field's text, numeric fields in canonical decimal form.  The
    /// call succeeds exactly when every placeholder names a field of the
    /// record; otherwise it fails with a message naming the first unknown
    /// placeholder, and no partial output is returned.  The engine itself
    /// is left untouched.
    pub fn render(&self, app_version: AppVersion) -> (r: Result<String, String>)
        ensures
            match r {
                Ok(text) => render_result(self@, app_version@) == Ok::<Seq<char>, Seq<char>>(
                    text@,
                ),
                Err(message) => render_result(self@, app_version@) == Err::<Seq<char>, Seq<char>>(
                    message@,
                ),
            },
    {
        let ghost segs = self@;
        let ghost data = app_version@;
        let mut out = String::new();
        let mut k: usize = 0;
        while k < self.pieces.len()
            invariant
                k <= self.pieces.len(),
                segs == piece_views(self.pieces@),
                segs.len() == self.pieces.len(),
                data == app_version@,
                missing_from(segs, 0) == missing_from(segs, k as int),
                rendered_text(segs, data) == out@ + render_from(segs, data, k as int),
            decreases self.pieces.len() - k,
        {
            let ghost old_out = out@;
            let piece = &self.pieces[k];
            proof {
                assert(piece@ == segs[k as int]);
            }
            match piece {
                Piece::Lit(text) => {
                    out.append(text.as_str());
                },
                Piece::Field(name) => {
                    match field_string(&app_version, name) {
                        Some(value) => {
                            out.append(value.as_str());
                        },
                        None => {
                            proof {
                                assert(missing_from(segs, k as int) == Some(name@));
                            }
                            let mut message =
                                "template render error: unknown placeholder '".to_owned();
                            message.append(name.as_str());
                            message.append("'");
                            return Err(message);
                        },
                    }
                },
            }
            proof {
                assert(render_from(segs, data, k as int) == seg_text(segs[k as int], data)
                    + render_from(segs, data, k as int + 1));
                assert(out@ =~= old_out + seg_text(segs[k as int], data));
                assert(old_out + (seg_text(segs[k as int], data) + render_from(
                    segs,
                    data,
                    k as int + 1,
                )) =~= out@ + render_from(segs, data, k as int + 1));
            }
            k = k + 1;
        }
        proof {
            assert(render_from(segs, data, k as int) == Seq::<char>::empty());
            assert(out@ + Seq::<char>::empty() =~= out@);
        }
        Ok(out)
    }
}

} // verus!
