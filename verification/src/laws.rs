//! The engine's general guarantees, each proved from the contracts of the
//! modules around it.

use vstd::prelude::*;
use crate::engine::{
    compile_text, render_from, render_result, rendered_text, seg_text,
};
use crate::grammar::{
    brace_free, is_delim, lemma_parse_brace_free, parse_from, parse_text, seg_brace_free,
    segs_brace_free, Parsed, Seg,
};
use crate::numtext::{dec_digit, dec_text, signed_dec_text};
use crate::record::{field_text, AppVersionData};
use crate::store::{template_text, Templates};

verus! {

/// The record's own text fields hold no delimiter character of the
/// template grammar.
pub open spec fn record_brace_free(r: AppVersionData) -> bool {
    brace_free(r.version) && brace_free(r.hash) && brace_free(r.source)
}

proof fn lemma_concat_brace_free(a: Seq<char>, b: Seq<char>)
    requires
        brace_free(a),
        brace_free(b),
    ensures
        brace_free(a + b),
{
    assert forall|j: int| 0 <= j < (a + b).len() implies !is_delim((a + b)[j]) by {
        if j < a.len() {
            assert((a + b)[j] == a[j]);
        } else {
            assert((a + b)[j] == b[j - a.len()]);
        }
    }
}

proof fn lemma_dec_text_brace_free(n: nat)
    ensures
        brace_free(dec_text(n)),
    decreases n,
{
    assert(!is_delim(dec_digit(n % 10)));
    if n < 10 {
        assert(brace_free(seq![dec_digit(n)]));
    } else {
        lemma_dec_text_brace_free(n / 10);
        assert(brace_free(seq![dec_digit(n % 10)]));
        lemma_concat_brace_free(dec_text(n / 10), seq![dec_digit(n % 10)]);
    }
}

proof fn lemma_signed_dec_text_brace_free(n: int)
    ensures
        brace_free(signed_dec_text(n)),
{
    if n < 0 {
        assert(brace_free(seq!['-']));
        lemma_dec_text_brace_free((-n) as nat);
        lemma_concat_brace_free(seq!['-'], dec_text((-n) as nat));
    } else {
        lemma_dec_text_brace_free(n as nat);
    }
}

proof fn lemma_field_text_brace_free(r: AppVersionData, name: Seq<char>)
    requires
        record_brace_free(r),
    ensures
        brace_free(field_text(r, name)),
{
    if name == "build_number"@ {
        lemma_dec_text_brace_free(r.build_number as nat);
    } else if name == "timestamp"@ {
        lemma_signed_dec_text_brace_free(r.timestamp as int);
    }
}

proof fn lemma_render_brace_free(segs: Seq<Seg>, r: AppVersionData, k: int)
    requires
        segs_brace_free(segs),
        record_brace_free(r),
    ensures
        brace_free(render_from(segs, r, k)),
    decreases segs.len() - k,
{
    if 0 <= k < segs.len() {
        lemma_render_brace_free(segs, r, k + 1);
        assert(seg_brace_free(segs[k]));
        match segs[k] {
            Seg::Lit(_) => {},
            Seg::Field(name) => {
                lemma_field_text_brace_free(r, name);
            },
        }
        lemma_concat_brace_free(seg_text(segs[k], r), render_from(segs, r, k + 1));
    }
}

/// Substitution leaves no placeholder syntax behind: when a template text
/// parses into segments and no text field of the record holds a brace, the
/// rendered output holds no brace either — every placeholder has been
/// replaced by its field's text.
pub proof fn lemma_no_leftover_placeholders(t: Seq<char>, segs: Seq<Seg>, r: AppVersionData)
    requires
        parse_text(t) == Parsed::Segs(segs),
        record_brace_free(r),
    ensures
        brace_free(rendered_text(segs, r)),
{
    lemma_parse_brace_free(t, 0);
    assert(parse_from(t, 0)->Segs_0 == segs);
    lemma_render_brace_free(segs, r, 0);
}

/// Loading the store is idempotent: every load yields the embedded
/// template text, so any two loads yield identical content.
pub proof fn lemma_load_deterministic(first: Templates, second: Templates)
    requires
        first@ == template_text(),
        second@ == template_text(),
    ensures
        first@ == second@,
{
}

/// Compilation is deterministic: constructing the engine twice from the
/// same template text succeeds or fails identically both times, with equal
/// error messages on failure.
pub proof fn lemma_compile_deterministic(
    text: Seq<char>,
    first: Result<Seq<Seg>, Seq<char>>,
    second: Result<Seq<Seg>, Seq<char>>,
)
    requires
        first == compile_text(text),
        second == compile_text(text),
    ensures
        first == second,
{
}

/// A template text with a grammar fault never yields an engine: the
/// construction outcome pinned by `TemplateEngine::new` is an error, so no
/// instance exists to render from.
pub proof fn lemma_compile_failure_isolation(
    text: Seq<char>,
    outcome: Result<Seq<Seg>, Seq<char>>,
)
    requires
        outcome == compile_text(text),
        !(parse_text(text) is Segs),
    ensures
        outcome is Err,
{
}

/// Rendering is pure: the same record rendered twice against the same
/// compiled template yields identical results, output and error message
/// alike.
pub proof fn lemma_render_pure(
    segs: Seq<Seg>,
    record: AppVersionData,
    first: Result<Seq<char>, Seq<char>>,
    second: Result<Seq<char>, Seq<char>>,
)
    requires
        first == render_result(segs, record),
        second == render_result(segs, record),
    ensures
        first == second,
{
}

/// Renders are independent: what a render yields is pinned by the compiled
/// template and its own record alone, so a render of some other record
/// beforehand leaves no trace in the output — nothing of `other` can leak
/// into `record`'s rendering.
pub proof fn lemma_render_independent(
    segs: Seq<Seg>,
    other: AppVersionData,
    record: AppVersionData,
    after_other: Result<Seq<char>, Seq<char>>,
    direct: Result<Seq<char>, Seq<char>>,
)
    requires
        after_other == render_result(segs, record),
        direct == render_result(segs, record),
    ensures
        after_other == direct,
{
}

} // verus!
