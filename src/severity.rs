use vstd::prelude::*;

verus! {

/// Urgency of an alert, ordered by increasing urgency.
#[derive(Clone, Copy, Debug, PartialEq, Eq, Structural)]
pub enum Severity {
    Low,
    Medium,
    High,
}

/// Position of a severity in the urgency order (Low < Medium < High).
pub open spec fn rank(s: Severity) -> nat {
    match s {
        Severity::Low => 1,
        Severity::Medium => 2,
        Severity::High => 3,
    }
}

/// The glyph sequence shown for a severity: one flame per rank.
pub open spec fn glyph(s: Severity) -> Seq<char> {
    Seq::new(rank(s), |i: int| '🔥')
}

/// Renders the glyph sequence of a severity.
pub fn severity_emoji(severity: Severity) -> (r: String)
    ensures
        r@ == glyph(severity),
{
    let r = match severity {
        Severity::High => String::from_str("🔥🔥🔥"),
        Severity::Medium => String::from_str("🔥🔥"),
        Severity::Low => String::from_str("🔥"),
    };
    proof {
        reveal_strlit("🔥🔥🔥");
        reveal_strlit("🔥🔥");
        reveal_strlit("🔥");
        assert(r@ =~= glyph(severity));
    }
    r
}

/// The glyph mapping is total, gives each severity its own glyph sequence,
/// and a more urgent severity never gets a shorter sequence than a less
/// urgent one (strictly longer, in fact).
pub proof fn lemma_glyphs_ordered(a: Severity, b: Severity)
    ensures
        a != b ==> glyph(a) != glyph(b),
        rank(a) < rank(b) ==> glyph(a).len() < glyph(b).len(),
        glyph(a).len() == rank(a),
        glyph(a).len() > 0,
{
    if a != b {
        assert(glyph(a).len() != glyph(b).len());
    }
}

} // verus!
