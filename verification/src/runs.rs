//! Styled text runs: the only unit the terminal sink consumes.
//!
//! A frame is an ordered sequence of runs. Order is irrelevant for
//! correctness, but a later run drawn over an overlapping region visually
//! overrides an earlier one.

use vstd::prelude::*;
use crate::geometry::Rect;
use crate::severity::SeverityTier;

verus! {

/// Horizontal placement of a run's text within its region.
#[derive(Clone, Copy, Debug, PartialEq, Eq, Structural)]
pub enum Alignment {
    Left,
    Right,
}

/// One styled text run: text, the region it is drawn in, an optional
/// severity tier that drives its color, and its alignment.
#[derive(Clone, Debug, PartialEq, Eq)]
pub struct StyledRun {
    pub text: String,
    pub region: Rect,
    pub tier: Option<SeverityTier>,
    pub alignment: Alignment,
}

/// Mathematical model of a run: the same fields with the text as a
/// character sequence.
#[verifier::ext_equal]
pub struct RunView {
    pub text: Seq<char>,
    pub region: Rect,
    pub tier: Option<SeverityTier>,
    pub alignment: Alignment,
}

impl View for StyledRun {
    type V = RunView;

    open spec fn view(&self) -> RunView {
        RunView {
            text: self.text@,
            region: self.region,
            tier: self.tier,
            alignment: self.alignment,
        }
    }
}

/// The models of a sequence of runs.
pub open spec fn runs_view(s: Seq<StyledRun>) -> Seq<RunView> {
    s.map_values(|r: StyledRun| r@)
}

/// Append one run to a frame under construction.
pub fn push_run(out: &mut Vec<StyledRun>, text: String, region: Rect, tier: Option<SeverityTier>, alignment: Alignment)
    ensures
        runs_view(final(out)@) == runs_view(old(out)@).push(
            RunView { text: text@, region, tier, alignment },
        ),
{
    let run_text_view = Ghost(text@);
    out.push(StyledRun { text, region, tier, alignment });
    proof {
        assert(runs_view(out@) =~= runs_view(old(out)@).push(
            RunView { text: run_text_view@, region, tier, alignment },
        ));
    }
}

} // verus!
