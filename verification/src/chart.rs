//! Studies that can be drawn over a heatmap chart.

use vstd::prelude::*;
use vstd::string::StringExecFns;

verus! {

/// Which trades a volume profile covers.
#[derive(Debug, Clone, Copy, PartialEq, Eq, Structural)]
pub enum ProfileKind {
    /// A window of a fixed number of the latest data points.
    FixedWindow(usize),
    /// What the chart shows.
    VisibleRange,
}

/// The label of a profile kind.
pub open spec fn profile_kind_label(k: ProfileKind) -> Seq<char> {
    match k {
        ProfileKind::FixedWindow(_) => "Fixed window"@,
        ProfileKind::VisibleRange => "Visible range"@,
    }
}

impl ProfileKind {
    /// The label the profile kind is shown with.
    pub fn to_label(&self) -> (s: String)
        ensures
            s@ == profile_kind_label(*self),
    {
        match self {
            ProfileKind::FixedWindow(_) => "Fixed window".to_owned(),
            ProfileKind::VisibleRange => "Visible range".to_owned(),
        }
    }
}

/// A study drawn over a heatmap.
#[derive(Debug, Clone, Copy, PartialEq, Eq, Structural)]
pub enum HeatmapStudy {
    VolumeProfile(ProfileKind),
}

impl HeatmapStudy {
    /// The studies offered, in the order they are listed.
    pub fn all() -> (r: Vec<HeatmapStudy>)
        ensures
            r@ == seq![HeatmapStudy::VolumeProfile(ProfileKind::VisibleRange)],
    {
        let r = vec![HeatmapStudy::VolumeProfile(ProfileKind::VisibleRange)];
        proof {
            assert(r@ =~= seq![HeatmapStudy::VolumeProfile(ProfileKind::VisibleRange)]);
        }
        r
    }

    /// The label the study is shown with, such as `Volume Profile (Visible range)`.
    pub fn to_label(&self) -> (s: String)
        ensures
            s@ == (match *self {
                HeatmapStudy::VolumeProfile(k) => "Volume Profile ("@ + profile_kind_label(k) + ")"@,
            }),
    {
        match self {
            HeatmapStudy::VolumeProfile(k) => {
                let mut s = "Volume Profile (".to_owned();
                let kind = k.to_label();
                s.append(kind.as_str());
                s.append(")");
                s
            },
        }
    }
}

} // verus!
