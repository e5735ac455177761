use vstd::prelude::*;
use vstd::view::View as _;

verus! {

/// The dashboard's top-level screens.
#[derive(Debug, Clone, Copy, PartialEq, Eq, Structural)]
pub enum View {
    System,
    Process,
    Resources,
    Network,
    Disks,
    Options,
}

/// The screen that the cycle trigger moves to from `v`.
pub open spec fn next_view(v: View) -> View {
    match v {
        View::System => View::Process,
        View::Process => View::Resources,
        View::Resources => View::Network,
        View::Network => View::Disks,
        View::Disks => View::Options,
        View::Options => View::System,
    }
}

/// `v` after `n` cycle triggers.
pub open spec fn cycle_n(v: View, n: nat) -> View
    decreases n,
{
    if n == 0 {
        v
    } else {
        cycle_n(next_view(v), (n - 1) as nat)
    }
}

impl View {
    /// The screen that follows this one in the cycle order.
    pub fn next(self) -> (r: View)
        ensures
            r == next_view(self),
    {
        match self {
            View::System => View::Process,
            View::Process => View::Resources,
            View::Resources => View::Network,
            View::Network => View::Disks,
            View::Disks => View::Options,
            View::Options => View::System,
        }
    }
}

/// The screen's title.
pub fn view_to_str(view: View) -> (r: &'static str)
    ensures
        r@ == view_title(view),
{
    match view {
        View::System => "System",
        View::Process => "Process",
        View::Resources => "Resources",
        View::Network => "Network",
        View::Disks => "Disks",
        View::Options => "Options",
    }
}

/// The title shown for each screen.
pub open spec fn view_title(view: View) -> Seq<char> {
    match view {
        View::System => "System"@,
        View::Process => "Process"@,
        View::Resources => "Resources"@,
        View::Network => "Network"@,
        View::Disks => "Disks"@,
        View::Options => "Options"@,
    }
}

/// Cycling through the screens returns to the starting screen after six
/// triggers, and to no earlier one.
pub proof fn lemma_cycle_returns_after_six(v: View)
    ensures
        cycle_n(v, 6) == v,
        forall|n: nat| 0 < n < 6 ==> cycle_n(v, n) != v,
{
    reveal_with_fuel(cycle_n, 7);
    assert forall|n: nat| 0 < n < 6 implies cycle_n(v, n) != v by {
        reveal_with_fuel(cycle_n, 7);
    }
}

} // verus!
