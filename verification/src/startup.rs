//! What the shell does with its primary window when it starts.
//!
//! The runtime looks the window up and reports whether it exists; the rules
//! here turn that report into the one thing to do next.

use vstd::prelude::*;

verus! {

/// The identifier under which the runtime knows the primary window.
pub open spec fn main_window_label_text() -> Seq<char> {
    "main"@
}

/// The title that the primary window carries once start-up is through.
pub open spec fn window_title_text() -> Seq<char> {
    "Chronicle Builder - Your Story Workspace"@
}

/// What start-up does after the lookup of the primary window.
#[derive(Debug, PartialEq, Eq)]
pub enum StartupPlan {
    /// Give the window `title`; open the developer-tools panel if `open_devtools`.
    Configure { title: String, open_devtools: bool },
    /// There is no primary window: the application cannot run and stops.
    Abort,
}

/// The identifier to look the primary window up by.
pub fn main_window_label() -> (label: String)
    ensures
        label@ == main_window_label_text(),
{
    String::from_str("main")
}

/// The title of the primary window.
pub fn window_title() -> (title: String)
    ensures
        title@ == window_title_text(),
{
    String::from_str("Chronicle Builder - Your Story Workspace")
}

/// Whether `plan` is what start-up owes for this lookup result and build mode.
pub open spec fn startup_plan_for(window_found: bool, debug_build: bool, plan: StartupPlan) -> bool {
    if window_found {
        &&& plan is Configure
        &&& plan->title@ == window_title_text()
        &&& plan->open_devtools == debug_build
    } else {
        plan is Abort
    }
}

/// Decides start-up from the outcome of the window lookup. A found window gets
/// the fixed title, and the developer-tools panel in a debug build only; a
/// missing window ends the application. There is no other outcome.
pub fn plan_startup(window_found: bool, debug_build: bool) -> (plan: StartupPlan)
    ensures
        startup_plan_for(window_found, debug_build, plan),
{
    if window_found {
        StartupPlan::Configure { title: window_title(), open_devtools: debug_build }
    } else {
        StartupPlan::Abort
    }
}

/// Start-up ends in exactly one of two ways, and the lookup alone decides
/// which: a window that carries the fixed title, or the end of the process.
pub proof fn lemma_startup_titles_or_aborts(window_found: bool, debug_build: bool, plan: StartupPlan)
    requires
        startup_plan_for(window_found, debug_build, plan),
    ensures
        (plan is Configure) != (plan is Abort),
        plan is Configure <==> window_found,
        plan is Configure ==> plan->title@ == window_title_text(),
{
}

} // verus!
