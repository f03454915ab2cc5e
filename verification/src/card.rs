//! The text a task card shows: the percent badge and the progress bar.
use vstd::prelude::*;
use vstd::string::*;
use crate::number::{decimal_text, format_i32};

verus! {

/// Whether a task counts as done.
pub open spec fn is_done(percent: i32) -> bool {
    percent >= 100
}

/// The badge of a task: its percent followed by `%`.
pub fn badge_text(percent: i32) -> (r: String)
    ensures
        r@ == decimal_text(percent as int) + "%"@,
{
    let mut s = format_i32(percent);
    s.append("%");
    s
}

/// The style that sets the width of a task's progress bar.
pub fn progress_style(percent: i32) -> (r: String)
    ensures
        r@ == "width: "@ + decimal_text(percent as int) + "%"@,
{
    let mut s = String::new();
    s.append("width: ");
    let n = format_i32(percent);
    s.append(n.as_str());
    s.append("%");
    assert(s@ =~= "width: "@ + decimal_text(percent as int) + "%"@);
    s
}

/// The extra class of a progress bar: the success colour once a task is done.
pub fn progress_bar_class(percent: i32) -> (r: &'static str)
    ensures
        is_done(percent) ==> r@ == "bg-success"@,
        !is_done(percent) ==> r@ == ""@,
        percent >= 100 ==> r@ == "bg-success"@,
        percent < 100 ==> r@ == ""@,
{
    if percent >= 100 {
        "bg-success"
    } else {
        ""
    }
}

/// A task counts as done exactly from 100 percent on.
pub proof fn lemma_done_from_full(percent: i32)
    ensures
        is_done(percent) <==> percent >= 100,
{
}

} // verus!
