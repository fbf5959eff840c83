//! The pure parts of the per-frame render: the split of each tab label for
//! the tab strip, the active pane's title, and the pane text produced from
//! one command execution.

use vstd::prelude::*;
use crate::tabstate::TabsState;

verus! {

/// What one synchronous run of the active tab's command produced: the
/// captured standard output as text, and whether the run succeeded. A
/// failed run carries the reason in `text`. Produced fresh for every frame
/// and never cached.
pub struct ExecutionResult {
    pub text: String,
    pub succeeded: bool,
}

/// The text shown in the output pane for `r`: the captured output of a
/// successful run (possibly empty), or an inline error message for a failed
/// one. A failed command degrades to a message in the pane; it never stops
/// the dashboard.
pub open spec fn pane_chars(r: ExecutionResult) -> Seq<char> {
    if r.succeeded {
        r.text@
    } else {
        "command failed: "@ + r.text@
    }
}

/// Renders one execution result as the output pane's text.
pub fn pane_text(result: &ExecutionResult) -> (r: String)
    ensures
        r@ == pane_chars(*result),
{
    if result.succeeded {
        result.text.clone()
    } else {
        let mut s = String::from_str("command failed: ");
        s.append(result.text.as_str());
        s
    }
}

/// The active tab's display label, which titles the output pane's border.
pub fn active_title(tabs: &TabsState) -> (r: String)
    requires
        tabs.wf(),
    ensures
        r@ == tabs.titles@[tabs.index as int]@,
{
    tabs.titles[tabs.index].clone()
}

/// Splits one display label into its first character and the rest, the two
/// differently styled parts of a tab strip entry.
pub fn split_title(t: &str) -> (r: (String, String))
    requires
        t@.len() >= 1,
    ensures
        r.0@ == t@.subrange(0, 1),
        r.1@ == t@.subrange(1, t@.len() as int),
{
    let n = t.unicode_len();
    let head = t.substring_char(0, 1);
    let tail = t.substring_char(1, n);
    (String::from_str(head), String::from_str(tail))
}

/// Splits every display label for the tab strip: entry `i` holds the first
/// character and the rest of title `i`.
pub fn title_spans(tabs: &TabsState) -> (r: Vec<(String, String)>)
    requires
        tabs.wf(),
        tabs.nonempty_titles(),
    ensures
        r@.len() == tabs.titles@.len(),
        forall|i: int|
            0 <= i < r@.len() ==> r@[i].0@ == tabs.titles@[i]@.subrange(0, 1) && r@[i].1@
                == tabs.titles@[i]@.subrange(1, tabs.titles@[i]@.len() as int),
{
    let mut r: Vec<(String, String)> = Vec::new();
    let mut i: usize = 0;
    while i < tabs.titles.len()
        invariant
            tabs.nonempty_titles(),
            i <= tabs.titles@.len(),
            r@.len() == i,
            forall|j: int|
                0 <= j < i ==> r@[j].0@ == tabs.titles@[j]@.subrange(0, 1) && r@[j].1@
                    == tabs.titles@[j]@.subrange(1, tabs.titles@[j]@.len() as int),
        decreases tabs.titles@.len() - i,
    {
        let parts = split_title(tabs.titles[i].as_str());
        r.push(parts);
        i = i + 1;
    }
    r
}

} // verus!
