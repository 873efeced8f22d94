//! The textual content of each render: task lines and the add-entry
//! notices. Clearing, positioning and styling stay with the terminal
//! driver; this module fixes exactly what text appears.

use vstd::prelude::*;

use crate::store::Task;
use vstd::string::StringExecFns;

verus! {

/// The one-line rendering of a task in the list view.
pub fn render_task_line(t: &Task) -> (r: String)
    ensures
        r@ == "Todo : "@ + t@.content,
{
    let mut s = String::from_str("Todo : ");
    s.append(t.content.as_str());
    s
}

/// The body of a full re-render: one line per task of the snapshot, in
/// snapshot order, each rendered by `render_task_line`. An empty snapshot
/// renders no task lines at all.
pub fn render_lines(tasks: &Vec<Task>) -> (r: Vec<String>)
    ensures
        r@.len() == tasks@.len(),
        forall|i: int| 0 <= i < r@.len() ==> #[trigger] r@[i]@ == "Todo : "@ + tasks@[i]@.content,
{
    let mut r: Vec<String> = Vec::new();
    let mut i: usize = 0;
    while i < tasks.len()
        invariant
            i <= tasks@.len(),
            r@.len() == i,
            forall|k: int|
                0 <= k < i ==> #[trigger] r@[k]@ == "Todo : "@ + tasks@[k]@.content,
        decreases tasks@.len() - i,
    {
        let line = render_task_line(&tasks[i]);
        r.push(line);
        i += 1;
    }
    r
}

/// The transient notice after a successful creation, echoing the entered
/// text.
pub fn success_notice(content: &str) -> (r: String)
    ensures
        r@ == "Successfully added TODO : "@ + content@,
{
    let mut s = String::from_str("Successfully added TODO : ");
    s.append(content);
    s
}

/// The transient generic notice after a failed creation; the entered text
/// is discarded, not echoed.
pub fn failure_notice() -> (r: String)
    ensures
        r@ == "Couldn't add todo : Something went wrong!"@,
{
    String::from_str("Couldn't add todo : Something went wrong!")
}

} // verus!
