//! The one-shot command banner shown at startup: which key does what.
//! The text is fixed here; colors and positioning stay with the terminal
//! driver.

use vstd::prelude::*;

use vstd::string::StringExecFns;

verus! {

/// One line of the command banner: a key and what pressing it does.
pub struct Command {
    pub key: &'static str,
    pub description: &'static str,
}

impl Command {
    /// The plain text of the banner line for this command.
    pub fn line(&self) -> (r: String)
        ensures
            r@ == "Press "@ + self.key@ + " => "@ + self.description@,
    {
        let mut s = String::from_str("Press ");
        s.append(self.key);
        s.append(" => ");
        s.append(self.description);
        s
    }
}

/// The three commands the banner announces, in display order.
pub fn commands() -> (r: Vec<Command>)
    ensures
        r@.len() == 3,
        r@[0].key@ == "'a'"@ && r@[0].description@ == "Add TODO"@,
        r@[1].key@ == "Enter"@ && r@[1].description@ == "Mark TODO as done"@,
        r@[2].key@ == "CTRL+'C'"@ && r@[2].description@ == "Exit program"@,
{
    let mut r: Vec<Command> = Vec::new();
    r.push(Command { key: "'a'", description: "Add TODO" });
    r.push(Command { key: "Enter", description: "Mark TODO as done" });
    r.push(Command { key: "CTRL+'C'", description: "Exit program" });
    r
}

} // verus!
