//! The tool's fixed user-facing texts, and the reading of the destroy
//! confirmation answer.
//!
//! The driver prints these strings and feeds raw confirmation input through
//! [`interpret_answer`]; nothing here touches a terminal itself.

use vstd::prelude::*;

verus! {

/// The destroy confirmation question.
pub open spec fn destroy_prompt_spec() -> Seq<char> {
    "Are you sure you want to destroy 🔥 (and murder 🔪) this container and all of it's happy friends? "@
}

/// The warning shown before a container is destroyed.
pub fn destroy_prompt() -> (r: &'static str)
    ensures
        r@ == destroy_prompt_spec(),
{
    "Are you sure you want to destroy 🔥 (and murder 🔪) this container and all of it's happy friends? "
}

/// How one line of confirmation input is read: `"y"` and `"yes"` accept,
/// `"n"` and `"no"` decline, an empty line takes the default answer of no,
/// and anything else is not an answer (the driver asks again).
pub open spec fn answer_spec(line: Seq<char>) -> Option<bool> {
    if line == "y"@ || line == "yes"@ {
        Some(true)
    } else if line.len() == 0 || line == "n"@ || line == "no"@ {
        Some(false)
    } else {
        None
    }
}

/// Classify one line of confirmation input, already stripped of its line
/// ending. `Some(true)` accepts, `Some(false)` declines (the default for an
/// empty line), `None` means the line is no answer at all.
pub fn interpret_answer(line: &str) -> (r: Option<bool>)
    ensures
        r == answer_spec(line@),
{
    proof {
        reveal_strlit("y");
        reveal_strlit("yes");
        reveal_strlit("n");
        reveal_strlit("no");
    }
    let owned = line.to_owned();
    if owned == String::from_str("y") || owned == String::from_str("yes") {
        Some(true)
    } else if line.is_empty() || owned == String::from_str("n") || owned == String::from_str(
        "no",
    ) {
        Some(false)
    } else {
        None
    }
}

/// The banner printed when `new` has created, started and provisioned a
/// container.
pub open spec fn success_banner_spec(name: Seq<char>) -> Seq<char> {
    "✨✨✨ Container created and ready: "@ + name + " ✨✨✨"@
}

/// The banner printed when `new` has finished successfully, naming the
/// fresh container.
pub fn success_banner(name: &str) -> (r: String)
    ensures
        r@ == success_banner_spec(name@),
{
    let mut s = String::from_str("✨✨✨ Container created and ready: ");
    s.append(name);
    s.append(" ✨✨✨");
    s
}

/// The banner printed when `destroy` has stopped and removed a container.
pub open spec fn deleted_banner_spec(name: Seq<char>) -> Seq<char> {
    "Deleted container "@ + name + " 🔥🔥🔥"@
}

/// The message printed when `destroy` has finished, naming the removed
/// container.
pub fn deleted_banner(name: &str) -> (r: String)
    ensures
        r@ == deleted_banner_spec(name@),
{
    let mut s = String::from_str("Deleted container ");
    s.append(name);
    s.append(" 🔥🔥🔥");
    s
}

/// The greeting printed when `work` begins.
pub open spec fn work_banner_spec(name: Seq<char>) -> Seq<char> {
    "Look at you busy bee, let's get you ready working on ✨ "@ + name + " ✨"@
}

/// The greeting printed when `work` begins, naming the container.
pub fn work_banner(name: &str) -> (r: String)
    ensures
        r@ == work_banner_spec(name@),
{
    let mut s = String::from_str("Look at you busy bee, let's get you ready working on ✨ ");
    s.append(name);
    s.append(" ✨");
    s
}

/// The announcement printed when `new` begins; `cores` is the machine's
/// CPU count, already rendered as digits by the driver.
pub open spec fn creating_banner_spec(cores: Seq<char>) -> Seq<char> {
    "Creating a new container from scratch, with my bare "@ + cores + " cores!"@
}

/// The announcement printed when `new` begins.
pub fn creating_banner(cores: &str) -> (r: String)
    ensures
        r@ == creating_banner_spec(cores@),
{
    let mut s = String::from_str("Creating a new container from scratch, with my bare ");
    s.append(cores);
    s.append(" cores!");
    s
}

} // verus!
