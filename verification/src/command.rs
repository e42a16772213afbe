//! The external command behind each edge, and what became of running it.

use crate::setting::{spec_transition, transition, Direction};
use vstd::prelude::*;
use vstd::string::StringExecFns;

verus! {

/// One run of an external program: its name and its arguments, in order.
#[derive(Clone, Debug, PartialEq, Eq)]
pub struct Invocation {
    pub program: String,
    pub args: Vec<String>,
}

/// What an [`Invocation`] is in specifications.
pub struct InvocationView {
    pub program: Seq<char>,
    pub args: Seq<Seq<char>>,
}

impl View for Invocation {
    type V = InvocationView;

    open spec fn view(&self) -> InvocationView {
        InvocationView {
            program: self.program@,
            args: self.args@.map_values(|arg: String| arg@),
        }
    }
}

/// The value that the setting receives for a direction.
pub open spec fn spec_value(direction: Direction) -> Seq<char> {
    match direction {
        Direction::ToNonEmpty => "@as []"@,
        Direction::ToEmpty => "['ctrl:swapcaps']"@,
    }
}

/// The command that applies the setting for a direction: always the same
/// program, verb and key, and a value that depends on the direction alone.
pub open spec fn spec_invocation(direction: Direction) -> InvocationView {
    InvocationView {
        program: "dconf"@,
        args: seq![
            "write"@,
            "/org/gnome/desktop/input-sources/xkb-options"@,
            spec_value(direction),
        ],
    }
}

/// The command to run for an edge in the given direction.
pub fn invocation(direction: Direction) -> (command: Invocation)
    ensures
        command@ == spec_invocation(direction),
{
    let value = match direction {
        Direction::ToNonEmpty => "@as []",
        Direction::ToEmpty => "['ctrl:swapcaps']",
    };
    let mut args: Vec<String> = Vec::new();
    args.push(String::from_str("write"));
    args.push(String::from_str("/org/gnome/desktop/input-sources/xkb-options"));
    args.push(String::from_str(value));
    let command = Invocation { program: String::from_str("dconf"), args };
    assert(command@.args =~= spec_invocation(direction).args);
    command
}

/// The command to run, if any, after an event that found the presence set
/// empty or not (`was_empty`) and left it empty or not (`is_empty`). Where
/// the two agree nothing is to be run.
pub fn change_setting(was_empty: bool, is_empty: bool) -> (command: Option<Invocation>)
    ensures
        match spec_transition(was_empty, is_empty) {
            Some(direction) => command is Some && command->0@ == spec_invocation(direction),
            None => command is None,
        },
{
    match transition(was_empty, is_empty) {
        Some(direction) => Some(invocation(direction)),
        None => None,
    }
}

} // verus!
