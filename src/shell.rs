//! The decisions of the interactive menu, as a state machine: each line read
//! at a prompt moves the shell to its next prompt and says what to report.
//! Reading, printing and parsing amounts are left to the caller.
use vstd::prelude::*;
use crate::menu::{action_of, select, MenuAction};
use crate::store::{Bill, Bills};
use crate::text::is_blank;

verus! {

/// The prompt the shell waits at.
pub enum Prompt {
    Selection,
    AddName,
    AddAmount { name: String },
    RemoveName,
    UpdateName,
    UpdateAmount { name: String },
    Finished,
}

/// What the shell reports after a line.
#[derive(Clone, Copy, Debug, PartialEq, Eq, Structural)]
pub enum Reply {
    /// The program ends.
    Quit,
    /// Ask for the name of a new bill.
    AskNewName,
    /// List every bill and return to the menu.
    ShowBills,
    /// List every bill, then ask which one to remove.
    AskRemoveName,
    /// List every bill, then ask which one to update.
    AskUpdateName,
    /// Ask for an amount.
    AskAmount,
    /// The amount did not parse: ask again.
    NotANumber,
    /// A blank line ended the operation: back to the menu.
    Aborted,
    Added,
    Removed,
    Updated,
    NotFound,
}

/// The store together with the prompt the menu waits at.
pub struct Shell<A> {
    pub bills: Bills<A>,
    pub prompt: Prompt,
}

/// Whether the prompt belongs to an operation rather than to the main menu.
pub open spec fn in_operation(p: Prompt) -> bool {
    match p {
        Prompt::Selection | Prompt::Finished => false,
        _ => true,
    }
}

/// One move of the menu: from `prompt` and the store `m`, the normalised `line`
/// (with `amount`, the value it parses to, if any) gives the next prompt, the
/// next store and the report.
pub open spec fn next<A>(prompt: Prompt, m: Map<Seq<char>, A>, line: String, amount: Option<A>) -> (
    Prompt,
    Map<Seq<char>, A>,
    Reply,
) {
    let blank = line@.len() == 0;
    match prompt {
        Prompt::Finished => (Prompt::Finished, m, Reply::Quit),
        Prompt::Selection => match action_of(line@) {
            MenuAction::Add => (Prompt::AddName, m, Reply::AskNewName),
            MenuAction::View => (Prompt::Selection, m, Reply::ShowBills),
            MenuAction::Remove => (Prompt::RemoveName, m, Reply::AskRemoveName),
            MenuAction::Update => (Prompt::UpdateName, m, Reply::AskUpdateName),
            MenuAction::Quit => (Prompt::Finished, m, Reply::Quit),
        },
        _ => if blank {
            (Prompt::Selection, m, Reply::Aborted)
        } else {
            match prompt {
                Prompt::AddName => (Prompt::AddAmount { name: line }, m, Reply::AskAmount),
                Prompt::UpdateName => (Prompt::UpdateAmount { name: line }, m, Reply::AskAmount),
                Prompt::RemoveName => if m.contains_key(line@) {
                    (Prompt::Selection, m.remove(line@), Reply::Removed)
                } else {
                    (Prompt::Selection, m, Reply::NotFound)
                },
                Prompt::AddAmount { name } => match amount {
                    Some(v) => (Prompt::Selection, m.insert(name@, v), Reply::Added),
                    None => (Prompt::AddAmount { name }, m, Reply::NotANumber),
                },
                Prompt::UpdateAmount { name } => match amount {
                    Some(v) => if m.contains_key(name@) {
                        (Prompt::Selection, m.insert(name@, v), Reply::Updated)
                    } else {
                        (Prompt::Selection, m, Reply::NotFound)
                    },
                    None => (Prompt::UpdateAmount { name }, m, Reply::NotANumber),
                },
                _ => (prompt, m, Reply::Quit),
            }
        },
    }
}

/// The prompt and store after the lines `inputs` (each with the amount it
/// parses to, if any), taken one by one from `prompt` and `m`.
pub open spec fn run<A>(prompt: Prompt, m: Map<Seq<char>, A>, inputs: Seq<(String, Option<A>)>) -> (
    Prompt,
    Map<Seq<char>, A>,
)
    decreases inputs.len(),
{
    if inputs.len() == 0 {
        (prompt, m)
    } else {
        let (p, m2, _) = next(prompt, m, inputs[0].0, inputs[0].1);
        run(p, m2, inputs.drop_first())
    }
}

/// At an amount prompt, any number of lines that are not numbers followed by
/// a blank line lead back to the main menu with the store unchanged.
pub proof fn lemma_blank_ends_amount_prompt<A>(
    prompt: Prompt,
    m: Map<Seq<char>, A>,
    bad: Seq<String>,
    blank: String,
)
    requires
        prompt is AddAmount || prompt is UpdateAmount,
        forall|i: int| 0 <= i < bad.len() ==> (#[trigger] bad[i])@.len() > 0,
        blank@.len() == 0,
    ensures
        run(prompt, m, bad.map_values(|l: String| (l, None::<A>)).push((blank, None::<A>)))
            == (Prompt::Selection, m),
    decreases bad.len(),
{
    let inputs = bad.map_values(|l: String| (l, None::<A>)).push((blank, None::<A>));
    if bad.len() == 0 {
        assert(inputs[0] == (blank, None::<A>));
        assert(inputs.drop_first() =~= Seq::<(String, Option<A>)>::empty());
        assert(next(prompt, m, blank, None::<A>) == (Prompt::Selection, m, Reply::Aborted));
        assert(run(Prompt::Selection, m, inputs.drop_first()) == (Prompt::Selection, m));
    } else {
        let rest = bad.drop_first();
        assert(bad[0]@.len() > 0);
        assert(inputs[0] == (bad[0], None::<A>));
        assert(next(prompt, m, bad[0], None::<A>).0 == prompt);
        assert(next(prompt, m, bad[0], None::<A>).1 == m);
        assert(inputs.drop_first() =~= rest.map_values(|l: String| (l, None::<A>)).push(
            (blank, None::<A>),
        ));
        assert forall|i: int| 0 <= i < rest.len() implies (#[trigger] rest[i])@.len() > 0 by {
            assert(rest[i] == bad[i + 1]);
        }
        lemma_blank_ends_amount_prompt(prompt, m, rest, blank);
    }
}

impl<A> Shell<A> {
    /// A shell at the main menu with an empty store.
    pub fn new() -> (r: Self)
        ensures
            r.bills.wf(),
            r.bills@ == Map::<Seq<char>, A>::empty(),
            r.bills@.dom().finite(),
            r.prompt == Prompt::Selection,
    {
        Shell { bills: Bills::new(), prompt: Prompt::Selection }
    }

    /// Whether the shell waits for an amount, so that the caller should try to
    /// parse the next line as one.
    pub fn wants_amount(&self) -> (r: bool)
        ensures
            r == (self.prompt is AddAmount || self.prompt is UpdateAmount),
    {
        match self.prompt {
            Prompt::AddAmount { .. } | Prompt::UpdateAmount { .. } => true,
            _ => false,
        }
    }

    /// Whether the program has ended.
    pub fn is_finished(&self) -> (r: bool)
        ensures
            r == (self.prompt is Finished),
    {
        match self.prompt {
            Prompt::Finished => true,
            _ => false,
        }
    }

    /// Takes one normalised line, with the amount it parses to if any.
    /// A blank line ends the current operation and leaves the store as it was;
    /// at the main menu it ends the program.
    pub fn step(&mut self, line: String, amount: Option<A>) -> (r: Reply)
        requires
            old(self).bills.wf(),
        ensures
            final(self).bills.wf(),
            final(self).bills@.dom().finite(),
            (final(self).prompt, final(self).bills@, r) == next(
                old(self).prompt,
                old(self).bills@,
                line,
                amount,
            ),
            line@.len() == 0 && in_operation(old(self).prompt) ==> {
                &&& final(self).prompt == Prompt::Selection
                &&& final(self).bills@ == old(self).bills@
                &&& r == Reply::Aborted
            },
            line@.len() == 0 && old(self).prompt == Prompt::Selection ==> {
                &&& final(self).prompt == Prompt::Finished
                &&& final(self).bills@ == old(self).bills@
                &&& r == Reply::Quit
            },
    {
        proof {
            self.bills.lemma_finite();
        }
        let mut prompt = Prompt::Finished;
        core::mem::swap(&mut prompt, &mut self.prompt);
        proof {
            reveal_strlit("rupiah");
            reveal_strlit("dollar");
            reveal_strlit("rupee");
            reveal_strlit("yen");
        }
        match prompt {
            Prompt::Finished => Reply::Quit,
            Prompt::Selection => match select(&line) {
                MenuAction::Add => {
                    self.prompt = Prompt::AddName;
                    Reply::AskNewName
                },
                MenuAction::View => {
                    self.prompt = Prompt::Selection;
                    Reply::ShowBills
                },
                MenuAction::Remove => {
                    self.prompt = Prompt::RemoveName;
                    Reply::AskRemoveName
                },
                MenuAction::Update => {
                    self.prompt = Prompt::UpdateName;
                    Reply::AskUpdateName
                },
                MenuAction::Quit => Reply::Quit,
            },
            _ => if is_blank(&line) {
                self.prompt = Prompt::Selection;
                Reply::Aborted
            } else {
                match prompt {
                    Prompt::AddName => {
                        self.prompt = Prompt::AddAmount { name: line };
                        Reply::AskAmount
                    },
                    Prompt::UpdateName => {
                        self.prompt = Prompt::UpdateAmount { name: line };
                        Reply::AskAmount
                    },
                    Prompt::RemoveName => {
                        self.prompt = Prompt::Selection;
                        if self.bills.remove(line.as_str()) {
                            Reply::Removed
                        } else {
                            Reply::NotFound
                        }
                    },
                    Prompt::AddAmount { name } => match amount {
                        Some(v) => {
                            self.bills.add(Bill { name, amount: v });
                            self.prompt = Prompt::Selection;
                            Reply::Added
                        },
                        None => {
                            self.prompt = Prompt::AddAmount { name };
                            Reply::NotANumber
                        },
                    },
                    Prompt::UpdateAmount { name } => match amount {
                        Some(v) => {
                            self.prompt = Prompt::Selection;
                            if self.bills.update(name.as_str(), v) {
                                Reply::Updated
                            } else {
                                Reply::NotFound
                            }
                        },
                        None => {
                            self.prompt = Prompt::UpdateAmount { name };
                            Reply::NotANumber
                        },
                    },
                    _ => {
                        self.prompt = prompt;
                        Reply::Quit
                    },
                }
            },
        }
    }
}

} // verus!
