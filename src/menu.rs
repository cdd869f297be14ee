//! The main menu's selection: four recognised words, each naming one action.
use vstd::prelude::*;
use crate::text::{normal_form, normalize_line};

verus! {

/// The four selection words of the main menu.
#[derive(Clone, Copy, Debug, PartialEq, Eq, Structural)]
pub enum Currency {
    Rupiah,
    Dollar,
    Rupee,
    Yen,
}

/// What the main menu does next.
#[derive(Clone, Copy, Debug, PartialEq, Eq, Structural)]
pub enum MenuAction {
    Add,
    View,
    Remove,
    Update,
    Quit,
}

/// The selection word that a normalised line spells, if any.
pub open spec fn currency_of(s: Seq<char>) -> Option<Currency> {
    if s == "rupiah"@ {
        Some(Currency::Rupiah)
    } else if s == "dollar"@ {
        Some(Currency::Dollar)
    } else if s == "rupee"@ {
        Some(Currency::Rupee)
    } else if s == "yen"@ {
        Some(Currency::Yen)
    } else {
        None
    }
}

/// The action a selection word stands for.
pub open spec fn action_for(c: Currency) -> MenuAction {
    match c {
        Currency::Dollar => MenuAction::Add,
        Currency::Rupee => MenuAction::View,
        Currency::Rupiah => MenuAction::Remove,
        Currency::Yen => MenuAction::Update,
    }
}

/// The action of a normalised line at the main menu: a blank or unrecognised
/// line quits.
pub open spec fn action_of(s: Seq<char>) -> MenuAction {
    match currency_of(s) {
        Some(c) => action_for(c),
        None => MenuAction::Quit,
    }
}

/// Whether `e` spells exactly `word`.
fn spells(e: &String, word: &str) -> (r: bool)
    ensures
        r == (e@ == word@),
{
    *e == word.to_owned()
}

/// The selection word that a normalised line spells exactly, if any.
fn word_of(line: &String) -> (r: Option<Currency>)
    ensures
        r == currency_of(line@),
{
    if spells(line, "rupiah") {
        Some(Currency::Rupiah)
    } else if spells(line, "dollar") {
        Some(Currency::Dollar)
    } else if spells(line, "rupee") {
        Some(Currency::Rupee)
    } else if spells(line, "yen") {
        Some(Currency::Yen)
    } else {
        None
    }
}

impl Currency {
    /// Reads a selection word, ignoring case and surrounding whitespace.
    pub fn convert_str(e: String) -> (r: Result<Currency, String>)
        ensures
            r is Err <==> currency_of(normal_form(e@)) is None,
            match r {
                Ok(c) => currency_of(normal_form(e@)) == Some(c),
                Err(msg) => msg@ == "tidak terdaftar"@,
            },
    {
        let line = normalize_line(e.as_str());
        match word_of(&line) {
            Some(c) => Ok(c),
            None => Err("tidak terdaftar".to_owned()),
        }
    }

    /// The action this selection word stands for.
    pub fn action(self) -> (r: MenuAction)
        ensures
            r == action_for(self),
    {
        match self {
            Currency::Dollar => MenuAction::Add,
            Currency::Rupee => MenuAction::View,
            Currency::Rupiah => MenuAction::Remove,
            Currency::Yen => MenuAction::Update,
        }
    }
}

/// The action chosen by a normalised line at the main menu.
pub fn select(line: &String) -> (r: MenuAction)
    ensures
        r == action_of(line@),
{
    match word_of(line) {
        Some(c) => c.action(),
        None => MenuAction::Quit,
    }
}

} // verus!
