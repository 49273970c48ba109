//! The keyboard layout indicator.

use vstd::prelude::*;
use crate::text::{contains_text, lower_of, lowercase, occurs_in, owned};

verus! {

/// A keyboard as the compositor lists it.
pub struct Keyboard {
    pub main: bool,
    pub active_keymap: String,
}

#[derive(Clone, Copy, Debug, PartialEq, Eq, Structural)]
pub enum LayoutError {
    NoMainKeyboard,
}

/// Index of the first main keyboard.
pub open spec fn first_main(ks: Seq<Keyboard>, n: int) -> Option<int>
    decreases n,
{
    if n <= 0 {
        None
    } else {
        match first_main(ks, n - 1) {
            Some(i) => Some(i),
            None => if ks[n - 1].main {
                Some(n - 1)
            } else {
                None
            },
        }
    }
}

/// The text shown for a layout: the Russian flag for a Russian layout, the
/// US flag for an English one, else the layout's own name. Layout names are
/// matched in lowercase.
pub open spec fn flag_for(layout: Seq<char>) -> Seq<char> {
    let l = lower_of(layout);
    if occurs_in(l, "ru"@) || occurs_in(l, "russian"@) || occurs_in(l, "русск"@) {
        "🇷🇺"@
    } else if occurs_in(l, "us"@) || occurs_in(l, "english"@) || occurs_in(l, "en"@) {
        "🇺🇸"@
    } else {
        layout
    }
}

/// The active keymap of the first main keyboard.
pub fn get_current_layout(keyboards: &Vec<Keyboard>) -> (r: Result<String, LayoutError>)
    ensures
        match first_main(keyboards@, keyboards@.len() as int) {
            Some(i) => r matches Ok(s) && s@ == keyboards@[i].active_keymap@,
            None => r == Err::<String, LayoutError>(LayoutError::NoMainKeyboard),
        },
{
    let mut i: usize = 0;
    while i < keyboards.len()
        invariant
            i <= keyboards@.len(),
            first_main(keyboards@, i as int) is None,
        decreases keyboards@.len() - i,
    {
        if keyboards[i].main {
            proof {
                lemma_first_main_stays(keyboards@, i as int + 1, keyboards@.len() as int);
            }
            return Ok(owned(keyboards[i].active_keymap.as_str()));
        }
        i = i + 1;
    }
    Err(LayoutError::NoMainKeyboard)
}

proof fn lemma_first_main_stays(ks: Seq<Keyboard>, m: int, n: int)
    requires
        0 < m <= n,
        first_main(ks, m) is Some,
    ensures
        first_main(ks, n) == first_main(ks, m),
    decreases n - m,
{
    if n > m {
        lemma_first_main_stays(ks, m, n - 1);
    }
}

/// The indicator text for a layout name.
pub fn layout_flag(layout: &str) -> (r: String)
    ensures
        r@ == flag_for(layout@),
{
    let l = lowercase(layout);
    let ls = l.as_str();
    if contains_text(ls, "ru") || contains_text(ls, "russian") || contains_text(ls, "русск") {
        owned("🇷🇺")
    } else if contains_text(ls, "us") || contains_text(ls, "english") || contains_text(ls, "en") {
        owned("🇺🇸")
    } else {
        owned(layout)
    }
}

/// The indicator text for the layout of the first main keyboard.
pub fn get_layout_flag(keyboards: &Vec<Keyboard>) -> (r: Result<String, LayoutError>)
    ensures
        match first_main(keyboards@, keyboards@.len() as int) {
            Some(i) => r matches Ok(s) && s@ == flag_for(keyboards@[i].active_keymap@),
            None => r == Err::<String, LayoutError>(LayoutError::NoMainKeyboard),
        },
{
    match get_current_layout(keyboards) {
        Ok(layout) => Ok(layout_flag(layout.as_str())),
        Err(e) => Err(e),
    }
}

} // verus!
