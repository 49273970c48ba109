//! The clock: the local time rendered through a strftime pattern.

use std::fmt::Write;
use vstd::prelude::*;

verus! {

/// Pattern of the bar's clock: weekday, day, month, hours and minutes.
pub const DEFAULT_PATTERN: &'static str = "%a %d %b %H:%M";

/// Width of what a specifier renders, for the specifiers whose width is
/// fixed.
pub open spec fn specifier_width(c: char) -> Option<nat> {
    if c == 'a' || c == 'b' || c == 'h' {
        Some(3)
    } else if c == 'd' || c == 'm' || c == 'H' || c == 'M' || c == 'S' || c == 'y' {
        Some(2)
    } else if c == '%' {
        Some(1)
    } else {
        None
    }
}

/// How many characters a pattern renders to at any moment, when every
/// specifier in it has a fixed width; `None` otherwise.
pub open spec fn rendered_width(p: Seq<char>) -> Option<nat>
    decreases p.len(),
{
    if p.len() == 0 {
        Some(0)
    } else if p[0] == '%' {
        if p.len() < 2 {
            None
        } else {
            match (specifier_width(p[1]), rendered_width(p.subrange(2, p.len() as int))) {
                (Some(a), Some(b)) => Some(a + b),
                _ => None,
            }
        }
    } else {
        match rendered_width(p.drop_first()) {
            Some(b) => Some(b + 1),
            None => None,
        }
    }
}

/// Whether a pattern holds no specifier at all.
pub open spec fn no_specifier(p: Seq<char>) -> bool {
    forall|i: int| 0 <= i < p.len() ==> p[i] != '%'
}

proof fn lemma_plain_width(p: Seq<char>)
    requires
        no_specifier(p),
    ensures
        rendered_width(p) == Some(p.len()),
    decreases p.len(),
{
    if p.len() > 0 {
        assert(no_specifier(p.drop_first())) by {
            assert forall|i: int| 0 <= i < p.drop_first().len() implies p.drop_first()[i] != '%' by {
                assert(p.drop_first()[i] == p[i + 1]);
            }
        }
        lemma_plain_width(p.drop_first());
    }
}

/// Relies on chrono's `Local::now` and `DateTime::format`: the local time
/// at the call rendered through a strftime pattern, `None` when chrono
/// reports an item it cannot render. Whatever the moment, text outside
/// specifiers is copied, `%a`, `%b` and `%h` render three letters, `%d`,
/// `%m`, `%H`, `%M`, `%S` and `%y` two digits, and `%%` one `%`; a
/// pattern without specifiers renders as itself.
#[verifier::external_body]
fn render_local_now(pattern: &str) -> (r: Option<String>)
    ensures
        r is None ==> rendered_width(pattern@) is None,
        r matches Some(s) ==> (rendered_width(pattern@) matches Some(w) ==> s@.len() == w),
        r matches Some(s) ==> (no_specifier(pattern@) ==> s@ == pattern@),
{
    let mut out = String::new();
    match write!(out, "{}", chrono::Local::now().format(pattern)) {
        Ok(()) => Some(out),
        Err(_) => None,
    }
}

/// The local time now rendered through `pattern`; empty when the pattern
/// holds an item that cannot be rendered. Text without specifiers is
/// returned as it is.
pub fn format_local(pattern: &str) -> (r: String)
    ensures
        rendered_width(pattern@) matches Some(w) ==> r@.len() == w,
        no_specifier(pattern@) ==> r@ == pattern@,
{
    proof {
        if no_specifier(pattern@) {
            lemma_plain_width(pattern@);
        }
    }
    match render_local_now(pattern) {
        Some(s) => s,
        None => String::new(),
    }
}

/// The local time now in the clock's pattern, sixteen characters long.
pub fn format_local_default() -> (r: String)
    ensures
        r@.len() == 16,
{
    proof {
        reveal_strlit("%a %d %b %H:%M");
        let p = DEFAULT_PATTERN@;
        assert(p.subrange(2, 14).drop_first().subrange(2, 11).drop_first().subrange(2, 8).drop_first().subrange(2, 5).drop_first().subrange(2, 2).len() == 0);
        reveal_with_fuel(rendered_width, 16);
        assert(rendered_width(p) == Some(16nat));
    }
    format_local(DEFAULT_PATTERN)
}

} // verus!
