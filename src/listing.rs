//! The listing: one line for each top-level window.

use vstd::prelude::*;
use vstd::string::*;
use crate::render::{hex_text, push_digits};

verus! {

/// The line for the window `id` whose title is `title`; a window without a
/// title reads `No name`.
pub open spec fn line_text(id: u32, title: Option<Seq<char>>) -> Seq<char> {
    "Window ID: 0x"@ + hex_text(id as nat) + ", Name: "@ + match title {
        Some(t) => t,
        None => "No name"@,
    }
}

/// The text of an optional title.
pub open spec fn title_view(title: Option<String>) -> Option<Seq<char>> {
    match title {
        Some(s) => Some(s@),
        None => None,
    }
}

/// The line for the window `id` whose title is `title`.
pub fn window_line(id: u32, title: &Option<String>) -> (r: String)
    ensures
        r@ == line_text(id, title_view(*title)),
{
    let mut s = String::from_str("Window ID: 0x");
    push_digits(&mut s, id, 16);
    s.append(", Name: ");
    match title {
        Some(t) => s.append(t.as_str()),
        None => s.append("No name"),
    }
    assert(s@ =~= line_text(id, title_view(*title)));
    s
}

/// The listing of the windows, each with its title, in the order given:
/// exactly one line for each.
pub fn window_lines(windows: &Vec<(u32, Option<String>)>) -> (r: Vec<String>)
    ensures
        r.len() == windows.len(),
        forall|i: int|
            0 <= i < windows.len() ==> (#[trigger] r[i])@ == line_text(
                windows[i].0,
                title_view(windows[i].1),
            ),
{
    let mut lines: Vec<String> = Vec::new();
    let mut i: usize = 0;
    while i < windows.len()
        invariant
            i <= windows.len(),
            lines.len() == i,
            forall|j: int|
                0 <= j < i ==> (#[trigger] lines[j])@ == line_text(
                    windows[j].0,
                    title_view(windows[j].1),
                ),
        decreases windows.len() - i,
    {
        let (id, title) = &windows[i];
        lines.push(window_line(*id, title));
        i = i + 1;
    }
    lines
}

} // verus!
