use vstd::prelude::*;
use vstd::string::*;
use crate::results::SearchResult;

verus! {

/// The longest primary line shown whole, in characters.
pub const PRIMARY_MAX: usize = 45;

/// The longest secondary line shown, in characters.
pub const SECONDARY_MAX: usize = 60;

/// A primary line as shown: over-long lines are cut and marked with "...".
pub open spec fn primary_line(l: Seq<char>) -> Seq<char> {
    if l.len() > PRIMARY_MAX {
        l.take(PRIMARY_MAX as int) + seq!['.', '.', '.']
    } else {
        l
    }
}

/// A secondary line as shown: over-long lines are cut, with no marker.
pub open spec fn secondary_line(l: Seq<char>) -> Seq<char> {
    if l.len() > SECONDARY_MAX {
        l.take(SECONDARY_MAX as int)
    } else {
        l
    }
}

pub fn clip_primary(line: &str) -> (r: String)
    ensures
        r@ == primary_line(line@),
{
    let n = line.unicode_len();
    if n > PRIMARY_MAX {
        let head = String::from_str(line.substring_char(0, PRIMARY_MAX));
        let r = head.concat("...");
        proof {
            reveal_strlit("...");
            assert(r@ =~= primary_line(line@));
        }
        r
    } else {
        String::from_str(line)
    }
}

pub fn clip_secondary(line: &str) -> (r: String)
    ensures
        r@ == secondary_line(line@),
{
    let n = line.unicode_len();
    if n > SECONDARY_MAX {
        String::from_str(line.substring_char(0, SECONDARY_MAX))
    } else {
        String::from_str(line)
    }
}

/// The primary and secondary text of a result: name first, but description
/// first for a result that stands for an existing window.
pub fn display_texts(item: &SearchResult) -> (r: (&String, &String))
    ensures
        item.windowed() ==> r.0 == &item.description && r.1 == &item.name,
        !item.windowed() ==> r.0 == &item.name && r.1 == &item.description,
{
    if item.window.is_some() {
        (&item.description, &item.name)
    } else {
        (&item.name, &item.description)
    }
}

/// The environment handed to a spawned program: the activation token under
/// both names that programs read, or nothing without a token.
pub fn spawn_envs(token: Option<String>) -> (r: Vec<(String, String)>)
    ensures
        token is None ==> r@.len() == 0,
        token is Some ==> r@.len() == 2
            && r@[0].0@ == "XDG_ACTIVATION_TOKEN"@ && r@[0].1@ == token.unwrap()@
            && r@[1].0@ == "DESKTOP_STARTUP_ID"@ && r@[1].1@ == token.unwrap()@,
{
    let mut r: Vec<(String, String)> = Vec::new();
    match token {
        Some(t) => {
            let t2 = t.clone();
            r.push((String::from_str("XDG_ACTIVATION_TOKEN"), t2));
            r.push((String::from_str("DESKTOP_STARTUP_ID"), t));
        },
        None => {},
    }
    r
}

/// Where the menu surface goes and how large it may grow.
#[derive(Debug, Clone, Copy, PartialEq, Eq)]
pub struct MenuPlacement {
    pub anchor_x: i32,
    pub anchor_y: i32,
    pub anchor_width: u32,
    pub anchor_height: u32,
    pub min_width: u32,
    pub max_width: u32,
    pub min_height: u32,
    pub max_height: u32,
}

/// The menu anchored at a 1x1 rectangle at the pointer, 1 to 300 wide and
/// 1 to 800 high.
pub fn menu_placement(x: i32, y: i32) -> (r: MenuPlacement)
    ensures
        r == (MenuPlacement {
            anchor_x: x,
            anchor_y: y,
            anchor_width: 1,
            anchor_height: 1,
            min_width: 1,
            max_width: 300,
            min_height: 1,
            max_height: 800,
        }),
{
    MenuPlacement {
        anchor_x: x,
        anchor_y: y,
        anchor_width: 1,
        anchor_height: 1,
        min_width: 1,
        max_width: 300,
        min_height: 1,
        max_height: 800,
    }
}

/// How the main surface sits: at the top edge, below a fixed margin, of
/// bounded width.
#[derive(Debug, Clone, Copy, PartialEq, Eq)]
pub struct MainPlacement {
    pub top_margin: u32,
    pub min_width: u32,
    pub max_width: u32,
    pub min_height: u32,
}

pub fn main_placement() -> (r: MainPlacement)
    ensures
        r == (MainPlacement { top_margin: 16, min_width: 1, max_width: 600, min_height: 1 }),
{
    MainPlacement { top_margin: 16, min_width: 1, max_width: 600, min_height: 1 }
}

} // verus!
