//! The panels that can hold keyboard focus.
use vstd::prelude::*;

verus! {

/// A panel of the dashboard or of the local-changes popup.
#[derive(Debug, Clone, Copy, PartialEq, Eq, Structural)]
pub enum Region {
    Commits,
    Details,
    Branches,
    Stashes,
    Changes,
    ChangeViewer,
    CommitMessage,
}

/// The colour of a panel's frame.
#[derive(Debug, Clone, Copy, PartialEq, Eq, Structural)]
pub enum PanelColor {
    Green,
    Yellow,
}

impl Default for Region {
    fn default() -> (r: Region)
        ensures
            r == Region::Commits,
    {
        Region::Commits
    }
}

/// The label shown in a region's title.
pub open spec fn region_label(r: Region) -> Seq<char> {
    match r {
        Region::Commits => "[c] Commits"@,
        Region::Branches => "[b] Branches"@,
        Region::Details => "[d] Details"@,
        Region::Stashes => "[s] Stashes"@,
        Region::Changes => "[c] Changes"@,
        Region::ChangeViewer => "[v] Change viewer"@,
        Region::CommitMessage => "[m] Commit message"@,
    }
}

/// The key hints of a region.
pub open spec fn region_hints(r: Region) -> Seq<Seq<char>> {
    match r {
        Region::Branches => seq![
            "[↑↓] move"@,
            "[Enter] checkout"@,
            "[u] update"@,
            "[p] push"@,
            "[a] add"@,
            "[x] delete"@,
        ],
        Region::Commits => seq!["[↑↓] move"@],
        Region::Changes => seq!["[↑↓] move"@, "[Enter] stage/unstage"@, "[x] discard"@],
        Region::CommitMessage => seq!["[Enter] commit"@, "[Esc] stop"@],
        _ => seq![],
    }
}

/// The text of each hint.
pub open spec fn str_views(s: Seq<&str>) -> Seq<Seq<char>> {
    s.map_values(|x: &str| x@)
}

impl Region {
    /// The region's title label.
    pub fn as_str(&self) -> (r: &'static str)
        ensures
            r@ == region_label(*self),
    {
        match self {
            Region::Commits => "[c] Commits",
            Region::Branches => "[b] Branches",
            Region::Details => "[d] Details",
            Region::Stashes => "[s] Stashes",
            Region::Changes => "[c] Changes",
            Region::ChangeViewer => "[v] Change viewer",
            Region::CommitMessage => "[m] Commit message",
        }
    }

    /// The key hints shown while the region has focus.
    pub fn instructions(&self) -> (r: Vec<&'static str>)
        ensures
            str_views(r@) == region_hints(*self),
    {
        let r = match self {
            Region::Branches => vec![
                "[↑↓] move",
                "[Enter] checkout",
                "[u] update",
                "[p] push",
                "[a] add",
                "[x] delete",
            ],
            Region::Commits => vec!["[↑↓] move"],
            Region::Changes => vec!["[↑↓] move", "[Enter] stage/unstage", "[x] discard"],
            Region::CommitMessage => vec!["[Enter] commit", "[Esc] stop"],
            Region::Details | Region::Stashes | Region::ChangeViewer => Vec::new(),
        };
        assert(str_views(r@) =~= region_hints(*self));
        r
    }

    /// The frame colour: green with focus, yellow without.
    pub fn color(&self, is_selected: bool) -> (r: PanelColor)
        ensures
            r == (if is_selected {
                PanelColor::Green
            } else {
                PanelColor::Yellow
            }),
    {
        if is_selected {
            PanelColor::Green
        } else {
            PanelColor::Yellow
        }
    }
}

} // verus!
