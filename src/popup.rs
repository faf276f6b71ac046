//! The local-changes popup: its hint line and the text of its slots.
use vstd::prelude::*;
use crate::format::{concat3, join, push_joined, push_str, string_views, to_owned_string};
use crate::git::{FileChange, RepoStatus};
use crate::regions::{region_hints, str_views, Region};

verus! {

/// The popup with its three slots (changes, change viewer, commit message).
pub struct CompartmentPopup;

/// The popup's hint line for the focused slot.
pub open spec fn spec_popup_hint(region: Region) -> Seq<char> {
    let own = region_hints(region);
    "Local changes  ·  "@ + join(
        if own.len() == 0 {
            seq!["[q] close"@]
        } else {
            seq!["[q] close"@, "|"@] + own
        },
        "  "@,
    )
}

/// The hint line at the top of the popup.
pub fn keys_hint_line(region: Region) -> (r: String)
    ensures
        r@ == spec_popup_hint(region),
{
    let mut parts: Vec<String> = vec![to_owned_string("[q] close")];
    let instructions = region.instructions();
    if instructions.len() > 0 {
        parts.push(to_owned_string("|"));
        let ghost start = string_views(parts@);
        let mut i: usize = 0;
        while i < instructions.len()
            invariant
                i <= instructions@.len(),
                string_views(parts@) == start + str_views(instructions@).take(i as int),
            decreases instructions@.len() - i,
        {
            let ghost before = string_views(parts@);
            parts.push(to_owned_string(instructions[i]));
            proof {
                assert(string_views(parts@) =~= before.push(instructions@[i as int]@));
                assert(str_views(instructions@).take(i + 1) =~= str_views(instructions@).take(
                    i as int,
                ).push(instructions@[i as int]@));
            }
            i = i + 1;
        }
        proof {
            assert(str_views(instructions@).take(i as int) =~= str_views(instructions@));
        }
    }
    let mut out = String::new();
    push_str(&mut out, "Local changes  ·  ");
    push_joined(&mut out, parts.as_slice(), "  ");
    assert(string_views(parts@) =~= (if region_hints(region).len() == 0 {
        seq!["[q] close"@]
    } else {
        seq!["[q] close"@, "|"@] + region_hints(region)
    }));
    assert(out@ =~= spec_popup_hint(region));
    out
}

/// The stage label of a change line.
pub fn change_line_label(change: &FileChange) -> (r: &'static str)
    ensures
        r@ == (if change.staged {
            "staged"@
        } else {
            "unstaged"@
        }),
{
    if change.staged {
        "staged"
    } else {
        "unstaged"
    }
}

/// The change viewer's text for the selected change.
pub fn change_viewer_text(status: &RepoStatus, selected_change: Option<usize>) -> (r: String)
    ensures
        r@ == (match selected_change {
            Some(i) => if i < status.changes@.len() {
                "Change view for "@ + status.changes@[i as int].path@ + " is not yet implemented"@
            } else {
                "Select a change to view"@
            },
            None => "Select a change to view"@,
        }),
{
    match selected_change {
        Some(i) => {
            if i < status.changes.len() {
                concat3(
                    "Change view for ",
                    status.changes[i].path.as_str(),
                    " is not yet implemented",
                )
            } else {
                to_owned_string("Select a change to view")
            }
        },
        None => to_owned_string("Select a change to view"),
    }
}

} // verus!
