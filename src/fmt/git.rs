//! Formatting of information about a git repository.
use crate::env::git::{AheadBehind, ChangeSummary, Head, StatusSummary};
use crate::styling::{decimal_text, write_decimal, StyledWrite};
use vstd::prelude::*;
use vstd::string::StrSliceExecFns;

verus! {

/// The prefix of the references to local branches.
pub open spec fn branch_ref_prefix() -> Seq<char> {
    "refs/heads/"@
}

/// The name of the branch that `target` refers to: `target` without its prefix
/// `refs/heads/`, or `target` itself where it has no such prefix.
pub open spec fn branch_of(target: Seq<char>) -> Seq<char> {
    if target.len() >= branch_ref_prefix().len() && target.take(
        branch_ref_prefix().len() as int,
    ) == branch_ref_prefix() {
        target.skip(branch_ref_prefix().len() as int)
    } else {
        target
    }
}

/// The first six characters of `id`, or all of it where it is shorter.
pub open spec fn short_id(id: Seq<char>) -> Seq<char> {
    if id.len() < 6 {
        id
    } else {
        id.take(6)
    }
}

/// The text for counts of commits ahead and behind: each preceded by an arrow and
/// left out when zero, separated by a space; an identity sign when both are zero.
pub open spec fn ahead_behind_text(ahead_behind: AheadBehind) -> Seq<char> {
    let ahead = ahead_behind.ahead;
    let behind = ahead_behind.behind;
    if ahead == 0 && behind == 0 {
        "\u{2261}"@
    } else {
        (if ahead != 0 {
            "\u{2191}"@ + decimal_text(ahead as nat)
        } else {
            Seq::empty()
        }) + (if ahead != 0 && behind != 0 {
            " "@
        } else {
            Seq::empty()
        }) + (if behind != 0 {
            "\u{2193}"@ + decimal_text(behind as nat)
        } else {
            Seq::empty()
        })
    }
}

/// The text for HEAD: a symbol for its state followed by the branch name (with the
/// counts against the upstream, where they are known) or the short commit id.
pub open spec fn head_text(head: Head) -> Seq<char> {
    match head {
        Head::Unborn { target } => "\u{25cb}"@ + branch_of(target@),
        Head::Branch { name, upstream } => "\u{e0a0}"@ + name@ + match upstream {
            Ok(Some(ahead_behind)) => " "@ + ahead_behind_text(ahead_behind),
            _ => Seq::empty(),
        },
        Head::Commit(id) => "\u{25c9}"@ + short_id(id@),
    }
}

/// A count with its sign, or nothing when the count is zero; a space goes before it
/// when `preceded`.
pub open spec fn count_text(preceded: bool, sign: Seq<char>, count: usize) -> Seq<char> {
    if count == 0 {
        Seq::empty()
    } else {
        (if preceded {
            " "@
        } else {
            Seq::empty()
        }) + sign + decimal_text(count as nat)
    }
}

/// The text for a change summary: the counts of added, modified and deleted files,
/// preceded by `+`, `~` and `-`, separated by spaces, each left out when zero.
pub open spec fn change_summary_text(changes: ChangeSummary) -> Seq<char> {
    count_text(false, "+"@, changes.added) + count_text(changes.added != 0, "~"@, changes.modified)
        + count_text(changes.added != 0 || changes.modified != 0, "-"@, changes.deleted)
}

/// Whether a change summary has any change.
pub open spec fn has_changes(changes: ChangeSummary) -> bool {
    changes.added != 0 || changes.modified != 0 || changes.deleted != 0
}

/// The text for a status summary: the staged changes, then a bar and the changes in
/// the working tree, then `!` and the count of conflicted files; each part left out
/// when empty, and separated from what precedes it by a space.
pub open spec fn status_summary_text(status: StatusSummary) -> Seq<char> {
    let staged = has_changes(status.staging);
    let unstaged = has_changes(status.working_tree);
    (if staged {
        change_summary_text(status.staging)
    } else {
        Seq::empty()
    }) + (if unstaged {
        (if staged {
            " "@
        } else {
            Seq::empty()
        }) + "| "@ + change_summary_text(status.working_tree)
    } else {
        Seq::empty()
    }) + count_text(staged || unstaged, "!"@, status.conflicted)
}

fn strip_branch_prefix(target: &str) -> (r: &str)
    ensures
        r@ == branch_of(target@),
{
    let prefix = "refs/heads/";
    proof {
        reveal_strlit("refs/heads/");
    }
    let n = target.unicode_len();
    if n < 11 {
        return target;
    }
    let mut i: usize = 0;
    while i < 11
        invariant
            0 <= i <= 11,
            n == target@.len(),
            n >= 11,
            prefix@ == branch_ref_prefix(),
            prefix@.len() == 11,
            forall|k: int| 0 <= k < i ==> target@[k] == prefix@[k],
        decreases 11 - i,
    {
        if target.get_char(i) != prefix.get_char(i) {
            assert(target@.take(11)[i as int] != branch_ref_prefix()[i as int]);
            return target;
        }
        i += 1;
    }
    assert(target@.take(11) =~= branch_ref_prefix());
    target.substring_char(11, n)
}

/// Writes a short representation of HEAD: the name (for a branch or an unborn target)
/// or the short id (for a detached commit), after a symbol for HEAD's state, then for
/// a branch with a known upstream a space and [`write_ahead_behind`]'s text.
pub fn write_head<W: StyledWrite>(writer: &mut W, head: &Head) -> (r: Result<(), std::io::Error>)
    ensures
        final(writer).current_style() == old(writer).current_style(),
        final(writer).sink_never_fails() == old(writer).sink_never_fails(),
        final(writer).style_never_fails() == old(writer).style_never_fails(),
        old(writer).sink_never_fails() ==> r is Ok,
        r is Ok ==> final(writer).emitted() == old(writer).emitted() + head_text(*head),
{
    let ghost start = writer.emitted();
    match head {
        Head::Unborn { target } => {
            writer.write_str("\u{25cb}")?;
            let r = writer.write_str(strip_branch_prefix(target.as_str()));
            assert(r is Ok ==> writer.emitted() =~= start + head_text(*head));
            r
        },
        Head::Branch { name, upstream } => {
            writer.write_str("\u{e0a0}")?;
            writer.write_str(name.as_str())?;
            if let Ok(Some(ahead_behind)) = upstream {
                writer.write_str(" ")?;
                write_ahead_behind(writer, ahead_behind)?;
            }
            assert(writer.emitted() =~= start + head_text(*head));
            Ok(())
        },
        Head::Commit(id) => {
            writer.write_str("\u{25c9}")?;
            let n = id.as_str().unicode_len();
            let shown = if n < 6 {
                n
            } else {
                6
            };
            let r = writer.write_str(id.as_str().substring_char(0, shown));
            assert(r is Ok ==> writer.emitted() =~= start + head_text(*head));
            r
        },
    }
}

/// Writes counts of commits ahead and behind: each preceded by an arrow and left out
/// when zero; an identity sign when both are zero.
pub fn write_ahead_behind<W: StyledWrite>(writer: &mut W, ahead_behind: &AheadBehind) -> (r:
    Result<(), std::io::Error>)
    ensures
        final(writer).current_style() == old(writer).current_style(),
        final(writer).sink_never_fails() == old(writer).sink_never_fails(),
        final(writer).style_never_fails() == old(writer).style_never_fails(),
        old(writer).sink_never_fails() ==> r is Ok,
        r is Ok ==> final(writer).emitted() == old(writer).emitted() + ahead_behind_text(
            *ahead_behind,
        ),
{
    let ghost start = writer.emitted();
    if ahead_behind.ahead == 0 && ahead_behind.behind == 0 {
        writer.write_str("\u{2261}")?;
    } else {
        let mut is_preceded = false;
        if ahead_behind.ahead != 0 {
            writer.write_str("\u{2191}")?;
            write_decimal(writer, ahead_behind.ahead as u128)?;
            is_preceded = true;
        }
        assert(writer.emitted() =~= start + (if ahead_behind.ahead != 0 {
            "\u{2191}"@ + decimal_text(ahead_behind.ahead as nat)
        } else {
            Seq::empty()
        }));
        if ahead_behind.behind != 0 {
            if is_preceded {
                writer.write_str(" ")?;
            }
            writer.write_str("\u{2193}")?;
            write_decimal(writer, ahead_behind.behind as u128)?;
        }
    }
    assert(writer.emitted() =~= start + ahead_behind_text(*ahead_behind));
    Ok(())
}

/// Writes `sign` and `count` (after a space when `preceded`), or nothing when `count`
/// is zero.
fn write_count<W: StyledWrite>(writer: &mut W, preceded: bool, sign: &str, count: usize) -> (r:
    Result<(), std::io::Error>)
    ensures
        final(writer).current_style() == old(writer).current_style(),
        final(writer).sink_never_fails() == old(writer).sink_never_fails(),
        final(writer).style_never_fails() == old(writer).style_never_fails(),
        old(writer).sink_never_fails() ==> r is Ok,
        r is Ok ==> final(writer).emitted() == old(writer).emitted() + count_text(
            preceded,
            sign@,
            count,
        ),
{
    let ghost start = writer.emitted();
    if count != 0 {
        if preceded {
            writer.write_str(" ")?;
        }
        writer.write_str(sign)?;
        write_decimal(writer, count as u128)?;
    }
    assert(writer.emitted() =~= start + count_text(preceded, sign@, count));
    Ok(())
}

/// Writes a short representation of a status summary: the staged changes and the
/// changes in the working tree (after a bar `|`) as [`write_change_summary`] writes
/// them, then the count of conflicted files after `!`; empty parts are left out.
pub fn write_status_summary<W: StyledWrite>(writer: &mut W, status: &StatusSummary) -> (r:
    Result<(), std::io::Error>)
    ensures
        final(writer).current_style() == old(writer).current_style(),
        final(writer).sink_never_fails() == old(writer).sink_never_fails(),
        final(writer).style_never_fails() == old(writer).style_never_fails(),
        old(writer).sink_never_fails() ==> r is Ok,
        r is Ok ==> final(writer).emitted() == old(writer).emitted() + status_summary_text(
            *status,
        ),
{
    let ghost start = writer.emitted();
    let mut is_preceded = false;
    if status.staging.any_changes() {
        write_change_summary(writer, &status.staging)?;
        is_preceded = true;
    }
    if status.working_tree.any_changes() {
        if is_preceded {
            writer.write_str(" ")?;
        }
        writer.write_str("| ")?;
        write_change_summary(writer, &status.working_tree)?;
        is_preceded = true;
    }
    write_count(writer, is_preceded, "!", status.conflicted)?;
    assert(writer.emitted() =~= start + status_summary_text(*status));
    Ok(())
}

/// Writes a short representation of a change summary: the counts of added, modified
/// and deleted files preceded by `+`, `~` and `-`, each left out when zero.
pub fn write_change_summary<W: StyledWrite>(writer: &mut W, changes: &ChangeSummary) -> (r:
    Result<(), std::io::Error>)
    ensures
        final(writer).current_style() == old(writer).current_style(),
        final(writer).sink_never_fails() == old(writer).sink_never_fails(),
        final(writer).style_never_fails() == old(writer).style_never_fails(),
        old(writer).sink_never_fails() ==> r is Ok,
        r is Ok ==> final(writer).emitted() == old(writer).emitted() + change_summary_text(
            *changes,
        ),
{
    let ghost start = writer.emitted();
    write_count(writer, false, "+", changes.added)?;
    write_count(writer, changes.added != 0, "~", changes.modified)?;
    write_count(writer, changes.added != 0 || changes.modified != 0, "-", changes.deleted)?;
    assert(writer.emitted() =~= start + change_summary_text(*changes));
    Ok(())
}

} // verus!
