//! Which names may become directories of task workspaces and clones.
use vstd::prelude::*;
use crate::domain::WorkItemId;
use crate::text::{ascii_alphanumeric, ascii_upper, ascii_upper_seq, chars_equal, chars_of, is_ascii_alphanumeric};
use super::error::WorkspaceError;

verus! {

/// Whether a name, compared without regard to ASCII case, is a device name that Windows reserves
/// in every directory: `CON`, `PRN`, `AUX`, `NUL`, `COM1`..`COM9` and `LPT1`..`LPT9`.
pub open spec fn is_reserved_windows_name(name: Seq<char>) -> bool {
    let upper = ascii_upper_seq(name);
    ||| upper == "CON"@
    ||| upper == "PRN"@
    ||| upper == "AUX"@
    ||| upper == "NUL"@
    ||| (upper.len() > 0 && (upper.drop_last() == "COM"@ || upper.drop_last() == "LPT"@) && '1'
        <= upper.last() && upper.last() <= '9')
}

/// The characters that a workspace directory name may hold.
pub open spec fn is_workspace_name_char(c: char) -> bool {
    is_ascii_alphanumeric(c) || c == '-' || c == '_'
}

/// Whether a work item identifier can name its workspace directory: it is not empty, holds only
/// ASCII letters, digits, `-` and `_`, and is no reserved device name.
pub open spec fn is_safe_workspace_name(name: Seq<char>) -> bool {
    &&& name.len() > 0
    &&& forall|i: int| 0 <= i < name.len() ==> is_workspace_name_char(#[trigger] name[i])
    &&& !is_reserved_windows_name(name)
}

/// The characters that a cloned directory name may hold.
pub open spec fn is_directory_component_char(c: char) -> bool {
    is_ascii_alphanumeric(c) || c == '-' || c == '_' || c == '.'
}

/// Whether a name can be one directory below a chosen parent: it is not empty, holds only ASCII
/// letters, digits, `-`, `_` and `.`, is neither `.` nor `..`, and is no reserved device name.
pub open spec fn is_safe_directory_name(name: Seq<char>) -> bool {
    &&& name.len() > 0
    &&& forall|i: int| 0 <= i < name.len() ==> is_directory_component_char(#[trigger] name[i])
    &&& name != seq!['.']
    &&& name != seq!['.', '.']
    &&& !is_reserved_windows_name(name)
}

fn upper_chars(name: &[char]) -> (r: Vec<char>)
    ensures
        r@ == ascii_upper_seq(name@),
{
    let mut r: Vec<char> = Vec::new();
    let mut i: usize = 0;
    while i < name.len()
        invariant
            i <= name@.len(),
            r@ == ascii_upper_seq(name@.subrange(0, i as int)),
        decreases name@.len() - i,
    {
        let c = name[i];
        let u = if 'a' <= c && c <= 'z' {
            ((c as u8) - 32) as char
        } else {
            c
        };
        assert(u == ascii_upper(c)) by {
            if 'a' <= c && c <= 'z' {
                assert((c as u8) as u32 == c as u32);
            }
        }
        r.push(u);
        i = i + 1;
        assert(ascii_upper_seq(name@.subrange(0, i as int)) =~= ascii_upper_seq(
            name@.subrange(0, i - 1),
        ).push(ascii_upper(name@[i - 1])));
    }
    assert(name@.subrange(0, name@.len() as int) =~= name@);
    r
}

/// Whether a name is a device name that Windows reserves, on every platform.
pub fn is_reserved_windows_directory_name(name: &str) -> (r: bool)
    ensures
        r == is_reserved_windows_name(name@),
{
    reserved_name(&chars_of(name))
}

fn reserved_name(name: &[char]) -> (r: bool)
    ensures
        r == is_reserved_windows_name(name@),
{
    let upper = upper_chars(name);
    let u = upper.as_slice();
    if chars_equal(u, &chars_of("CON")) || chars_equal(u, &chars_of("PRN")) || chars_equal(
        u,
        &chars_of("AUX"),
    ) || chars_equal(u, &chars_of("NUL")) {
        return true;
    }
    if upper.len() == 0 {
        return false;
    }
    let last = upper[upper.len() - 1];
    let mut head: Vec<char> = Vec::new();
    let mut i: usize = 0;
    while i < upper.len() - 1
        invariant
            upper@.len() > 0,
            i <= upper@.len() - 1,
            head@ == upper@.subrange(0, i as int),
        decreases upper@.len() - i,
    {
        head.push(upper[i]);
        i = i + 1;
    }
    assert(head@ =~= upper@.drop_last());
    (chars_equal(&head, &chars_of("COM")) || chars_equal(&head, &chars_of("LPT"))) && '1' <= last
        && last <= '9'
}

/// Whether a work item identifier can name its workspace directory.
pub fn is_safe_workspace_name_text(name: &[char]) -> (r: bool)
    ensures
        r == is_safe_workspace_name(name@),
{
    if name.len() == 0 {
        return false;
    }
    let mut i: usize = 0;
    while i < name.len()
        invariant
            i <= name@.len(),
            forall|j: int| 0 <= j < i ==> is_workspace_name_char(#[trigger] name@[j]),
        decreases name@.len() - i,
    {
        let c = name[i];
        if !(ascii_alphanumeric(c) || c == '-' || c == '_') {
            return false;
        }
        i = i + 1;
    }
    !reserved_name(name)
}

/// Whether a name can be one directory below a chosen parent.
pub fn is_safe_directory_component(name: &[char]) -> (r: bool)
    ensures
        r == is_safe_directory_name(name@),
{
    if name.len() == 0 {
        return false;
    }
    let mut i: usize = 0;
    while i < name.len()
        invariant
            i <= name@.len(),
            forall|j: int| 0 <= j < i ==> is_directory_component_char(#[trigger] name@[j]),
        decreases name@.len() - i,
    {
        let c = name[i];
        if !(ascii_alphanumeric(c) || c == '-' || c == '_' || c == '.') {
            return false;
        }
        i = i + 1;
    }
    let one_dot = vec!['.'];
    let two_dots = vec!['.', '.'];
    assert(one_dot@ =~= seq!['.']);
    assert(two_dots@ =~= seq!['.', '.']);
    if chars_equal(name, &one_dot) || chars_equal(name, &two_dots) {
        return false;
    }
    !reserved_name(name)
}

/// The directory name of a work item's workspace: its identifier, when that is safe.
pub fn workspace_name(work_item_id: &WorkItemId) -> (r: Result<String, WorkspaceError>)
    ensures
        r is Ok <==> is_safe_workspace_name(work_item_id@),
        r matches Ok(name) ==> name@ == work_item_id@,
        r matches Err(e) ==> e matches WorkspaceError::UnsafeWorkItemId { work_item_id: id }
            && id@ == work_item_id@,
{
    let name = chars_of(work_item_id.0.as_str());
    if !is_safe_workspace_name_text(&name) {
        return Err(WorkspaceError::UnsafeWorkItemId { work_item_id: work_item_id.clone() });
    }
    Ok(work_item_id.0.clone())
}

} // verus!
