//! Diff previews of file-writing approval cards.
use crate::project_diff::{build_text_diff_preview, text_diff, ProjectDiffPreview, ProjectDiffPreviewView};
use crate::json::{get_str, str_field, JsonValue};
use crate::text::{decimal, is_blank, is_blank_str, owned, push_decimal};
use vstd::prelude::*;

verus! {

broadcast use vstd::string::group_string_axioms;

/// The diff that an approval card would apply.
#[derive(Clone, Debug, PartialEq, Eq)]
pub struct ApprovalDiffPreview {
    pub approval_id: String,
    pub tool_name: String,
    pub path: String,
    pub diff: ProjectDiffPreview,
}

/// What an approval card holds that a diff preview needs: its ids, whether
/// its tool writes files, and the preview of its call's arguments.
#[derive(Debug, PartialEq, Eq)]
pub struct ApprovalCardArguments {
    pub id: String,
    pub tool_name: String,
    pub writes_files: bool,
    pub argument_preview: JsonValue,
}

/// The first non-blank string argument among `keys`, in the order of `keys`.
pub open spec fn first_arg(args: JsonValue, keys: Seq<Seq<char>>) -> Option<Seq<char>>
    decreases keys.len(),
{
    if keys.len() == 0 {
        None
    } else {
        match str_field(args, keys[0]) {
            Some(v) => if !is_blank(v) { Some(v) } else { first_arg(args, keys.drop_first()) },
            None => first_arg(args, keys.drop_first()),
        }
    }
}

/// The first non-blank string argument among `keys`.
pub fn first_string_arg(args: &JsonValue, keys: &Vec<&str>) -> (r: Option<String>)
    ensures
        crate::agent_timeline::opt_view(r) == first_arg(*args, keys@.map_values(|k: &str| k@)),
{
    let ghost kv = keys@.map_values(|k: &str| k@);
    let mut i: usize = 0;
    assert(kv.skip(0) == kv);
    while i < keys.len()
        invariant
            i <= keys.len(),
            kv == keys@.map_values(|k: &str| k@),
            first_arg(*args, kv) == first_arg(*args, kv.skip(i as int)),
        decreases keys.len() - i,
    {
        assert(kv.skip(i as int)[0] == keys@[i as int]@);
        assert(kv.skip(i as int).drop_first() == kv.skip(i + 1));
        match get_str(args, keys[i]) {
            Some(v) => {
                if !is_blank_str(v) {
                    return Some(owned(v));
                }
            },
            None => {},
        }
        i = i + 1;
    }
    None
}

/// The argument names under which a write names its file, new content and old content.
pub open spec fn path_keys() -> Seq<Seq<char>> {
    seq!["path"@, "file"@, "file_path"@, "relative_path"@, "target_path"@]
}

/// The argument names of the new content.
pub open spec fn after_keys() -> Seq<Seq<char>> {
    seq!["content"@, "new_content"@, "after"@, "replacement"@, "text"@]
}

/// The argument names of the old content.
pub open spec fn before_keys() -> Seq<Seq<char>> {
    seq!["before"@, "old_content"@, "current_content"@]
}

/// The preview of a file-writing card: its path and new content must be
/// given; missing old content counts as empty.
pub open spec fn approval_preview_spec(card: ApprovalCardArguments) -> Option<(Seq<char>, ProjectDiffPreviewView)> {
    let args = card.argument_preview;
    if !card.writes_files {
        None
    } else {
        match (first_arg(args, path_keys()), first_arg(args, after_keys())) {
            (Some(path), Some(after)) => {
                let before = match first_arg(args, before_keys()) {
                    Some(b) => b,
                    None => Seq::empty(),
                };
                Some((path, text_diff(path, before, after)))
            },
            _ => None,
        }
    }
}

/// The diff preview of a file-writing approval card.
pub fn build_approval_diff_preview(card: &ApprovalCardArguments) -> (r: Option<ApprovalDiffPreview>)
    ensures
        match r {
            Some(p) => approval_preview_spec(*card) == Some((p.path@, p.diff@)) && p.approval_id@
                == card.id@ && p.tool_name@ == card.tool_name@,
            None => approval_preview_spec(*card) is None,
        },
{
    if !card.writes_files {
        return None;
    }
    let pk = vec!["path", "file", "file_path", "relative_path", "target_path"];
    assert(pk@.map_values(|k: &str| k@) =~= path_keys());
    let path = match first_string_arg(&card.argument_preview, &pk) {
        Some(p) => p,
        None => return None,
    };
    let ak = vec!["content", "new_content", "after", "replacement", "text"];
    assert(ak@.map_values(|k: &str| k@) =~= after_keys());
    let after = match first_string_arg(&card.argument_preview, &ak) {
        Some(a) => a,
        None => return None,
    };
    let bk = vec!["before", "old_content", "current_content"];
    assert(bk@.map_values(|k: &str| k@) =~= before_keys());
    let before = match first_string_arg(&card.argument_preview, &bk) {
        Some(b) => b,
        None => String::new(),
    };
    let diff = build_text_diff_preview(path.as_str(), before.as_str(), after.as_str());
    Some(ApprovalDiffPreview {
        approval_id: card.id.clone(),
        tool_name: card.tool_name.clone(),
        path,
        diff,
    })
}

/// `path · tool · +added / -removed`.
pub fn approval_diff_summary(preview: &ApprovalDiffPreview) -> (r: String)
    ensures
        r@ == preview.path@ + " · "@ + preview.tool_name@ + " · +"@ + decimal(
            preview.diff.added_lines as nat,
        ) + " / -"@ + decimal(preview.diff.removed_lines as nat),
{
    let mut s = preview.path.clone();
    s.append(" · ");
    s.append(preview.tool_name.as_str());
    s.append(" · +");
    push_decimal(&mut s, preview.diff.added_lines as u128);
    s.append(" / -");
    push_decimal(&mut s, preview.diff.removed_lines as u128);
    s
}

} // verus!
