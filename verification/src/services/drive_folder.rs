//! Drive folders: moving them without making a loop, and the statement
//! that changes one.
use vstd::prelude::*;
use crate::error::{AppError, ErrorKind, err};
use crate::text::{join, join_strings, string_views, escape_quotes, escape_sql_quotes, str_eq};

verus! {

/// Folder operations; they take the application state as an argument and
/// keep none of their own.
#[derive(Clone, Copy, Debug)]
pub struct DriveFolderService;

/// A folder may not become its own parent.
pub fn check_not_own_parent(folder_id: &str, parent_id: &Option<Option<String>>) -> (r: Result<(), AppError>)
    ensures
        r is Ok <==> !(parent_id matches Some(Some(p)) && p@ == folder_id@),
        r matches Err(e) ==> e.is(ErrorKind::Validation, "Cannot set parent to self"@),
{
    match parent_id {
        Some(Some(p)) => {
            if str_eq(p.as_str(), folder_id) {
                return Err(err(ErrorKind::Validation, "Cannot set parent to self"));
            }
            Ok(())
        },
        _ => Ok(()),
    }
}

/// One step of the walk that looks for a loop: the walk goes up from the
/// new parent through the stored parents and finds a loop when it reaches
/// the folder's current parent.
#[derive(Clone, Debug)]
pub enum LoopStep {
    /// The walk reached the current parent.
    Loop,
    /// The walk reached a folder without a parent.
    NoLoop,
    /// Look up this folder's parent next.
    Visit(String),
}

/// Where the walk stands at `candidate`.
pub fn loop_check_start(candidate: &str, current_parent: &str) -> (r: LoopStep)
    ensures
        candidate@ == current_parent@ ==> r is Loop,
        candidate@ != current_parent@ ==> (r matches LoopStep::Visit(c) && c@ == candidate@),
{
    if str_eq(candidate, current_parent) {
        LoopStep::Loop
    } else {
        LoopStep::Visit(String::from_str(candidate))
    }
}

/// The next step once the candidate's stored parent (if any) is known.
pub fn loop_check_next(parent_of_candidate: &Option<String>, current_parent: &str) -> (r: LoopStep)
    ensures
        parent_of_candidate is None ==> r is NoLoop,
        (parent_of_candidate matches Some(p) && p@ == current_parent@) ==> r is Loop,
        (parent_of_candidate matches Some(p) && p@ != current_parent@) ==> (r matches LoopStep::Visit(c)
            && c@ == parent_of_candidate.unwrap()@),
{
    match parent_of_candidate {
        None => LoopStep::NoLoop,
        Some(p) => loop_check_start(p.as_str(), current_parent),
    }
}

/// The assignments of a folder change: the name (written as the code does,
/// `name = '` and the escaped name with no closing quote), the parent
/// (`'{id}'`, or `NONE` to move to the root) and the update time.
pub open spec fn folder_assignments(name: Option<Seq<char>>, parent: Option<Option<Seq<char>>>) -> Seq<Seq<char>> {
    (match name {
        Some(n) => seq!["name = '"@ + escape_quotes(n)],
        None => Seq::empty(),
    }) + (match parent {
        Some(Some(p)) => seq!["parent_id = "@ + "'"@ + p + "'"@],
        Some(None) => seq!["parent_id = "@ + "NONE"@],
        None => Seq::empty(),
    }) + seq!["updated_at = time::now()"@]
}

/// The text of an optional string.
pub open spec fn opt_text(o: Option<String>) -> Option<Seq<char>> {
    match o {
        Some(s) => Some(s@),
        None => None,
    }
}

/// The text of an optional move.
pub open spec fn opt_move(o: Option<Option<String>>) -> Option<Option<Seq<char>>> {
    match o {
        Some(Some(s)) => Some(Some(s@)),
        Some(None) => Some(None),
        None => None,
    }
}

/// The statement that changes folder `folder_id`.
pub fn folder_update_query(folder_id: &str, name: &Option<String>, parent_id: &Option<Option<String>>) -> (r: String)
    ensures
        r@ == "UPDATE drive_folder:"@ + folder_id@ + " SET "@ + join(
            folder_assignments(opt_text(*name), opt_move(*parent_id)),
            ", "@,
        ),
{
    let mut parts: Vec<String> = Vec::new();
    if let Some(n) = name {
        let mut a = String::from_str("name = '");
        let e = escape_sql_quotes(n.as_str());
        a.append(e.as_str());
        parts.push(a);
    }
    let ghost p1 = string_views(parts@);
    match parent_id {
        Some(Some(p)) => {
            let mut a = String::from_str("parent_id = ");
            a.append("'");
            a.append(p.as_str());
            a.append("'");
            parts.push(a);
        },
        Some(None) => {
            let mut a = String::from_str("parent_id = ");
            a.append("NONE");
            parts.push(a);
        },
        None => {},
    }
    let ghost p2 = string_views(parts@);
    assert(p2 =~= p1 + match opt_move(*parent_id) {
        Some(Some(p)) => seq!["parent_id = "@ + "'"@ + p + "'"@],
        Some(None) => seq!["parent_id = "@ + "NONE"@],
        None => Seq::<Seq<char>>::empty(),
    });
    parts.push(String::from_str("updated_at = time::now()"));
    assert(string_views(parts@) =~= folder_assignments(opt_text(*name), opt_move(*parent_id)));
    let mut q = String::from_str("UPDATE drive_folder:");
    q.append(folder_id);
    q.append(" SET ");
    let body = join_strings(&parts, ", ");
    q.append(body.as_str());
    q
}

} // verus!
