//! User tasks: nodes where a person completes a task.

use vstd::prelude::*;
use crate::manager::engine::bpmn::bpmn_node::{BpmnNode, NodeType, copy_opt, copy_strings, opt_view};
use crate::text::{lowercase, split_by, split_str, to_lowercase, views};

verus! {

/// A task that a person completes; the users and groups that may complete it
/// are listed in lower case.
#[derive(Debug)]
pub struct UserTask {
    pub id: String,
    pub name: Option<String>,
    pub from_key: Option<String>,
    pub description: Option<String>,
    pub candidate_groups: Vec<String>,
    pub candidate_users: Vec<String>,
}

/// The candidates named by a comma-separated list: the list in lower case, cut
/// at each comma; none where there is no list.
pub open spec fn candidates_of(list: Option<Seq<char>>) -> Seq<Seq<char>> {
    match list {
        Some(c) => split_by(lowercase(c), ','),
        None => Seq::empty(),
    }
}

impl Clone for UserTask {
    fn clone(&self) -> (r: Self)
        ensures
            r.id == self.id,
            r.name == self.name,
            r.from_key == self.from_key,
            r.description == self.description,
            r.candidate_groups@ == self.candidate_groups@,
            r.candidate_users@ == self.candidate_users@,
    {
        UserTask {
            id: self.id.clone(),
            name: copy_opt(&self.name),
            from_key: copy_opt(&self.from_key),
            description: copy_opt(&self.description),
            candidate_groups: copy_strings(&self.candidate_groups),
            candidate_users: copy_strings(&self.candidate_users),
        }
    }
}

fn candidates(list: Option<String>) -> (r: Vec<String>)
    ensures
        views(r@) == candidates_of(opt_view(list)),
{
    match list {
        Some(cand) => {
            let cand = to_lowercase(cand.as_str());
            split_str(cand.as_str(), ',')
        },
        None => {
            let r: Vec<String> = Vec::new();
            assert(views(r@) =~= Seq::<Seq<char>>::empty());
            r
        },
    }
}

impl UserTask {
    /// A user task whose candidate groups and users are given as
    /// comma-separated lists; each list is put in lower case and cut at every
    /// comma, the pieces kept as they stand.
    pub fn new(
        id: String,
        name: Option<String>,
        from_key: Option<String>,
        description: Option<String>,
        candidate_groups: Option<String>,
        candidate_users: Option<String>,
    ) -> (r: Self)
        ensures
            r.id == id,
            r.name == name,
            r.from_key == from_key,
            r.description == description,
            views(r.candidate_groups@) == candidates_of(opt_view(candidate_groups)),
            views(r.candidate_users@) == candidates_of(opt_view(candidate_users)),
    {
        let candidate_groups_arr = candidates(candidate_groups);
        let candidate_users_arr = candidates(candidate_users);
        UserTask {
            id,
            name,
            from_key,
            description,
            candidate_groups: candidate_groups_arr,
            candidate_users: candidate_users_arr,
        }
    }
}

impl BpmnNode for UserTask {
    open spec fn view_id(&self) -> Seq<char> {
        self.id@
    }

    open spec fn view_node_type(&self) -> NodeType {
        NodeType::UserTask
    }

    open spec fn view_name(&self) -> Option<Seq<char>> {
        opt_view(self.name)
    }

    open spec fn view_from_key(&self) -> Option<Seq<char>> {
        opt_view(self.from_key)
    }

    open spec fn view_description(&self) -> Option<Seq<char>> {
        opt_view(self.description)
    }

    open spec fn view_candidate_groups(&self) -> Seq<String> {
        self.candidate_groups@
    }

    open spec fn view_candidate_users(&self) -> Seq<String> {
        self.candidate_users@
    }

    fn get_id(&self) -> (r: String) {
        self.id.clone()
    }

    fn get_node_type(&self) -> (r: NodeType) {
        NodeType::UserTask
    }

    fn get_name(&self) -> (r: Option<String>) {
        copy_opt(&self.name)
    }

    fn get_from_key(&self) -> (r: Option<String>) {
        copy_opt(&self.from_key)
    }

    fn get_description(&self) -> (r: Option<String>) {
        copy_opt(&self.description)
    }

    fn candidate_groups(&self) -> (r: Vec<String>) {
        copy_strings(&self.candidate_groups)
    }

    fn candidate_users(&self) -> (r: Vec<String>) {
        copy_strings(&self.candidate_users)
    }
}

} // verus!
