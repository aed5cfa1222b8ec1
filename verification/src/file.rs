//! The persisted file-tree entity and its referential invariants.
//!
//! A [`Model`] row describes one node (file or directory) of one
//! workspace's hierarchy. A [`FileTree`] holds the nodes of a single
//! workspace in insertion order and maintains the data-model contract the
//! rest of the application relies on: identifiers are unique and
//! non-empty, every node belongs to the tree's workspace, and every
//! node's parent is either the workspace-root anchor (the workspace's own
//! identifier) or an earlier node of the same tree — which makes every
//! parent chain acyclic.

use vstd::prelude::*;

use crate::names::spec_dir_kind;
use crate::names::spec_file_kind;

verus! {

/// One file-tree row, as the store holds it.
#[derive(Clone, Debug, PartialEq, Eq)]
pub struct Model {
    pub id: String,
    pub name: String,
    /// Kind tag: a plain file or a directory.
    pub kind: String,
    /// Parent-node identifier; the owning workspace's identifier anchors
    /// a node directly under the workspace root.
    pub pid: String,
    /// Owning workspace identifier.
    pub wid: String,
    pub size: i32,
    pub create_time: i64,
    pub update_time: i64,
    /// Lifecycle state code (active, trashed, ...).
    pub state: i32,
}

/// Spec-level image of a [`Model`] row.
#[verifier::ext_equal]
pub struct FileNodeView {
    pub id: Seq<char>,
    pub name: Seq<char>,
    pub kind: Seq<char>,
    pub pid: Seq<char>,
    pub wid: Seq<char>,
    pub size: int,
    pub create_time: int,
    pub update_time: int,
    pub state: int,
}

impl View for Model {
    type V = FileNodeView;

    open spec fn view(&self) -> FileNodeView {
        FileNodeView {
            id: self.id@,
            name: self.name@,
            kind: self.kind@,
            pid: self.pid@,
            wid: self.wid@,
            size: self.size as int,
            create_time: self.create_time as int,
            update_time: self.update_time as int,
            state: self.state as int,
        }
    }
}

/// The denormalised display row: node fields plus the resolved parent's
/// name and the resolved workspace's name, so list views need no repeated
/// joins.
#[derive(Clone, Debug, PartialEq, Eq)]
pub struct DataTransModel {
    pub id: String,
    pub name: String,
    pub kind: String,
    pub pid: String,
    /// Name of the parent node; absent for nodes anchored at the
    /// workspace root.
    pub parent_file_name: Option<String>,
    pub wid: String,
    pub workspace_name: String,
    pub size: i32,
    pub create_time: i64,
    pub update_time: i64,
    pub state: i32,
}

/// Spec-level image of a [`DataTransModel`] row.
#[verifier::ext_equal]
pub struct DataTransView {
    pub id: Seq<char>,
    pub name: Seq<char>,
    pub kind: Seq<char>,
    pub pid: Seq<char>,
    pub parent_file_name: Option<Seq<char>>,
    pub wid: Seq<char>,
    pub workspace_name: Seq<char>,
    pub size: int,
    pub create_time: int,
    pub update_time: int,
    pub state: int,
}

impl View for DataTransModel {
    type V = DataTransView;

    open spec fn view(&self) -> DataTransView {
        DataTransView {
            id: self.id@,
            name: self.name@,
            kind: self.kind@,
            pid: self.pid@,
            parent_file_name: match self.parent_file_name {
                Option::Some(ref n) => Option::Some(n@),
                Option::None => Option::None,
            },
            wid: self.wid@,
            workspace_name: self.workspace_name@,
            size: self.size as int,
            create_time: self.create_time as int,
            update_time: self.update_time as int,
            state: self.state as int,
        }
    }
}

/// Why a row was rejected by [`FileTree::try_insert`].
#[derive(Clone, Copy, Debug, PartialEq, Eq, Structural)]
pub enum FileError {
    /// The row names another workspace than the tree's.
    ForeignWorkspace,
    /// The identifier is empty.
    EmptyId,
    /// The identifier collides with the workspace-root anchor.
    ReservedId,
    /// Another node of the tree already carries the identifier.
    DuplicateId,
    /// The kind tag is neither the file nor the directory tag.
    InvalidKind,
    /// The byte size is negative.
    NegativeSize,
    /// The parent identifier names neither the root anchor nor a node of
    /// the tree.
    MissingParent,
}

/// The file-tree nodes of one workspace, in insertion order.
pub struct FileTree {
    /// The owning workspace's identifier, which also anchors root nodes.
    pub wid: String,
    /// The nodes, each inserted after its parent.
    pub nodes: Vec<Model>,
}

/// Spec-level image of a [`FileTree`].
#[verifier::ext_equal]
pub struct FileTreeView {
    pub wid: Seq<char>,
    pub nodes: Seq<FileNodeView>,
}

impl View for FileTree {
    type V = FileTreeView;

    open spec fn view(&self) -> FileTreeView {
        FileTreeView { wid: self.wid@, nodes: self.nodes@.map_values(|m: Model| m@) }
    }
}

impl FileTreeView {
    /// The node at `i` is referentially sound: non-empty identifier that
    /// is not the root anchor, the tree's workspace, a valid kind tag, a
    /// non-negative size, and a parent that is either the root anchor or
    /// an earlier node of the tree.
    pub open spec fn valid_node(self, i: int) -> bool {
        let n = self.nodes[i];
        &&& n.id.len() > 0
        &&& n.id != self.wid
        &&& n.wid == self.wid
        &&& (n.kind == spec_file_kind() || n.kind == spec_dir_kind())
        &&& n.size >= 0
        &&& (n.pid == self.wid || exists|j: int|
            0 <= j < i && (#[trigger] self.nodes[j]).id == n.pid)
    }

    /// The tree's invariant: a named workspace, every node referentially
    /// sound, and identifiers unique.
    pub open spec fn wf(self) -> bool {
        &&& self.wid.len() > 0
        &&& (forall|i: int| 0 <= i < self.nodes.len() ==> #[trigger] self.valid_node(i))
        &&& (forall|i: int, j: int|
            #![trigger self.nodes[i], self.nodes[j]]
            0 <= i < j < self.nodes.len() ==> self.nodes[i].id != self.nodes[j].id)
    }
}

/// Whether the row may enter the tree: what [`FileTreeView::valid_node`]
/// will demand of it, with the parent allowed anywhere in the tree.
pub open spec fn spec_can_insert(t: FileTreeView, n: FileNodeView) -> bool {
    &&& n.wid == t.wid
    &&& n.id.len() > 0
    &&& n.id != t.wid
    &&& (forall|j: int| 0 <= j < t.nodes.len() ==> (#[trigger] t.nodes[j]).id != n.id)
    &&& (n.kind == spec_file_kind() || n.kind == spec_dir_kind())
    &&& n.size >= 0
    &&& (n.pid == t.wid || exists|j: int|
        0 <= j < t.nodes.len() && (#[trigger] t.nodes[j]).id == n.pid)
}

/// The error a rejected row is reported with, checks in order.
pub open spec fn spec_insert_error(t: FileTreeView, n: FileNodeView) -> FileError {
    if n.wid != t.wid {
        FileError::ForeignWorkspace
    } else if n.id.len() == 0 {
        FileError::EmptyId
    } else if n.id == t.wid {
        FileError::ReservedId
    } else if exists|j: int| 0 <= j < t.nodes.len() && (#[trigger] t.nodes[j]).id == n.id {
        FileError::DuplicateId
    } else if !(n.kind == spec_file_kind() || n.kind == spec_dir_kind()) {
        FileError::InvalidKind
    } else if n.size < 0 {
        FileError::NegativeSize
    } else {
        FileError::MissingParent
    }
}

impl FileTree {
    /// An empty tree for the given workspace.
    pub fn new(wid: String) -> (t: FileTree)
        requires
            wid@.len() > 0,
        ensures
            t@.wid == wid@,
            t@.nodes == Seq::<FileNodeView>::empty(),
            t@.wf(),
    {
        let t = FileTree { wid, nodes: Vec::new() };
        proof {
            assert(t@.nodes =~= Seq::<FileNodeView>::empty());
        }
        t
    }

    /// How many nodes the tree holds.
    pub fn len(&self) -> (r: usize)
        ensures
            r == self@.nodes.len(),
    {
        self.nodes.len()
    }

    /// The index of the node carrying the given identifier, if any.
    pub fn find_index(&self, id: &String) -> (r: Option<usize>)
        ensures
            match r {
                Option::Some(j) => j < self@.nodes.len() && self@.nodes[j as int].id == id@,
                Option::None => forall|j: int|
                    0 <= j < self@.nodes.len() ==> (#[trigger] self@.nodes[j]).id != id@,
            },
    {
        let mut i: usize = 0;
        while i < self.nodes.len()
            invariant
                i <= self@.nodes.len(),
                forall|j: int| 0 <= j < i ==> (#[trigger] self@.nodes[j]).id != id@,
            decreases self@.nodes.len() - i,
        {
            if self.nodes[i].id == *id {
                return Option::Some(i);
            }
            i += 1;
        }
        Option::None
    }

    /// Insert one row, preserving the tree's invariant.
    ///
    /// Accepts the row exactly when it satisfies [`spec_can_insert`]: it
    /// belongs to this workspace, carries a fresh, non-empty, non-anchor
    /// identifier, a valid kind tag and size, and names as parent the
    /// root anchor or an existing node. A rejected row leaves the tree
    /// untouched and is reported with the first failed check's error.
    pub fn try_insert(&mut self, node: Model) -> (r: Result<(), FileError>)
        requires
            old(self)@.wf(),
        ensures
            final(self)@.wf(),
            (r is Ok <==> spec_can_insert(old(self)@, node@)),
            r is Ok ==> final(self)@ == (FileTreeView {
                wid: old(self)@.wid,
                nodes: old(self)@.nodes.push(node@),
            }),
            r is Err ==> final(self)@ == old(self)@,
            r matches Err(e) ==> e == spec_insert_error(old(self)@, node@),
    {
        if !(node.wid == self.wid) {
            return Result::Err(FileError::ForeignWorkspace);
        }
        if node.id.as_str().is_empty() {
            return Result::Err(FileError::EmptyId);
        }
        if node.id == self.wid {
            return Result::Err(FileError::ReservedId);
        }
        if let Option::Some(_) = self.find_index(&node.id) {
            return Result::Err(FileError::DuplicateId);
        }
        let file_tag = crate::names::file_kind().to_owned();
        let dir_tag = crate::names::dir_kind().to_owned();
        if !(node.kind == file_tag || node.kind == dir_tag) {
            return Result::Err(FileError::InvalidKind);
        }
        if node.size < 0 {
            return Result::Err(FileError::NegativeSize);
        }
        if !(node.pid == self.wid) {
            if self.find_index(&node.pid).is_none() {
                return Result::Err(FileError::MissingParent);
            }
        }
        let ghost old_view = self@;
        let ghost node_view = node@;
        self.nodes.push(node);
        proof {
            assert(self@.nodes =~= old_view.nodes.push(node_view));
            let t = self@;
            let n = t.nodes.len() - 1;
            assert forall|i: int| 0 <= i < t.nodes.len() implies #[trigger] t.valid_node(i) by {
                if i < n {
                    assert(old_view.valid_node(i));
                    assert(t.nodes[i] == old_view.nodes[i]);
                    if old_view.nodes[i].pid != old_view.wid {
                        let j = choose|j: int|
                            0 <= j < i && (#[trigger] old_view.nodes[j]).id
                                == old_view.nodes[i].pid;
                        assert(t.nodes[j] == old_view.nodes[j]);
                    }
                } else {
                    if node_view.pid != t.wid {
                        let j = choose|j: int|
                            0 <= j < old_view.nodes.len() && (#[trigger] old_view.nodes[j]).id
                                == node_view.pid;
                        assert(t.nodes[j] == old_view.nodes[j]);
                    }
                }
            }
            assert forall|i: int, j: int|
                #![trigger t.nodes[i], t.nodes[j]]
                0 <= i < j < t.nodes.len() implies t.nodes[i].id != t.nodes[j].id by {
                if j < n {
                    assert(old_view.nodes[i] == t.nodes[i]);
                    assert(old_view.nodes[j] == t.nodes[j]);
                } else {
                    assert(t.nodes[i] == old_view.nodes[i]);
                    assert(old_view.nodes[i].id != node_view.id);
                }
            }
        }
        Result::Ok(())
    }
}

/// Index of the node that `nodes[i].pid` names; -1 where the parent is
/// the workspace-root anchor or no node carries that identifier.
pub open spec fn parent_index(t: FileTreeView, i: int) -> int {
    if 0 <= i < t.nodes.len() && t.nodes[i].pid != t.wid && (exists|j: int|
        0 <= j < t.nodes.len() && (#[trigger] t.nodes[j]).id == t.nodes[i].pid) {
        choose|j: int| 0 <= j < t.nodes.len() && (#[trigger] t.nodes[j]).id == t.nodes[i].pid
    } else {
        -1int
    }
}

/// The index reached from `i` after `k` steps up the parent chain; -1
/// once the chain has passed the workspace root.
pub open spec fn ancestor_at(t: FileTreeView, i: int, k: nat) -> int
    decreases k,
{
    if k == 0 {
        i
    } else {
        let p = ancestor_at(t, i, (k - 1) as nat);
        if p < 0 {
            -1int
        } else {
            parent_index(t, p)
        }
    }
}

/// In a well-formed tree, a node's parent stands strictly earlier: nodes
/// are inserted after their parents, and identifiers are unique.
pub proof fn lemma_parent_index_decreases(t: FileTreeView, i: int)
    requires
        t.wf(),
        0 <= i < t.nodes.len(),
    ensures
        parent_index(t, i) < i,
        t.nodes[i].pid == t.wid ==> parent_index(t, i) == -1,
        t.nodes[i].pid != t.wid ==> 0 <= parent_index(t, i) < i && t.nodes[parent_index(t,
            i)].id == t.nodes[i].pid,
{
    assert(t.valid_node(i));
    if t.nodes[i].pid != t.wid {
        let jw = choose|j: int| 0 <= j < i && (#[trigger] t.nodes[j]).id == t.nodes[i].pid;
        assert(0 <= jw < t.nodes.len() && t.nodes[jw].id == t.nodes[i].pid);
        let jc = choose|j: int|
            0 <= j < t.nodes.len() && (#[trigger] t.nodes[j]).id == t.nodes[i].pid;
        assert(parent_index(t, i) == jc);
        if jc != jw {
            if jc < jw {
                assert(t.nodes[jc].id != t.nodes[jw].id);
            } else {
                assert(t.nodes[jw].id != t.nodes[jc].id);
            }
        }
    }
}

/// Acyclicity: in a well-formed tree no node's parent chain revisits the
/// node — after any positive number of steps the chain stands strictly
/// earlier in the tree, or has left it through the workspace root.
pub proof fn lemma_ancestor_chain_acyclic(t: FileTreeView, i: int, k: nat)
    requires
        t.wf(),
        0 <= i < t.nodes.len(),
        k > 0,
    ensures
        ancestor_at(t, i, k) < i,
    decreases k,
{
    let p = ancestor_at(t, i, (k - 1) as nat);
    if k == 1 {
        assert(p == i);
        lemma_parent_index_decreases(t, i);
    } else {
        lemma_ancestor_chain_acyclic(t, i, (k - 1) as nat);
        if p >= 0 {
            lemma_parent_index_decreases(t, p);
        }
    }
}

/// Referential sanity: in a well-formed tree every node belongs to the
/// tree's workspace, and its parent identifier is the workspace-root
/// anchor or the identifier of another node of the same workspace.
pub proof fn lemma_referential_sanity(t: FileTreeView, i: int)
    requires
        t.wf(),
        0 <= i < t.nodes.len(),
    ensures
        t.nodes[i].wid == t.wid,
        t.nodes[i].pid == t.wid || exists|j: int|
            0 <= j < t.nodes.len() && j != i && (#[trigger] t.nodes[j]).id == t.nodes[i].pid
                && t.nodes[j].wid == t.nodes[i].wid,
{
    assert(t.valid_node(i));
    if t.nodes[i].pid != t.wid {
        let j = choose|j: int| 0 <= j < i && (#[trigger] t.nodes[j]).id == t.nodes[i].pid;
        assert(t.valid_node(j));
        assert(0 <= j < t.nodes.len() && j != i && t.nodes[j].id == t.nodes[i].pid && t.nodes[j].wid
            == t.nodes[i].wid);
    }
}

/// The parent name a display row carries: absent at the workspace root,
/// otherwise the name of the node the parent identifier resolves to.
pub open spec fn spec_parent_name(t: FileTreeView, i: int) -> Option<Seq<char>> {
    if t.nodes[i].pid == t.wid {
        Option::None
    } else {
        Option::Some(t.nodes[parent_index(t, i)].name)
    }
}

/// The display row derived from node `i` under the given workspace name.
pub open spec fn spec_trans(t: FileTreeView, i: int, wname: Seq<char>) -> DataTransView {
    let n = t.nodes[i];
    DataTransView {
        id: n.id,
        name: n.name,
        kind: n.kind,
        pid: n.pid,
        parent_file_name: spec_parent_name(t, i),
        wid: n.wid,
        workspace_name: wname,
        size: n.size,
        create_time: n.create_time,
        update_time: n.update_time,
        state: n.state,
    }
}

impl FileTree {
    /// The denormalised display rows of every node, in tree order: node
    /// fields plus the resolved parent's name and the given workspace
    /// name.
    pub fn trans_models(&self, workspace_name: &String) -> (r: Vec<DataTransModel>)
        requires
            self@.wf(),
        ensures
            r@.len() == self@.nodes.len(),
            forall|i: int|
                0 <= i < r@.len() ==> (#[trigger] r@[i])@ == spec_trans(self@, i, workspace_name@),
    {
        let mut r: Vec<DataTransModel> = Vec::new();
        let mut i: usize = 0;
        while i < self.nodes.len()
            invariant
                self@.wf(),
                i <= self@.nodes.len(),
                r@.len() == i,
                forall|j: int|
                    0 <= j < i ==> (#[trigger] r@[j])@ == spec_trans(self@, j, workspace_name@),
            decreases self@.nodes.len() - i,
        {
            let parent_file_name: Option<String> = if self.nodes[i].pid == self.wid {
                Option::None
            } else {
                proof {
                    lemma_parent_index_decreases(self@, i as int);
                }
                match self.find_index(&self.nodes[i].pid) {
                    Option::Some(j) => {
                        proof {
                            let pj = parent_index(self@, i as int);
                            if pj < j {
                                assert(self@.nodes[pj].id != self@.nodes[j as int].id);
                            } else if pj > j {
                                assert(self@.nodes[j as int].id != self@.nodes[pj].id);
                            }
                        }
                        Option::Some(self.nodes[j].name.clone())
                    },
                    Option::None => {
                        proof {
                            let pj = parent_index(self@, i as int);
                            assert(self@.nodes[pj].id == self@.nodes[i as int].pid);
                            assert(false);
                        }
                        Option::None
                    },
                }
            };
            let row = DataTransModel {
                id: self.nodes[i].id.clone(),
                name: self.nodes[i].name.clone(),
                kind: self.nodes[i].kind.clone(),
                pid: self.nodes[i].pid.clone(),
                parent_file_name,
                wid: self.nodes[i].wid.clone(),
                workspace_name: workspace_name.clone(),
                size: self.nodes[i].size,
                create_time: self.nodes[i].create_time,
                update_time: self.nodes[i].update_time,
                state: self.nodes[i].state,
            };
            r.push(row);
            i += 1;
        }
        r
    }
}

} // verus!
