use vstd::prelude::*;
use vstd::string::StringExecFns;
use crate::text::same_text;

verus! {

/// Kind of tree node.
#[derive(Debug, Clone, Copy, PartialEq, Eq, Structural)]
pub enum NodeType {
    /// A folder that can contain other folders or templates
    Folder,
    /// A template file that can be loaded
    Template,
}

/// A node in the collections tree: a folder or a template.
#[derive(Debug)]
pub struct TreeNode {
    /// Name of this node
    pub name: String,
    /// Full path from the root, such as "Customer/Add"
    pub path: String,
    pub node_type: NodeType,
    /// Child nodes, for folders
    pub children: Vec<TreeNode>,
    /// Whether the node is expanded in the UI
    pub is_expanded: bool,
    /// Whether the node is selected
    pub is_selected: bool,
    /// Depth in the tree, 0 at the top
    pub depth: usize,
}

/// The nodes shown for a list of sibling trees, top to bottom: each node,
/// then, when it is expanded, what its children show.
pub open spec fn forest_visible(s: Seq<TreeNode>) -> Seq<TreeNode>
    decreases s,
{
    if s.len() == 0 {
        Seq::empty()
    } else {
        let n = s.last();
        forest_visible(s.drop_last()) + seq![n] + if n.is_expanded {
            forest_visible(n.children@)
        } else {
            Seq::empty()
        }
    }
}

/// The nodes a tree shows.
pub open spec fn node_visible(n: TreeNode) -> Seq<TreeNode> {
    seq![n] + if n.is_expanded {
        forest_visible(n.children@)
    } else {
        Seq::empty()
    }
}

/// The first node, in top-to-bottom order, whose path is `p`.
pub open spec fn forest_find(s: Seq<TreeNode>, p: Seq<char>) -> Option<TreeNode>
    decreases s,
{
    if s.len() == 0 {
        None
    } else {
        match forest_find(s.drop_last(), p) {
            Some(x) => Some(x),
            None => {
                let n = s.last();
                if n.path@ == p {
                    Some(n)
                } else {
                    forest_find(n.children@, p)
                }
            },
        }
    }
}

/// The first node of a tree whose path is `p`.
pub open spec fn node_find(n: TreeNode, p: Seq<char>) -> Option<TreeNode> {
    if n.path@ == p {
        Some(n)
    } else {
        forest_find(n.children@, p)
    }
}

/// The nodes that references point to.
pub open spec fn targets(s: Seq<&TreeNode>) -> Seq<TreeNode> {
    s.map_values(|r: &TreeNode| *r)
}

impl TreeNode {
    /// A folder node; only top-level folders start expanded.
    pub fn new_folder(name: String, path: String, depth: usize) -> (r: TreeNode)
        ensures
            r.name == name,
            r.path == path,
            r.node_type == NodeType::Folder,
            r.children@.len() == 0,
            r.is_expanded == (depth == 0),
            !r.is_selected,
            r.depth == depth,
    {
        TreeNode {
            name,
            path,
            node_type: NodeType::Folder,
            children: Vec::new(),
            is_expanded: depth == 0,
            is_selected: false,
            depth,
        }
    }

    /// A template node; templates never expand.
    pub fn new_template(name: String, path: String, depth: usize) -> (r: TreeNode)
        ensures
            r.name == name,
            r.path == path,
            r.node_type == NodeType::Template,
            r.children@.len() == 0,
            !r.is_expanded,
            !r.is_selected,
            r.depth == depth,
    {
        TreeNode {
            name,
            path,
            node_type: NodeType::Template,
            children: Vec::new(),
            is_expanded: false,
            is_selected: false,
            depth,
        }
    }

    /// Flips the expanded state of a folder; templates stay as they are.
    pub fn toggle_expanded(&mut self)
        ensures
            *final(self) == (TreeNode {
                is_expanded: if old(self).node_type == NodeType::Folder {
                    !old(self).is_expanded
                } else {
                    old(self).is_expanded
                },
                ..*old(self)
            }),
    {
        if self.node_type == NodeType::Folder {
            self.is_expanded = !self.is_expanded;
        }
    }

    pub fn set_selected(&mut self, selected: bool)
        ensures
            *final(self) == (TreeNode { is_selected: selected, ..*old(self) }),
    {
        self.is_selected = selected;
    }

    /// Adds a child to a folder; templates take no children.
    pub fn add_child(&mut self, child: TreeNode)
        ensures
            old(self).node_type == NodeType::Folder ==> final(self).children@ == old(
                self,
            ).children@.push(child),
            old(self).node_type != NodeType::Folder ==> final(self).children@ == old(
                self,
            ).children@,
            final(self).name == old(self).name,
            final(self).path == old(self).path,
            final(self).node_type == old(self).node_type,
            final(self).is_expanded == old(self).is_expanded,
            final(self).is_selected == old(self).is_selected,
            final(self).depth == old(self).depth,
    {
        if self.node_type == NodeType::Folder {
            self.children.push(child);
        }
    }

    /// The first node of this tree, top to bottom, whose path is `target_path`.
    pub fn find_by_path(&self, target_path: &str) -> (r: Option<&TreeNode>)
        ensures
            match r {
                Some(n) => node_find(*self, target_path@) == Some(*n),
                None => node_find(*self, target_path@) is None,
            },
        decreases self,
    {
        if same_text(self.path.as_str(), target_path) {
            return Some(self);
        }
        let mut i: usize = 0;
        while i < self.children.len()
            invariant
                i <= self.children@.len(),
                self.path@ != target_path@,
                forest_find(self.children@.subrange(0, i as int), target_path@) is None,
            decreases self.children@.len() - i,
        {
            let ghost pre = self.children@.subrange(0, i + 1);
            assert(pre.drop_last() =~= self.children@.subrange(0, i as int));
            proof {
                assert(decreases_to!(self => self.children));
                vstd::std_specs::vec::axiom_vec_index_decreases(self.children, i as int);
            }
            match self.children[i].find_by_path(target_path) {
                Some(found) => {
                    proof {
                        assert(pre.last() == self.children@[i as int]);
                        assert(forest_find(pre, target_path@) == Some(*found));
                        lemma_find_prefix(self.children@, i as int + 1, target_path@);
                    }
                    return Some(found);
                },
                None => {},
            }
            i = i + 1;
        }
        assert(self.children@.subrange(0, i as int) =~= self.children@);
        None
    }

    /// Adds this tree's shown nodes to `visible`.
    fn collect_visible_nodes<'a>(&'a self, visible: &mut Vec<&'a TreeNode>)
        ensures
            targets(final(visible)@) == targets(old(visible)@) + node_visible(*self),
        decreases self,
    {
        let ghost start = targets(visible@);
        visible.push(self);
        assert(targets(visible@) =~= start + seq![*self]);
        if self.is_expanded {
            let mut i: usize = 0;
            while i < self.children.len()
                invariant
                    i <= self.children@.len(),
                    targets(visible@) == start + seq![*self] + forest_visible(
                        self.children@.subrange(0, i as int),
                    ),
                decreases self.children@.len() - i,
            {
                let ghost pre = self.children@.subrange(0, i + 1);
                assert(pre.drop_last() =~= self.children@.subrange(0, i as int));
                proof {
                    assert(decreases_to!(self => self.children));
                    vstd::std_specs::vec::axiom_vec_index_decreases(self.children, i as int);
                }
                self.children[i].collect_visible_nodes(visible);
                i = i + 1;
            }
            assert(self.children@.subrange(0, i as int) =~= self.children@);
        }
        assert(targets(visible@) =~= start + node_visible(*self));
    }

    /// The nodes this tree shows, top to bottom.
    pub fn get_visible_nodes(&self) -> (r: Vec<&TreeNode>)
        ensures
            targets(r@) == node_visible(*self),
    {
        let mut visible: Vec<&TreeNode> = Vec::new();
        assert(targets(visible@) =~= Seq::empty());
        self.collect_visible_nodes(&mut visible);
        assert(targets(visible@) =~= node_visible(*self));
        visible
    }

    /// The icon shown before the node's name.
    pub fn get_icon(&self) -> (r: &'static str)
        ensures
            r@ == match self.node_type {
                NodeType::Folder => if self.is_expanded {
                    "\u{1F4C2}"@
                } else {
                    "\u{1F4C1}"@
                },
                NodeType::Template => "\u{1F4C4}"@,
            },
    {
        match self.node_type {
            NodeType::Folder => {
                if self.is_expanded {
                    "\u{1F4C2}"
                } else {
                    "\u{1F4C1}"
                }
            },
            NodeType::Template => "\u{1F4C4}",
        }
    }

    /// Two spaces per level of depth.
    pub fn get_indent(&self) -> (r: String)
        ensures
            r@.len() == 2 * self.depth,
            forall|i: int| 0 <= i < r@.len() ==> r@[i] == ' ',
    {
        let mut s = String::new();
        let mut i: usize = 0;
        while i < self.depth
            invariant
                i <= self.depth,
                s@.len() == 2 * i,
                forall|k: int| 0 <= k < s@.len() ==> s@[k] == ' ',
            decreases self.depth - i,
        {
            proof {
                reveal_strlit("  ");
            }
            s.append("  ");
            i = i + 1;
        }
        s
    }

    /// Whether the node is a folder with something inside.
    pub fn can_expand(&self) -> (r: bool)
        ensures
            r == (self.node_type == NodeType::Folder && self.children@.len() > 0),
    {
        self.node_type == NodeType::Folder && self.children.len() > 0
    }
}

/// A match found among the first `i` trees is the match for the whole list.
proof fn lemma_find_prefix(s: Seq<TreeNode>, i: int, p: Seq<char>)
    requires
        0 <= i <= s.len(),
        forest_find(s.subrange(0, i), p) is Some,
    ensures
        forest_find(s, p) == forest_find(s.subrange(0, i), p),
    decreases s.len() - i,
{
    if i < s.len() {
        let pre = s.subrange(0, i + 1);
        assert(pre.drop_last() =~= s.subrange(0, i));
        lemma_find_prefix(s, i + 1, p);
    } else {
        assert(s.subrange(0, i) =~= s);
    }
}

/// Lexicographic order on texts, by characters (for UTF-8 text this is the
/// order `str` compares in).
pub open spec fn text_lt(a: Seq<char>, b: Seq<char>) -> bool
    decreases a.len(),
{
    if a.len() == 0 {
        b.len() > 0
    } else if b.len() == 0 {
        false
    } else if a[0] != b[0] {
        (a[0] as u32) < (b[0] as u32)
    } else {
        text_lt(a.drop_first(), b.drop_first())
    }
}

proof fn lemma_text_lt_transitive(a: Seq<char>, b: Seq<char>, c: Seq<char>)
    requires
        text_lt(a, b),
        text_lt(b, c),
    ensures
        text_lt(a, c),
    decreases a.len(),
{
    if a.len() > 0 && b.len() > 0 && c.len() > 0 && a[0] == b[0] && b[0] == c[0] {
        lemma_text_lt_transitive(a.drop_first(), b.drop_first(), c.drop_first());
    }
}

proof fn lemma_text_lt_irreflexive(a: Seq<char>)
    ensures
        !text_lt(a, a),
    decreases a.len(),
{
    if a.len() > 0 {
        lemma_text_lt_irreflexive(a.drop_first());
    }
}

/// Folders come before templates.
pub open spec fn kind_rank(t: NodeType) -> int {
    match t {
        NodeType::Folder => 0,
        NodeType::Template => 1,
    }
}

/// Display order of siblings: folders first, then by name.
pub open spec fn node_lt(a: TreeNode, b: TreeNode) -> bool {
    kind_rank(a.node_type) < kind_rank(b.node_type) || (kind_rank(a.node_type) == kind_rank(
        b.node_type,
    ) && text_lt(a.name@, b.name@))
}

/// Siblings stand in display order.
pub open spec fn siblings_sorted(s: Seq<TreeNode>) -> bool {
    forall|i: int, j: int| 0 <= i < j < s.len() ==> !node_lt(#[trigger] s[j], #[trigger] s[i])
}

proof fn lemma_node_lt_transitive(a: TreeNode, b: TreeNode, c: TreeNode)
    requires
        node_lt(a, b),
        node_lt(b, c),
    ensures
        node_lt(a, c),
{
    if kind_rank(a.node_type) == kind_rank(b.node_type) && kind_rank(b.node_type) == kind_rank(
        c.node_type,
    ) {
        lemma_text_lt_transitive(a.name@, b.name@, c.name@);
    }
}

/// Whether text `a` sorts before text `b`.
pub fn text_less(a: &str, b: &str) -> (r: bool)
    ensures
        r == text_lt(a@, b@),
{
    let n = a.unicode_len();
    let m = b.unicode_len();
    let mut i: usize = 0;
    assert(a@.subrange(0, n as int) =~= a@);
    assert(b@.subrange(0, m as int) =~= b@);
    while i < n && i < m
        invariant
            n == a@.len(),
            m == b@.len(),
            i <= n,
            i <= m,
            text_lt(a@, b@) == text_lt(a@.subrange(i as int, n as int), b@.subrange(i as int, m as int)),
        decreases n - i,
    {
        let x = a.get_char(i);
        let y = b.get_char(i);
        let ghost sa = a@.subrange(i as int, n as int);
        let ghost sb = b@.subrange(i as int, m as int);
        assert(sa[0] == x && sb[0] == y);
        if x != y {
            return (x as u32) < (y as u32);
        }
        assert(sa.drop_first() =~= a@.subrange(i + 1, n as int));
        assert(sb.drop_first() =~= b@.subrange(i + 1, m as int));
        i = i + 1;
    }
    i == n && i < m
}

fn sorts_before(a: &TreeNode, b: &TreeNode) -> (r: bool)
    ensures
        r == node_lt(*a, *b),
{
    match (a.node_type, b.node_type) {
        (NodeType::Folder, NodeType::Template) => true,
        (NodeType::Template, NodeType::Folder) => false,
        _ => text_less(a.name.as_str(), b.name.as_str()),
    }
}

/// Inserts `x` after every sibling it does not sort before.
fn insert_sorted(v: &mut Vec<TreeNode>, x: TreeNode)
    requires
        siblings_sorted(old(v)@),
    ensures
        siblings_sorted(final(v)@),
        exists|j: int| 0 <= j <= old(v)@.len() && final(v)@ == old(v)@.insert(j, x),
{
    let mut j: usize = 0;
    while j < v.len() && !sorts_before(&x, &v[j])
        invariant
            j <= v@.len(),
            forall|k: int| 0 <= k < j ==> !node_lt(x, #[trigger] v@[k]),
        decreases v@.len() - j,
    {
        j = j + 1;
    }
    let ghost before = v@;
    v.insert(j, x);
    proof {
        let s = v@;
        assert(s =~= before.insert(j as int, x));
        assert(0 <= j <= before.len() && v@ == before.insert(j as int, x));
        assert forall|a: int, b: int| 0 <= a < b < s.len() implies !node_lt(
            #[trigger] s[b],
            #[trigger] s[a],
        ) by {
            if a < j && b == j {
            } else if a == j && b > j {
                assert(node_lt(x, before[j as int]));
                if node_lt(s[b], x) {
                    lemma_node_lt_transitive(s[b], x, before[j as int]);
                    if b - 1 > j {
                        assert(!node_lt(before[b - 1], before[j as int]));
                    }
                    assert(s[b] == before[b - 1]);
                    if b - 1 == j {
                        assert(!node_lt(before[j as int], before[j as int])) by {
                            lemma_text_lt_irreflexive(before[j as int].name@);
                        }
                    }
                }
            } else if a < j && b > j {
                assert(s[a] == before[a]);
                assert(s[b] == before[b - 1]);
            } else if a > j {
                assert(s[a] == before[a - 1]);
                assert(s[b] == before[b - 1]);
            } else {
                assert(s[a] == before[a]);
                assert(s[b] == before[b]);
            }
        }
    }
}

/// Every folder's children stand in display order, all the way down.
pub open spec fn deep_sorted(n: TreeNode) -> bool
    decreases n, 1int,
{
    siblings_sorted(n.children@) && forall|i: int|
        0 <= i < n.children@.len() ==> #[trigger] deep_sorted_at(n, i)
}

/// The child at `i` is deeply sorted.
pub open spec fn deep_sorted_at(n: TreeNode, i: int) -> bool
    decreases n, 0int,
{
    if 0 <= i < n.children@.len() {
        deep_sorted(n.children@[i])
    } else {
        true
    }
}

/// Sorts a list of siblings, each deeply, into display order.
fn sort_forest(kids: Vec<TreeNode>, Ghost(parent): Ghost<TreeNode>) -> (r: Vec<TreeNode>)
    requires
        kids@ == parent.children@,
    ensures
        siblings_sorted(r@),
        r@.len() == kids@.len(),
        forall|i: int| 0 <= i < r@.len() ==> deep_sorted(#[trigger] r@[i]),
    decreases parent, 0int,
{
    let mut pending = kids;
    let mut sorted: Vec<TreeNode> = Vec::new();
    let mut done: usize = 0;
    let total = pending.len();
    while pending.len() > 0
        invariant
            done + pending@.len() == total,
            total == parent.children@.len(),
            pending@ == parent.children@.subrange(done as int, total as int),
            sorted@.len() == done,
            siblings_sorted(sorted@),
            forall|i: int| 0 <= i < sorted@.len() ==> deep_sorted(#[trigger] sorted@[i]),
        decreases pending@.len(),
    {
        let c = pending.remove(0);
        proof {
            assert(c == parent.children@[done as int]);
            assert(decreases_to!(parent => parent.children));
            vstd::std_specs::vec::axiom_vec_index_decreases(parent.children, done as int);
        }
        let c2 = sorted_node(c);
        let ghost before = sorted@;
        insert_sorted(&mut sorted, c2);
        proof {
            let j = choose|j: int| 0 <= j <= before.len() && sorted@ == before.insert(j, c2);
            assert forall|i: int| 0 <= i < sorted@.len() implies deep_sorted(#[trigger] sorted@[i]) by {
                if i < j {
                    assert(sorted@[i] == before[i]);
                } else if i > j {
                    assert(sorted@[i] == before[i - 1]);
                }
            }
        }
        done = done + 1;
        assert(pending@ =~= parent.children@.subrange(done as int, total as int));
    }
    sorted
}

/// The same tree with every folder's children in display order.
fn sorted_node(n: TreeNode) -> (r: TreeNode)
    ensures
        deep_sorted(r),
        r.name == n.name,
        r.path == n.path,
        r.node_type == n.node_type,
        r.is_expanded == n.is_expanded,
        r.is_selected == n.is_selected,
        r.depth == n.depth,
        r.children@.len() == n.children@.len(),
    decreases n, 1int,
{
    let mut m = n;
    let mut kids: Vec<TreeNode> = Vec::new();
    std::mem::swap(&mut kids, &mut m.children);
    let sorted = sort_forest(kids, Ghost(n));
    m.children = sorted;
    proof {
        assert forall|i: int| 0 <= i < m.children@.len() implies #[trigger] deep_sorted_at(m, i) by {
            assert(deep_sorted(m.children@[i]));
        }
    }
    m
}

impl TreeNode {
    /// Puts children in display order, folders first and then by name, at
    /// every level.
    pub fn sort_children(&mut self)
        ensures
            deep_sorted(*final(self)),
            final(self).name == old(self).name,
            final(self).path == old(self).path,
            final(self).node_type == old(self).node_type,
            final(self).is_expanded == old(self).is_expanded,
            final(self).is_selected == old(self).is_selected,
            final(self).depth == old(self).depth,
            final(self).children@.len() == old(self).children@.len(),
    {
        let mut kids: Vec<TreeNode> = Vec::new();
        std::mem::swap(&mut kids, &mut self.children);
        let ghost parent = TreeNode { children: kids, ..*self };
        let sorted = sort_forest(kids, Ghost(parent));
        self.children = sorted;
        proof {
            assert forall|i: int| 0 <= i < self.children@.len() implies #[trigger] deep_sorted_at(
                *self,
                i,
            ) by {
                assert(deep_sorted(self.children@[i]));
            }
        }
    }
}

impl TreeNode {
    /// The first node of this tree, top to bottom, whose path is
    /// `target_path`, for changing it.
    pub fn find_by_path_mut(&mut self, target_path: &str) -> (r: Option<&mut TreeNode>)
        ensures
            match r {
                Some(n) => node_find(*old(self), target_path@) == Some(*n),
                None => node_find(*old(self), target_path@) is None,
            },
        decreases *old(self),
    {
        if same_text(self.path.as_str(), target_path) {
            return Some(self);
        }
        let mut i: usize = 0;
        while i < self.children.len()
            invariant
                i <= self.children@.len(),
                *self == *old(self),
                self.path@ != target_path@,
                forest_find(self.children@.subrange(0, i as int), target_path@) is None,
            decreases self.children@.len() - i,
        {
            let ghost pre = self.children@.subrange(0, i + 1);
            assert(pre.drop_last() =~= self.children@.subrange(0, i as int));
            proof {
                assert(decreases_to!(*old(self) => old(self).children));
                vstd::std_specs::vec::axiom_vec_index_decreases(old(self).children, i as int);
            }
            if self.children[i].find_by_path(target_path).is_some() {
                proof {
                    assert(pre.last() == self.children@[i as int]);
                    lemma_find_prefix(self.children@, i as int + 1, target_path@);
                }
                return self.children[i].find_by_path_mut(target_path);
            }
            i = i + 1;
        }
        assert(self.children@.subrange(0, i as int) =~= self.children@);
        None
    }
}

/// Direction for focus movement.
#[derive(Debug, Clone, Copy, PartialEq, Eq, Structural)]
pub enum FocusDirection {
    Up,
    Down,
}

/// State of the collections panel.
#[derive(Debug)]
pub struct TreeState {
    /// Top-level nodes
    pub roots: Vec<TreeNode>,
    /// Path of the selected node
    pub selected_path: Option<String>,
    /// Index of the focused node among the shown ones
    pub focused_index: usize,
}

impl TreeState {
    pub fn new() -> (r: TreeState)
        ensures
            r.roots@.len() == 0,
            r.selected_path is None,
            r.focused_index == 0,
    {
        TreeState { roots: Vec::new(), selected_path: None, focused_index: 0 }
    }

    /// Index of the first top-level tree holding a node at `path`.
    fn root_holding(&self, path: &str) -> (r: Option<usize>)
        ensures
            match r {
                Some(i) => i < self.roots@.len() && node_find(self.roots@[i as int], path@) is Some
                    && forest_find(self.roots@, path@) == node_find(self.roots@[i as int], path@),
                None => forest_find(self.roots@, path@) is None,
            },
    {
        let mut i: usize = 0;
        while i < self.roots.len()
            invariant
                i <= self.roots@.len(),
                forest_find(self.roots@.subrange(0, i as int), path@) is None,
            decreases self.roots@.len() - i,
        {
            let ghost pre = self.roots@.subrange(0, i + 1);
            assert(pre.drop_last() =~= self.roots@.subrange(0, i as int));
            assert(pre.last() == self.roots@[i as int]);
            if self.roots[i].find_by_path(path).is_some() {
                proof {
                    lemma_find_prefix(self.roots@, i as int + 1, path@);
                }
                return Some(i);
            }
            i = i + 1;
        }
        assert(self.roots@.subrange(0, i as int) =~= self.roots@);
        None
    }

    /// The nodes shown in the panel, top to bottom.
    pub fn get_visible_nodes(&self) -> (r: Vec<&TreeNode>)
        ensures
            targets(r@) == forest_visible(self.roots@),
    {
        let mut visible: Vec<&TreeNode> = Vec::new();
        let mut i: usize = 0;
        while i < self.roots.len()
            invariant
                i <= self.roots@.len(),
                targets(visible@) == forest_visible(self.roots@.subrange(0, i as int)),
            decreases self.roots@.len() - i,
        {
            let ghost pre = self.roots@.subrange(0, i + 1);
            assert(pre.drop_last() =~= self.roots@.subrange(0, i as int));
            assert(pre.last() == self.roots@[i as int]);
            self.roots[i].collect_visible_nodes(&mut visible);
            i = i + 1;
        }
        assert(self.roots@.subrange(0, i as int) =~= self.roots@);
        visible
    }

    /// Expands or collapses the folder at `path`.
    pub fn toggle_expansion(&mut self, path: &str)
        ensures
            forest_find(final(self).roots@, path@) == found_changed(
                forest_find(old(self).roots@, path@),
                NodeChange::ToggleExpanded,
            ),
            forest_find(old(self).roots@, path@) is None ==> final(self).roots == old(self).roots,
            final(self).roots@.len() == old(self).roots@.len(),
            final(self).selected_path == old(self).selected_path,
            final(self).focused_index == old(self).focused_index,
    {
        self.change_at(path, NodeChange::ToggleExpanded);
    }

    /// Marks the node at `path` as the one selected, clearing the mark of the
    /// one selected before.
    pub fn select_node(&mut self, path: &str)
        ensures
            forest_find(old(self).roots@, path@) is Some ==> (final(self).selected_path matches Some(
                p,
            ) && p@ == path@),
            forest_find(old(self).roots@, path@) is Some ==> (forest_find(
                final(self).roots@,
                path@,
            ) matches Some(n) && n.is_selected),
            forest_find(old(self).roots@, path@) is None ==> final(self).selected_path == old(
                self,
            ).selected_path,
            final(self).roots@.len() == old(self).roots@.len(),
            final(self).focused_index == old(self).focused_index,
    {
        let target = self.root_holding(path);
        if let Some(old_path) = &self.selected_path {
            let previous = old_path.clone();
            self.change_at(previous.as_str(), NodeChange::Selected(false));
        }
        if target.is_some() {
            self.change_at(path, NodeChange::Selected(true));
            self.selected_path = Some(String::from_str(path));
        }
    }

    /// Moves the focus one shown node up or down, staying within the list.
    pub fn move_focus(&mut self, direction: FocusDirection)
        ensures
            ({
                let n = forest_visible(old(self).roots@).len();
                let f = old(self).focused_index;
                final(self).focused_index == if n == 0 {
                    f
                } else if direction == FocusDirection::Up {
                    if f > 0 {
                        (f - 1) as usize
                    } else {
                        f
                    }
                } else if f < n - 1 {
                    (f + 1) as usize
                } else {
                    f
                }
            }),
            final(self).roots == old(self).roots,
            final(self).selected_path == old(self).selected_path,
    {
        let count = self.get_visible_nodes().len();
        if count == 0 {
            return;
        }
        match direction {
            FocusDirection::Up => {
                if self.focused_index > 0 {
                    self.focused_index = self.focused_index - 1;
                }
            },
            FocusDirection::Down => {
                if self.focused_index < count - 1 {
                    self.focused_index = self.focused_index + 1;
                }
            },
        }
    }

    /// The focused node, when the focus is on a shown node.
    pub fn get_focused_node(&self) -> (r: Option<&TreeNode>)
        ensures
            self.focused_index < forest_visible(self.roots@).len() ==> (r matches Some(n) && *n
                == forest_visible(self.roots@)[self.focused_index as int]),
            self.focused_index >= forest_visible(self.roots@).len() ==> r is None,
    {
        let visible = self.get_visible_nodes();
        if self.focused_index < visible.len() {
            Some(visible[self.focused_index])
        } else {
            None
        }
    }
}

/// The parts of a `/`-separated path, in order; empty parts are kept.
fn split_path(path: &str) -> (r: Vec<String>)
    ensures
        r@.len() >= 1,
        forall|i: int| 0 <= i < r@.len() ==> !r@[i]@.contains('/'),
{
    let n = path.unicode_len();
    let mut parts: Vec<String> = Vec::new();
    let mut start: usize = 0;
    let mut k: usize = 0;
    while k < n
        invariant
            n == path@.len(),
            start <= k <= n,
            forall|q: int| start <= q < k ==> path@[q] != '/',
            forall|i: int| 0 <= i < parts@.len() ==> !parts@[i]@.contains('/'),
        decreases n - k,
    {
        if path.get_char(k) == '/' {
            let part = String::from_str(path.substring_char(start, k));
            assert forall|q: int| 0 <= q < part@.len() implies part@[q] != '/' by {
                assert(part@[q] == path@[start + q]);
            }
            parts.push(part);
            start = k + 1;
        }
        k = k + 1;
    }
    let last = String::from_str(path.substring_char(start, n));
    assert forall|q: int| 0 <= q < last@.len() implies last@[q] != '/' by {
        assert(last@[q] == path@[start + q]);
    }
    parts.push(last);
    parts
}

/// Index of the node named `name` among `nodes`.
fn position_by_name(nodes: &Vec<TreeNode>, name: &str) -> (r: Option<usize>)
    ensures
        match r {
            Some(i) => i < nodes@.len() && nodes@[i as int].name@ == name@,
            None => forall|k: int| 0 <= k < nodes@.len() ==> nodes@[k].name@ != name@,
        },
{
    let mut i: usize = 0;
    while i < nodes.len()
        invariant
            i <= nodes@.len(),
            forall|k: int| 0 <= k < i ==> nodes@[k].name@ != name@,
        decreases nodes@.len() - i,
    {
        if same_text(nodes[i].name.as_str(), name) {
            return Some(i);
        }
        i = i + 1;
    }
    None
}

/// Makes sure folders for `parts[idx..]` exist below `nodes`, creating the
/// missing ones.
fn add_parts(nodes: &mut Vec<TreeNode>, parts: &Vec<String>, idx: usize, current_path: &str)
    ensures
        final(nodes)@.len() >= old(nodes)@.len(),
    decreases parts@.len() - idx,
{
    if idx >= parts.len() {
        return;
    }
    let part = parts[idx].as_str();
    let path = if idx > 0 {
        String::from_str(current_path).concat("/").concat(part)
    } else {
        String::from_str(part)
    };
    let index = match position_by_name(nodes, part) {
        Some(i) => i,
        None => {
            nodes.push(TreeNode::new_folder(String::from_str(part), path.clone(), idx));
            nodes.len() - 1
        },
    };
    add_parts(&mut nodes[index].children, parts, idx + 1, path.as_str());
}

impl TreeState {
    /// Adds the folders along a `/`-separated path.
    fn add_folder_path(&mut self, path: &str)
        ensures
            final(self).roots@.len() >= old(self).roots@.len(),
            final(self).selected_path == old(self).selected_path,
            final(self).focused_index == old(self).focused_index,
    {
        let parts = split_path(path);
        add_parts(&mut self.roots, &parts, 0, "");
    }

    /// Adds a template node under the node at `folder_path`, if there is one.
    fn add_template(&mut self, folder_path: &str, template_name: &str)
        ensures
            final(self).roots@.len() == old(self).roots@.len(),
            final(self).selected_path == old(self).selected_path,
            final(self).focused_index == old(self).focused_index,
    {
        if let Some(i) = self.root_holding(folder_path) {
            if let Some(folder) = self.roots[i].find_by_path_mut(folder_path) {
                if folder.depth < usize::MAX {
                    let template_path = if folder_path.unicode_len() == 0 {
                        String::from_str(template_name)
                    } else {
                        String::from_str(folder_path).concat("/").concat(template_name)
                    };
                    let node = TreeNode::new_template(
                        String::from_str(template_name),
                        template_path,
                        folder.depth + 1,
                    );
                    folder.add_child(node);
                }
            }
        }
    }

    /// Builds the tree from folder paths and the template names in each
    /// folder, then puts every folder's children in display order.
    pub fn build_from_storage(
        folders: Vec<String>,
        templates_by_folder: Vec<(String, Vec<String>)>,
    ) -> (r: TreeState)
        ensures
            r.selected_path is None,
            r.focused_index == 0,
            forall|i: int| 0 <= i < r.roots@.len() ==> deep_sorted(#[trigger] r.roots@[i]),
    {
        let mut state = TreeState::new();
        let mut i: usize = 0;
        while i < folders.len()
            invariant
                state.selected_path is None,
                state.focused_index == 0,
            decreases folders@.len() - i,
        {
            state.add_folder_path(folders[i].as_str());
            i = i + 1;
        }
        let mut j: usize = 0;
        while j < templates_by_folder.len()
            invariant
                state.selected_path is None,
                state.focused_index == 0,
            decreases templates_by_folder@.len() - j,
        {
            let folder = templates_by_folder[j].0.as_str();
            let names = &templates_by_folder[j].1;
            let mut k: usize = 0;
            while k < names.len()
                invariant
                    state.selected_path is None,
                    state.focused_index == 0,
                decreases names@.len() - k,
            {
                state.add_template(folder, names[k].as_str());
                k = k + 1;
            }
            j = j + 1;
        }
        let mut r: usize = 0;
        while r < state.roots.len()
            invariant
                r <= state.roots@.len(),
                state.selected_path is None,
                state.focused_index == 0,
                forall|q: int| 0 <= q < r ==> deep_sorted(#[trigger] state.roots@[q]),
            decreases state.roots@.len() - r,
        {
            state.roots[r].sort_children();
            r = r + 1;
        }
        state
    }
}

/// A change made to one node of the tree.
#[derive(Debug, Clone, Copy, PartialEq, Eq, Structural)]
pub enum NodeChange {
    /// Flip the expanded state of a folder
    ToggleExpanded,
    /// Set the selected mark
    Selected(bool),
}

/// Two trees hold nodes at the same paths.
pub open spec fn same_paths(a: TreeNode, b: TreeNode) -> bool {
    forall|q: Seq<char>| (#[trigger] node_find(a, q) is Some) == (node_find(b, q) is Some)
}

proof fn lemma_forest_same_paths(a: Seq<TreeNode>, b: Seq<TreeNode>, q: Seq<char>)
    requires
        a.len() == b.len(),
        forall|i: int| 0 <= i < a.len() ==> same_paths(#[trigger] a[i], b[i]),
    ensures
        (forest_find(a, q) is Some) == (forest_find(b, q) is Some),
    decreases a.len(),
{
    if a.len() > 0 {
        lemma_forest_same_paths(a.drop_last(), b.drop_last(), q);
        assert(same_paths(a.last(), b.last()));
        assert((node_find(a.last(), q) is Some) == (node_find(b.last(), q) is Some));
    }
}

/// A node after a change.
pub open spec fn changed(m: TreeNode, c: NodeChange) -> TreeNode {
    match c {
        NodeChange::ToggleExpanded => TreeNode {
            is_expanded: if m.node_type == NodeType::Folder {
                !m.is_expanded
            } else {
                m.is_expanded
            },
            ..m
        },
        NodeChange::Selected(b) => TreeNode { is_selected: b, ..m },
    }
}

/// The outcome of a search by path once the node found has been changed.
pub open spec fn found_changed(f: Option<TreeNode>, c: NodeChange) -> Option<TreeNode> {
    match f {
        Some(m) => Some(changed(m, c)),
        None => None,
    }
}

fn apply_change(n: TreeNode, c: NodeChange) -> (r: TreeNode)
    ensures
        r == changed(n, c),
{
    let mut m = n;
    match c {
        NodeChange::ToggleExpanded => m.toggle_expanded(),
        NodeChange::Selected(b) => m.set_selected(b),
    }
    m
}

/// Changes the first node, top to bottom, at path `p` among siblings that
/// hold one.
fn change_in_forest(
    kids: Vec<TreeNode>,
    p: &str,
    c: NodeChange,
    Ghost(parent): Ghost<TreeNode>,
) -> (r: Vec<TreeNode>)
    requires
        kids@ == parent.children@,
        forest_find(kids@, p@) is Some,
    ensures
        forest_find(r@, p@) == found_changed(forest_find(kids@, p@), c),
        r@.len() == kids@.len(),
        forall|i: int| 0 <= i < r@.len() ==> same_paths(#[trigger] r@[i], kids@[i]),
    decreases parent, 0int,
{
    let ghost orig = kids@;
    let mut rest = kids;
    let mut out: Vec<TreeNode> = Vec::new();
    let mut done: usize = 0;
    let total = rest.len();
    let mut found = false;
    let ghost mut j: int = 0;
    while rest.len() > 0
        invariant
            done + rest@.len() == total,
            total == orig.len(),
            orig == parent.children@,
            rest@ == orig.subrange(done as int, total as int),
            out@.len() == done,
            forall|i: int| 0 <= i < done ==> same_paths(#[trigger] out@[i], orig[i]),
            forest_find(orig, p@) is Some,
            !found ==> out@ == orig.take(done as int) && forest_find(orig.take(done as int), p@)
                is None,
            found ==> 0 <= j < done && forest_find(orig.take(j + 1), p@) is Some && forest_find(
                out@.take(j + 1),
                p@,
            ) == found_changed(forest_find(orig.take(j + 1), p@), c),
        decreases rest@.len(),
    {
        let k = rest.remove(0);
        proof {
            assert(k == orig[done as int]);
            assert(orig.take(done + 1).drop_last() =~= orig.take(done as int));
        }
        if !found && k.find_by_path(p).is_some() {
            proof {
                assert(decreases_to!(parent => parent.children));
                vstd::std_specs::vec::axiom_vec_index_decreases(parent.children, done as int);
            }
            let ghost before = out@;
            let (k2, _) = change_node(k, p, c);
            out.push(k2);
            proof {
                j = done as int;
                assert(out@.take(j + 1).drop_last() =~= before);
                assert(out@.take(j + 1).last() == k2);
            }
            found = true;
        } else {
            let ghost before = out@;
            out.push(k);
            proof {
                if found {
                    assert(out@.take(j + 1) =~= before.take(j + 1));
                } else {
                    assert(out@ =~= orig.take(done + 1));
                }
            }
        }
        done = done + 1;
        assert(rest@ =~= orig.subrange(done as int, total as int));
    }
    proof {
        if !found {
            assert(orig.take(done as int) =~= orig);
        }
        lemma_find_prefix(orig, j + 1, p@);
        lemma_find_prefix(out@, j + 1, p@);
    }
    out
}

/// Changes the first node, top to bottom, at path `p` in a tree, and says
/// whether there was one.
fn change_node(n: TreeNode, p: &str, c: NodeChange) -> (r: (TreeNode, bool))
    ensures
        r.1 == node_find(n, p@) is Some,
        !r.1 ==> r.0 == n,
        node_find(r.0, p@) == found_changed(node_find(n, p@), c),
        same_paths(r.0, n),
    decreases n, 1int,
{
    if n.find_by_path(p).is_none() {
        return (n, false);
    }
    if same_text(n.path.as_str(), p) {
        let m = apply_change(n, c);
        return (m, true);
    }
    let mut m = n;
    let mut kids: Vec<TreeNode> = Vec::new();
    std::mem::swap(&mut kids, &mut m.children);
    let out = change_in_forest(kids, p, c, Ghost(n));
    m.children = out;
    proof {
        assert forall|q: Seq<char>| (#[trigger] node_find(m, q) is Some) == (node_find(n, q) is Some) by {
            lemma_forest_same_paths(m.children@, n.children@, q);
        }
    }
    (m, true)
}

impl TreeState {
    fn change_at(&mut self, path: &str, c: NodeChange)
        ensures
            forest_find(final(self).roots@, path@) == found_changed(
                forest_find(old(self).roots@, path@),
                c,
            ),
            forest_find(old(self).roots@, path@) is None ==> final(self).roots == old(self).roots,
            final(self).roots@.len() == old(self).roots@.len(),
            forall|q: Seq<char>|
                (#[trigger] forest_find(final(self).roots@, q) is Some) == (forest_find(
                    old(self).roots@,
                    q,
                ) is Some),
            final(self).selected_path == old(self).selected_path,
            final(self).focused_index == old(self).focused_index,
    {
        let ghost before = self.roots@;
        if self.root_holding(path).is_some() {
            let mut roots: Vec<TreeNode> = Vec::new();
            std::mem::swap(&mut roots, &mut self.roots);
            let ghost parent = TreeNode { children: roots, ..vstd::pervasive::arbitrary() };
            self.roots = change_in_forest(roots, path, c, Ghost(parent));
            proof {
                assert forall|q: Seq<char>|
                    (#[trigger] forest_find(self.roots@, q) is Some) == (forest_find(before, q) is Some) by {
                    lemma_forest_same_paths(self.roots@, before, q);
                }
            }
        }
    }
}

} // verus!
