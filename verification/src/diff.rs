use vstd::prelude::*;

verus! {

/// The key/value views of a list of string pairs.
pub open spec fn pair_views(s: Seq<(String, String)>) -> Seq<(Seq<char>, Seq<char>)> {
    s.map_values(|e: (String, String)| (e.0@, e.1@))
}

/// No key occurs twice.
pub open spec fn keys_unique(s: Seq<(Seq<char>, Seq<char>)>) -> bool {
    forall|i: int, j: int| 0 <= i < j < s.len() ==> #[trigger] s[i].0 != #[trigger] s[j].0
}

/// The map that a list of key/value pairs describes.
pub open spec fn pairs_map(s: Seq<(Seq<char>, Seq<char>)>) -> Map<Seq<char>, Seq<char>>
    decreases s.len(),
{
    if s.len() == 0 {
        Map::empty()
    } else {
        pairs_map(s.drop_last()).insert(s.last().0, s.last().1)
    }
}

proof fn lemma_pairs_map_keys(s: Seq<(Seq<char>, Seq<char>)>, k: Seq<char>)
    ensures
        pairs_map(s).contains_key(k) <==> exists|i: int| 0 <= i < s.len() && #[trigger] s[i].0 == k,
    decreases s.len(),
{
    if s.len() > 0 {
        lemma_pairs_map_keys(s.drop_last(), k);
        if pairs_map(s.drop_last()).contains_key(k) {
            let i = choose|i: int| 0 <= i < s.drop_last().len() && #[trigger] s.drop_last()[i].0 == k;
            assert(s[i].0 == k);
        }
        if exists|i: int| 0 <= i < s.len() && #[trigger] s[i].0 == k {
            let i = choose|i: int| 0 <= i < s.len() && #[trigger] s[i].0 == k;
            if i < s.len() - 1 {
                assert(s.drop_last()[i].0 == k);
            }
        }
    }
}

proof fn lemma_pairs_map_value(s: Seq<(Seq<char>, Seq<char>)>, i: int)
    requires
        keys_unique(s),
        0 <= i < s.len(),
    ensures
        pairs_map(s).contains_key(s[i].0),
        pairs_map(s)[s[i].0] == s[i].1,
    decreases s.len(),
{
    if i < s.len() - 1 {
        assert(s.drop_last()[i] == s[i]);
        lemma_pairs_map_value(s.drop_last(), i);
        assert(s[i].0 != s[s.len() - 1].0);
    }
}

/// A component's property bag: string keys, each with one string value.
#[derive(Debug)]
pub struct PropMap {
    entries: Vec<(String, String)>,
}

impl View for PropMap {
    type V = Map<Seq<char>, Seq<char>>;

    closed spec fn view(&self) -> Map<Seq<char>, Seq<char>> {
        pairs_map(pair_views(self.entries@))
    }
}

impl PropMap {
    #[verifier::type_invariant]
    spec fn keys_distinct(self) -> bool {
        keys_unique(pair_views(self.entries@))
    }

    /// A property bag with no entries.
    pub fn new() -> (m: Self)
        ensures
            m@ == Map::<Seq<char>, Seq<char>>::empty(),
    {
        let m = PropMap { entries: Vec::new() };
        assert(pair_views(m.entries@) =~= Seq::empty());
        m
    }

    fn position(&self, key: &str) -> (r: Option<usize>)
        ensures
            match r {
                Some(i) => i < self.entries@.len() && self.entries@[i as int].0@ == key@,
                None => forall|i: int|
                    0 <= i < self.entries@.len() ==> #[trigger] self.entries@[i].0@ != key@,
            },
    {
        let mut i: usize = 0;
        while i < self.entries.len()
            invariant
                i <= self.entries@.len(),
                forall|j: int| 0 <= j < i ==> #[trigger] self.entries@[j].0@ != key@,
            decreases self.entries@.len() - i,
        {
            if crate::text::str_eq(self.entries[i].0.as_str(), key) {
                return Some(i);
            }
            i = i + 1;
        }
        None
    }

    /// The value stored under `key`, if any.
    pub fn get(&self, key: &str) -> (r: Option<&String>)
        ensures
            match r {
                Some(v) => self@.contains_key(key@) && v@ == self@[key@],
                None => !self@.contains_key(key@),
            },
    {
        proof {
            use_type_invariant(self);
            lemma_pairs_map_keys(pair_views(self.entries@), key@);
        }
        match self.position(key) {
            Some(i) => {
                proof {
                    lemma_pairs_map_value(pair_views(self.entries@), i as int);
                }
                Some(&self.entries[i].1)
            },
            None => {
                proof {
                    assert forall|j: int| 0 <= j < pair_views(self.entries@).len() implies #[trigger] pair_views(
                        self.entries@,
                    )[j].0 != key@ by {
                        assert(self.entries@[j].0@ != key@);
                    }
                }
                None
            },
        }
    }

    /// Stores `value` under `key`, replacing an earlier value.
    pub fn insert(&mut self, key: String, value: String)
        ensures
            final(self)@ == old(self)@.insert(key@, value@),
    {
        proof {
            use_type_invariant(&*self);
        }
        let ghost before = pair_views(self.entries@);
        match self.position(key.as_str()) {
            Some(i) => {
                let ghost k = key@;
                let ghost v = value@;
                assert(before[i as int].0 == k);
                let mut entries = Vec::new();
                std::mem::swap(&mut entries, &mut self.entries);
                entries.set(i, (key, value));
                let ghost after = pair_views(entries@);
                proof {
                    assert(after =~= before.update(i as int, (k, v)));
                    assert forall|a: int, b: int| 0 <= a < b < after.len() implies #[trigger] after[a].0
                        != #[trigger] after[b].0 by {
                        assert(before[a].0 != before[b].0);
                    }
                    assert forall|q: Seq<char>| #[trigger]
                        pairs_map(after).contains_key(q) == pairs_map(before).insert(
                            k,
                            v,
                        ).contains_key(q) by {
                        lemma_pairs_map_keys(after, q);
                        lemma_pairs_map_keys(before, q);
                        if q == k {
                            assert(after[i as int].0 == q);
                            assert(before[i as int].0 == q);
                        } else {
                            if exists|j: int| 0 <= j < before.len() && #[trigger] before[j].0 == q {
                                let j = choose|j: int|
                                    0 <= j < before.len() && #[trigger] before[j].0 == q;
                                assert(after[j].0 == q);
                            }
                            if exists|j: int| 0 <= j < after.len() && #[trigger] after[j].0 == q {
                                let j = choose|j: int|
                                    0 <= j < after.len() && #[trigger] after[j].0 == q;
                                assert(before[j].0 == q);
                            }
                        }
                    }
                    assert forall|q: Seq<char>| #[trigger]
                        pairs_map(after).contains_key(q) implies pairs_map(after)[q] == pairs_map(
                        before,
                    ).insert(k, v)[q] by {
                        lemma_pairs_map_keys(after, q);
                        let j = choose|j: int| 0 <= j < after.len() && #[trigger] after[j].0 == q;
                        lemma_pairs_map_value(after, j);
                        if j != i {
                            lemma_pairs_map_value(before, j);
                        }
                    }
                    assert(pairs_map(after) =~= pairs_map(before).insert(k, v));
                }
                self.entries = entries;
            },
            None => {
                let ghost k = key@;
                let ghost v = value@;
                assert forall|a: int| 0 <= a < before.len() implies #[trigger] before[a].0 != k by {
                    assert(self.entries@[a].0@ != key@);
                }
                let mut entries = Vec::new();
                std::mem::swap(&mut entries, &mut self.entries);
                entries.push((key, value));
                let ghost after = pair_views(entries@);
                proof {
                    assert(after =~= before.push((k, v)));
                    assert(after.drop_last() =~= before);
                    assert forall|a: int, b: int| 0 <= a < b < after.len() implies #[trigger] after[a].0
                        != #[trigger] after[b].0 by {
                        if b == after.len() - 1 {
                            assert(before[a].0 != k);
                        }
                    }
                }
                self.entries = entries;
            },
        }
    }

    /// A copy of the property bag.
    pub fn duplicate(&self) -> (m: Self)
        ensures
            m@ == self@,
    {
        proof {
            use_type_invariant(self);
        }
        let mut entries: Vec<(String, String)> = Vec::new();
        let mut i: usize = 0;
        while i < self.entries.len()
            invariant
                i <= self.entries@.len(),
                entries@ == self.entries@.take(i as int),
            decreases self.entries@.len() - i,
        {
            let k = self.entries[i].0.clone();
            let v = self.entries[i].1.clone();
            entries.push((k, v));
            proof {
                assert(entries@ =~= self.entries@.take(i + 1));
            }
            i = i + 1;
        }
        proof {
            assert(entries@ =~= self.entries@);
        }
        PropMap { entries }
    }

    /// Whether two property bags hold the same keys with the same values.
    pub fn same_as(&self, other: &PropMap) -> (r: bool)
        ensures
            r == (self@ == other@),
    {
        proof {
            use_type_invariant(self);
            use_type_invariant(other);
        }
        let ghost a = pair_views(self.entries@);
        let ghost b = pair_views(other.entries@);
        let mut i: usize = 0;
        while i < self.entries.len()
            invariant
                i <= self.entries@.len(),
                a == pair_views(self.entries@),
                b == pair_views(other.entries@),
                keys_unique(a),
                keys_unique(b),
                forall|j: int|
                    0 <= j < i ==> #[trigger] other@.contains_key(a[j].0) && other@[a[j].0]
                        == a[j].1,
            decreases self.entries@.len() - i,
        {
            let key = self.entries[i].0.as_str();
            match other.get(key) {
                Some(v) => {
                    if !(*v == self.entries[i].1) {
                        proof {
                            lemma_pairs_map_value(a, i as int);
                        }
                        return false;
                    }
                },
                None => {
                    proof {
                        lemma_pairs_map_value(a, i as int);
                    }
                    return false;
                },
            }
            i = i + 1;
        }
        let mut j: usize = 0;
        while j < other.entries.len()
            invariant
                j <= other.entries@.len(),
                a == pair_views(self.entries@),
                b == pair_views(other.entries@),
                keys_unique(a),
                keys_unique(b),
                forall|q: int|
                    0 <= q < a.len() ==> #[trigger] other@.contains_key(a[q].0) && other@[a[q].0]
                        == a[q].1,
                forall|q: int| 0 <= q < j ==> #[trigger] self@.contains_key(b[q].0),
            decreases other.entries@.len() - j,
        {
            let key = other.entries[j].0.as_str();
            if self.get(key).is_none() {
                proof {
                    lemma_pairs_map_value(b, j as int);
                }
                return false;
            }
            j = j + 1;
        }
        proof {
            assert forall|q: Seq<char>| #[trigger] self@.contains_key(q) == other@.contains_key(q) by {
                lemma_pairs_map_keys(a, q);
                lemma_pairs_map_keys(b, q);
                if self@.contains_key(q) {
                    let x = choose|x: int| 0 <= x < a.len() && #[trigger] a[x].0 == q;
                }
                if other@.contains_key(q) {
                    let x = choose|x: int| 0 <= x < b.len() && #[trigger] b[x].0 == q;
                }
            }
            assert forall|q: Seq<char>| #[trigger] self@.contains_key(q) implies self@[q]
                == other@[q] by {
                lemma_pairs_map_keys(a, q);
                let x = choose|x: int| 0 <= x < a.len() && #[trigger] a[x].0 == q;
                lemma_pairs_map_value(a, x);
            }
            assert(self@ =~= other@);
        }
        true
    }
}

/// What the diff reads of a node: its id and its properties.
pub struct NodeState {
    pub id: u64,
    pub props: Map<Seq<char>, Seq<char>>,
}

/// A node as the tree diff sees it: an id and a property bag.
#[derive(Debug)]
pub struct DiffNode {
    pub id: u64,
    pub props: PropMap,
}

impl View for DiffNode {
    type V = NodeState;

    open spec fn view(&self) -> NodeState {
        NodeState { id: self.id, props: self.props@ }
    }
}

impl DiffNode {
    /// A node with the given id and properties.
    pub fn new(id: u64, props: PropMap) -> (n: Self)
        ensures
            n@ == (NodeState { id, props: props@ }),
    {
        DiffNode { id, props }
    }

    /// A copy of the node.
    pub fn duplicate(&self) -> (n: Self)
        ensures
            n@ == self@,
    {
        DiffNode { id: self.id, props: self.props.duplicate() }
    }
}

/// A patch as a value: what it adds, removes or changes.
pub enum PatchState {
    AddNode { parent_id: u64, node: NodeState },
    RemoveNode { id: u64 },
    UpdateProps { id: u64, props: Map<Seq<char>, Seq<char>> },
    Reorder { parent_id: u64, order: Seq<u64> },
}

/// One change that turns an old tree level into a new one.
#[derive(Debug)]
pub enum Patch {
    AddNode { parent_id: u64, node: DiffNode },
    RemoveNode { id: u64 },
    UpdateProps { id: u64, props: PropMap },
    Reorder { parent_id: u64, order: Vec<u64> },
}

impl View for Patch {
    type V = PatchState;

    open spec fn view(&self) -> PatchState {
        match self {
            Patch::AddNode { parent_id, node } => PatchState::AddNode {
                parent_id: *parent_id,
                node: node@,
            },
            Patch::RemoveNode { id } => PatchState::RemoveNode { id: *id },
            Patch::UpdateProps { id, props } => PatchState::UpdateProps { id: *id, props: props@ },
            Patch::Reorder { parent_id, order } => PatchState::Reorder {
                parent_id: *parent_id,
                order: order@,
            },
        }
    }
}

/// The views of a list of nodes.
pub open spec fn node_states(s: Seq<DiffNode>) -> Seq<NodeState> {
    s.map_values(|n: DiffNode| n@)
}

/// The views of a list of patches.
pub open spec fn patch_states(s: Seq<Patch>) -> Seq<PatchState> {
    s.map_values(|p: Patch| p@)
}

/// The first node with the given id.
pub open spec fn find_by_id(s: Seq<NodeState>, id: u64) -> Option<NodeState>
    decreases s.len(),
{
    if s.len() == 0 {
        None
    } else if s[0].id == id {
        Some(s[0])
    } else {
        find_by_id(s.drop_first(), id)
    }
}

/// The patch a new node calls for: an addition when no old node has its id,
/// an update when the first old node with its id has other properties.
pub open spec fn patch_for_new(old: Seq<NodeState>, n: NodeState) -> Seq<PatchState> {
    match find_by_id(old, n.id) {
        None => seq![PatchState::AddNode { parent_id: 0, node: n }],
        Some(o) => if o.props != n.props {
            seq![PatchState::UpdateProps { id: n.id, props: n.props }]
        } else {
            seq![]
        },
    }
}

/// The additions and updates, in the order of the new nodes.
pub open spec fn additions_and_updates(old: Seq<NodeState>, new: Seq<NodeState>) -> Seq<
    PatchState,
>
    decreases new.len(),
{
    if new.len() == 0 {
        seq![]
    } else {
        additions_and_updates(old, new.drop_last()) + patch_for_new(old, new.last())
    }
}

/// The removals of old nodes whose id no new node has, in the order of the old nodes.
pub open spec fn removals(old: Seq<NodeState>, new: Seq<NodeState>) -> Seq<PatchState>
    decreases old.len(),
{
    if old.len() == 0 {
        seq![]
    } else {
        removals(old.drop_last(), new) + if find_by_id(new, old.last().id) is None {
            seq![PatchState::RemoveNode { id: old.last().id }]
        } else {
            seq![]
        }
    }
}

/// The patches from one list of sibling nodes to another: additions and
/// updates first, then removals.
pub open spec fn tree_diff(old: Seq<NodeState>, new: Seq<NodeState>) -> Seq<PatchState> {
    additions_and_updates(old, new) + removals(old, new)
}

fn first_with_id(s: &[DiffNode], id: u64) -> (r: Option<usize>)
    ensures
        match r {
            Some(i) => i < s@.len() && find_by_id(node_states(s@), id) == Some(s@[i as int]@),
            None => find_by_id(node_states(s@), id) is None,
        },
{
    let ghost all = node_states(s@);
    assert(all.skip(0) =~= all);
    let mut i: usize = 0;
    while i < s.len()
        invariant
            i <= s@.len(),
            all == node_states(s@),
            find_by_id(all, id) == find_by_id(all.skip(i as int), id),
        decreases s@.len() - i,
    {
        assert(all.skip(i as int)[0] == s@[i as int]@);
        if s[i].id == id {
            return Some(i);
        }
        assert(all.skip(i as int).drop_first() =~= all.skip(i + 1));
        i = i + 1;
    }
    None
}

/// The patches that turn the sibling list `old` into `new`: an `AddNode`
/// under parent 0 for each new node whose id is not among the old ones, an
/// `UpdateProps` for each new node whose properties differ from those of the
/// first old node with its id, then a `RemoveNode` for each old node whose id
/// is not among the new ones.
pub fn diff_trees(old: &[DiffNode], new: &[DiffNode]) -> (patches: Vec<Patch>)
    ensures
        patch_states(patches@) == tree_diff(node_states(old@), node_states(new@)),
{
    let ghost os = node_states(old@);
    let ghost ns = node_states(new@);
    let mut patches: Vec<Patch> = Vec::new();
    let mut j: usize = 0;
    while j < new.len()
        invariant
            j <= new@.len(),
            os == node_states(old@),
            ns == node_states(new@),
            patch_states(patches@) == additions_and_updates(os, ns.take(j as int)),
        decreases new@.len() - j,
    {
        let ghost before = patches@;
        let n = &new[j];
        match first_with_id(old, n.id) {
            None => {
                patches.push(Patch::AddNode { parent_id: 0, node: n.duplicate() });
            },
            Some(i) => {
                if !old[i].props.same_as(&n.props) {
                    patches.push(Patch::UpdateProps { id: n.id, props: n.props.duplicate() });
                }
            },
        }
        proof {
            assert(ns.take(j + 1).drop_last() =~= ns.take(j as int));
            assert(ns.take(j + 1).last() == new@[j as int]@);
            assert(patch_states(patches@) =~= patch_states(before) + patch_for_new(
                os,
                new@[j as int]@,
            ));
        }
        j = j + 1;
    }
    proof {
        assert(ns.take(new@.len() as int) =~= ns);
    }
    let ghost mid = patch_states(patches@);
    let mut i: usize = 0;
    while i < old.len()
        invariant
            i <= old@.len(),
            os == node_states(old@),
            ns == node_states(new@),
            mid == additions_and_updates(os, ns),
            patch_states(patches@) == mid + removals(os.take(i as int), ns),
        decreases old@.len() - i,
    {
        let ghost before = patches@;
        if first_with_id(new, old[i].id).is_none() {
            patches.push(Patch::RemoveNode { id: old[i].id });
        }
        proof {
            assert(os.take(i + 1).drop_last() =~= os.take(i as int));
            assert(os.take(i + 1).last() == old@[i as int]@);
            let tail = if find_by_id(ns, old@[i as int].id) is None {
                seq![PatchState::RemoveNode { id: old@[i as int].id }]
            } else {
                seq![]
            };
            assert(patch_states(patches@) =~= patch_states(before) + tail);
            assert(mid + removals(os.take(i + 1), ns) =~= mid + removals(os.take(i as int), ns)
                + tail);
        }
        i = i + 1;
    }
    proof {
        assert(os.take(old@.len() as int) =~= os);
    }
    patches
}

/// No two nodes share an id.
pub open spec fn ids_unique(s: Seq<NodeState>) -> bool {
    forall|i: int, j: int| 0 <= i < j < s.len() ==> #[trigger] s[i].id != #[trigger] s[j].id
}

/// Why a patch is in the diff of `old` and `new`.
pub open spec fn patch_justified(old: Seq<NodeState>, new: Seq<NodeState>, p: PatchState) -> bool {
    match p {
        PatchState::AddNode { parent_id, node } => parent_id == 0 && new.contains(node)
            && find_by_id(old, node.id) is None,
        PatchState::RemoveNode { id } => find_by_id(old, id) is Some && find_by_id(new, id) is None,
        PatchState::UpdateProps { id, props } => new.contains(NodeState { id, props }) && (
        find_by_id(old, id) matches Some(o) && o.props != props),
        PatchState::Reorder { .. } => false,
    }
}

proof fn lemma_find_by_id(s: Seq<NodeState>, id: u64)
    ensures
        find_by_id(s, id) is Some <==> exists|i: int| 0 <= i < s.len() && #[trigger] s[i].id == id,
        find_by_id(s, id) matches Some(x) ==> s.contains(x) && x.id == id,
    decreases s.len(),
{
    if s.len() > 0 {
        lemma_find_by_id(s.drop_first(), id);
        if s[0].id == id {
            assert(s[0] == s[0]);
        } else {
            if exists|i: int| 0 <= i < s.len() && #[trigger] s[i].id == id {
                let i = choose|i: int| 0 <= i < s.len() && #[trigger] s[i].id == id;
                assert(s.drop_first()[i - 1].id == id);
            }
            if exists|i: int| 0 <= i < s.drop_first().len() && #[trigger] s.drop_first()[i].id == id {
                let i = choose|i: int|
                    0 <= i < s.drop_first().len() && #[trigger] s.drop_first()[i].id == id;
                assert(s[i + 1].id == id);
            }
            if let Some(x) = find_by_id(s, id) {
                let i = choose|i: int| 0 <= i < s.drop_first().len() && s.drop_first()[i] == x;
                assert(s[i + 1] == x);
            }
        }
    }
}

proof fn lemma_find_unique(s: Seq<NodeState>, k: int)
    requires
        ids_unique(s),
        0 <= k < s.len(),
    ensures
        find_by_id(s, s[k].id) == Some(s[k]),
    decreases s.len(),
{
    if k > 0 {
        assert(s[0].id != s[k].id);
        assert(s.drop_first()[k - 1] == s[k]);
        lemma_find_unique(s.drop_first(), k - 1);
    }
}

proof fn lemma_no_additions_or_updates(old: Seq<NodeState>, p: Seq<NodeState>)
    requires
        forall|k: int| 0 <= k < p.len() ==> find_by_id(old, #[trigger] p[k].id) == Some(p[k]),
    ensures
        additions_and_updates(old, p) == Seq::<PatchState>::empty(),
    decreases p.len(),
{
    if p.len() > 0 {
        assert forall|k: int| 0 <= k < p.drop_last().len() implies find_by_id(
            old,
            #[trigger] p.drop_last()[k].id,
        ) == Some(p.drop_last()[k]) by {
            assert(p.drop_last()[k] == p[k]);
        }
        lemma_no_additions_or_updates(old, p.drop_last());
        assert(find_by_id(old, p[p.len() - 1].id) == Some(p[p.len() - 1]));
        assert(additions_and_updates(old, p) =~= Seq::<PatchState>::empty());
    }
}

proof fn lemma_no_removals(p: Seq<NodeState>, new: Seq<NodeState>)
    requires
        forall|k: int| 0 <= k < p.len() ==> find_by_id(new, #[trigger] p[k].id) is Some,
    ensures
        removals(p, new) == Seq::<PatchState>::empty(),
    decreases p.len(),
{
    if p.len() > 0 {
        assert forall|k: int| 0 <= k < p.drop_last().len() implies find_by_id(
            new,
            #[trigger] p.drop_last()[k].id,
        ) is Some by {
            assert(p.drop_last()[k] == p[k]);
        }
        lemma_no_removals(p.drop_last(), new);
        assert(find_by_id(new, p[p.len() - 1].id) is Some);
        assert(removals(p, new) =~= Seq::<PatchState>::empty());
    }
}

/// Diffing a sibling list whose ids are distinct against itself yields no patch.
pub proof fn lemma_diff_of_identical(x: Seq<NodeState>)
    requires
        ids_unique(x),
    ensures
        tree_diff(x, x) == Seq::<PatchState>::empty(),
{
    assert forall|k: int| 0 <= k < x.len() implies find_by_id(x, #[trigger] x[k].id) == Some(
        x[k],
    ) by {
        lemma_find_unique(x, k);
    }
    lemma_no_additions_or_updates(x, x);
    lemma_no_removals(x, x);
    assert(tree_diff(x, x) =~= Seq::<PatchState>::empty());
}

proof fn lemma_additions_justified(old: Seq<NodeState>, new: Seq<NodeState>, rest: Seq<NodeState>)
    ensures
        forall|k: int|
            0 <= k < additions_and_updates(old, new).len() ==> patch_justified(
                old,
                new + rest,
                #[trigger] additions_and_updates(old, new)[k],
            ),
    decreases new.len(),
{
    if new.len() > 0 {
        let n = new.last();
        assert(new.drop_last() + (seq![n] + rest) =~= new + rest);
        lemma_additions_justified(old, new.drop_last(), seq![n] + rest);
        assert((new + rest)[new.len() - 1] == n);
        assert((new + rest).contains(n));
        let d = additions_and_updates(old, new);
        let front = additions_and_updates(old, new.drop_last());
        assert forall|k: int| 0 <= k < d.len() implies patch_justified(old, new + rest, #[trigger] d[k]) by {
            if k < front.len() {
                assert(d[k] == front[k]);
            } else {
                assert(d[k] == patch_for_new(old, n)[k - front.len()]);
                if let PatchState::UpdateProps { id, props } = d[k] {
                    assert(NodeState { id, props } == n);
                }
            }
        }
    }
}

proof fn lemma_removals_justified(old: Seq<NodeState>, new: Seq<NodeState>)
    ensures
        forall|k: int|
            0 <= k < removals(old, new).len() ==> (#[trigger] removals(old, new)[k] is RemoveNode
                && patch_justified(old, new, removals(old, new)[k])),
    decreases old.len(),
{
    if old.len() > 0 {
        lemma_removals_justified(old.drop_last(), new);
        let d = removals(old, new);
        let front = removals(old.drop_last(), new);
        assert forall|k: int| 0 <= k < d.len() implies (#[trigger] d[k] is RemoveNode
            && patch_justified(old, new, d[k])) by {
            if k < front.len() {
                assert(d[k] == front[k]);
                let id = front[k]->RemoveNode_id;
                lemma_find_by_id(old.drop_last(), id);
                lemma_find_by_id(old, id);
                let i = choose|i: int|
                    0 <= i < old.drop_last().len() && #[trigger] old.drop_last()[i].id == id;
                assert(old[i].id == id);
            } else {
                let id = old.last().id;
                assert(d[k] == PatchState::RemoveNode { id });
                lemma_find_by_id(old, id);
                assert(old[old.len() - 1].id == id);
            }
        }
    }
}

/// Each patch of a diff has its reason: an added node is a new node under
/// parent 0 whose id the old list lacks; a removed id is in the old list and
/// not in the new one; an update carries the properties of a new node whose
/// id the old list has with other properties; no reordering is emitted.
pub proof fn lemma_diff_patches_justified(old: Seq<NodeState>, new: Seq<NodeState>)
    ensures
        forall|k: int|
            0 <= k < tree_diff(old, new).len() ==> patch_justified(
                old,
                new,
                #[trigger] tree_diff(old, new)[k],
            ),
{
    lemma_additions_justified(old, new, seq![]);
    assert(new + seq![] =~= new);
    lemma_removals_justified(old, new);
    let a = additions_and_updates(old, new);
    let d = tree_diff(old, new);
    assert forall|k: int| 0 <= k < d.len() implies patch_justified(old, new, #[trigger] d[k]) by {
        if k < a.len() {
            assert(d[k] == a[k]);
        } else {
            assert(d[k] == removals(old, new)[k - a.len()]);
            assert(patch_justified(old, new, removals(old, new)[k - a.len()]));
        }
    }
}

proof fn lemma_additions_complete(old: Seq<NodeState>, new: Seq<NodeState>)
    ensures
        forall|n: NodeState|
            new.contains(n) && find_by_id(old, n.id) is None ==> #[trigger] additions_and_updates(
                old,
                new,
            ).contains(PatchState::AddNode { parent_id: 0, node: n }),
        forall|n: NodeState|
            new.contains(n) && (find_by_id(old, n.id) matches Some(o) && o.props != n.props)
                ==> #[trigger] additions_and_updates(old, new).contains(
                PatchState::UpdateProps { id: n.id, props: n.props },
            ),
    decreases new.len(),
{
    if new.len() > 0 {
        lemma_additions_complete(old, new.drop_last());
        let d = additions_and_updates(old, new);
        let front = additions_and_updates(old, new.drop_last());
        let last = patch_for_new(old, new.last());
        assert forall|x: PatchState| front.contains(x) implies d.contains(x) by {
            let i = choose|i: int| 0 <= i < front.len() && front[i] == x;
            assert(d[i] == x);
        }
        assert forall|x: PatchState| last.contains(x) implies d.contains(x) by {
            let i = choose|i: int| 0 <= i < last.len() && last[i] == x;
            assert(d[front.len() + i] == x);
        }
        assert forall|n: NodeState| new.contains(n) implies n == new.last()
            || new.drop_last().contains(n) by {
            let i = choose|i: int| 0 <= i < new.len() && new[i] == n;
            if i < new.len() - 1 {
                assert(new.drop_last()[i] == n);
            }
        }
        if let Some(o) = find_by_id(old, new.last().id) {
            if o.props != new.last().props {
                assert(last[0] == PatchState::UpdateProps { id: new.last().id, props: new.last().props });
            }
        } else {
            assert(last[0] == PatchState::AddNode { parent_id: 0, node: new.last() });
        }
    }
}

proof fn lemma_removals_complete(old: Seq<NodeState>, new: Seq<NodeState>)
    ensures
        forall|o: NodeState|
            old.contains(o) && find_by_id(new, o.id) is None ==> #[trigger] removals(
                old,
                new,
            ).contains(PatchState::RemoveNode { id: o.id }),
    decreases old.len(),
{
    if old.len() > 0 {
        lemma_removals_complete(old.drop_last(), new);
        let d = removals(old, new);
        let front = removals(old.drop_last(), new);
        assert forall|x: PatchState| front.contains(x) implies d.contains(x) by {
            let i = choose|i: int| 0 <= i < front.len() && front[i] == x;
            assert(d[i] == x);
        }
        assert forall|o: NodeState| old.contains(o) && find_by_id(new, o.id) is None implies d.contains(
            PatchState::RemoveNode { id: o.id },
        ) by {
            let i = choose|i: int| 0 <= i < old.len() && old[i] == o;
            if i < old.len() - 1 {
                assert(old.drop_last()[i] == o);
                assert(old.drop_last().contains(o));
            } else {
                assert(d[front.len() as int] == PatchState::RemoveNode { id: o.id });
            }
        }
    }
}

/// A diff misses nothing: every new node whose id the old list lacks is
/// added, every new node whose id the old list has with other properties is
/// updated, and every old node whose id the new list lacks is removed.
pub proof fn lemma_diff_complete(old: Seq<NodeState>, new: Seq<NodeState>)
    ensures
        forall|n: NodeState|
            new.contains(n) && find_by_id(old, n.id) is None ==> #[trigger] tree_diff(
                old,
                new,
            ).contains(PatchState::AddNode { parent_id: 0, node: n }),
        forall|n: NodeState|
            new.contains(n) && (find_by_id(old, n.id) matches Some(o) && o.props != n.props)
                ==> #[trigger] tree_diff(old, new).contains(
                PatchState::UpdateProps { id: n.id, props: n.props },
            ),
        forall|o: NodeState|
            old.contains(o) && find_by_id(new, o.id) is None ==> #[trigger] tree_diff(
                old,
                new,
            ).contains(PatchState::RemoveNode { id: o.id }),
{
    lemma_additions_complete(old, new);
    lemma_removals_complete(old, new);
    let a = additions_and_updates(old, new);
    let r = removals(old, new);
    let d = tree_diff(old, new);
    assert forall|x: PatchState| a.contains(x) implies d.contains(x) by {
        let i = choose|i: int| 0 <= i < a.len() && a[i] == x;
        assert(d[i] == x);
    }
    assert forall|x: PatchState| r.contains(x) implies d.contains(x) by {
        let i = choose|i: int| 0 <= i < r.len() && r[i] == x;
        assert(d[a.len() + i] == x);
    }
}

} // verus!
