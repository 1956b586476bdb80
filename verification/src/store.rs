//! The inode store: owner of the inode graph.  Identifiers are allocated
//! densely and strictly increasing, starting at the reserved root
//! identifier, so inode `i` lives at index `i - 1` of the table.

use vstd::prelude::*;

use crate::inode::Inode;
use crate::inode::InodeAttributes;
use crate::inode::ROOT_INO;

verus! {

/// The inode table and its allocator: the next identifier is always one
/// above the highest live one.
pub struct InodeStore {
    pub inodes: Vec<Inode>,
}

impl InodeStore {
    /// Number of live inodes.
    pub open spec fn inode_count(self) -> nat {
        self.inodes@.len()
    }

    /// The identifier the next allocation returns.
    pub open spec fn next_ino(self) -> int {
        self.inodes@.len() as int + 1
    }

    /// `ino` is a live identifier.
    pub open spec fn contains_ino(self, ino: u64) -> bool {
        1 <= ino <= self.inodes@.len()
    }

    /// The record of the live inode `ino`.
    pub open spec fn at(self, ino: u64) -> Inode
        recommends
            self.contains_ino(ino),
    {
        self.inodes@[ino - 1]
    }

    /// `c` stands in the children sequence of `p`.
    pub open spec fn child_of(self, p: u64, c: u64) -> bool {
        exists|j: int|
            0 <= j < self.at(p).children_ino@.len() && #[trigger] self.at(p).children_ino@[j] == c
    }

    /// Well-formedness of the graph: identifiers match positions; the root
    /// is its own parent and a directory; every child link points to a live
    /// non-root inode whose parent pointer points back; no child is listed
    /// twice; every non-root inode stands in its parent's children; files
    /// have no children; cached content agrees with the recorded size.
    pub open spec fn wf(self) -> bool {
        let n = self.inodes@.len() as int;
        &&& forall|i: int| 0 <= i < n ==> (#[trigger] self.inodes@[i]).ino == i + 1
        &&& (n > 0 ==> self.inodes@[0].parent_ino == ROOT_INO && self.inodes@[0].attr.kind is Dir)
        &&& forall|i: int, j: int|
            0 <= i < n && 0 <= j < self.inodes@[i].children_ino@.len() ==> {
                let c = #[trigger] self.inodes@[i].children_ino@[j];
                &&& 2 <= c <= n
                &&& self.inodes@[c - 1].parent_ino == i + 1
            }
        &&& forall|i: int, j: int, k: int|
            #![trigger self.inodes@[i].children_ino@[j], self.inodes@[i].children_ino@[k]]
            0 <= i < n && 0 <= j < k < self.inodes@[i].children_ino@.len()
                ==> self.inodes@[i].children_ino@[j] != self.inodes@[i].children_ino@[k]
        &&& forall|c: int|
            1 <= c < n ==> {
                let p = (#[trigger] self.inodes@[c]).parent_ino;
                &&& 1 <= p <= n
                &&& self.child_of(p, (c + 1) as u64)
            }
        &&& forall|i: int|
            0 <= i < n && (#[trigger] self.inodes@[i]).attr.kind is File
                ==> self.inodes@[i].children_ino@.len() == 0
        &&& forall|i: int|
            0 <= i < n ==> ((#[trigger] self.inodes@[i]).content matches Some(cc)
                ==> self.inodes@[i].attr.size == cc@.len())
    }

    /// An empty store.
    pub fn new() -> (r: Self)
        ensures
            r.inode_count() == 0,
            r.wf(),
    {
        InodeStore { inodes: Vec::new() }
    }

    /// Install the synthetic root inode into an empty store.
    pub fn install_root(&mut self, root: Inode)
        requires
            old(self).inode_count() == 0,
            root.ino == ROOT_INO,
            root.parent_ino == ROOT_INO,
            root.children_ino@.len() == 0,
            root.attr.kind is Dir,
            root.content is None,
        ensures
            final(self).wf(),
            final(self).inode_count() == 1,
            final(self).at(ROOT_INO) == root,
    {
        self.inodes.push(root);
    }

    /// Look an inode up by identifier.
    pub fn get(&self, ino: u64) -> (r: Option<&Inode>)
        ensures
            self.contains_ino(ino) ==> (r matches Some(inode) && *inode == self.at(ino)),
            !self.contains_ino(ino) ==> r is None,
    {
        if ino >= 1 && ino <= self.inodes.len() as u64 {
            Some(&self.inodes[(ino - 1) as usize])
        } else {
            None
        }
    }

    /// The next identifier to be handed out: one above the highest live
    /// identifier, so strictly above the reserved root identifier.
    pub fn alloc_ino(&self) -> (r: u64)
        requires
            self.inode_count() < u64::MAX,
        ensures
            r == self.next_ino(),
    {
        (self.inodes.len() as u64) + 1
    }

    /// Allocate the next identifier, construct the inode under
    /// `parent_ino`, and append it to the parent's children.  The returned
    /// identifier is strictly above every previously live one, so no
    /// identifier — the root's among them — is ever reused or reassigned.
    pub fn allocate_and_register(&mut self, parent_ino: u64, attr: InodeAttributes) -> (ino: u64)
        requires
            old(self).wf(),
            old(self).contains_ino(parent_ino),
            old(self).at(parent_ino).attr.kind is Dir,
            old(self).inode_count() < u64::MAX,
        ensures
            final(self).wf(),
            ino == old(self).next_ino(),
            forall|k: u64| old(self).contains_ino(k) ==> ino > k,
            final(self).inode_count() == old(self).inode_count() + 1,
            final(self).contains_ino(ino),
            final(self).at(ino).ino == ino,
            final(self).at(ino).parent_ino == parent_ino,
            final(self).at(ino).children_ino@.len() == 0,
            final(self).at(ino).attr == attr,
            final(self).at(ino).content is None,
            final(self).at(parent_ino).children_ino@ == old(self).at(
                parent_ino,
            ).children_ino@.push(ino),
            final(self).at(parent_ino).ino == old(self).at(parent_ino).ino,
            final(self).at(parent_ino).parent_ino == old(self).at(parent_ino).parent_ino,
            final(self).at(parent_ino).attr == old(self).at(parent_ino).attr,
            final(self).at(parent_ino).content == old(self).at(parent_ino).content,
            forall|k: u64|
                old(self).contains_ino(k) && k != parent_ino ==> final(self).at(k) == old(
                    self,
                ).at(k),
    {
        let ino = self.alloc_ino();
        let node = Inode::new(ino, parent_ino, attr);
        let m = self.inodes.len();
        proof {
            assert(1 <= parent_ino && parent_ino as int <= m as int);
        }
        let pidx = (parent_ino - 1) as usize;
        self.inodes[pidx].children_ino.push(ino);
        self.inodes.push(node);
        proof {
            let v0 = old(self).inodes@;
            let v2 = self.inodes@;
            let n = v0.len() as int;
            let p = parent_ino as int;
            assert(v2.len() == n + 1);
            assert(forall|x: int| 0 <= x < n && x != p - 1 ==> v2[x] == v0[x]);
            assert(v2[p - 1].children_ino@ == v0[p - 1].children_ino@.push(ino));
            assert(v2[p - 1].ino == v0[p - 1].ino);
            assert(v2[p - 1].parent_ino == v0[p - 1].parent_ino);
            assert(v2[p - 1].attr == v0[p - 1].attr);
            assert(v2[p - 1].content == v0[p - 1].content);
            assert(v2[n] == node);
            // children links and absence of duplicates
            assert forall|i: int, j: int|
                0 <= i < n + 1 && 0 <= j < v2[i].children_ino@.len() implies {
                let c = #[trigger] v2[i].children_ino@[j];
                &&& 2 <= c <= n + 1
                &&& v2[c - 1].parent_ino == i + 1
            } by {
                if i < n {
                    if i == p - 1 && j == v0[p - 1].children_ino@.len() {
                        assert(v2[i].children_ino@[j] == ino);
                        assert(v2[ino - 1].parent_ino == p);
                    } else {
                        assert(v2[i].children_ino@[j] == v0[i].children_ino@[j]);
                        let c = v0[i].children_ino@[j];
                        assert(2 <= c <= n && v0[c - 1].parent_ino == i + 1);
                        assert(v2[c - 1].parent_ino == v0[c - 1].parent_ino);
                    }
                }
            }
            // every non-root inode stands in its parent's children
            assert forall|c: int| 1 <= c < n + 1 implies {
                let pp = (#[trigger] v2[c]).parent_ino;
                &&& 1 <= pp <= n + 1
                &&& self.child_of(pp, (c + 1) as u64)
            } by {
                if c < n {
                    let pp = v0[c].parent_ino;
                    assert(1 <= pp <= n);
                    assert(old(self).child_of(pp, (c + 1) as u64));
                    let j = choose|j: int|
                        0 <= j < old(self).at(pp).children_ino@.len() && #[trigger] old(self).at(
                            pp,
                        ).children_ino@[j] == (c + 1) as u64;
                    assert(self.at(pp).children_ino@[j] == (c + 1) as u64);
                } else {
                    assert(v2[c].parent_ino == parent_ino);
                    let j = v0[p - 1].children_ino@.len() as int;
                    assert(self.at(parent_ino).children_ino@[j] == ino);
                }
            }
        }
        ino
    }

    /// First child of the given sequence whose display name is `name`.
    pub open spec fn lookup_in(self, cs: Seq<u64>, name: Seq<char>) -> Option<u64>
        decreases cs.len(),
    {
        if cs.len() == 0 {
            None
        } else if self.at(cs[0]).attr.name@ == name {
            Some(cs[0])
        } else {
            self.lookup_in(cs.drop_first(), name)
        }
    }

    /// The identifier under `parent_ino` with display name `name`: a scan
    /// of the parent's children in insertion order, first match wins;
    /// nothing when the parent is not live or no child matches.
    pub open spec fn lookup_spec(self, parent_ino: u64, name: Seq<char>) -> Option<u64> {
        if !self.contains_ino(parent_ino) {
            None
        } else {
            self.lookup_in(self.at(parent_ino).children_ino@, name)
        }
    }

    /// Linear scan over `parent_ino`'s children for a child named `name`;
    /// insertion order, first match wins.
    pub fn lookup_child_by_name(&self, parent_ino: u64, name: &str) -> (r: Option<u64>)
        requires
            self.wf(),
        ensures
            r == self.lookup_spec(parent_ino, name@),
    {
        let parent = match self.get(parent_ino) {
            Some(p) => p,
            None => {
                return None;
            },
        };
        let needle: String = name.to_owned();
        let n = parent.children_ino.len();
        let m = self.inodes.len();
        let ghost cs = parent.children_ino@;
        proof {
            assert(cs.subrange(0, n as int) =~= cs);
        }
        let mut i: usize = 0;
        while i < n
            invariant
                self.wf(),
                self.contains_ino(parent_ino),
                cs == self.at(parent_ino).children_ino@,
                n == cs.len(),
                m == self.inodes@.len(),
                0 <= i <= n,
                needle@ == name@,
                parent == self.at(parent_ino),
                self.lookup_spec(parent_ino, name@) == self.lookup_in(
                    cs.subrange(i as int, n as int),
                    name@,
                ),
            decreases n - i,
        {
            let c = parent.children_ino[i];
            proof {
                assert(self.inodes@[parent_ino - 1].children_ino@[i as int] == c);
                assert(2 <= c && c as int <= m as int);
                assert(cs.subrange(i as int, n as int)[0] == c);
                assert(cs.subrange(i as int, n as int).drop_first() =~= cs.subrange(
                    i as int + 1,
                    n as int,
                ));
            }
            let child = &self.inodes[(c - 1) as usize];
            if child.attr.name == needle {
                return Some(c);
            }
            i = i + 1;
        }
        proof {
            assert(cs.subrange(n as int, n as int) =~= Seq::<u64>::empty());
        }
        None
    }

    /// Record fetched content for inode `ino` and update its size to match;
    /// a later call overwrites, the last fetch wins.
    pub fn set_content(&mut self, ino: u64, content: Vec<u8>)
        requires
            old(self).wf(),
            old(self).contains_ino(ino),
        ensures
            final(self).wf(),
            final(self).inode_count() == old(self).inode_count(),
            final(self).at(ino).content == Some(content),
            final(self).at(ino).attr.size == content@.len(),
            final(self).at(ino).ino == old(self).at(ino).ino,
            final(self).at(ino).parent_ino == old(self).at(ino).parent_ino,
            final(self).at(ino).children_ino@ == old(self).at(ino).children_ino@,
            final(self).at(ino).attr.id == old(self).at(ino).attr.id,
            final(self).at(ino).attr.name == old(self).at(ino).attr.name,
            final(self).at(ino).attr.kind == old(self).at(ino).attr.kind,
            final(self).at(ino).attr.path == old(self).at(ino).attr.path,
            final(self).at(ino).attr.mtime == old(self).at(ino).attr.mtime,
            final(self).at(ino).attr.ctime == old(self).at(ino).attr.ctime,
            final(self).at(ino).attr.permissions == old(self).at(ino).attr.permissions,
            forall|k: u64|
                old(self).contains_ino(k) && k != ino ==> final(self).at(k) == old(self).at(k),
    {
        let m = self.inodes.len();
        proof {
            assert(1 <= ino && ino as int <= m as int);
        }
        let idx = (ino - 1) as usize;
        let len64 = content.len() as u64;
        self.inodes[idx].attr.size = len64;
        self.inodes[idx].content = Some(content);
        proof {
            lemma_wf_same_shape(*old(self), *self);
        }
    }
}

/// A store whose inodes keep their identifiers, parents, children and kinds
/// — and whose content caches agree with the recorded sizes — is still
/// well-formed.
proof fn lemma_wf_same_shape(s0: InodeStore, s2: InodeStore)
    requires
        s0.wf(),
        s2.inodes@.len() == s0.inodes@.len(),
        forall|i: int|
            0 <= i < s0.inodes@.len() ==> {
                &&& (#[trigger] s2.inodes@[i]).ino == s0.inodes@[i].ino
                &&& s2.inodes@[i].parent_ino == s0.inodes@[i].parent_ino
                &&& s2.inodes@[i].children_ino@ == s0.inodes@[i].children_ino@
                &&& s2.inodes@[i].attr.kind == s0.inodes@[i].attr.kind
            },
        forall|i: int|
            0 <= i < s2.inodes@.len() ==> ((#[trigger] s2.inodes@[i]).content matches Some(cc)
                ==> s2.inodes@[i].attr.size == cc@.len()),
    ensures
        s2.wf(),
{
    let n = s0.inodes@.len() as int;
    assert forall|i: int, j: int|
        0 <= i < n && 0 <= j < s2.inodes@[i].children_ino@.len() implies {
        let c = #[trigger] s2.inodes@[i].children_ino@[j];
        &&& 2 <= c <= n
        &&& s2.inodes@[c - 1].parent_ino == i + 1
    } by {
        assert(s2.inodes@[i].children_ino@[j] == s0.inodes@[i].children_ino@[j]);
        let c = s0.inodes@[i].children_ino@[j];
        assert(2 <= c <= n && s0.inodes@[c - 1].parent_ino == i + 1);
    }
    assert forall|i: int, j: int, k: int|
        0 <= i < n && 0 <= j < k < s2.inodes@[i].children_ino@.len() implies s2.inodes@[i].children_ino@[j]
        != s2.inodes@[i].children_ino@[k] by {
        assert(s2.inodes@[i].children_ino@[j] == s0.inodes@[i].children_ino@[j]);
        assert(s2.inodes@[i].children_ino@[k] == s0.inodes@[i].children_ino@[k]);
    }
    assert forall|c: int| 1 <= c < n implies {
        let p = (#[trigger] s2.inodes@[c]).parent_ino;
        &&& 1 <= p <= n
        &&& s2.child_of(p, (c + 1) as u64)
    } by {
        let p = s0.inodes@[c].parent_ino;
        assert(1 <= p <= n);
        assert(s0.child_of(p, (c + 1) as u64));
        let j = choose|j: int|
            0 <= j < s0.at(p).children_ino@.len() && #[trigger] s0.at(p).children_ino@[j] == (c
                + 1) as u64;
        assert(s2.at(p).children_ino@[j] == (c + 1) as u64);
    }
}

proof fn lemma_lookup_in_first_match(s: InodeStore, cs: Seq<u64>, name: Seq<char>)
    ensures
        s.lookup_in(cs, name) matches Some(c) ==> exists|j: int|
            #![auto]
            {
                &&& 0 <= j < cs.len()
                &&& cs[j] == c
                &&& s.at(c).attr.name@ == name
                &&& forall|t: int| 0 <= t < j ==> s.at(#[trigger] cs[t]).attr.name@ != name
            },
        s.lookup_in(cs, name) is None ==> forall|j: int|
            0 <= j < cs.len() ==> s.at(#[trigger] cs[j]).attr.name@ != name,
    decreases cs.len(),
{
    if cs.len() > 0 {
        if s.at(cs[0]).attr.name@ == name {
            assert(0 <= 0 < cs.len() && cs[0] == cs[0] && s.at(cs[0]).attr.name@ == name
                && (forall|t: int| 0 <= t < 0 ==> s.at(#[trigger] cs[t]).attr.name@ != name));
        } else {
            lemma_lookup_in_first_match(s, cs.drop_first(), name);
            assert(s.lookup_in(cs, name) == s.lookup_in(cs.drop_first(), name));
            assert(forall|t: int|
                0 <= t < cs.drop_first().len() ==> #[trigger] cs.drop_first()[t] == cs[t + 1]);
            match s.lookup_in(cs, name) {
                Some(c) => {
                    let j = choose|j: int|
                        #![auto]
                        {
                            &&& 0 <= j < cs.drop_first().len()
                            &&& cs.drop_first()[j] == c
                            &&& s.at(c).attr.name@ == name
                            &&& forall|t: int|
                                0 <= t < j ==> s.at(
                                    #[trigger] cs.drop_first()[t],
                                ).attr.name@ != name
                        };
                    assert forall|t: int| 0 <= t < j + 1 implies s.at(
                        #[trigger] cs[t],
                    ).attr.name@ != name by {
                        if t >= 1 {
                            assert(cs.drop_first()[t - 1] == cs[t]);
                            assert(s.at(cs.drop_first()[t - 1]).attr.name@ != name);
                        }
                    }
                    assert(0 <= j + 1 < cs.len() && cs[j + 1] == c && s.at(c).attr.name@ == name
                        && (forall|t: int|
                        0 <= t < j + 1 ==> s.at(#[trigger] cs[t]).attr.name@ != name));
                },
                None => {
                    assert forall|t: int| 0 <= t < cs.len() implies s.at(
                        #[trigger] cs[t],
                    ).attr.name@ != name by {
                        if t >= 1 {
                            assert(cs.drop_first()[t - 1] == cs[t]);
                            assert(s.at(cs.drop_first()[t - 1]).attr.name@ != name);
                        }
                    }
                },
            }
        }
    }
}

/// LAW: `resolve_name` and `lookup_name` agree with scanning the parent's
/// children for a matching display name: when they yield an identifier it
/// is a child of the parent with that name, and every child listed before
/// it bears another name; when they yield nothing, no child matches (or the
/// parent is not live).
pub proof fn lemma_lookup_is_first_match(s: InodeStore, parent: u64, name: Seq<char>)
    ensures
        s.lookup_spec(parent, name) matches Some(c) ==> exists|j: int|
            #![auto]
            {
                &&& 0 <= j < s.at(parent).children_ino@.len()
                &&& s.at(parent).children_ino@[j] == c
                &&& s.at(c).attr.name@ == name
                &&& forall|t: int|
                    0 <= t < j ==> s.at(
                        #[trigger] s.at(parent).children_ino@[t],
                    ).attr.name@ != name
            },
        s.lookup_spec(parent, name) is None ==> (!s.contains_ino(parent) || forall|j: int|
            0 <= j < s.at(parent).children_ino@.len() ==> s.at(
                #[trigger] s.at(parent).children_ino@[j],
            ).attr.name@ != name),
{
    if s.contains_ino(parent) {
        lemma_lookup_in_first_match(s, s.at(parent).children_ino@, name);
    }
}

/// LAW: inode identifiers are unique, and the reserved root identifier
/// belongs to the root alone; together with `allocate_and_register`'s
/// guarantee that each allocation returns an identifier strictly above
/// every live one, identifiers strictly increase in allocation order and
/// the root identifier is never reassigned.
pub proof fn lemma_inode_ids_unique(s: InodeStore)
    requires
        s.wf(),
    ensures
        forall|i: int, j: int|
            0 <= i < j < s.inodes@.len() ==> #[trigger] s.inodes@[i].ino != #[trigger] s.inodes@[j].ino,
        forall|i: int|
            0 <= i < s.inodes@.len() ==> ((#[trigger] s.inodes@[i]).ino == ROOT_INO <==> i == 0),
{
    assert forall|i: int, j: int|
        0 <= i < j < s.inodes@.len() implies #[trigger] s.inodes@[i].ino != #[trigger] s.inodes@[j].ino by {
        assert(s.inodes@[i].ino == i + 1);
        assert(s.inodes@[j].ino == j + 1);
    }
}

} // verus!
