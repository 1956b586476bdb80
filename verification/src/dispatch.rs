//! The operation dispatcher: the filesystem protocol state machine.  It owns
//! the inode store and the mounted repository's name, materializes the tree
//! breadth-first at initialization, and serves attribute lookup, directory
//! listing, name resolution, open and read with strict error-code contracts.
//!
//! The remote exchanges themselves happen outside the library: during
//! initialization the driver asks `next_fetch` what to request, performs the
//! exchange, and hands the decoded listing to `init_step`; on open it fetches
//! the named object's content and hands the bytes to `open_finish`.

use vstd::prelude::*;
use vstd::string::StringExecFns;
use vstd::string::StringSliceAdditionalSpecFns;

use crate::inode::file_attr_spec;
use crate::inode::projected_from;
use crate::inode::valid_commit_date;
use crate::inode::ContentType;
use crate::inode::FileAttrData;
use crate::inode::Inode;
use crate::inode::InodeAttributes;
use crate::inode::Object;
use crate::inode::Objects;
use crate::inode::ROOT_INO;
use crate::store::InodeStore;

verus! {

/// Longest accepted name of a directory entry, in bytes.
pub const MAX_NAME_LENGTH: u32 = 255;

/// How long, in seconds, the host may reuse returned attributes and entries
/// without asking again.
pub const ATTR_TTL_SECS: u64 = 1;

/// Protocol-level errors, surfaced to the host as the corresponding
/// standard error codes and never fatal.
#[derive(Clone, Copy, Debug, PartialEq, Eq, Structural)]
pub enum FsError {
    /// Unknown inode or unknown name.
    NotFound,
    /// A name beyond `MAX_NAME_LENGTH` bytes.
    NameTooLong,
}

/// Failure of materialization: fatal to initialization, the mount must not
/// become ready.
#[derive(Clone, Copy, Debug, PartialEq, Eq, Structural)]
pub enum InitError {
    /// A listed entry's commit timestamp is not a readable number.
    InvalidTimestamp,
}

/// The dispatcher's lifecycle: operations are accepted only once the tree
/// is fully materialized.
#[derive(Clone, Copy, Debug, PartialEq, Eq, Structural)]
pub enum FsState {
    Uninitialized,
    Initializing,
    Ready,
}

/// What the materializer wants fetched next: the repository's base tree, or
/// the subtree below the directory addressed by `remote_id`.
#[derive(Debug)]
pub enum FetchRequest {
    BaseTree,
    SubTree { remote_id: String },
}

/// One row of a directory listing.
#[derive(Debug, PartialEq)]
pub struct DirEntry {
    pub ino: u64,
    pub kind: ContentType,
    pub name: String,
}

/// The inode freshly materialized from the remote entry `ob`: identifier
/// `ino`, listed under `parent`, childless, with nothing cached, and the
/// entry's projected metadata.
pub open spec fn materialized_entry(node: Inode, ob: Object, parent: u64, ino: int) -> bool {
    &&& node.ino == ino
    &&& node.parent_ino == parent
    &&& node.children_ino@.len() == 0
    &&& node.content is None
    &&& projected_from(node.attr, ob)
}

/// The identifiers that a listing enqueues for later expansion: one per
/// directory entry, in listing order, where the entry at index `j` was
/// given identifier `base + j + 1`.
pub open spec fn dir_inos(entries: Seq<Object>, base: int) -> Seq<u64>
    decreases entries.len(),
{
    if entries.len() == 0 {
        Seq::empty()
    } else {
        let rest = dir_inos(entries.drop_last(), base);
        if entries.last().content_type is Dir {
            rest.push((base + entries.len()) as u64)
        } else {
            rest
        }
    }
}

/// The window of `content` that a read at `offset` of up to `size` bytes
/// returns: empty past the end, clipped at the end otherwise.
pub open spec fn read_spec(content: Seq<u8>, offset: u64, size: u32) -> Seq<u8> {
    let start = if offset <= content.len() {
        offset as int
    } else {
        content.len() as int
    };
    let end = if offset + size <= content.len() {
        offset + size
    } else {
        content.len() as int
    };
    content.subrange(start, end)
}

/// The filesystem: the mounted repository's name, the inode store, the
/// lifecycle state, and — during materialization — the queue of directories
/// still to expand, in breadth order.
pub struct MegaFUSE {
    pub target_repo: String,
    pub store: InodeStore,
    pub state: FsState,
    pub queue: Vec<u64>,
}

impl MegaFUSE {
    /// Well-formedness: the store's graph invariants hold; everything
    /// queued for expansion is a live directory; before initialization the
    /// store is empty; once ready the queue is drained; from initialization
    /// on, the root is installed.
    pub open spec fn wf(self) -> bool {
        &&& self.store.wf()
        &&& forall|qi: int|
            0 <= qi < self.queue@.len() ==> self.store.contains_ino(#[trigger] self.queue@[qi])
                && self.store.at(self.queue@[qi]).attr.kind is Dir
        &&& (self.state is Uninitialized ==> self.store.inode_count() == 0 && self.queue@.len()
            == 0)
        &&& (self.state is Ready ==> self.queue@.len() == 0)
        &&& ((self.state is Initializing || self.state is Ready) ==> self.store.inode_count() >= 1)
    }

    /// Construct the dispatcher for one target repository.  No remote
    /// exchange happens here; the store stays empty until initialization.
    pub fn from(target_repo: String) -> (r: MegaFUSE)
        ensures
            r.wf(),
            r.state is Uninitialized,
            r.target_repo == target_repo,
            r.store.inode_count() == 0,
    {
        MegaFUSE {
            target_repo,
            store: InodeStore::new(),
            state: FsState::Uninitialized,
            queue: Vec::new(),
        }
    }

    /// Scan `parent`'s children for one whose display name is `name`.
    pub fn lookup_name(&self, parent: u64, name: &str) -> (r: Option<u64>)
        requires
            self.wf(),
        ensures
            r == self.store.lookup_spec(parent, name@),
    {
        self.store.lookup_child_by_name(parent, name)
    }

    /// Begin materialization: install the synthetic root inode, stamped
    /// with the given construction time, and queue it for expansion.
    pub fn init_begin(&mut self, now: u64)
        requires
            old(self).wf(),
            old(self).state is Uninitialized,
        ensures
            final(self).wf(),
            final(self).state is Initializing,
            final(self).target_repo == old(self).target_repo,
            final(self).store.inode_count() == 1,
            final(self).queue@ =~= seq![ROOT_INO],
            final(self).store.at(ROOT_INO).attr.name@ == old(self).target_repo@,
            final(self).store.at(ROOT_INO).attr.id@ == old(self).target_repo@,
            final(self).store.at(ROOT_INO).attr.kind is Dir,
            final(self).store.at(ROOT_INO).attr.path@ == Seq::<char>::empty(),
            final(self).store.at(ROOT_INO).attr.mtime == now,
            final(self).store.at(ROOT_INO).attr.ctime == now,
            final(self).store.at(ROOT_INO).attr.permissions
                == crate::inode::DEFAULT_DIR_PERMISSIONS,
            final(self).store.at(ROOT_INO).attr.size == crate::inode::BLOCK_SIZE as u64,
            final(self).store.at(ROOT_INO).children_ino@.len() == 0,
            final(self).store.at(ROOT_INO).content is None,
    {
        let root = Inode::root_node(self.target_repo.as_str(), now);
        self.store.install_root(root);
        self.queue.push(ROOT_INO);
        self.state = FsState::Initializing;
    }

    /// There is still a directory waiting to be expanded.
    pub fn has_pending(&self) -> (r: bool)
        ensures
            r == (self.queue@.len() > 0),
    {
        self.queue.len() > 0
    }

    /// What to fetch for the directory at the head of the queue: the base
    /// tree for the root, else the subtree addressed by its remote
    /// identifier.
    pub fn next_fetch(&self) -> (r: FetchRequest)
        requires
            self.wf(),
            self.state is Initializing,
            self.queue@.len() > 0,
        ensures
            self.queue@[0] == ROOT_INO ==> r is BaseTree,
            self.queue@[0] != ROOT_INO ==> (r matches FetchRequest::SubTree { remote_id }
                && remote_id@ == self.store.at(self.queue@[0]).attr.id@),
    {
        let front = self.queue[0];
        if front == ROOT_INO {
            FetchRequest::BaseTree
        } else {
            match self.store.get(front) {
                Some(inode) => FetchRequest::SubTree { remote_id: inode.attr.id.clone() },
                None => vstd::pervasive::unreached(),
            }
        }
    }

    /// Expand the directory at the head of the queue with the listing the
    /// remote returned for it: every entry is registered, in listing order,
    /// as one fresh child inode of that directory, and each directory entry
    /// is queued for its own later expansion — the walk is breadth-first
    /// and each directory is expanded exactly once, since it is reached
    /// exactly once, as a child of one parent.
    ///
    /// LAW: after an expansion, every listed entry appears as exactly one
    /// inode — the one with the fresh identifier `base + j + 1` for listing
    /// index `j` — whose parent is the directory it was listed under, and
    /// no other inode changed (the parent only gains children).
    ///
    /// Fails, leaving the filesystem untouched, exactly when some entry's
    /// commit timestamp is unreadable; such a failure is fatal to
    /// initialization.
    #[verifier::rlimit(60)]
    pub fn init_step(&mut self, objects: Objects) -> (r: Result<(), InitError>)
        requires
            old(self).wf(),
            old(self).state is Initializing,
            old(self).queue@.len() > 0,
            old(self).store.inode_count() + objects.data@.len() < u64::MAX,
        ensures
            final(self).wf(),
            final(self).state is Initializing,
            final(self).target_repo == old(self).target_repo,
            r is Ok <==> (forall|j: int|
                0 <= j < objects.data@.len() ==> valid_commit_date(
                    (#[trigger] objects.data@[j]).commit_date@,
                )),
            r is Err ==> *final(self) == *old(self),
            r is Ok ==> {
                let parent = old(self).queue@[0];
                let k = objects.data@.len() as int;
                let base = old(self).store.inode_count() as int;
                &&& final(self).store.inode_count() == base + k
                &&& forall|j: int|
                    0 <= j < k ==> materialized_entry(
                        final(self).store.at((base + j + 1) as u64),
                        #[trigger] objects.data@[j],
                        parent,
                        base + j + 1,
                    )
                &&& final(self).store.at(parent).children_ino@ == old(self).store.at(
                    parent,
                ).children_ino@ + Seq::new(k as nat, |j: int| (base + j + 1) as u64)
                &&& final(self).store.at(parent).attr == old(self).store.at(parent).attr
                &&& final(self).store.at(parent).content == old(self).store.at(parent).content
                &&& final(self).store.at(parent).parent_ino == old(self).store.at(
                    parent,
                ).parent_ino
                &&& forall|ino: u64|
                    old(self).store.contains_ino(ino) && ino != parent ==> final(self).store.at(
                        ino,
                    ) == old(self).store.at(ino)
                &&& final(self).queue@ == old(self).queue@.drop_first() + dir_inos(
                    objects.data@,
                    base,
                )
            },
    {
        let ghost entries = objects.data@;
        // First pass: project every entry, touching nothing on failure.
        let mut data = objects.data;
        let total = data.len();
        let mut attrs: Vec<InodeAttributes> = Vec::new();
        let mut j: usize = 0;
        proof {
            assert(data@ =~= entries.subrange(0, total as int));
        }
        while j < total
            invariant
                entries == objects.data@,
                old(self).wf(),
                old(self).state is Initializing,
                total == entries.len(),
                0 <= j <= total,
                data@ == entries.subrange(j as int, total as int),
                attrs@.len() == j,
                forall|t: int|
                    0 <= t < j ==> valid_commit_date((#[trigger] entries[t]).commit_date@),
                forall|t: int| 0 <= t < j ==> projected_from(#[trigger] attrs@[t], entries[t]),
                *self == *old(self),
            decreases total - j,
        {
            let ob = data.remove(0);
            proof {
                assert(ob == entries[j as int]);
                assert(entries.subrange(j as int, total as int).remove(0) =~= entries.subrange(
                    j as int + 1,
                    total as int,
                ));
            }
            match InodeAttributes::from_object(ob) {
                Some(a) => {
                    attrs.push(a);
                },
                None => {
                    proof {
                        assert(!valid_commit_date(objects.data@[j as int].commit_date@));
                    }
                    return Err(InitError::InvalidTimestamp);
                },
            }
            j = j + 1;
        }
        // Second pass: pop the directory and register every entry under it.
        let parent = self.queue.remove(0);
        let ghost base = self.store.inode_count() as int;
        proof {
            assert(parent == old(self).queue@[0]);
            assert(self.queue@ =~= old(self).queue@.drop_first());
            assert(self.store.contains_ino(parent));
            assert(self.store.at(parent).attr.kind is Dir);
            assert(entries.subrange(0, 0) =~= Seq::<Object>::empty());
            assert(self.store.at(parent).children_ino@ + Seq::new(
                0nat,
                |t: int| (base + t + 1) as u64,
            ) =~= self.store.at(parent).children_ino@);
        }
        let mut i: usize = 0;
        while i < total
            invariant
                entries == objects.data@,
                old(self).queue@.len() > 0,
                total == entries.len(),
                0 <= i <= total,
                attrs@.len() == total - i,
                forall|t: int|
                    0 <= t < total - i ==> projected_from(
                        #[trigger] attrs@[t],
                        entries[i + t],
                    ),
                self.store.wf(),
                self.state == old(self).state,
                self.state is Initializing,
                self.target_repo == old(self).target_repo,
                base == old(self).store.inode_count() as int,
                base + total < u64::MAX,
                self.store.inode_count() == base + i,
                old(self).store.contains_ino(parent),
                parent <= base,
                self.store.contains_ino(parent),
                self.store.at(parent).attr.kind is Dir,
                forall|t: int|
                    0 <= t < i ==> materialized_entry(
                        self.store.at((base + t + 1) as u64),
                        #[trigger] entries[t],
                        parent,
                        base + t + 1,
                    ),
                self.store.at(parent).children_ino@ == old(self).store.at(parent).children_ino@
                    + Seq::new(i as nat, |t: int| (base + t + 1) as u64),
                self.store.at(parent).attr == old(self).store.at(parent).attr,
                self.store.at(parent).content == old(self).store.at(parent).content,
                self.store.at(parent).parent_ino == old(self).store.at(parent).parent_ino,
                forall|ino: u64|
                    old(self).store.contains_ino(ino) && ino != parent ==> self.store.at(ino)
                        == old(self).store.at(ino),
                self.queue@ == old(self).queue@.drop_first() + dir_inos(
                    entries.subrange(0, i as int),
                    base,
                ),
                forall|qi: int|
                    0 <= qi < self.queue@.len() ==> self.store.contains_ino(
                        #[trigger] self.queue@[qi],
                    ) && self.store.at(self.queue@[qi]).attr.kind is Dir,
            decreases total - i,
        {
            let a = attrs.remove(0);
            let ghost ob = entries[i as int];
            proof {
                assert(projected_from(a, ob));
                assert(forall|t: int|
                    0 <= t < attrs@.len() ==> projected_from(
                        #[trigger] attrs@[t],
                        entries[i + 1 + t],
                    ));
            }
            let kind = a.kind;
            let ghost pre = self.store;
            let ino = self.store.allocate_and_register(parent, a);
            proof {
                assert(ino == base + i + 1);
                assert(self.store.at(parent).children_ino@ =~= old(self).store.at(
                    parent,
                ).children_ino@ + Seq::new((i + 1) as nat, |t: int| (base + t + 1) as u64));
                assert(forall|x: u64|
                    1 <= x <= base + i && x != parent ==> #[trigger] self.store.at(x) == pre.at(
                        x,
                    ));
            }
            if kind == ContentType::Dir {
                self.queue.push(ino);
            }
            proof {
                assert(entries.subrange(0, i as int + 1).drop_last() =~= entries.subrange(
                    0,
                    i as int,
                ));
                assert(entries.subrange(0, i as int + 1).last() == entries[i as int]);
                assert(self.queue@ =~= old(self).queue@.drop_first() + dir_inos(
                    entries.subrange(0, i as int + 1),
                    base,
                ));
            }
            i = i + 1;
        }
        proof {
            assert(entries.subrange(0, total as int) =~= entries);
        }
        Ok(())
    }

    /// Finish materialization once the queue has drained: the filesystem
    /// becomes ready and immutable but for the per-inode content caches.
    pub fn init_finish(&mut self)
        requires
            old(self).wf(),
            old(self).state is Initializing,
            old(self).queue@.len() == 0,
        ensures
            final(self).wf(),
            final(self).state is Ready,
            final(self).store == old(self).store,
            final(self).target_repo == old(self).target_repo,
    {
        self.state = FsState::Ready;
    }

    /// The filesystem is ready to serve operations.
    pub fn is_ready(&self) -> (r: bool)
        ensures
            r == (self.state is Ready),
    {
        match self.state {
            FsState::Ready => true,
            _ => false,
        }
    }

    /// Projected attributes of inode `ino` for the calling user and group;
    /// unknown identifiers are reported, never fatal.
    pub fn get_attributes(&self, ino: u64, uid: u32, gid: u32) -> (r: Result<FileAttrData, FsError>)
        requires
            self.wf(),
            self.state is Ready,
        ensures
            self.store.contains_ino(ino) ==> r == Ok::<FileAttrData, FsError>(
                file_attr_spec(self.store.at(ino), uid, gid),
            ),
            !self.store.contains_ino(ino) ==> r == Err::<FileAttrData, FsError>(FsError::NotFound),
    {
        match self.store.get(ino) {
            Some(inode) => Ok(inode.file_attr(uid, gid)),
            None => Err(FsError::NotFound),
        }
    }

    /// Length of the listing of directory `ino`: `.` and `..`, then the
    /// children.
    pub open spec fn listing_len(self, ino: u64) -> int {
        2 + self.store.at(ino).children_ino@.len() as int
    }

    /// The listing row of directory `ino` at position `t`: the directory
    /// itself as `.` and `..`, then its children in insertion order.
    pub open spec fn listing_entry(self, ino: u64, t: int) -> (u64, ContentType, Seq<char>)
        recommends
            self.store.contains_ino(ino),
            0 <= t < self.listing_len(ino),
    {
        if t == 0 {
            (ino, ContentType::Dir, "."@)
        } else if t == 1 {
            (ino, ContentType::Dir, ".."@)
        } else {
            let c = self.store.at(ino).children_ino@[t - 2];
            (c, self.store.at(c).attr.kind, self.store.at(c).attr.name@)
        }
    }

    /// List directory `ino` from position `offset` on: the rows from
    /// `offset` to the end, in order; the host stops feeding them to the
    /// kernel when its reply buffer fills and asks again with a larger
    /// offset.  Unknown identifiers are reported, never fatal.
    pub fn list_directory(&self, ino: u64, offset: usize) -> (r: Result<Vec<DirEntry>, FsError>)
        requires
            self.wf(),
            self.state is Ready,
        ensures
            !self.store.contains_ino(ino) ==> r == Err::<Vec<DirEntry>, FsError>(
                FsError::NotFound,
            ),
            self.store.contains_ino(ino) ==> (r matches Ok(v) && {
                &&& v@.len() == if offset <= self.listing_len(ino) {
                    self.listing_len(ino) - offset
                } else {
                    0int
                }
                &&& forall|t: int|
                    0 <= t < v@.len() ==> entry_matches(
                        #[trigger] v@[t],
                        self.listing_entry(ino, offset + t),
                    )
            }),
    {
        let inode = match self.store.get(ino) {
            Some(i) => i,
            None => {
                return Err(FsError::NotFound);
            },
        };
        let clen = inode.children_ino.len();
        let m = self.store.inodes.len();
        if offset >= 2 && offset - 2 >= clen {
            return Ok(Vec::new());
        }
        let mut v: Vec<DirEntry> = Vec::new();
        if offset == 0 {
            v.push(DirEntry { ino, kind: ContentType::Dir, name: String::from_str(".") });
            v.push(DirEntry { ino, kind: ContentType::Dir, name: String::from_str("..") });
        } else if offset == 1 {
            v.push(DirEntry { ino, kind: ContentType::Dir, name: String::from_str("..") });
        }
        let mut j: usize = if offset >= 2 {
            offset - 2
        } else {
            0
        };
        while j < clen
            invariant
                self.wf(),
                self.store.contains_ino(ino),
                inode == self.store.at(ino),
                clen == inode.children_ino@.len(),
                m == self.store.inodes@.len(),
                0 <= j <= clen,
                v@.len() + offset == j + 2,
                forall|t: int|
                    0 <= t < v@.len() ==> entry_matches(
                        #[trigger] v@[t],
                        self.listing_entry(ino, offset + t),
                    ),
            decreases clen - j,
        {
            let c = inode.children_ino[j];
            proof {
                assert(self.store.inodes@[ino - 1].children_ino@[j as int] == c);
                assert(2 <= c && c as int <= m as int);
            }
            let child = &self.store.inodes[(c - 1) as usize];
            v.push(DirEntry { ino: c, kind: child.attr.kind, name: child.attr.name.clone() });
            j = j + 1;
        }
        Ok(v)
    }

    /// Resolve `name` under the directory `parent`: names beyond the fixed
    /// maximum are rejected before the store is consulted; otherwise the
    /// parent's children are scanned in insertion order, first match wins.
    ///
    /// LAW: the returned identifier is exactly what scanning `parent`'s
    /// children for a matching display name yields (`lookup_spec`); see
    /// `lemma_lookup_is_first_match` for the scan's characterization.
    pub fn resolve_name(&self, parent: u64, name: &str) -> (r: Result<u64, FsError>)
        requires
            self.wf(),
            self.state is Ready,
        ensures
            name.spec_bytes().len() > MAX_NAME_LENGTH ==> r == Err::<u64, FsError>(
                FsError::NameTooLong,
            ),
            name.spec_bytes().len() <= MAX_NAME_LENGTH ==> match self.store.lookup_spec(
                parent,
                name@,
            ) {
                Some(c) => r == Ok::<u64, FsError>(c),
                None => r == Err::<u64, FsError>(FsError::NotFound),
            },
    {
        if name.as_bytes().len() > MAX_NAME_LENGTH as usize {
            return Err(FsError::NameTooLong);
        }
        match self.store.lookup_child_by_name(parent, name) {
            Some(c) => Ok(c),
            None => Err(FsError::NotFound),
        }
    }

    /// First half of `open`: report whether the inode's content must still
    /// be fetched.  Yields the remote identifier to fetch when the cache is
    /// empty, nothing when the cache is already filled, and `NotFound` for
    /// an unknown inode.
    pub fn open_begin(&self, ino: u64) -> (r: Result<Option<String>, FsError>)
        requires
            self.wf(),
            self.state is Ready,
        ensures
            !self.store.contains_ino(ino) ==> r == Err::<Option<String>, FsError>(
                FsError::NotFound,
            ),
            self.store.contains_ino(ino) && self.store.at(ino).content is Some ==> r == Ok::<
                Option<String>,
                FsError,
            >(None),
            self.store.contains_ino(ino) && self.store.at(ino).content is None ==> (r matches Ok(
                Some(id),
            ) && id@ == self.store.at(ino).attr.id@),
    {
        match self.store.get(ino) {
            None => Err(FsError::NotFound),
            Some(inode) => match &inode.content {
                Some(_) => Ok(None),
                None => Ok(Some(inode.attr.id.clone())),
            },
        }
    }

    /// Second half of `open`: record the fetched content and update the
    /// size.  A repeated open overwrites the cache — the last fetch wins.
    pub fn open_finish(&mut self, ino: u64, content: Vec<u8>) -> (r: Result<(), FsError>)
        requires
            old(self).wf(),
            old(self).state is Ready,
        ensures
            final(self).wf(),
            final(self).state is Ready,
            final(self).target_repo == old(self).target_repo,
            !old(self).store.contains_ino(ino) ==> (r == Err::<(), FsError>(FsError::NotFound)
                && *final(self) == *old(self)),
            old(self).store.contains_ino(ino) ==> {
                &&& r == Ok::<(), FsError>(())
                &&& final(self).store.inode_count() == old(self).store.inode_count()
                &&& final(self).store.at(ino).content == Some(content)
                &&& final(self).store.at(ino).attr.size == content@.len()
                &&& final(self).store.at(ino).children_ino@ == old(self).store.at(
                    ino,
                ).children_ino@
                &&& final(self).store.at(ino).ino == old(self).store.at(ino).ino
                &&& final(self).store.at(ino).parent_ino == old(self).store.at(ino).parent_ino
                &&& final(self).store.at(ino).attr.id == old(self).store.at(ino).attr.id
                &&& final(self).store.at(ino).attr.name == old(self).store.at(ino).attr.name
                &&& final(self).store.at(ino).attr.kind == old(self).store.at(ino).attr.kind
                &&& final(self).store.at(ino).attr.path == old(self).store.at(ino).attr.path
                &&& final(self).store.at(ino).attr.mtime == old(self).store.at(ino).attr.mtime
                &&& final(self).store.at(ino).attr.ctime == old(self).store.at(ino).attr.ctime
                &&& final(self).store.at(ino).attr.permissions == old(self).store.at(
                    ino,
                ).attr.permissions
                &&& forall|k: u64|
                    old(self).store.contains_ino(k) && k != ino ==> final(self).store.at(k) == old(
                        self,
                    ).store.at(k)
            },
    {
        let known = match self.store.get(ino) {
            Some(_) => true,
            None => false,
        };
        if !known {
            return Err(FsError::NotFound);
        }
        self.store.set_content(ino, content);
        Ok(())
    }

    /// Read from the cached content of inode `ino`: the bytes from `offset`
    /// on, clipped at `size` bytes or at the end of the content, whichever
    /// comes first; empty when `offset` is at or past the end.  An unknown
    /// inode, or one whose content was never cached by an open, is
    /// reported as `NotFound`.
    pub fn read(&self, ino: u64, offset: u64, size: u32) -> (r: Result<Vec<u8>, FsError>)
        requires
            self.wf(),
            self.state is Ready,
        ensures
            !self.store.contains_ino(ino) ==> r == Err::<Vec<u8>, FsError>(FsError::NotFound),
            self.store.contains_ino(ino) ==> match self.store.at(ino).content {
                None => r == Err::<Vec<u8>, FsError>(FsError::NotFound),
                Some(cc) => {
                    &&& (r matches Ok(bytes) && bytes@ == read_spec(cc@, offset, size))
                    &&& (offset >= cc@.len() ==> (r matches Ok(bytes) && bytes@.len() == 0))
                    &&& (offset < cc@.len() && offset + size > cc@.len() ==> (r matches Ok(bytes)
                        && bytes@.len() == cc@.len() - offset))
                },
            },
    {
        let inode = match self.store.get(ino) {
            Some(i) => i,
            None => {
                return Err(FsError::NotFound);
            },
        };
        let content = match &inode.content {
            Some(c) => c,
            None => {
                return Err(FsError::NotFound);
            },
        };
        let clen = content.len();
        if offset >= clen as u64 {
            proof {
                assert(read_spec(content@, offset, size) =~= Seq::<u8>::empty());
            }
            return Ok(Vec::new());
        }
        let start = offset as usize;
        let remaining = clen - start;
        let take = if (size as usize) < remaining {
            size as usize
        } else {
            remaining
        };
        let end = start + take;
        let mut out: Vec<u8> = Vec::new();
        let mut t = start;
        proof {
            assert(out@ =~= content@.subrange(start as int, start as int));
        }
        while t < end
            invariant
                start <= t <= end,
                end <= clen,
                clen == content@.len(),
                out@ == content@.subrange(start as int, t as int),
            decreases end - t,
        {
            out.push(content[t]);
            proof {
                assert(content@.subrange(start as int, t as int + 1) =~= content@.subrange(
                    start as int,
                    t as int,
                ).push(content@[t as int]));
            }
            t = t + 1;
        }
        proof {
            assert(out@ =~= read_spec(content@, offset, size));
        }
        Ok(out)
    }
}

/// `e` carries the listing row `row`: same identifier, kind and display
/// name.
pub open spec fn entry_matches(e: DirEntry, row: (u64, ContentType, Seq<char>)) -> bool {
    e.ino == row.0 && e.kind == row.1 && e.name@ == row.2
}

/// LAW: reading is idempotent.  A read is a pure function of the cached
/// content, so after one open filled the cache, any two reads of the same
/// inode at the same offset and length return identical bytes.
pub proof fn lemma_read_idempotent(
    fs: MegaFUSE,
    ino: u64,
    offset: u64,
    size: u32,
    r1: Seq<u8>,
    r2: Seq<u8>,
)
    requires
        fs.store.at(ino).content matches Some(cc) && r1 == read_spec(cc@, offset, size),
        fs.store.at(ino).content matches Some(cc) && r2 == read_spec(cc@, offset, size),
    ensures
        r1 == r2,
{
}

} // verus!
