//! Inodes: one record per filesystem entry, carrying the projected metadata
//! of the remote entry it was built from, the parent/child adjacency, and the
//! optional one-shot content cache.

use vstd::prelude::*;

use crate::num::all_digits;
use crate::num::dec_value;
use crate::num::parse_u64;
use crate::paths::strip_remote_prefix;
use crate::paths::stripped_path;

verus! {

/// Size in bytes reported for one block, and the fixed size of a directory.
pub const BLOCK_SIZE: u32 = 4096;

/// Fixed device number of every entry.
pub const RDEV: u32 = 0;

/// Fixed attribute flags of every entry.
pub const FLAGS: u32 = 0;

/// Fixed hard-link count of every entry.
pub const DEFAULT_HARD_LINKS: u32 = 1;

/// Permission bits of a file entry.
pub const DEFAULT_FILE_PERMISSIONS: u16 = 0o644;

/// Permission bits of a directory entry.
pub const DEFAULT_DIR_PERMISSIONS: u16 = 0o755;

/// The reserved identifier of the root inode; the allocator never produces
/// it.
pub const ROOT_INO: u64 = 1;

/// Kind of a filesystem entry, as the remote listing reports it.
#[derive(Clone, Copy, Debug, PartialEq, Eq, Structural)]
pub enum ContentType {
    File,
    Dir,
}

/// One entry of a remote tree listing, as plain values.  The last three
/// fields are provenance the engine ignores.
#[derive(Debug)]
pub struct Object {
    pub id: String,
    pub name: String,
    pub path: String,
    pub content_type: ContentType,
    pub commit_date: String,
    pub under_repo: bool,
    pub commit_msg: String,
    pub commit_id: String,
}

/// A whole remote tree listing: the ordered entries of one directory.
#[derive(Debug)]
pub struct Objects {
    pub data: Vec<Object>,
}

/// The remote entry's metadata as an inode keeps it.  Times are seconds
/// since the epoch.
#[derive(Debug)]
pub struct InodeAttributes {
    pub id: String,
    pub size: u64,
    pub name: String,
    pub kind: ContentType,
    pub path: String,
    pub mtime: u64,
    pub ctime: u64,
    pub permissions: u16,
}

/// The commit timestamp `s` is readable as epoch seconds.
pub open spec fn valid_commit_date(s: Seq<char>) -> bool {
    s.len() > 0 && all_digits(s) && dec_value(s) <= u64::MAX
}

/// The size an entry of kind `kind` starts with: directories report one
/// block, files report zero until their content is fetched.
pub open spec fn initial_size(kind: ContentType) -> u64 {
    if kind is Dir {
        BLOCK_SIZE as u64
    } else {
        0
    }
}

/// The fixed permission bits of an entry of kind `kind`.
pub open spec fn permissions_of(kind: ContentType) -> u16 {
    if kind is Dir {
        DEFAULT_DIR_PERMISSIONS
    } else {
        DEFAULT_FILE_PERMISSIONS
    }
}

/// `a` is the projection of the remote entry `ob`: same identifier, name
/// and kind; the initial size and fixed permission bits of that kind; the
/// path with the remote prefix stripped; and both times read from the commit
/// timestamp.
pub open spec fn projected_from(a: InodeAttributes, ob: Object) -> bool {
    &&& a.id == ob.id
    &&& a.name == ob.name
    &&& a.kind == ob.content_type
    &&& a.size == initial_size(ob.content_type)
    &&& a.path@ == stripped_path(ob.path@)
    &&& a.mtime == dec_value(ob.commit_date@)
    &&& a.ctime == dec_value(ob.commit_date@)
    &&& a.permissions == permissions_of(ob.content_type)
}

impl InodeAttributes {
    /// Project a remote entry into inode metadata: the commit timestamp is
    /// read as epoch seconds, the two-segment remote prefix is stripped from
    /// the path, and the permission bits follow the kind.  Fails exactly
    /// when the timestamp is not a readable number.
    pub fn from_object(object: Object) -> (r: Option<InodeAttributes>)
        ensures
            r is Some <==> valid_commit_date(object.commit_date@),
            r matches Some(a) ==> projected_from(a, object),
    {
        let secs = match parse_u64(object.commit_date.as_str()) {
            Some(secs) => secs,
            None => {
                return None;
            },
        };
        let path = strip_remote_prefix(object.path.as_str());
        let size = match object.content_type {
            ContentType::Dir => BLOCK_SIZE as u64,
            ContentType::File => 0u64,
        };
        let permissions = match object.content_type {
            ContentType::Dir => DEFAULT_DIR_PERMISSIONS,
            ContentType::File => DEFAULT_FILE_PERMISSIONS,
        };
        Some(
            InodeAttributes {
                id: object.id,
                size,
                name: object.name,
                kind: object.content_type,
                path,
                mtime: secs,
                ctime: secs,
                permissions,
            },
        )
    }
}

/// One filesystem entry: its identifier, its parent, the identifiers of its
/// children (directories only), its metadata, and the one-shot content
/// cache.
#[derive(Debug)]
pub struct Inode {
    pub ino: u64,
    pub parent_ino: u64,
    pub children_ino: Vec<u64>,
    pub attr: InodeAttributes,
    pub content: Option<Vec<u8>>,
}

/// The platform view of an inode's attributes, as plain numbers; the host
/// glue translates it field for field into its stat-equivalent structure.
#[derive(Clone, Copy, Debug, PartialEq, Eq, Structural)]
pub struct FileAttrData {
    pub ino: u64,
    pub size: u64,
    pub blocks: u64,
    pub atime: u64,
    pub mtime: u64,
    pub ctime: u64,
    pub crtime: u64,
    pub kind: ContentType,
    pub perm: u16,
    pub nlink: u32,
    pub uid: u32,
    pub gid: u32,
    pub rdev: u32,
    pub blksize: u32,
    pub flags: u32,
}

/// Number of blocks an entry of `size` bytes covers, rounded up.
pub open spec fn blocks_of(size: u64) -> int {
    size / (BLOCK_SIZE as u64) + if size % (BLOCK_SIZE as u64) != 0 {
        1int
    } else {
        0int
    }
}

/// The platform attributes projected from `inode` for the given caller.
pub open spec fn file_attr_spec(inode: Inode, uid: u32, gid: u32) -> FileAttrData {
    FileAttrData {
        ino: inode.ino,
        size: inode.attr.size,
        blocks: blocks_of(inode.attr.size) as u64,
        atime: inode.attr.mtime,
        mtime: inode.attr.mtime,
        ctime: inode.attr.ctime,
        crtime: inode.attr.ctime,
        kind: inode.attr.kind,
        perm: inode.attr.permissions,
        nlink: DEFAULT_HARD_LINKS,
        uid,
        gid,
        rdev: RDEV,
        blksize: BLOCK_SIZE,
        flags: FLAGS,
    }
}

impl Inode {
    /// Construct the inode `ino` under `parent_ino`, with no children and no
    /// cached content.  The caller owns the choice of identifier; the store
    /// allocates them strictly increasing.
    pub fn new(ino: u64, parent_ino: u64, attr: InodeAttributes) -> (r: Self)
        ensures
            r.ino == ino,
            r.parent_ino == parent_ino,
            r.children_ino@.len() == 0,
            r.attr == attr,
            r.content is None,
    {
        Self { ino, parent_ino, children_ino: Vec::new(), attr, content: None }
    }

    /// Append `child` to the children sequence.
    pub fn insert_child(&mut self, child: u64)
        ensures
            final(self).children_ino@ == old(self).children_ino@.push(child),
            final(self).ino == old(self).ino,
            final(self).parent_ino == old(self).parent_ino,
            final(self).attr == old(self).attr,
            final(self).content == old(self).content,
    {
        self.children_ino.push(child);
    }

    /// Remove the first occurrence of `child` from the children sequence,
    /// which must be present.
    pub fn remove_child(&mut self, child: u64)
        requires
            old(self).children_ino@.contains(child),
        ensures
            exists|j: int|
                #![auto]
                {
                    &&& 0 <= j < old(self).children_ino@.len()
                    &&& old(self).children_ino@[j] == child
                    &&& forall|k: int| 0 <= k < j ==> old(self).children_ino@[k] != child
                    &&& final(self).children_ino@ == old(self).children_ino@.remove(j)
                },
            final(self).ino == old(self).ino,
            final(self).parent_ino == old(self).parent_ino,
            final(self).attr == old(self).attr,
            final(self).content == old(self).content,
    {
        let ghost orig = self.children_ino@;
        let n = self.children_ino.len();
        let mut index: usize = 0;
        while self.children_ino[index] != child
            invariant
                n == orig.len(),
                0 <= index < orig.len(),
                self.children_ino@ == orig,
                orig.contains(child),
                forall|k: int| 0 <= k <= index ==> k == index || orig[k] != child,
            decreases orig.len() - index,
        {
            index = index + 1;
            proof {
                let j0 = choose|j: int| 0 <= j < orig.len() && orig[j] == child;
                assert(index <= j0);
            }
        }
        self.children_ino.remove(index);
        proof {
            let j = index as int;
            assert(0 <= j < orig.len());
            assert(orig[j] == child);
            assert(forall|k: int| 0 <= k < j ==> orig[k] != child);
            assert(self.children_ino@ == orig.remove(j));
        }
    }

    /// Project this inode's attributes for the calling user and group.
    pub fn file_attr(&self, uid: u32, gid: u32) -> (r: FileAttrData)
        ensures
            r == file_attr_spec(*self, uid, gid),
    {
        let attrs = &self.attr;
        let q = attrs.size / (BLOCK_SIZE as u64);
        let rem = attrs.size % (BLOCK_SIZE as u64);
        proof {
            vstd::arithmetic::div_mod::lemma_div_is_ordered(
                attrs.size as int,
                u64::MAX as int,
                BLOCK_SIZE as int,
            );
        }
        let blocks = q + if rem != 0 {
            1u64
        } else {
            0u64
        };
        FileAttrData {
            ino: self.ino,
            size: attrs.size,
            blocks,
            atime: attrs.mtime,
            mtime: attrs.mtime,
            ctime: attrs.ctime,
            crtime: attrs.ctime,
            kind: attrs.kind,
            perm: attrs.permissions,
            nlink: DEFAULT_HARD_LINKS,
            uid,
            gid,
            rdev: RDEV,
            blksize: BLOCK_SIZE,
            flags: FLAGS,
        }
    }

    /// The synthetic root inode: reserved identifier, its own parent, a
    /// directory named after the mounted repository, with an empty relative
    /// path and the given construction time.
    pub fn root_node(fs_name: &str, now: u64) -> (r: Inode)
        ensures
            r.ino == ROOT_INO,
            r.parent_ino == ROOT_INO,
            r.children_ino@.len() == 0,
            r.content is None,
            r.attr.id@ == fs_name@,
            r.attr.name@ == fs_name@,
            r.attr.path@ == Seq::<char>::empty(),
            r.attr.kind is Dir,
            r.attr.size == BLOCK_SIZE as u64,
            r.attr.mtime == now,
            r.attr.ctime == now,
            r.attr.permissions == DEFAULT_DIR_PERMISSIONS,
    {
        let attr = InodeAttributes {
            id: fs_name.to_owned(),
            size: BLOCK_SIZE as u64,
            name: fs_name.to_owned(),
            path: String::new(),
            kind: ContentType::Dir,
            mtime: now,
            ctime: now,
            permissions: DEFAULT_DIR_PERMISSIONS,
        };
        Inode {
            ino: ROOT_INO,
            parent_ino: ROOT_INO,
            children_ino: Vec::new(),
            attr,
            content: None,
        }
    }
}

} // verus!
