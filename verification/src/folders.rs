//! The game's file system tree (`CSystemFidsFolder`, `CSystemFidFile`),
//! held as an arena of folders and files that refer to each other by index.
use vstd::prelude::*;
use vstd::string::StringSliceAdditionalSpecFns;

verus! {

/// A folder: its parent, its files (leaves), its sub-folders (trees) and its
/// name as the bytes that the game stores.
#[derive(Debug, Clone)]
pub struct FidsFolder {
    pub parent_folder: Option<usize>,
    pub leaves: Vec<usize>,
    pub trees: Vec<usize>,
    pub name: Vec<u8>,
}

/// A file: its folder and its name.
#[derive(Debug, Clone)]
pub struct FidFile {
    pub parent_folder: usize,
    pub name: Vec<u8>,
}

/// All folders and files.
#[derive(Debug, Clone)]
pub struct FidTree {
    pub folders: Vec<FidsFolder>,
    pub files: Vec<FidFile>,
}

impl FidsFolder {
    /// The files of this folder.
    pub fn leaves(&self) -> (r: &[usize])
        ensures
            r@ == self.leaves@,
    {
        self.leaves.as_slice()
    }

    /// The sub-folders of this folder.
    pub fn trees(&self) -> (r: &[usize])
        ensures
            r@ == self.trees@,
    {
        self.trees.as_slice()
    }

    /// The name of this folder.
    pub fn name(&self) -> (r: &[u8])
        ensures
            r@ == self.name@,
    {
        self.name.as_slice()
    }
}

impl FidFile {
    /// The name of this file.
    pub fn name(&self) -> (r: &[u8])
        ensures
            r@ == self.name@,
    {
        self.name.as_slice()
    }
}

impl FidTree {
    /// Indices are in range, a folder's parent comes before it and its
    /// sub-folders after it (the arena is filled from the root down).
    pub open spec fn wf(&self) -> bool {
        &&& forall|i: int|
            0 <= i < self.folders@.len() ==> ((#[trigger] self.folders@[i]).parent_folder matches Some(
                p,
            ) ==> p < i)
        &&& forall|i: int, j: int|
            0 <= i < self.folders@.len() && 0 <= j < self.folders@[i].trees@.len() ==> i
                < #[trigger] self.folders@[i].trees@[j] < self.folders@.len()
        &&& forall|i: int, j: int|
            0 <= i < self.folders@.len() && 0 <= j < self.folders@[i].leaves@.len() ==> 0
                <= #[trigger] self.folders@[i].leaves@[j] < self.files@.len()
    }
}

/// The path of folder `i`: the names from the root folder down to it.
pub open spec fn full_path(t: FidTree, i: int) -> Seq<Seq<u8>>
    decreases i,
    when 0 <= i
{
    match t.folders@[i].parent_folder {
        Some(p) => if 0 <= p < i {
            full_path(t, p as int).push(t.folders@[i].name@)
        } else {
            seq![t.folders@[i].name@]
        },
        None => seq![t.folders@[i].name@],
    }
}

/// The full path of a folder, as the list of folder names from the root.
pub fn fids_folder_full_path(tree: &FidTree, folder: usize) -> (r: Vec<Vec<u8>>)
    requires
        tree.wf(),
        folder < tree.folders@.len(),
    ensures
        r@.map_values(|n: Vec<u8>| n@) == full_path(*tree, folder as int),
    decreases folder,
{
    let f = &tree.folders[folder];
    match f.parent_folder {
        Some(parent_folder) => {
            let mut path = fids_folder_full_path(tree, parent_folder);
            let ghost before = path@;
            path.push(f.name.clone());
            proof {
                assert(path@.map_values(|n: Vec<u8>| n@) =~= before.map_values(|n: Vec<u8>| n@).push(
                    f.name@,
                ));
            }
            path
        },
        None => {
            let mut path: Vec<Vec<u8>> = Vec::new();
            path.push(f.name.clone());
            proof {
                assert(path@.map_values(|n: Vec<u8>| n@) =~= seq![f.name@]);
            }
            path
        },
    }
}

/// Whether two byte strings are equal.
pub fn bytes_eq(a: &[u8], b: &[u8]) -> (r: bool)
    ensures
        r == (a@ == b@),
{
    if a.len() != b.len() {
        return false;
    }
    let mut i: usize = 0;
    while i < a.len()
        invariant
            i <= a@.len(),
            a@.len() == b@.len(),
            forall|k: int| 0 <= k < i ==> a@[k] == b@[k],
        decreases a.len() - i,
    {
        if a[i] != b[i] {
            return false;
        }
        i = i + 1;
    }
    assert(a@ =~= b@);
    true
}

/// The first sub-folder of `folder` whose name is `name`.
pub open spec fn first_subfolder(t: FidTree, folder: int, name: Seq<u8>, r: Option<usize>) -> bool {
    let cs = t.folders@[folder].trees@;
    match r {
        Some(c) => exists|k: int|
            0 <= k < cs.len() && cs[k] == c && t.folders@[c as int].name@ == name && forall|m: int|
                0 <= m < k ==> t.folders@[#[trigger] cs[m] as int].name@ != name,
        None => forall|m: int| 0 <= m < cs.len() ==> t.folders@[#[trigger] cs[m] as int].name@ != name,
    }
}

/// The sub-folder of `folder` with the given name (the first one, if several
/// have it).
pub fn fids_folder_get_subfolder(tree: &FidTree, folder: usize, name: &str) -> (r: Option<usize>)
    requires
        tree.wf(),
        folder < tree.folders@.len(),
    ensures
        first_subfolder(*tree, folder as int, name.spec_bytes(), r),
{
    let name_bytes = name.as_bytes();
    let cs = tree.folders[folder].trees.as_slice();
    let mut k: usize = 0;
    while k < cs.len()
        invariant
            tree.wf(),
            folder < tree.folders@.len(),
            cs@ == tree.folders@[folder as int].trees@,
            name_bytes@ == name.spec_bytes(),
            k <= cs@.len(),
            forall|m: int|
                0 <= m < k ==> tree.folders@[#[trigger] cs@[m] as int].name@ != name_bytes@,
        decreases cs.len() - k,
    {
        let c = cs[k];
        assert(folder < c < tree.folders@.len());
        if bytes_eq(tree.folders[c].name.as_slice(), name_bytes) {
            return Some(c);
        }
        k = k + 1;
    }
    None
}

/// The first file of `folder` whose name is `name`.
pub open spec fn first_leaf(t: FidTree, folder: int, name: Seq<u8>, r: Option<usize>) -> bool {
    let ls = t.folders@[folder].leaves@;
    match r {
        Some(f) => exists|k: int|
            0 <= k < ls.len() && ls[k] == f && t.files@[f as int].name@ == name && forall|m: int|
                0 <= m < k ==> t.files@[#[trigger] ls[m] as int].name@ != name,
        None => forall|m: int| 0 <= m < ls.len() ==> t.files@[#[trigger] ls[m] as int].name@ != name,
    }
}

/// The file of `folder` with the given name (the first one, if several have it).
pub fn fids_folder_get_leaf(tree: &FidTree, folder: usize, name: &[u8]) -> (r: Option<usize>)
    requires
        tree.wf(),
        folder < tree.folders@.len(),
    ensures
        first_leaf(*tree, folder as int, name@, r),
{
    let ls = tree.folders[folder].leaves.as_slice();
    let mut k: usize = 0;
    while k < ls.len()
        invariant
            tree.wf(),
            folder < tree.folders@.len(),
            ls@ == tree.folders@[folder as int].leaves@,
            k <= ls@.len(),
            forall|m: int| 0 <= m < k ==> tree.files@[#[trigger] ls@[m] as int].name@ != name@,
        decreases ls.len() - k,
    {
        let f = ls[k];
        assert(0 <= f < tree.files@.len());
        if bytes_eq(tree.files[f].name.as_slice(), name) {
            return Some(f);
        }
        k = k + 1;
    }
    None
}

/// The files under folder `i`, in the order in which the client loads them:
/// those of its sub-folders first (each sub-folder in turn, recursively),
/// then its own.
pub open spec fn files_under(t: FidTree, i: int) -> Seq<usize>
    decreases t.folders@.len() - i, 1int,
    when 0 <= i < t.folders@.len()
{
    children_files(t, t.folders@[i].trees@, i) + t.folders@[i].leaves@
}

/// The files under the sub-folders `cs` of folder `i`, one sub-folder after
/// the other.
pub open spec fn children_files(t: FidTree, cs: Seq<usize>, i: int) -> Seq<usize>
    decreases t.folders@.len() - i, 0int, cs.len(),
    when 0 <= i < t.folders@.len()
{
    if cs.len() == 0 {
        seq![]
    } else {
        let c = cs.last() as int;
        children_files(t, cs.drop_last(), i) + if i < c < t.folders@.len() {
            files_under(t, c)
        } else {
            seq![]
        }
    }
}

/// Every file under `folder`, in load order: see `files_under`.
pub fn collect_files(tree: &FidTree, folder: usize) -> (r: Vec<usize>)
    requires
        tree.wf(),
        folder < tree.folders@.len(),
    ensures
        r@ == files_under(*tree, folder as int),
    decreases tree.folders@.len() - folder,
{
    let f = &tree.folders[folder];
    let cs = f.trees.as_slice();
    let mut out: Vec<usize> = Vec::new();
    let mut k: usize = 0;
    while k < cs.len()
        invariant
            tree.wf(),
            folder < tree.folders@.len(),
            cs@ == tree.folders@[folder as int].trees@,
            k <= cs@.len(),
            out@ == children_files(*tree, cs@.take(k as int), folder as int),
        decreases cs.len() - k,
    {
        let c = cs[k];
        assert(folder < c < tree.folders@.len());
        let sub = collect_files(tree, c);
        let ghost before = out@;
        push_usizes(&mut out, sub.as_slice());
        assert(cs@.take(k + 1).drop_last() =~= cs@.take(k as int));
        k = k + 1;
    }
    assert(cs@.take(k as int) =~= cs@);
    push_usizes(&mut out, f.leaves.as_slice());
    out
}

fn push_usizes(v: &mut Vec<usize>, xs: &[usize])
    ensures
        final(v)@ == old(v)@ + xs@,
{
    let mut i: usize = 0;
    while i < xs.len()
        invariant
            i <= xs@.len(),
            v@ == old(v)@ + xs@.take(i as int),
        decreases xs.len() - i,
    {
        v.push(xs[i]);
        assert(xs@.take(i + 1) =~= xs@.take(i as int).push(xs@[i as int]));
        i = i + 1;
    }
    assert(xs@.take(i as int) =~= xs@);
}

} // verus!
