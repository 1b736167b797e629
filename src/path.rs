use vstd::prelude::*;
use vstd::string::StrSliceExecFns;
use crate::error::ClientError;

verus! {

/// Whether a remote object is a file or a folder.
#[derive(Debug, Clone, Copy, PartialEq, Eq)]
pub enum ObjectKind {
    File,
    Folder,
}

/// A remote object as the service identifies it.
#[derive(Debug, Clone, PartialEq, Eq)]
pub struct RemoteObjectRef {
    pub id: String,
    pub kind: ObjectKind,
    pub name: String,
}

/// The character that separates the components of a logical path.
pub const SEPARATOR: char = '/';

/// The views of a sequence of strings.
pub open spec fn views(v: Seq<String>) -> Seq<Seq<char>> {
    v.map_values(|x: String| x@)
}

/// Reading `s` left to right: the components already closed by a separator, and
/// the characters of the component still open.
pub open spec fn split_prefix(s: Seq<char>) -> (Seq<Seq<char>>, Seq<char>)
    decreases s.len(),
{
    if s.len() == 0 {
        (Seq::empty(), Seq::empty())
    } else {
        let (done, cur) = split_prefix(s.drop_last());
        if s.last() == SEPARATOR {
            if cur.len() > 0 {
                (done.push(cur), Seq::empty())
            } else {
                (done, Seq::empty())
            }
        } else {
            (done, cur.push(s.last()))
        }
    }
}

/// The non-empty runs of characters between separators, in order.
pub open spec fn path_components(s: Seq<char>) -> Seq<Seq<char>> {
    let (done, cur) = split_prefix(s);
    if cur.len() > 0 {
        done.push(cur)
    } else {
        done
    }
}

/// Splits a logical path into its components; empty components (a leading,
/// trailing or doubled separator) are skipped.
pub fn split_path(path: &str) -> (r: Vec<String>)
    ensures
        views(r@) == path_components(path@),
{
    let n = path.unicode_len();
    let mut out: Vec<String> = Vec::new();
    let mut start: usize = 0;
    let mut i: usize = 0;
    while i < n
        invariant
            n == path@.len(),
            start <= i <= n,
            split_prefix(path@.take(i as int)) == (views(out@), path@.subrange(start as int, i as int)),
        decreases n - i,
    {
        let c = path.get_char(i);
        let ghost s = path@;
        assert(s.take(i + 1).drop_last() =~= s.take(i as int));
        assert(s.take(i + 1).last() == c);
        if c == SEPARATOR {
            if i > start {
                let part = path.substring_char(start, i).to_owned();
                proof {
                    assert(views(out@.push(part)) =~= views(out@).push(part@));
                }
                out.push(part);
            }
            start = i + 1;
            assert(s.subrange(start as int, i + 1) =~= Seq::<char>::empty());
        } else {
            assert(s.subrange(start as int, i as int).push(c) =~= s.subrange(start as int, i + 1));
        }
        i = i + 1;
    }
    assert(path@.take(n as int) =~= path@);
    if n > start {
        let part = path.substring_char(start, n).to_owned();
        proof {
            assert(views(out@.push(part)) =~= views(out@).push(part@));
        }
        out.push(part);
    }
    out
}

impl RemoteObjectRef {
    /// Whether this is the root folder.
    pub open spec fn is_root(&self) -> bool {
        &&& self.id@ == Seq::<char>::empty()
        &&& self.kind == ObjectKind::Folder
        &&& self.name@ == Seq::<char>::empty()
    }

    /// The root folder, from which every path is resolved.
    pub fn root() -> (r: Self)
        ensures
            r.is_root(),
    {
        RemoteObjectRef { id: String::new(), kind: ObjectKind::Folder, name: String::new() }
    }

    /// The service's identifier of the object.
    pub fn get_id(&self) -> (r: &String)
        ensures
            r == &self.id,
    {
        &self.id
    }

    /// A field-for-field copy.
    pub fn duplicate(&self) -> (r: Self)
        ensures
            r == *self,
    {
        RemoteObjectRef { id: self.id.clone(), kind: self.kind, name: self.name.clone() }
    }
}

/// The first entry of a listing whose name is exactly `name`, if any.
pub open spec fn first_named(entries: Seq<RemoteObjectRef>, name: Seq<char>, j: int) -> bool {
    &&& 0 <= j < entries.len()
    &&& entries[j].name@ == name
    &&& forall|k: int| 0 <= k < j ==> entries[k].name@ != name
}

/// Whether some entry of a listing is named exactly `name`.
pub open spec fn has_named(entries: Seq<RemoteObjectRef>, name: Seq<char>) -> bool {
    exists|k: int| 0 <= k < entries.len() && entries[k].name@ == name
}

/// Looks a name up in a directory listing: exact, case-sensitive match, first hit wins.
pub fn find_entry(entries: &Vec<RemoteObjectRef>, name: &String) -> (r: Option<usize>)
    ensures
        match r {
            Some(j) => first_named(entries@, name@, j as int),
            None => !has_named(entries@, name@),
        },
{
    let mut k: usize = 0;
    while k < entries.len()
        invariant
            k <= entries@.len(),
            forall|m: int| 0 <= m < k ==> entries@[m].name@ != name@,
        decreases entries@.len() - k,
    {
        if entries[k].name == *name {
            return Some(k);
        }
        k = k + 1;
    }
    None
}

/// What a path resolution asks for next.
#[derive(Debug, Clone, PartialEq, Eq)]
pub enum ResolveStep {
    /// List the folder with this identifier and hand the entries back.
    List(String),
    /// The path names this object.
    Found(RemoteObjectRef),
    /// A component does not exist.
    Missing,
}

/// Walks a logical path one component at a time against folder listings.
pub struct PathResolver {
    pub components: Vec<String>,
    /// Components resolved so far.
    pub index: usize,
    /// The object the resolved prefix names.
    pub current: RemoteObjectRef,
    pub missing: bool,
}

impl PathResolver {
    pub open spec fn comps(&self) -> Seq<Seq<char>> {
        views(self.components@)
    }

    pub open spec fn wf(&self) -> bool {
        self.index <= self.components@.len()
    }

    /// A resolution of `path` that starts from the root.
    pub fn new(path: &str) -> (r: Self)
        ensures
            r.wf(),
            r.comps() == path_components(path@),
            r.index == 0,
            r.current.is_root(),
            !r.missing,
    {
        PathResolver { components: split_path(path), index: 0, current: RemoteObjectRef::root(), missing: false }
    }

    /// What to do next: list the current folder, or report the result.
    pub fn step(&self) -> (r: ResolveStep)
        requires
            self.wf(),
        ensures
            self.missing ==> r == ResolveStep::Missing,
            !self.missing && self.index == self.components@.len() ==> r == ResolveStep::Found(self.current),
            !self.missing && self.index < self.components@.len() ==> (r matches ResolveStep::List(id)
                && id@ == self.current.id@),
    {
        if self.missing {
            ResolveStep::Missing
        } else if self.index == self.components.len() {
            ResolveStep::Found(self.current.duplicate())
        } else {
            ResolveStep::List(self.current.id.clone())
        }
    }

    /// Descends into the entry of `entries` (the listing of the current folder)
    /// named like the next component, or records that there is none.
    pub fn on_listing(&mut self, entries: &Vec<RemoteObjectRef>) -> (r: Result<(), ClientError>)
        requires
            old(self).wf(),
            !old(self).missing,
            old(self).index < old(self).components@.len(),
        ensures
            final(self).wf(),
            final(self).components == old(self).components,
            ({
                let name = old(self).comps()[old(self).index as int];
                if has_named(entries@, name) {
                    &&& r is Ok
                    &&& final(self).index == old(self).index + 1
                    &&& !final(self).missing
                    &&& exists|j: int| first_named(entries@, name, j) && final(self).current == entries@[j]
                } else {
                    &&& r == Err::<(), ClientError>(ClientError::NotFound)
                    &&& final(self).index == old(self).index
                    &&& final(self).missing
                }
            }),
    {
        let count = self.components.len();
        let ghost name = self.comps()[self.index as int];
        assert(self.components@[self.index as int]@ == name);
        match find_entry(entries, &self.components[self.index]) {
            Some(j) => {
                self.current = entries[j].duplicate();
                assert(self.index < count);
                self.index = self.index + 1;
                Ok(())
            },
            None => {
                self.missing = true;
                Err(ClientError::NotFound)
            },
        }
    }
}

/// A path made of separators alone, the empty path included, has no component.
pub proof fn lemma_root_path_has_no_components(s: Seq<char>)
    requires
        forall|i: int| 0 <= i < s.len() ==> s[i] == SEPARATOR,
    ensures
        path_components(s) == Seq::<Seq<char>>::empty(),
    decreases s.len(),
{
    if s.len() > 0 {
        lemma_root_path_has_no_components(s.drop_last());
    }
}

/// Resolving a path made of separators alone, the empty path included, asks for
/// no listing: a fresh resolver of it has no component left to resolve.
pub proof fn lemma_root_path_resolves_at_once(r: PathResolver, path: Seq<char>)
    requires
        r.comps() == path_components(path),
        forall|i: int| 0 <= i < path.len() ==> path[i] == SEPARATOR,
    ensures
        r.index == 0 ==> r.index == r.components@.len(),
{
    lemma_root_path_has_no_components(path);
    assert(r.comps().len() == r.components@.len());
}

} // verus!
