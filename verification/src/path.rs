//! Paths as sequences of named components, and the file-name rules that the
//! planner relies on.

use vstd::prelude::*;
use vstd::string::*;

verus! {

/// Index of the last `'.'` in `name`, or `-1` where it holds none.
pub open spec fn last_dot(name: Seq<char>) -> int
    decreases name.len(),
{
    if name.len() == 0 {
        -1
    } else if name.last() == '.' {
        name.len() - 1
    } else {
        last_dot(name.drop_last())
    }
}

/// The stem of a file name: the part before the last dot. A name without a
/// dot, or whose only dot leads it, is its own stem.
pub open spec fn spec_stem(name: Seq<char>) -> Seq<char> {
    if last_dot(name) <= 0 {
        name
    } else {
        name.subrange(0, last_dot(name))
    }
}

/// The extension of a file name: the part after the last dot. A name without
/// a dot, or whose only dot leads it, has none.
pub open spec fn spec_extension(name: Seq<char>) -> Option<Seq<char>> {
    if last_dot(name) <= 0 {
        None
    } else {
        Some(name.subrange(last_dot(name) + 1, name.len() as int))
    }
}

/// What `last_dot` finds: a dot, with none after it.
pub proof fn lemma_last_dot(name: Seq<char>)
    ensures
        -1 <= last_dot(name) < name.len(),
        last_dot(name) >= 0 ==> name[last_dot(name)] == '.',
        forall|j: int| last_dot(name) < j < name.len() ==> name[j] != '.',
    decreases name.len(),
{
    if name.len() > 0 && name.last() != '.' {
        lemma_last_dot(name.drop_last());
        assert forall|j: int| last_dot(name) < j < name.len() implies name[j] != '.' by {
            if j < name.len() - 1 {
                assert(name.drop_last()[j] == name[j]);
            }
        }
    }
}

/// Position of the last dot of `name`.
pub fn find_last_dot(name: &str) -> (r: Option<usize>)
    ensures
        match r {
            Some(k) => last_dot(name@) == k,
            None => last_dot(name@) == -1,
        },
{
    let n: usize = name.unicode_len();
    let mut found: Option<usize> = None;
    let mut i: usize = 0;
    while i < n
        invariant
            i <= n,
            n == name@.len(),
            match found {
                Some(k) => last_dot(name@.subrange(0, i as int)) == k,
                None => last_dot(name@.subrange(0, i as int)) == -1,
            },
        decreases n - i,
    {
        let c = name.get_char(i);
        proof {
            let next = name@.subrange(0, i + 1);
            assert(next.drop_last() =~= name@.subrange(0, i as int));
        }
        if c == '.' {
            found = Some(i);
        }
        i = i + 1;
    }
    assert(name@.subrange(0, n as int) =~= name@);
    found
}

/// The stem of a file name.
pub fn stem(name: &str) -> (r: String)
    ensures
        r@ == spec_stem(name@),
{
    proof {
        lemma_last_dot(name@);
    }
    match find_last_dot(name) {
        Some(k) => {
            if k == 0 {
                String::from_str(name)
            } else {
                String::from_str(name.substring_char(0, k))
            }
        },
        None => String::from_str(name),
    }
}

/// The extension of a file name, where it has one.
pub fn extension(name: &str) -> (r: Option<String>)
    ensures
        match r {
            Some(e) => spec_extension(name@) == Some(e@),
            None => spec_extension(name@).is_none(),
        },
{
    proof {
        lemma_last_dot(name@);
    }
    match find_last_dot(name) {
        Some(k) => {
            if k == 0 {
                None
            } else {
                let n: usize = name.unicode_len();
                Some(String::from_str(name.substring_char(k + 1, n)))
            }
        },
        None => None,
    }
}

/// The view of a list of names.
pub open spec fn names(v: Seq<String>) -> Seq<Seq<char>> {
    v.map_values(|s: String| s@)
}

/// A path: its components in order, outermost first.
#[derive(Clone, Debug)]
pub struct PathItem {
    pub components: Vec<String>,
}

impl View for PathItem {
    type V = Seq<Seq<char>>;

    open spec fn view(&self) -> Seq<Seq<char>> {
        names(self.components@)
    }
}

/// The name of the file or directory that `p` ends in; a path that is empty
/// or ends in `..` has none.
pub open spec fn spec_file_name(p: Seq<Seq<char>>) -> Option<Seq<char>> {
    if p.len() == 0 || p.last() == seq!['.', '.'] {
        None
    } else {
        Some(p.last())
    }
}

/// The path without its last component; the empty path has no parent.
pub open spec fn spec_parent(p: Seq<Seq<char>>) -> Option<Seq<Seq<char>>> {
    if p.len() == 0 {
        None
    } else {
        Some(p.drop_last())
    }
}

/// `base` leads `p`, component by component.
pub open spec fn starts_with(p: Seq<Seq<char>>, base: Seq<Seq<char>>) -> bool {
    base.len() <= p.len() && p.subrange(0, base.len() as int) == base
}

/// `p` relative to `base`, where `base` leads it.
pub open spec fn spec_strip_prefix(p: Seq<Seq<char>>, base: Seq<Seq<char>>) -> Option<
    Seq<Seq<char>>,
> {
    if starts_with(p, base) {
        Some(p.subrange(base.len() as int, p.len() as int))
    } else {
        None
    }
}

impl PathItem {
    /// The empty path.
    pub fn new() -> (r: PathItem)
        ensures
            r@ == Seq::<Seq<char>>::empty(),
    {
        PathItem { components: Vec::new() }
    }

    /// The path made of `components`.
    pub fn from_components(components: Vec<String>) -> (r: PathItem)
        ensures
            r@ == names(components@),
            r.components == components,
    {
        PathItem { components }
    }

    /// Number of components.
    pub fn len(&self) -> (n: usize)
        ensures
            n == self@.len(),
    {
        self.components.len()
    }

    /// A copy of this path.
    pub fn duplicate(&self) -> (r: PathItem)
        ensures
            r@ == self@,
    {
        self.prefix(self.components.len())
    }

    /// The first `n` components.
    pub fn prefix(&self, n: usize) -> (r: PathItem)
        requires
            n <= self@.len(),
        ensures
            r@ == self@.subrange(0, n as int),
    {
        self.slice(0, n)
    }

    /// The components from `from` up to `to`.
    pub fn slice(&self, from: usize, to: usize) -> (r: PathItem)
        requires
            from <= to <= self@.len(),
        ensures
            r@ == self@.subrange(from as int, to as int),
    {
        let mut out: Vec<String> = Vec::new();
        let mut i: usize = from;
        while i < to
            invariant
                from <= i <= to,
                to <= self.components@.len(),
                names(out@) =~= self@.subrange(from as int, i as int),
            decreases to - i,
        {
            let c = self.components[i].clone();
            let ghost before = out@;
            out.push(c);
            proof {
                assert(names(out@) =~= names(before).push(c@));
            }
            i = i + 1;
        }
        PathItem { components: out }
    }

    /// This path followed by `other`.
    pub fn join(&self, other: &PathItem) -> (r: PathItem)
        ensures
            r@ == self@ + other@,
    {
        let mut out: Vec<String> = self.duplicate().components;
        let mut i: usize = 0;
        while i < other.components.len()
            invariant
                i <= other.components@.len(),
                names(out@) =~= self@ + other@.subrange(0, i as int),
            decreases other.components@.len() - i,
        {
            let c = other.components[i].clone();
            let ghost before = out@;
            out.push(c);
            proof {
                assert(names(out@) =~= names(before).push(c@));
            }
            i = i + 1;
        }
        PathItem { components: out }
    }

    /// This path followed by one more component.
    pub fn join_name(&self, name: &str) -> (r: PathItem)
        ensures
            r@ == self@.push(name@),
    {
        let mut out: Vec<String> = self.duplicate().components;
        out.push(String::from_str(name));
        PathItem { components: out }
    }

    /// The name this path ends in.
    pub fn file_name(&self) -> (r: Option<String>)
        ensures
            match r {
                Some(s) => spec_file_name(self@) == Some(s@),
                None => spec_file_name(self@).is_none(),
            },
    {
        let n: usize = self.components.len();
        if n == 0 {
            return None;
        }
        let last = self.components[n - 1].clone();
        if is_dot_dot(last.as_str()) {
            None
        } else {
            Some(last)
        }
    }

    /// The path without its last component.
    pub fn parent(&self) -> (r: Option<PathItem>)
        ensures
            match r {
                Some(p) => spec_parent(self@) == Some(p@),
                None => spec_parent(self@).is_none(),
            },
    {
        let n: usize = self.components.len();
        if n == 0 {
            None
        } else {
            let p = self.prefix(n - 1);
            Some(p)
        }
    }

    /// Tells whether `base` leads this path.
    pub fn has_prefix(&self, base: &PathItem) -> (r: bool)
        ensures
            r == starts_with(self@, base@),
    {
        let n: usize = base.components.len();
        if n > self.components.len() {
            return false;
        }
        let mut i: usize = 0;
        while i < n
            invariant
                i <= n,
                n == base.components@.len(),
                n <= self.components@.len(),
                self@.subrange(0, i as int) =~= base@.subrange(0, i as int),
            decreases n - i,
        {
            if self.components[i] != base.components[i] {
                proof {
                    assert(self@.subrange(0, n as int)[i as int] == self@[i as int]);
                }
                return false;
            }
            proof {
                assert(self@.subrange(0, i + 1) =~= self@.subrange(0, i as int).push(
                    self@[i as int],
                ));
                assert(base@.subrange(0, i + 1) =~= base@.subrange(0, i as int).push(
                    base@[i as int],
                ));
            }
            i = i + 1;
        }
        assert(base@.subrange(0, n as int) =~= base@);
        true
    }

    /// This path relative to `base`, where `base` leads it.
    pub fn strip_prefix(&self, base: &PathItem) -> (r: Option<PathItem>)
        ensures
            match r {
                Some(p) => spec_strip_prefix(self@, base@) == Some(p@),
                None => spec_strip_prefix(self@, base@).is_none(),
            },
    {
        if self.has_prefix(base) {
            Some(self.slice(base.components.len(), self.components.len()))
        } else {
            None
        }
    }

    /// Tells whether the two paths have the same components.
    pub fn same_as(&self, other: &PathItem) -> (r: bool)
        ensures
            r == (self@ == other@),
    {
        if self.components.len() != other.components.len() {
            return false;
        }
        let r = self.has_prefix(other);
        proof {
            assert(self@.subrange(0, self@.len() as int) =~= self@);
        }
        r
    }
}

/// Tells whether `name` is the parent-directory component `..`.
pub fn is_dot_dot(name: &str) -> (r: bool)
    ensures
        r == (name@ == seq!['.', '.']),
{
    let n: usize = name.unicode_len();
    if n != 2 {
        return false;
    }
    let a = name.get_char(0);
    let b = name.get_char(1);
    let r = a == '.' && b == '.';
    assert(r ==> name@ =~= seq!['.', '.']);
    r
}

} // verus!
