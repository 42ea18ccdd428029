//! Absolute paths as sequences of component names.

use vstd::prelude::*;

verus! {

/// An absolute path: the names of its components, outermost first. The root
/// directory is the path without components.
#[derive(Debug, PartialEq, Eq, Hash)]
pub struct AbsPath {
    pub components: Vec<String>,
}

impl View for AbsPath {
    type V = Seq<Seq<char>>;

    open spec fn view(&self) -> Seq<Seq<char>> {
        Seq::new(self.components@.len(), |i: int| self.components@[i]@)
    }
}

impl Clone for AbsPath {
    fn clone(&self) -> (copy: Self)
        ensures
            copy@ == self@,
    {
        let mut components: Vec<String> = Vec::new();
        let mut i: usize = 0;
        while i < self.components.len()
            invariant
                i <= self.components.len(),
                components@.len() == i,
                forall|k: int| 0 <= k < i ==> components@[k]@ == self.components@[k]@,
            decreases self.components.len() - i,
        {
            components.push(self.components[i].clone());
            i += 1;
        }
        let copy = AbsPath { components };
        assert(copy@ =~= self@);
        copy
    }
}

impl AbsPath {
    /// The root directory.
    pub fn root() -> (path: AbsPath)
        ensures
            path@ == Seq::<Seq<char>>::empty(),
    {
        let path = AbsPath { components: Vec::new() };
        assert(path@ =~= Seq::<Seq<char>>::empty());
        path
    }

    /// Whether this is the root directory.
    pub fn is_root(&self) -> (root: bool)
        ensures
            root == (self@.len() == 0),
    {
        self.components.len() == 0
    }

    /// Appends one component.
    pub fn push(&mut self, name: String)
        ensures
            final(self)@ == old(self)@.push(name@),
    {
        self.components.push(name);
        assert(self@ =~= old(self)@.push(name@));
    }

    /// Removes the last component. The root has none and stays as it is; the
    /// result says whether a component was removed.
    pub fn pop(&mut self) -> (popped: bool)
        ensures
            popped == (old(self)@.len() > 0),
            final(self)@ == parent_of(old(self)@),
    {
        let popped = self.components.pop().is_some();
        assert(self@ =~= parent_of(old(self)@));
        popped
    }

    /// The path of the entry `name` inside this directory.
    pub fn join(&self, name: &str) -> (child: AbsPath)
        ensures
            child@ == self@.push(name@),
    {
        let mut child = self.clone();
        child.push(name.to_owned());
        child
    }

    /// The last component, if there is one.
    pub fn file_name(&self) -> (name: Option<&String>)
        ensures
            match name {
                Some(name) => self@.len() > 0 && name@ == self@.last(),
                None => self@.len() == 0,
            },
    {
        let n = self.components.len();
        if n == 0 {
            None
        } else {
            Some(&self.components[n - 1])
        }
    }

    /// The path as text.
    pub fn to_text(&self) -> (text: String)
        ensures
            text@ == text_of(self@),
    {
        proof {
            reveal_strlit("/");
            assert("/"@ =~= seq!['/']);
        }
        if self.components.len() == 0 {
            return "/".to_owned();
        }
        let mut text = String::new();
        let mut i: usize = 0;
        assert(self@.take(0) =~= Seq::<Seq<char>>::empty());
        while i < self.components.len()
            invariant
                i <= self.components.len(),
                text@ == joined(self@.take(i as int)),
                "/"@ == seq!['/'],
            decreases self.components.len() - i,
        {
            text.append("/");
            text.append(self.components[i].as_str());
            i += 1;
            assert(self@.take(i as int).drop_last() =~= self@.take(i - 1));
        }
        assert(self@.take(i as int) =~= self@);
        text
    }

    /// Whether two paths name the same place.
    pub fn same_as(&self, other: &AbsPath) -> (same: bool)
        ensures
            same == (self@ == other@),
    {
        if self.components.len() != other.components.len() {
            assert(self@.len() != other@.len());
            return false;
        }
        let mut i: usize = 0;
        while i < self.components.len()
            invariant
                i <= self.components.len(),
                self.components.len() == other.components.len(),
                forall|k: int| 0 <= k < i ==> self@[k] == other@[k],
            decreases self.components.len() - i,
        {
            if self.components[i] != other.components[i] {
                assert(self@[i as int] != other@[i as int]);
                return false;
            }
            i += 1;
        }
        assert(self@ =~= other@);
        true
    }
}

/// The components of a path written one after the other, a slash before each.
pub open spec fn joined(path: Seq<Seq<char>>) -> Seq<char>
    decreases path.len(),
{
    if path.len() == 0 {
        Seq::empty()
    } else {
        joined(path.drop_last()) + seq!['/'] + path.last()
    }
}

/// The text of a path: a slash before each component, and a lone slash for
/// the root.
pub open spec fn text_of(path: Seq<Seq<char>>) -> Seq<char> {
    if path.len() == 0 {
        seq!['/']
    } else {
        joined(path)
    }
}

/// The path one level up: a path without its last component, and the root for
/// the root.
pub open spec fn parent_of(path: Seq<Seq<char>>) -> Seq<Seq<char>> {
    if path.len() == 0 {
        path
    } else {
        path.drop_last()
    }
}

} // verus!
