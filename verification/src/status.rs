//! The status document: a nested tree of key/value nodes as returned by the
//! database, with typed, path-based accessors that signal failure explicitly.

use vstd::prelude::*;

use crate::Decimal6;
use crate::text::str_eq;

verus! {

/// Why a field lookup failed: a key on the path did not resolve to a node,
/// or the resolved node was not of the requested kind.
#[derive(Debug, Clone, Copy, PartialEq, Eq, Structural)]
pub enum AccessError {
    FieldMissing,
    TypeMismatch,
}

/// One value in a status document.
#[derive(Debug)]
pub enum Node {
    I32(i32),
    I64(i64),
    Dec(Decimal6),
    Text(String),
    Doc(StatusDocument),
}

/// A nested status document: an ordered list of key/node entries.
/// Untrusted external input; no invariants are assumed of it.
#[derive(Debug)]
pub struct StatusDocument {
    pub entries: Vec<(String, Node)>,
}

/// The first entry with the given key, if any.
pub open spec fn entries_lookup(entries: Seq<(String, Node)>, key: Seq<char>) -> Option<Node>
    decreases entries.len(),
{
    if entries.len() == 0 {
        None
    } else if entries[0].0@ == key {
        Some(entries[0].1)
    } else {
        entries_lookup(entries.drop_first(), key)
    }
}

/// Resolving a path of keys against a document: the empty path names the
/// document itself; a missing key fails with `FieldMissing`; descending into
/// a non-document node fails with `TypeMismatch`.
pub open spec fn resolve(doc: StatusDocument, path: Seq<Seq<char>>) -> Result<Node, AccessError>
    decreases path.len(),
{
    if path.len() == 0 {
        Ok(Node::Doc(doc))
    } else {
        match entries_lookup(doc.entries@, path[0]) {
            Option::None => Err(AccessError::FieldMissing),
            Option::Some(n) => if path.len() == 1 {
                Ok(n)
            } else {
                match n {
                    Node::Doc(d) => resolve(d, path.drop_first()),
                    _ => Err(AccessError::TypeMismatch),
                }
            },
        }
    }
}

/// The views of a path of keys.
pub open spec fn path_view(path: Seq<&str>) -> Seq<Seq<char>> {
    path.map_values(|s: &str| s@)
}

/// What `get_document` returns.
pub open spec fn doc_at(doc: StatusDocument, path: Seq<Seq<char>>) -> Result<
    StatusDocument,
    AccessError,
> {
    match resolve(doc, path) {
        Ok(Node::Doc(d)) => Ok(d),
        Ok(_) => Err(AccessError::TypeMismatch),
        Err(e) => Err(e),
    }
}

/// What `get_i32` returns.
pub open spec fn i32_at(doc: StatusDocument, path: Seq<Seq<char>>) -> Result<i32, AccessError> {
    match resolve(doc, path) {
        Ok(Node::I32(v)) => Ok(v),
        Ok(_) => Err(AccessError::TypeMismatch),
        Err(e) => Err(e),
    }
}

/// What `get_i64` returns.
pub open spec fn i64_at(doc: StatusDocument, path: Seq<Seq<char>>) -> Result<i64, AccessError> {
    match resolve(doc, path) {
        Ok(Node::I64(v)) => Ok(v),
        Ok(_) => Err(AccessError::TypeMismatch),
        Err(e) => Err(e),
    }
}

/// What `get_dec6` returns.
pub open spec fn dec6_at(doc: StatusDocument, path: Seq<Seq<char>>) -> Result<
    Decimal6,
    AccessError,
> {
    match resolve(doc, path) {
        Ok(Node::Dec(v)) => Ok(v),
        Ok(_) => Err(AccessError::TypeMismatch),
        Err(e) => Err(e),
    }
}

impl StatusDocument {
    /// A reference to the first entry with this key.
    fn lookup<'a>(&'a self, key: &str) -> (r: Option<&'a Node>)
        ensures
            match r {
                Some(n) => entries_lookup(self.entries@, key@) == Some(*n),
                None => entries_lookup(self.entries@, key@) is None,
            },
    {
        let mut i: usize = 0;
        proof {
            assert(self.entries@.skip(0) =~= self.entries@);
        }
        while i < self.entries.len()
            invariant
                i <= self.entries@.len(),
                entries_lookup(self.entries@, key@) == entries_lookup(
                    self.entries@.skip(i as int),
                    key@,
                ),
            decreases self.entries@.len() - i,
        {
            let entry = &self.entries[i];
            proof {
                assert(self.entries@.skip(i as int)[0] == self.entries@[i as int]);
            }
            if str_eq(entry.0.as_str(), key) {
                return Some(&entry.1);
            }
            proof {
                assert(self.entries@.skip(i as int).drop_first() =~= self.entries@.skip(i + 1));
            }
            i += 1;
        }
        proof {
            assert(self.entries@.skip(self.entries@.len() as int) =~= Seq::<(
                String,
                Node,
            )>::empty());
        }
        None
    }

    /// Walks the whole path and hands back the node it names.
    fn resolve_node<'a>(&'a self, path: &[&str]) -> (r: Result<&'a Node, AccessError>)
        requires
            path@.len() >= 1,
        ensures
            match r {
                Ok(n) => resolve(*self, path_view(path@)) == Ok::<Node, AccessError>(*n),
                Err(e) => resolve(*self, path_view(path@)) == Err::<Node, AccessError>(e),
            },
    {
        let mut cur: &StatusDocument = self;
        let mut i: usize = 0;
        proof {
            assert(path_view(path@).skip(0) =~= path_view(path@));
        }
        while i < path.len() - 1
            invariant
                path@.len() >= 1,
                i < path@.len(),
                resolve(*self, path_view(path@)) == resolve(
                    *cur,
                    path_view(path@).skip(i as int),
                ),
            decreases path@.len() - i,
        {
            proof {
                assert(path_view(path@).skip(i as int)[0] == path@[i as int]@);
            }
            match cur.lookup(path[i]) {
                Option::None => {
                    return Err(AccessError::FieldMissing);
                },
                Option::Some(n) => {
                    match n {
                        Node::Doc(d) => {
                            proof {
                                assert(path_view(path@).skip(i as int).drop_first() =~= path_view(
                                    path@,
                                ).skip(i + 1));
                            }
                            cur = d;
                        },
                        _ => {
                            return Err(AccessError::TypeMismatch);
                        },
                    }
                },
            }
            i += 1;
        }
        proof {
            assert(path_view(path@).skip(i as int)[0] == path@[i as int]@);
            assert(path_view(path@).skip(i as int).len() == 1);
        }
        match cur.lookup(path[i]) {
            Option::None => Err(AccessError::FieldMissing),
            Option::Some(n) => Ok(n),
        }
    }

    /// Typed lookup of a nested document along a path of keys.
    pub fn get_document<'a>(&'a self, path: &[&str]) -> (r: Result<
        &'a StatusDocument,
        AccessError,
    >)
        ensures
            match r {
                Ok(d) => doc_at(*self, path_view(path@)) == Ok::<StatusDocument, AccessError>(*d),
                Err(e) => doc_at(*self, path_view(path@)) == Err::<StatusDocument, AccessError>(e),
            },
    {
        if path.len() == 0 {
            return Ok(self);
        }
        match self.resolve_node(path) {
            Ok(n) => match n {
                Node::Doc(d) => Ok(d),
                _ => Err(AccessError::TypeMismatch),
            },
            Err(e) => Err(e),
        }
    }

    /// Typed lookup of a 32-bit integer field.
    pub fn get_i32(&self, path: &[&str]) -> (r: Result<i32, AccessError>)
        ensures
            r == i32_at(*self, path_view(path@)),
    {
        if path.len() == 0 {
            return Err(AccessError::TypeMismatch);
        }
        match self.resolve_node(path) {
            Ok(n) => match n {
                Node::I32(v) => Ok(*v),
                _ => Err(AccessError::TypeMismatch),
            },
            Err(e) => Err(e),
        }
    }

    /// Typed lookup of a 64-bit integer field.
    pub fn get_i64(&self, path: &[&str]) -> (r: Result<i64, AccessError>)
        ensures
            r == i64_at(*self, path_view(path@)),
    {
        if path.len() == 0 {
            return Err(AccessError::TypeMismatch);
        }
        match self.resolve_node(path) {
            Ok(n) => match n {
                Node::I64(v) => Ok(*v),
                _ => Err(AccessError::TypeMismatch),
            },
            Err(e) => Err(e),
        }
    }

    /// Typed lookup of a fractional (fixed-point) field.
    pub fn get_dec6(&self, path: &[&str]) -> (r: Result<Decimal6, AccessError>)
        ensures
            r == dec6_at(*self, path_view(path@)),
    {
        if path.len() == 0 {
            return Err(AccessError::TypeMismatch);
        }
        match self.resolve_node(path) {
            Ok(n) => match n {
                Node::Dec(v) => Ok(*v),
                _ => Err(AccessError::TypeMismatch),
            },
            Err(e) => Err(e),
        }
    }
}

} // verus!

