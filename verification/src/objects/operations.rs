//! Sets of operations, and the order in which they are listed.
use vstd::prelude::*;
use crate::objects::Operation;

verus! {

/// A set of operations.
#[derive(Debug, Clone, Copy, PartialEq, Eq, Structural)]
pub struct OperationSet {
    pub list: bool,
    pub read: bool,
    pub write: bool,
    pub update_metadata: bool,
    pub get_metadata: bool,
    pub delete: bool,
}

impl View for OperationSet {
    type V = Set<Operation>;

    open spec fn view(&self) -> Set<Operation> {
        Set::new(|op: Operation| self.has(op))
    }
}

impl OperationSet {
    /// Whether the set holds the operation.
    pub open spec fn has(&self, op: Operation) -> bool {
        match op {
            Operation::ListObjects => self.list,
            Operation::ReadObjectContents => self.read,
            Operation::WriteObject => self.write,
            Operation::UpdateObjectMetadata => self.update_metadata,
            Operation::GetObjectMetadata => self.get_metadata,
            Operation::DeleteObject => self.delete,
        }
    }

    /// The set of no operations.
    pub fn empty() -> (s: Self)
        ensures
            s@ == Set::<Operation>::empty(),
    {
        let s = OperationSet {
            list: false,
            read: false,
            write: false,
            update_metadata: false,
            get_metadata: false,
            delete: false,
        };
        assert(s@ =~= Set::<Operation>::empty());
        s
    }

    /// The set of one operation.
    pub fn single(op: Operation) -> (s: Self)
        ensures
            s@ == set![op],
    {
        let mut s = OperationSet::empty();
        s.insert(op);
        assert(s@ =~= set![op]);
        s
    }

    /// Adds an operation.
    pub fn insert(&mut self, op: Operation)
        ensures
            final(self)@ == old(self)@.insert(op),
    {
        match op {
            Operation::ListObjects => {
                self.list = true;
            },
            Operation::ReadObjectContents => {
                self.read = true;
            },
            Operation::WriteObject => {
                self.write = true;
            },
            Operation::UpdateObjectMetadata => {
                self.update_metadata = true;
            },
            Operation::GetObjectMetadata => {
                self.get_metadata = true;
            },
            Operation::DeleteObject => {
                self.delete = true;
            },
        }
        assert(self@ =~= old(self)@.insert(op));
    }

    /// The operations of either set.
    pub fn union(&self, other: &OperationSet) -> (s: Self)
        ensures
            s@ == self@.union(other@),
    {
        let s = OperationSet {
            list: self.list || other.list,
            read: self.read || other.read,
            write: self.write || other.write,
            update_metadata: self.update_metadata || other.update_metadata,
            get_metadata: self.get_metadata || other.get_metadata,
            delete: self.delete || other.delete,
        };
        assert(s@ =~= self@.union(other@));
        s
    }

    /// Whether the set holds no operation.
    pub fn is_empty(&self) -> (none: bool)
        ensures
            none == (self@ == Set::<Operation>::empty()),
    {
        let none = !(self.list || self.read || self.write || self.update_metadata || self.get_metadata
            || self.delete);
        proof {
            if none {
                assert(self@ =~= Set::<Operation>::empty());
            } else {
                assert(self.has(Operation::ListObjects) || self.has(Operation::ReadObjectContents)
                    || self.has(Operation::WriteObject) || self.has(Operation::UpdateObjectMetadata)
                    || self.has(Operation::GetObjectMetadata) || self.has(Operation::DeleteObject));
                assert(self@.contains(Operation::ListObjects) || self@.contains(
                    Operation::ReadObjectContents,
                ) || self@.contains(Operation::WriteObject) || self@.contains(
                    Operation::UpdateObjectMetadata,
                ) || self@.contains(Operation::GetObjectMetadata) || self@.contains(
                    Operation::DeleteObject,
                ));
            }
        }
        none
    }

    /// The operations of the set, in the order of their declaration.
    pub fn to_vec(&self) -> (ops: Vec<Operation>)
        ensures
            ops@ == listed(self@),
    {
        let mut ops: Vec<Operation> = Vec::new();
        if self.list {
            ops.push(Operation::ListObjects);
        }
        if self.read {
            ops.push(Operation::ReadObjectContents);
        }
        if self.write {
            ops.push(Operation::WriteObject);
        }
        if self.update_metadata {
            ops.push(Operation::UpdateObjectMetadata);
        }
        if self.get_metadata {
            ops.push(Operation::GetObjectMetadata);
        }
        if self.delete {
            ops.push(Operation::DeleteObject);
        }
        assert(ops@ =~= listed(self@));
        ops
    }
}

/// The operation alone if the set holds it, else nothing.
pub open spec fn listed_if(ops: Set<Operation>, op: Operation) -> Seq<Operation> {
    if ops.contains(op) {
        seq![op]
    } else {
        Seq::empty()
    }
}

/// The operations of a set as a list, in the order in which [`Operation`]
/// declares them.
pub open spec fn listed(ops: Set<Operation>) -> Seq<Operation> {
    listed_if(ops, Operation::ListObjects) + listed_if(ops, Operation::ReadObjectContents) + listed_if(
        ops,
        Operation::WriteObject,
    ) + listed_if(ops, Operation::UpdateObjectMetadata) + listed_if(ops, Operation::GetObjectMetadata)
        + listed_if(ops, Operation::DeleteObject)
}

/// The place of an operation in the order of declaration.
pub open spec fn rank(op: Operation) -> int {
    match op {
        Operation::ListObjects => 0,
        Operation::ReadObjectContents => 1,
        Operation::WriteObject => 2,
        Operation::UpdateObjectMetadata => 3,
        Operation::GetObjectMetadata => 4,
        Operation::DeleteObject => 5,
    }
}

/// The place of an operation in the list of a set that holds it.
pub open spec fn position(ops: Set<Operation>, op: Operation) -> int {
    let a = listed_if(ops, Operation::ListObjects).len() as int;
    let b = a + listed_if(ops, Operation::ReadObjectContents).len();
    let c = b + listed_if(ops, Operation::WriteObject).len();
    let d = c + listed_if(ops, Operation::UpdateObjectMetadata).len();
    let e = d + listed_if(ops, Operation::GetObjectMetadata).len();
    match op {
        Operation::ListObjects => 0,
        Operation::ReadObjectContents => a,
        Operation::WriteObject => b,
        Operation::UpdateObjectMetadata => c,
        Operation::GetObjectMetadata => d,
        Operation::DeleteObject => e,
    }
}

/// A set of operations is listed without repetition, and the list holds
/// the operations of the set and no others.
pub proof fn lemma_listed(ops: Set<Operation>)
    ensures
        listed(ops).no_duplicates(),
        forall|op: Operation| listed(ops).contains(op) <==> ops.contains(op),
{
    let l = listed(ops);
    let a = listed_if(ops, Operation::ListObjects);
    let b = listed_if(ops, Operation::ReadObjectContents);
    let c = listed_if(ops, Operation::WriteObject);
    let d = listed_if(ops, Operation::UpdateObjectMetadata);
    let e = listed_if(ops, Operation::GetObjectMetadata);
    let f = listed_if(ops, Operation::DeleteObject);
    assert(l == a + b + c + d + e + f);
    assert forall|i: int| 0 <= i < l.len() implies rank(#[trigger] l[i]) >= i && ops.contains(l[i]) by {}
    assert forall|i: int, j: int| 0 <= i < j < l.len() implies rank(l[i]) < rank(l[j]) by {}
    assert forall|op: Operation| ops.contains(op) implies listed(ops).contains(op) by {
        let i = position(ops, op);
        assert(l[i] == op);
    }
}

} // verus!
