//! Types as the resolver knows them: a structural description that is made
//! elsewhere and only read here.
use vstd::prelude::*;
use crate::text::str_eq;

verus! {

/// A type without parts.
#[derive(Debug, Clone, Copy, PartialEq, Eq, Structural)]
pub enum Basic {
    Any,
    String,
    Boolean,
    Number,
    Object,
    Null,
    Undefined,
    Void,
    Never,
}

/// A declared object that a name refers to: its name, if it has one, and
/// its place in the [`TypeChecker`]'s table.
#[derive(Debug, Clone, PartialEq, Eq)]
pub struct Object {
    pub name: Option<String>,
    pub id: usize,
}

/// A reference to a declared type by its name.
#[derive(Debug, Clone, PartialEq, Eq)]
pub struct Named {
    pub obj: Object,
}

/// The shape of a class: the names of its methods.
#[derive(Debug, Clone, PartialEq, Eq)]
pub struct ClassType {
    pub methods: Vec<String>,
}

/// The intersection `x & y` of two types.
#[derive(Debug, PartialEq, Eq)]
pub struct Intersection {
    pub x: Box<Type>,
    pub y: Box<Type>,
}

/// A type that is built from other types.
#[derive(Debug, PartialEq, Eq)]
pub enum Generic {
    Intersection(Intersection),
}

/// A type.
#[derive(Debug, PartialEq, Eq)]
pub enum Type {
    Basic(Basic),
    Array(Box<Type>),
    Union(Vec<Type>),
    Named(Named),
    Class(ClassType),
    Generic(Generic),
}

/// An [`Object`] as mathematical values.
pub struct ObjectView {
    pub name: Option<Seq<char>>,
    pub id: usize,
}

impl DeepView for Object {
    type V = ObjectView;

    open spec fn deep_view(&self) -> ObjectView {
        ObjectView { name: self.name.deep_view(), id: self.id }
    }
}

/// What a type checker has found out about a program: for each declared
/// object, by its `id`, the type that it is defined as, and for each
/// identifier that is bound to a declared object the `id` of that object.
#[derive(Debug, PartialEq, Eq)]
pub struct TypeChecker {
    pub definitions: Vec<Type>,
    pub bindings: Vec<(String, usize)>,
}

/// The object that the first of the first `k` bindings of `name` binds it
/// to.
pub open spec fn bound_object(bindings: Seq<(String, usize)>, name: Seq<char>, k: int) -> Option<ObjectView>
    decreases k,
{
    if k <= 0 {
        None
    } else {
        match bound_object(bindings, name, k - 1) {
            Some(obj) => Some(obj),
            None => if bindings[k - 1].0@ == name {
                Some(ObjectView { name: Some(name), id: bindings[k - 1].1 })
            } else {
                None
            },
        }
    }
}

impl TypeChecker {
    /// The definition of a declared object, if the table knows the object.
    pub open spec fn definition(&self, obj: Object) -> Option<Type> {
        if obj.id < self.definitions@.len() {
            Some(self.definitions@[obj.id as int])
        } else {
            None
        }
    }

    /// The object that an identifier is bound to, if it is bound.
    pub open spec fn object_of(&self, name: Seq<char>) -> Option<ObjectView> {
        bound_object(self.bindings@, name, self.bindings@.len() as int)
    }

    /// Looks up the object that an identifier is bound to.
    pub fn resolve_obj(&self, name: &str) -> (obj: Option<Object>)
        ensures
            obj.deep_view() == self.object_of(name@),
    {
        let mut i: usize = 0;
        while i < self.bindings.len()
            invariant
                i <= self.bindings.len(),
                bound_object(self.bindings@, name@, i as int) is None,
            decreases self.bindings.len() - i,
        {
            if str_eq(self.bindings[i].0.as_str(), name) {
                let obj = Object { name: Some(name.to_owned()), id: self.bindings[i].1 };
                proof {
                    lemma_bound_object_stays(self.bindings@, name@, i + 1, self.bindings@.len() as int);
                }
                return Some(obj);
            }
            i += 1;
        }
        None
    }

    /// Looks up the definition of a declared object.
    pub fn resolve_obj_type(&self, obj: &Object) -> (underlying: Option<&Type>)
        ensures
            match underlying {
                Some(t) => self.definition(*obj) == Some(*t),
                None => self.definition(*obj) is None,
            },
    {
        if obj.id < self.definitions.len() {
            Some(&self.definitions[obj.id])
        } else {
            None
        }
    }
}

/// Once an identifier is found bound, later bindings do not change what
/// it is bound to.
pub proof fn lemma_bound_object_stays(bindings: Seq<(String, usize)>, name: Seq<char>, k: int, n: int)
    requires
        0 <= k <= n,
        bound_object(bindings, name, k) is Some,
    ensures
        bound_object(bindings, name, n) == bound_object(bindings, name, k),
    decreases n - k,
{
    if k < n {
        lemma_bound_object_stays(bindings, name, k, n - 1);
    }
}

} // verus!
