//! Type descriptors: what is known of the shape of a value before the value
//! is there.

use vstd::prelude::*;
use vstd::string::*;

verus! {

/// The runtime identity of a type: an opaque key that tells one type from
/// another.
#[derive(Clone, Copy, Debug, PartialEq, Eq, Structural)]
pub struct TypeIdentity {
    pub key: u64,
}

/// A concrete type: its identity, where it has one, and a name for people to
/// read.
#[derive(Debug, PartialEq, Eq)]
pub struct TypeDescriptor {
    pub id: Option<TypeIdentity>,
    pub name: String,
}

/// The model of a [`TypeDescriptor`].
pub struct TypeDescriptorModel {
    pub id: Option<TypeIdentity>,
    pub name: Seq<char>,
}

impl View for TypeDescriptor {
    type V = TypeDescriptorModel;

    open spec fn view(&self) -> TypeDescriptorModel {
        TypeDescriptorModel { id: self.id, name: self.name@ }
    }
}

impl Clone for TypeDescriptor {
    fn clone(&self) -> (r: TypeDescriptor)
        ensures
            r@ == self@,
    {
        TypeDescriptor { id: self.id, name: self.name.clone() }
    }
}

/// The description of the shape of a value.
#[derive(Debug, PartialEq, Eq)]
pub enum Type {
    /// A placeholder that is not bound to a type yet. It has no identity.
    Generic(String),
    /// A concrete type.
    Concrete(TypeDescriptor),
    /// A function, described by what it returns.
    Fn(Box<Type>),
    /// A value that arrives later, described by what arrives.
    Future(Box<Type>),
}

/// The model of a [`Type`].
pub enum TypeModel {
    Generic(Seq<char>),
    Concrete(TypeDescriptorModel),
    Fn(Box<TypeModel>),
    Future(Box<TypeModel>),
}

impl View for Type {
    type V = TypeModel;

    open spec fn view(&self) -> TypeModel
        decreases self,
    {
        match self {
            Type::Generic(name) => TypeModel::Generic(name@),
            Type::Concrete(descriptor) => TypeModel::Concrete(descriptor@),
            Type::Fn(output) => TypeModel::Fn(Box::new((**output)@)),
            Type::Future(inner) => TypeModel::Future(Box::new((**inner)@)),
        }
    }
}

impl TypeModel {
    /// The description found below every function and deferred wrapper: a
    /// placeholder or a concrete type.
    pub open spec fn innermost(self) -> TypeModel
        decreases self,
    {
        match self {
            TypeModel::Fn(output) => output.innermost(),
            TypeModel::Future(inner) => inner.innermost(),
            _ => self,
        }
    }

    /// The identity of the innermost description, where it is a concrete type
    /// that has one.
    pub open spec fn identity(self) -> Option<TypeIdentity> {
        match self.innermost() {
            TypeModel::Concrete(descriptor) => descriptor.id,
            _ => None,
        }
    }

    /// The concrete type with the given identity and name.
    pub open spec fn concrete(id: TypeIdentity, name: Seq<char>) -> TypeModel {
        TypeModel::Concrete(TypeDescriptorModel { id: Some(id), name })
    }
}

impl Type {
    /// The concrete type with the given identity and name.
    pub fn concrete(id: TypeIdentity, name: &str) -> (r: Type)
        ensures
            r@ == TypeModel::concrete(id, name@),
    {
        Type::Concrete(TypeDescriptor { id: Some(id), name: String::from_str(name) })
    }

    /// The description found below every function and deferred wrapper.
    pub fn innermost(&self) -> (r: &Type)
        ensures
            r@ == self@.innermost(),
            !(r@ is Fn),
            !(r@ is Future),
        decreases self,
    {
        match self {
            Type::Fn(output) => output.innermost(),
            Type::Future(inner) => inner.innermost(),
            _ => self,
        }
    }

    /// The identity of the innermost description, where it is a concrete type
    /// that has one.
    pub fn identity(&self) -> (r: Option<TypeIdentity>)
        ensures
            r == self@.identity(),
    {
        match self.innermost() {
            Type::Concrete(descriptor) => descriptor.id,
            _ => None,
        }
    }
}

impl Clone for Type {
    fn clone(&self) -> (r: Type)
        ensures
            r@ == self@,
        decreases self,
    {
        match self {
            Type::Generic(name) => Type::Generic(name.clone()),
            Type::Concrete(descriptor) => Type::Concrete(descriptor.clone()),
            Type::Fn(output) => Type::Fn(Box::new((**output).clone())),
            Type::Future(inner) => Type::Future(Box::new((**inner).clone())),
        }
    }
}

/// Resolving a description never ends at a wrapper, and resolving twice is
/// resolving once.
pub proof fn lemma_innermost_is_resolved(t: TypeModel)
    ensures
        !(t.innermost() is Fn),
        !(t.innermost() is Future),
        t.innermost().innermost() == t.innermost(),
        TypeModel::Fn(Box::new(t)).innermost() == t.innermost(),
        TypeModel::Future(Box::new(t)).innermost() == t.innermost(),
    decreases t,
{
    match t {
        TypeModel::Fn(output) => lemma_innermost_is_resolved(*output),
        TypeModel::Future(inner) => lemma_innermost_is_resolved(*inner),
        _ => {},
    }
}

} // verus!
