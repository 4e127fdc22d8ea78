//! Type-erased containers: a value behind a uniform interface, with the
//! runtime identity of its type kept so that the value can be recovered.
//!
//! A container made from a tagged value holds that value under the identity
//! and the name that the registry gives to its kind. A container of a type
//! that the registry does not know holds only the identity and the name.

use vstd::prelude::*;
use vstd::string::*;
use std::sync::Arc;
use crate::descriptor::TypeIdentity;
use crate::registry::{lemma_identity_round_trip, ValueKind};
use crate::text::{debug_quote, debug_text};
use crate::value::{TaggedValue, ValueModel};

verus! {

/// The model of an [`ErasedValue`].
pub struct ErasedModel {
    /// The runtime identity of the type of what is held.
    pub identity: TypeIdentity,
    /// The name of that type.
    pub name: Seq<char>,
    /// The value held, where its type is one of the registry.
    pub content: Option<ValueModel>,
}

/// The message of the error of recovering a value of a type that matches no
/// kind: it names the type, written as the standard library writes a string
/// for debugging.
pub open spec fn mismatch_text(name: Seq<char>) -> Seq<char> {
    "Cannot convert "@ + debug_text(name) + " to TaggedValue"@
}

impl ErasedModel {
    /// The container that erasing `value` makes.
    pub open spec fn of(value: ValueModel) -> ErasedModel {
        ErasedModel {
            identity: value.kind().identity_of(),
            name: value.kind().name(),
            content: Some(value),
        }
    }

    /// The container of a type that the registry does not know.
    pub open spec fn foreign(identity: TypeIdentity, name: Seq<char>) -> ErasedModel {
        ErasedModel { identity, name, content: None }
    }

    /// A container holds a value exactly when its identity is that of a kind
    /// of the registry, and then the value is of that kind and the name is
    /// the kind's.
    pub open spec fn well_formed(self) -> bool {
        match self.content {
            Some(value) => self.identity == value.kind().identity_of() && self.name
                == value.kind().name(),
            None => ValueKind::of_identity(self.identity) is None,
        }
    }

    /// The kind that the identity of the container matches, among the kinds
    /// that can be recovered.
    pub open spec fn matched_kind(self) -> Option<ValueKind> {
        match ValueKind::of_identity(self.identity) {
            Some(kind) => if kind.recoverable() {
                Some(kind)
            } else {
                None
            },
            None => None,
        }
    }

    /// What recovering a value from the container gives: the value held,
    /// where the identity matches a kind that can be recovered, and else the
    /// error that names the type.
    pub open spec fn recover(self) -> Result<ValueModel, Seq<char>> {
        match (self.matched_kind(), self.content) {
            (Some(_), Some(value)) => Ok(value),
            _ => Err(mismatch_text(self.name)),
        }
    }
}

/// A type-erased container.
#[derive(Debug, PartialEq, Eq)]
pub struct ErasedValue {
    identity: TypeIdentity,
    name: String,
    content: Option<TaggedValue>,
}

impl View for ErasedValue {
    type V = ErasedModel;

    closed spec fn view(&self) -> ErasedModel {
        ErasedModel {
            identity: self.identity,
            name: self.name@,
            content: match self.content {
                Some(value) => Some(value@),
                None => None,
            },
        }
    }
}

/// The text of an erasure mismatch for a type of the given name.
pub fn mismatch_message(name: &str) -> (r: String)
    ensures
        r@ == mismatch_text(name@),
{
    let mut message = String::from_str("Cannot convert ");
    let quoted = debug_quote(name);
    message.append(quoted.as_str());
    message.append(" to TaggedValue");
    assert(message@ =~= mismatch_text(name@));
    message
}

impl ErasedValue {
    #[verifier::type_invariant]
    pub closed spec fn holds_what_it_names(self) -> bool {
        self@.well_formed()
    }

    /// The container of a value of a type that the registry does not know.
    /// There is none for an identity that belongs to a kind of the registry.
    pub fn foreign(identity: TypeIdentity, name: &str) -> (r: Option<ErasedValue>)
        ensures
            match r {
                Some(erased) => erased@ == ErasedModel::foreign(identity, name@),
                None => true,
            },
            r is Some <==> ValueKind::of_identity(identity) is None,
    {
        match ValueKind::with_identity(identity) {
            Some(_) => None,
            None => Some(ErasedValue { identity, name: String::from_str(name), content: None }),
        }
    }

    /// The runtime identity of the type of what is held.
    pub fn identity(&self) -> (r: TypeIdentity)
        ensures
            r == self@.identity,
            self@.well_formed(),
    {
        proof {
            use_type_invariant(self);
        }
        self.identity
    }

    /// The name of the type of what is held.
    pub fn name(&self) -> (r: &str)
        ensures
            r@ == self@.name,
    {
        self.name.as_str()
    }

    /// Whether the container holds a value of a kind that can be recovered.
    pub fn is_recoverable(&self) -> (r: bool)
        ensures
            r == self@.recover() is Ok,
    {
        proof {
            use_type_invariant(self);
        }
        match ValueKind::with_identity(self.identity) {
            Some(kind) => kind.is_recoverable(),
            None => false,
        }
    }
}

impl TaggedValue {
    /// Erases the value: the container holds it under the identity and the
    /// name of its type. This always succeeds.
    pub fn to_dynany(self) -> (r: ErasedValue)
        ensures
            r@ == ErasedModel::of(self@),
    {
        let kind = self.kind();
        ErasedValue {
            identity: kind.identity(),
            name: String::from_str(kind.name_text()),
            content: Some(self),
        }
    }

    /// Erases the value into a container that many holders can share. This
    /// always succeeds.
    pub fn to_any(self) -> (r: Arc<ErasedValue>)
        ensures
            (*r)@ == ErasedModel::of(self@),
    {
        Arc::new(self.to_dynany())
    }

    /// Recovers the value from a container, which is used up. The identity of
    /// the container is matched against the kinds in the order of the
    /// registry. Where it matches none that can be recovered, the error names
    /// the type of what the container holds.
    pub fn try_from_any(input: ErasedValue) -> (r: Result<TaggedValue, String>)
        ensures
            match (r, input@.recover()) {
                (Ok(value), Ok(model)) => value@ == model,
                (Err(message), Err(text)) => message@ == text,
                _ => false,
            },
    {
        proof {
            use_type_invariant(&input);
        }
        let matched = match ValueKind::with_identity(input.identity) {
            Some(kind) => kind.is_recoverable(),
            None => false,
        };
        if matched {
            match input.content {
                Some(value) => Ok(value),
                None => Err(mismatch_message(input.name.as_str())),
            }
        } else {
            Err(mismatch_message(input.name.as_str()))
        }
    }

    /// Recovers a copy of the value from a container that is only borrowed.
    /// It matches and fails as [`TaggedValue::try_from_any`] does.
    pub fn try_from_std_any_ref(input: &ErasedValue) -> (r: Result<TaggedValue, String>)
        ensures
            match (r, input@.recover()) {
                (Ok(value), Ok(model)) => value@ == model,
                (Err(message), Err(text)) => message@ == text,
                _ => false,
            },
    {
        proof {
            use_type_invariant(input);
        }
        let matched = match ValueKind::with_identity(input.identity) {
            Some(kind) => kind.is_recoverable(),
            None => false,
        };
        if matched {
            match &input.content {
                Some(value) => Ok(value.clone()),
                None => Err(mismatch_message(input.name.as_str())),
            }
        } else {
            Err(mismatch_message(input.name.as_str()))
        }
    }
}

/// Erasing a value makes a well-formed container.
pub proof fn lemma_erased_is_well_formed(value: ValueModel)
    ensures
        ErasedModel::of(value).well_formed(),
{
}

/// Round trip: erasing a value and recovering it gives the value again, for
/// every kind that can be recovered, on the owned path and on the borrowed
/// one, which recover the same.
pub proof fn lemma_erase_then_recover(value: ValueModel)
    requires
        value.kind().recoverable(),
    ensures
        ErasedModel::of(value).recover() == Ok::<ValueModel, Seq<char>>(value),
{
    lemma_identity_round_trip(value.kind());
}

/// The handle of the execution environment can be erased but not recovered:
/// recovery fails and names its type.
pub proof fn lemma_environment_is_not_recovered(value: ValueModel)
    requires
        !value.kind().recoverable(),
    ensures
        ErasedModel::of(value).recover() == Err::<ValueModel, Seq<char>>(
            mismatch_text(value.kind().name()),
        ),
{
    lemma_identity_round_trip(value.kind());
}

/// Erasure mismatch: recovering from a container of a type that the registry
/// does not know fails with the error that names that type.
pub proof fn lemma_foreign_is_not_recovered(erased: ErasedModel)
    requires
        erased.well_formed(),
        ValueKind::of_identity(erased.identity) is None,
    ensures
        erased.recover() == Err::<ValueModel, Seq<char>>(mismatch_text(erased.name)),
{
}

/// Recovery succeeds exactly on the containers that hold a value of a kind
/// that can be recovered, and then gives what is held.
pub proof fn lemma_recover_gives_what_is_held(erased: ErasedModel)
    requires
        erased.well_formed(),
    ensures
        erased.recover() is Ok <==> (erased.content is Some
            && erased.content.unwrap().kind().recoverable()),
        erased.recover() matches Ok(value) ==> erased.content == Some(value),
{
    match erased.content {
        Some(value) => {
            lemma_identity_round_trip(value.kind());
        },
        None => {},
    }
}

} // verus!
