//! Container resolution: how a command type's `next` binding is derived
//! from the shape of its declaration.
//!
//! Every command node type gets its successor binding from its structure
//! alone: a record with exactly one field marked as the subcommand field
//! becomes a composite whose successor is that field; a record with no
//! marked field is a leaf; a closed choice type whose alternatives each
//! wrap exactly one payload becomes a selector.  Any other shape — more
//! than one marked field, a marked field that is not itself executable, an
//! open-ended choice, an alternative that does not wrap exactly one
//! payload — is rejected outright rather than being silently resolved, so
//! that no working program can be produced from it.

use vstd::prelude::*;

verus! {

/// One declared field of a record: whether it carries the subcommand
/// marker, and whether its type itself satisfies the executable-unit
/// capability set.
#[derive(Debug, Clone, Copy, PartialEq, Eq, Structural)]
pub struct FieldShape {
    pub marked: bool,
    pub executable: bool,
}

/// The declared shape of a command type: a record of fields, or a choice
/// type whose alternatives each wrap some number of payloads and which is
/// either closed or open to future alternatives.
#[derive(Debug, Clone)]
pub enum TypeShape {
    /// A record of fields.
    Record { fields: Vec<FieldShape> },
    /// A choice type; each entry is the payload count of that alternative.
    Choice { payloads: Vec<u64>, closed: bool },
}

/// The successor binding derived for a command type.
#[derive(Debug, Clone, Copy, PartialEq, Eq, Structural)]
pub enum Binding {
    /// A composite: the successor is the field at this position.
    Child { field: usize },
    /// A leaf: there is no successor.
    Leaf,
    /// A selector: the successor is the payload of the populated
    /// alternative.
    Selector,
}

/// Why no binding can be derived for a shape.
#[derive(Debug, Clone, Copy, PartialEq, Eq, Structural)]
pub enum GenError {
    /// A record carries the subcommand marker on more than one field.
    MultipleMarkedFields,
    /// The marked subcommand field's type is not itself executable.
    ChildNotExecutable,
    /// A choice type is open to future alternatives, so no exhaustive
    /// selector can be derived.
    OpenChoice,
    /// An alternative does not wrap exactly one payload.
    BadAlternative,
}

impl GenError {
    /// The diagnostic a rejected shape is reported with.
    pub fn message(&self) -> (r: &'static str)
        ensures
            r@ == self.spec_message(),
    {
        match self {
            GenError::MultipleMarkedFields => "more than one subcommand field",
            GenError::ChildNotExecutable => "subcommand field is not executable",
            GenError::OpenChoice => "choice type is not closed",
            GenError::BadAlternative => "alternative must wrap exactly one payload",
        }
    }

    /// The diagnostic a rejected shape is reported with.
    pub open spec fn spec_message(&self) -> Seq<char> {
        match self {
            GenError::MultipleMarkedFields => "more than one subcommand field"@,
            GenError::ChildNotExecutable => "subcommand field is not executable"@,
            GenError::OpenChoice => "choice type is not closed"@,
            GenError::BadAlternative => "alternative must wrap exactly one payload"@,
        }
    }
}

/// The binding a record shape resolves to: exactly one marked, executable
/// field makes a composite whose successor is that field; no marked field
/// makes a leaf; two or more marked fields, or a marked field that is not
/// executable, are rejected.
pub open spec fn spec_resolve_record(fields: Seq<FieldShape>) -> Result<Binding, GenError> {
    if exists|i: int, j: int| 0 <= i < j < fields.len() && fields[i].marked && fields[j].marked {
        Err(GenError::MultipleMarkedFields)
    } else if exists|i: int| 0 <= i < fields.len() && fields[i].marked {
        let w = choose|i: usize| i < fields.len() && fields[i as int].marked;
        if fields[w as int].executable {
            Ok(Binding::Child { field: w })
        } else {
            Err(GenError::ChildNotExecutable)
        }
    } else {
        Ok(Binding::Leaf)
    }
}

/// The binding a choice shape resolves to: a closed choice whose
/// alternatives each wrap exactly one payload makes a selector; an open
/// choice or a malformed alternative is rejected.
pub open spec fn spec_resolve_choice(payloads: Seq<u64>, closed: bool) -> Result<
    Binding,
    GenError,
> {
    if !closed {
        Err(GenError::OpenChoice)
    } else if exists|i: int| 0 <= i < payloads.len() && payloads[i] != 1 {
        Err(GenError::BadAlternative)
    } else {
        Ok(Binding::Selector)
    }
}

/// Derive the successor binding of a declared shape, or reject it.
pub fn resolve(shape: &TypeShape) -> (r: Result<Binding, GenError>)
    ensures
        (match *shape {
            TypeShape::Record { fields } => r == spec_resolve_record(fields@),
            TypeShape::Choice { payloads, closed } => r == spec_resolve_choice(
                payloads@,
                closed,
            ),
        }),
{
    match shape {
        TypeShape::Record { fields } => {
            let n = fields.len();
            let mut first: Option<usize> = None;
            let mut dup: bool = false;
            for i in 0..n
                invariant
                    n == fields@.len(),
                    dup == exists|a: int, b: int|
                        0 <= a < b < i && fields@[a].marked && fields@[b].marked,
                    (match first {
                        Some(f) => {
                            &&& 0 <= f < i
                            &&& fields@[f as int].marked
                            &&& forall|j: int| 0 <= j < f ==> !fields@[j].marked
                        },
                        None => forall|j: int| 0 <= j < i ==> !fields@[j].marked,
                    }),
            {
                if fields[i].marked {
                    match first {
                        Some(f) => {
                            proof {
                                if !dup {
                                    assert(fields@[f as int].marked && fields@[i as int].marked
                                        && f < i);
                                }
                            }
                            dup = true;
                        },
                        None => {
                            first = Some(i);
                        },
                    }
                }
            }
            if dup {
                Err(GenError::MultipleMarkedFields)
            } else {
                match first {
                    Some(f) => {
                        proof {
                            assert(f < fields@.len() && fields@[f as int].marked);
                            assert(forall|j: int|
                                0 <= j < fields@.len() && j != f ==> !fields@[j].marked) by {
                                assert forall|j: int|
                                    0 <= j < fields@.len() && j != f implies !fields@[j].marked by {
                                    if j > f && fields@[j].marked {
                                        assert(fields@[f as int].marked && fields@[j].marked);
                                    }
                                }
                            }
                            let w = choose|i: usize| i < fields@.len() && fields@[i as int].marked;
                            assert(w < fields@.len() && fields@[w as int].marked);
                            assert(w == f);
                        }
                        if fields[f].executable {
                            Ok(Binding::Child { field: f })
                        } else {
                            Err(GenError::ChildNotExecutable)
                        }
                    },
                    None => Ok(Binding::Leaf),
                }
            }
        },
        TypeShape::Choice { payloads, closed } => {
            let n = payloads.len();
            let mut all_one: bool = true;
            for i in 0..n
                invariant
                    n == payloads@.len(),
                    all_one == forall|j: int| 0 <= j < i ==> payloads@[j] == 1,
            {
                if payloads[i] != 1 {
                    all_one = false;
                }
            }
            if !*closed {
                Err(GenError::OpenChoice)
            } else if !all_one {
                Err(GenError::BadAlternative)
            } else {
                Ok(Binding::Selector)
            }
        },
    }
}

} // verus!
