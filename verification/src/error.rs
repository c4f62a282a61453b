//! The ways in which a creation request is turned down.

use vstd::prelude::*;

verus! {

/// A field of a person record, by its name on the wire.
#[derive(Clone, Copy, Debug, PartialEq, Eq, Structural)]
pub enum Field {
    Id,
    Nome,
    Apelido,
    Nascimento,
}

/// Why a creation request was turned down.
#[derive(Clone, Copy, Debug, PartialEq, Eq, Structural)]
pub enum CreateError {
    /// The request does not have the shape of a person record: the named
    /// field does not write a value of its type.
    MalformedRequest { field: Field },
    /// The request has the shape of a person record, but the length of a
    /// text is out of bounds. Each flag says whether that field is at fault;
    /// at least one is.
    ValidationFailed { nome: bool, apelido: bool },
}

impl Field {
    /// The name of the field in a request body.
    pub fn name(&self) -> (s: &'static str)
        ensures
            s@ == match *self {
                Field::Id => "id"@,
                Field::Nome => "nome"@,
                Field::Apelido => "apelido"@,
                Field::Nascimento => "nascimento"@,
            },
    {
        match self {
            Field::Id => "id",
            Field::Nome => "nome",
            Field::Apelido => "apelido",
            Field::Nascimento => "nascimento",
        }
    }
}

impl CreateError {
    /// The fields at fault, in the order in which a record lists them.
    pub open spec fn fields_at_fault(self) -> Seq<Field> {
        match self {
            CreateError::MalformedRequest { field } => seq![field],
            CreateError::ValidationFailed { nome, apelido } => {
                let first = if nome {
                    seq![Field::Nome]
                } else {
                    Seq::empty()
                };
                if apelido {
                    first.push(Field::Apelido)
                } else {
                    first
                }
            },
        }
    }

    /// The fields at fault, in the order in which a record lists them.
    pub fn fields(&self) -> (list: Vec<Field>)
        ensures
            list@ == self.fields_at_fault(),
    {
        let mut list: Vec<Field> = Vec::new();
        match *self {
            CreateError::MalformedRequest { field } => {
                list.push(field);
            },
            CreateError::ValidationFailed { nome, apelido } => {
                if nome {
                    list.push(Field::Nome);
                }
                if apelido {
                    list.push(Field::Apelido);
                }
            },
        }
        assert(list@ =~= self.fields_at_fault());
        list
    }
}

} // verus!
