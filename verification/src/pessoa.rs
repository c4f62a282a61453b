//! Person records: their wire form, the rules a request must meet, and the
//! creation of a record from a request.

use crate::date::date_of_text;
use crate::date::date_text;
use crate::date::Date;
use crate::date::Ymd;
use crate::error::CreateError;
use crate::error::Field;
use crate::ident::id_of_text;
use crate::ident::id_text;
use crate::ident::is_random_id;
use crate::ident::Id;
use validator::ValidateLength;
use vstd::prelude::*;

verus! {

/// The least number of characters in a name and in a nickname.
pub const MIN_LEN: u64 = 1;

/// The greatest number of characters in a name.
pub const NOME_MAX_LEN: u64 = 100;

/// The greatest number of characters in a nickname.
pub const APELIDO_MAX_LEN: u64 = 32;

/// A person record.
#[derive(Clone, Debug, PartialEq, Eq)]
pub struct Pessoa {
    pub id: Option<Id>,
    pub nome: String,
    pub apelido: String,
    pub nascimento: Date,
    pub stack: Option<Vec<String>>,
}

/// A person record as it goes over the wire: the identifier and the birth
/// date are still text.
#[derive(Clone, Debug, PartialEq, Eq)]
pub struct Payload {
    pub id: Option<String>,
    pub nome: String,
    pub apelido: String,
    pub nascimento: String,
    pub stack: Option<Vec<String>>,
}

/// What a [`Pessoa`] stands for.
pub struct PessoaView {
    pub id: Option<u128>,
    pub nome: Seq<char>,
    pub apelido: Seq<char>,
    pub nascimento: Ymd,
    pub stack: Option<Seq<Seq<char>>>,
}

/// What a [`Payload`] stands for.
pub struct PayloadView {
    pub id: Option<Seq<char>>,
    pub nome: Seq<char>,
    pub apelido: Seq<char>,
    pub nascimento: Seq<char>,
    pub stack: Option<Seq<Seq<char>>>,
}

impl View for Pessoa {
    type V = PessoaView;

    open spec fn view(&self) -> PessoaView {
        PessoaView {
            id: match self.id {
                Some(id) => Some(id.bits),
                None => None,
            },
            nome: self.nome@,
            apelido: self.apelido@,
            nascimento: self.nascimento@,
            stack: self.stack.deep_view(),
        }
    }
}

impl View for Payload {
    type V = PayloadView;

    open spec fn view(&self) -> PayloadView {
        PayloadView {
            id: self.id.deep_view(),
            nome: self.nome@,
            apelido: self.apelido@,
            nascimento: self.nascimento@,
            stack: self.stack.deep_view(),
        }
    }
}

/// The three states of the optional list of technologies.
#[derive(Clone, Copy, Debug, PartialEq, Eq, Structural)]
pub enum StackState {
    /// The field is not there.
    Absent,
    /// The field is there and holds no entry.
    Empty,
    /// The field is there and holds at least one entry.
    Populated,
}

/// The state of a list of technologies.
pub open spec fn stack_state(stack: Option<Seq<Seq<char>>>) -> StackState {
    match stack {
        None => StackState::Absent,
        Some(entries) => if entries.len() == 0 {
            StackState::Empty
        } else {
            StackState::Populated
        },
    }
}

/// Whether the number of characters of `text` lies between `min` and `max`.
pub open spec fn length_within(text: Seq<char>, min: int, max: int) -> bool {
    min <= text.len() <= max
}

impl PessoaView {
    /// The birth date is an existing day.
    pub open spec fn wf(self) -> bool {
        self.nascimento.wf()
    }

    /// Whether the name meets its length bounds.
    pub open spec fn nome_ok(self) -> bool {
        length_within(self.nome, MIN_LEN as int, NOME_MAX_LEN as int)
    }

    /// Whether the nickname meets its length bounds.
    pub open spec fn apelido_ok(self) -> bool {
        length_within(self.apelido, MIN_LEN as int, APELIDO_MAX_LEN as int)
    }

    /// The record meets the field rules.
    pub open spec fn valid(self) -> bool {
        self.nome_ok() && self.apelido_ok()
    }

    /// The same record under the identifier `bits`.
    pub open spec fn with_id(self, bits: u128) -> PessoaView {
        PessoaView { id: Some(bits), ..self }
    }
}

/// The record that a payload writes, or the field that keeps it from writing
/// one. The birth date is looked at first, then the identifier.
pub open spec fn decoded(w: PayloadView) -> Result<PessoaView, CreateError> {
    if date_of_text(w.nascimento) is None {
        Err(CreateError::MalformedRequest { field: Field::Nascimento })
    } else if w.id is Some && id_of_text(w.id.unwrap()) is None {
        Err(CreateError::MalformedRequest { field: Field::Id })
    } else {
        Ok(
            PessoaView {
                id: match w.id {
                    Some(text) => id_of_text(text),
                    None => None,
                },
                nome: w.nome,
                apelido: w.apelido,
                nascimento: date_of_text(w.nascimento).unwrap(),
                stack: w.stack,
            },
        )
    }
}

/// The outcome of the field rules on a record: nothing to report, or the
/// fields at fault.
pub open spec fn checked(r: PessoaView) -> Result<(), CreateError> {
    if r.valid() {
        Ok(())
    } else {
        Err(CreateError::ValidationFailed { nome: !r.nome_ok(), apelido: !r.apelido_ok() })
    }
}

/// The record that a payload is accepted as, before it gets its identifier:
/// the payload writes a record, and the record meets the field rules.
pub open spec fn accepted(w: PayloadView) -> Result<PessoaView, CreateError> {
    match decoded(w) {
        Err(e) => Err(e),
        Ok(r) => match checked(r) {
            Err(e) => Err(e),
            Ok(_) => Ok(r),
        },
    }
}

/// The payload that writes a record.
pub open spec fn encoded(r: PessoaView) -> PayloadView {
    PayloadView {
        id: match r.id {
            Some(bits) => Some(id_text(bits)),
            None => None,
        },
        nome: r.nome,
        apelido: r.apelido,
        nascimento: date_text(r.nascimento),
        stack: r.stack,
    }
}

/// `ValidateLength::validate_length` of the validator crate on a text, with
/// both bounds given and no exact length. The contract claims what the
/// crate's source shows: it counts the characters of the text and says whether
/// the count lies between the bounds, both included.
#[verifier::external_body]
fn validate_length(text: &str, min: u64, max: u64) -> (ok: bool)
    ensures
        ok == length_within(text@, min as int, max as int),
{
    text.validate_length(Some(min), Some(max), None)
}

/// A copy of each text of a list, in the same order.
fn copy_texts(texts: &Vec<String>) -> (copy: Vec<String>)
    ensures
        copy.deep_view() == texts.deep_view(),
{
    let mut copy: Vec<String> = Vec::new();
    let mut i: usize = 0;
    while i < texts.len()
        invariant
            i <= texts.len(),
            copy.len() == i,
            forall|j: int| 0 <= j < i ==> copy[j]@ == texts[j]@,
        decreases texts.len() - i,
    {
        copy.push(texts[i].clone());
        i += 1;
    }
    assert(copy.deep_view() =~= texts.deep_view());
    copy
}

/// A copy of an optional list of texts: absent stays absent, and a list that
/// is there keeps its entries and their order.
fn copy_stack(stack: &Option<Vec<String>>) -> (copy: Option<Vec<String>>)
    ensures
        copy.deep_view() == stack.deep_view(),
{
    match stack {
        Some(texts) => Some(copy_texts(texts)),
        None => None,
    }
}

/// Writing a record and reading it back gives the record: every field
/// survives, the three states of the list of technologies included. The law
/// holds of a record without an identifier, and of one whose identifier the
/// reader takes back from its canonical text, which [`Id::to_text`] states of
/// every identifier it renders.
pub proof fn lemma_written_record_reads_back(r: PessoaView)
    requires
        r.wf(),
        r.id is Some ==> id_of_text(id_text(r.id.unwrap())) == Some(r.id.unwrap()),
    ensures
        decoded(encoded(r)) == Ok::<PessoaView, CreateError>(r),
        r.valid() ==> accepted(encoded(r)) == Ok::<PessoaView, CreateError>(r),
{
    crate::date::lemma_date_text_reads_back(r.nascimento);
}

/// Whether the list of technologies is absent, empty or populated is the same
/// in a record, in the payload that writes it, and in every record that a
/// payload is read as.
pub proof fn lemma_stack_state_survives(r: PessoaView, w: PayloadView)
    ensures
        stack_state(encoded(r).stack) == stack_state(r.stack),
        encoded(r).stack == r.stack,
        decoded(w) is Ok ==> decoded(w).unwrap().stack == w.stack,
        accepted(w) is Ok ==> stack_state(accepted(w).unwrap().stack) == stack_state(w.stack),
{
}

/// A request is turned down for its shape before its lengths are looked at,
/// and a record is accepted only whole: what is accepted meets every rule.
pub proof fn lemma_accepted_is_valid(w: PayloadView)
    ensures
        accepted(w) is Ok ==> accepted(w).unwrap().valid() && accepted(w).unwrap().wf(),
        decoded(w) is Err ==> accepted(w) == decoded(w),
{
}

impl Pessoa {
    /// Reads a record from its wire form. The birth date must be written as
    /// `YYYY-MM-DD` and name an existing day, and an identifier that is there
    /// must be one; the lengths are not looked at.
    pub fn deserialize(payload: &Payload) -> (r: Result<Pessoa, CreateError>)
        ensures
            match r {
                Ok(p) => decoded(payload@) == Ok::<PessoaView, CreateError>(p@),
                Err(e) => decoded(payload@) == Err::<PessoaView, CreateError>(e),
            },
    {
        let nascimento = match Date::parse(payload.nascimento.as_str()) {
            Some(date) => date,
            None => {
                return Err(CreateError::MalformedRequest { field: Field::Nascimento });
            },
        };
        let id = match &payload.id {
            Some(text) => match Id::parse(text.as_str()) {
                Some(id) => Some(id),
                None => {
                    return Err(CreateError::MalformedRequest { field: Field::Id });
                },
            },
            None => None,
        };
        Ok(
            Pessoa {
                id,
                nome: payload.nome.clone(),
                apelido: payload.apelido.clone(),
                nascimento,
                stack: copy_stack(&payload.stack),
            },
        )
    }

    /// Writes the record in its wire form. Reading the result gives the
    /// record back.
    pub fn serialize(&self) -> (payload: Payload)
        ensures
            payload@ == encoded(self@),
            decoded(payload@) == Ok::<PessoaView, CreateError>(self@),
    {
        let id = match &self.id {
            Some(id) => Some(id.to_text()),
            None => None,
        };
        let nascimento = self.nascimento.to_text();
        proof {
            lemma_written_record_reads_back(self@);
        }
        Payload {
            id,
            nome: self.nome.clone(),
            apelido: self.apelido.clone(),
            nascimento,
            stack: copy_stack(&self.stack),
        }
    }

    /// Holds the record to the field rules: a name of 1 to 100 characters and
    /// a nickname of 1 to 32. The error names every field at fault.
    pub fn validate(&self) -> (r: Result<(), CreateError>)
        ensures
            r == checked(self@),
            r is Ok <==> self@.valid(),
    {
        let nome_ok = validate_length(self.nome.as_str(), MIN_LEN, NOME_MAX_LEN);
        let apelido_ok = validate_length(self.apelido.as_str(), MIN_LEN, APELIDO_MAX_LEN);
        if nome_ok && apelido_ok {
            Ok(())
        } else {
            Err(CreateError::ValidationFailed { nome: !nome_ok, apelido: !apelido_ok })
        }
    }

    /// A copy of the record under the identifier `id`. Every other field is
    /// copied as it stands; an identifier that the record held is dropped.
    pub fn with_id(&self, id: Id) -> (out: Pessoa)
        ensures
            out@ == self@.with_id(id.bits),
    {
        Pessoa {
            id: Some(id),
            nome: self.nome.clone(),
            apelido: self.apelido.clone(),
            nascimento: self.nascimento,
            stack: copy_stack(&self.stack),
        }
    }

    /// Whether the list of technologies is absent, empty or populated.
    pub fn stack_state(&self) -> (state: StackState)
        ensures
            state == stack_state(self@.stack),
    {
        match &self.stack {
            None => StackState::Absent,
            Some(entries) => if entries.len() == 0 {
                StackState::Empty
            } else {
                StackState::Populated
            },
        }
    }
}

/// Answers a creation request whose record was read and found valid: the
/// stored representation is the record under a fresh random identifier.
/// An identifier that came with the request is not looked at.
pub fn pessoas(json: &Pessoa) -> (out: Pessoa)
    ensures
        out@.id is Some,
        is_random_id(out@.id.unwrap()),
        out@ == json@.with_id(out@.id.unwrap()),
        json@.valid() ==> out@.valid(),
{
    json.with_id(Id::generate())
}

/// Reads a request from its wire form and holds it to the field rules,
/// without giving it an identifier. The shape is looked at first: a request
/// whose birth date or identifier is not one is reported as malformed,
/// whatever its lengths.
pub fn accept(payload: &Payload) -> (r: Result<Pessoa, CreateError>)
    ensures
        match r {
            Ok(p) => accepted(payload@) == Ok::<PessoaView, CreateError>(p@),
            Err(e) => accepted(payload@) == Err::<PessoaView, CreateError>(e),
        },
{
    let record = match Pessoa::deserialize(payload) {
        Ok(record) => record,
        Err(e) => {
            return Err(e);
        },
    };
    match record.validate() {
        Ok(_) => Ok(record),
        Err(e) => Err(e),
    }
}

/// Handles a creation request from its wire form to the stored
/// representation: reads the record, holds it to the field rules, and gives it
/// a fresh random identifier.
///
/// The request is accepted exactly when its birth date is a `YYYY-MM-DD` text
/// of an existing day, its identifier is absent or written as one, its name
/// has 1 to 100 characters and its nickname 1 to 32. A request that fails on
/// its shape is reported as malformed, whatever its lengths.
pub fn create(payload: &Payload) -> (r: Result<Pessoa, CreateError>)
    ensures
        match r {
            Ok(p) => {
                &&& accepted(payload@) is Ok
                &&& p@.id is Some
                &&& is_random_id(p@.id.unwrap())
                &&& p@ == accepted(payload@).unwrap().with_id(p@.id.unwrap())
                &&& p@.valid()
            },
            Err(e) => accepted(payload@) == Err::<PessoaView, CreateError>(e),
        },
        r is Ok <==> {
            &&& date_of_text(payload@.nascimento) is Some
            &&& payload@.id is Some ==> id_of_text(payload@.id.unwrap()) is Some
            &&& length_within(payload@.nome, 1, 100)
            &&& length_within(payload@.apelido, 1, 32)
        },
        r is Ok ==> {
            &&& r.unwrap()@.nome == payload@.nome
            &&& r.unwrap()@.apelido == payload@.apelido
            &&& Some(r.unwrap()@.nascimento) == date_of_text(payload@.nascimento)
            &&& r.unwrap()@.stack == payload@.stack
        },
        date_of_text(payload@.nascimento) is None ==> r == Err::<Pessoa, CreateError>(
            CreateError::MalformedRequest { field: Field::Nascimento },
        ),
        decoded(payload@) is Ok && !length_within(payload@.nome, 1, 100) ==> r is Err
            && r.unwrap_err() is ValidationFailed && r.unwrap_err()->nome,
        decoded(payload@) is Ok && !length_within(payload@.apelido, 1, 32) ==> r is Err
            && r.unwrap_err() is ValidationFailed && r.unwrap_err()->apelido,
{
    match accept(payload) {
        Ok(record) => Ok(pessoas(&record)),
        Err(e) => Err(e),
    }
}

} // verus!
