//! Small records that mix public fields with private ones reached through
//! methods.
use vstd::prelude::*;

verus! {

/// A record of one number.
#[derive(Clone, Copy, Debug, PartialEq, Eq, Structural)]
pub struct ExampleStruct {
    /// The number held.
    pub value: i32,
}

impl ExampleStruct {
    /// A record holding `value`.
    pub fn new(value: i32) -> (r: ExampleStruct)
        ensures
            r.value == value,
    {
        ExampleStruct { value }
    }
}

/// A record with a public id and name and private internal data.
#[derive(Debug)]
pub struct PrivateStructPublicFields {
    pub id: u32,
    pub name: String,
    internal_data: String,
}

/// What a `PrivateStructPublicFields` holds.
pub struct TaggedRecordModel {
    pub id: u32,
    pub name: Seq<char>,
    pub internal_data: Seq<char>,
}

impl View for PrivateStructPublicFields {
    type V = TaggedRecordModel;

    closed spec fn view(&self) -> TaggedRecordModel {
        TaggedRecordModel { id: self.id, name: self.name@, internal_data: self.internal_data@ }
    }
}

impl PrivateStructPublicFields {

    /// A record of the three given values.
    pub fn new(id: u32, name: String, internal_data: String) -> (r: PrivateStructPublicFields)
        ensures
            r@ == (TaggedRecordModel { id, name: name@, internal_data: internal_data@ }),
    {
        PrivateStructPublicFields { id, name, internal_data }
    }

    /// The internal data.
    pub fn get_internal_data(&self) -> (r: &str)
        ensures
            r@ == self@.internal_data,
    {
        self.internal_data.as_str()
    }
}

/// A record that holds a secret, which only its methods can reach.
#[derive(Debug)]
pub struct PrivateData {
    secret: String,
}

impl PrivateData {
    /// The secret held.
    pub closed spec fn secret_view(&self) -> Seq<char> {
        self.secret@
    }

    /// A record holding `secret`.
    pub fn new(secret: String) -> (r: PrivateData)
        ensures
            r.secret_view() == secret@,
    {
        PrivateData { secret }
    }

    /// The secret.
    pub fn reveal_secret(&self) -> (r: &str)
        ensures
            r@ == self.secret_view(),
    {
        self.secret.as_str()
    }
}

} // verus!
