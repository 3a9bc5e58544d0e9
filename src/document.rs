use vstd::prelude::*;

verus! {

/// A row about to be written: its external identifier and its payload text.
#[derive(Clone, Debug)]
pub struct NewDocument {
    pub external_id: String,
    pub payload: String,
}

/// A stored row, as the backing store reports it.
#[derive(Clone, Debug)]
pub struct Document {
    pub internal_id: i64,
    pub external_id: String,
    pub payload: String,
}

/// The mathematical model of a stored row.
pub struct DocumentView {
    pub internal_id: int,
    pub external_id: Seq<char>,
    pub payload: Seq<char>,
}

impl View for Document {
    type V = DocumentView;

    open spec fn view(&self) -> DocumentView {
        DocumentView {
            internal_id: self.internal_id as int,
            external_id: self.external_id@,
            payload: self.payload@,
        }
    }
}

impl NewDocument {
    pub fn new(external_id: String, payload: String) -> (r: NewDocument)
        ensures
            r.external_id@ == external_id@,
            r.payload@ == payload@,
    {
        NewDocument { external_id, payload }
    }
}

impl NewDocument {
    /// A copy of this row, field by field.
    pub fn duplicate(&self) -> (r: NewDocument)
        ensures
            r.external_id@ == self.external_id@,
            r.payload@ == self.payload@,
    {
        NewDocument { external_id: self.external_id.clone(), payload: self.payload.clone() }
    }
}

impl Document {
    /// A copy of this row, field by field.
    pub fn duplicate(&self) -> (r: Document)
        ensures
            r@ == self@,
    {
        Document {
            internal_id: self.internal_id,
            external_id: self.external_id.clone(),
            payload: self.payload.clone(),
        }
    }

    pub fn new(internal_id: i64, external_id: String, payload: String) -> (r: Document)
        ensures
            r@ == (DocumentView { internal_id: internal_id as int, external_id: external_id@, payload: payload@ }),
    {
        Document { internal_id, external_id, payload }
    }
}

} // verus!
