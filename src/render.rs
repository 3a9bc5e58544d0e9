use vstd::prelude::*;
use vstd::string::*;
use crate::document::{Document, DocumentView};
use crate::error::StoreError;
use crate::ident::{check_external_id, is_external_id};
use crate::json::{decimal_of, decimal_text, is_json_text, json_value_of, parse_json};

verus! {

/// The canonical JSON text of a stored row: an object with its internal
/// identifier as a number, its external identifier as a string, and its
/// payload as the JSON value it holds.
pub open spec fn document_json(d: DocumentView) -> Seq<char> {
    "{\"internal_id\":"@ + decimal_of(d.internal_id) + ",\"external_id\":\""@ + d.external_id
        + "\",\"payload\":"@ + d.payload + "}"@
}

/// A row can be rendered when its identifier has the generated form (so it
/// needs no escaping) and its payload is JSON text.
pub open spec fn renderable(d: DocumentView) -> bool {
    is_external_id(d.external_id) && is_json_text(d.payload)
}

impl Document {
    /// The canonical JSON text of this row, or `ReadBackError` when the row
    /// is not as this store writes rows.
    pub fn to_json_text(&self) -> (r: Result<String, StoreError>)
        ensures
            r is Ok <==> renderable(self@),
            r matches Ok(t) ==> t@ == document_json(self@),
            r is Err ==> r == Err::<String, StoreError>(StoreError::ReadBackError),
    {
        if !check_external_id(self.external_id.as_str()) {
            return Err(StoreError::ReadBackError);
        }
        if parse_json(self.payload.as_str()).is_err() {
            return Err(StoreError::ReadBackError);
        }
        let id_text = decimal_text(self.internal_id);
        let mut t = String::from_str("{\"internal_id\":");
        t.append(id_text.as_str());
        t.append(",\"external_id\":\"");
        t.append(self.external_id.as_str());
        t.append("\",\"payload\":");
        t.append(self.payload.as_str());
        t.append("}");
        Ok(t)
    }

    /// The payload read back through the JSON decoder.
    pub fn decode_payload(&self) -> (r: Result<serde_json::Value, StoreError>)
        ensures
            r is Ok <==> is_json_text(self.payload@),
            r matches Ok(v) ==> v == json_value_of(self.payload@),
            r is Err ==> r == Err::<serde_json::Value, StoreError>(StoreError::ReadBackError),
    {
        match parse_json(self.payload.as_str()) {
            Ok(v) => Ok(v),
            Err(_) => Err(StoreError::ReadBackError),
        }
    }
}

} // verus!
