//! A text field on a screen.

use crate::form::Value;
use crate::installer::message::TextEdit;
use vstd::prelude::*;

verus! {

/// A text field: what it holds, and which edit it reports when the user
/// types into it.
#[derive(Debug, PartialEq, Eq)]
pub struct TextField {
    /// The content of the field, and whether that content is acceptable.
    pub content: Value<String>,
    /// The edit that the field reports; what it then sends is
    /// `text_edit(edit, text)` for the text typed.
    pub edit: TextEdit,
}

/// The field that holds `content` and reports `edit`.
pub open spec fn text_field_of(content: Value<String>, edit: TextEdit) -> TextField {
    TextField { content, edit }
}

/// The field that holds `content` and reports `edit`.
pub fn text_field(content: &Value<String>, edit: TextEdit) -> (field: TextField)
    ensures
        field == text_field_of(*content, edit),
{
    TextField { content: content.clone(), edit }
}

} // verus!
