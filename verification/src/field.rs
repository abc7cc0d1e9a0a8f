//! A decoded field of the snapshot, as text.

use crate::text::push_text;
use vstd::prelude::*;

verus! {

/// One field of a record, as the field specification presents it.
#[derive(Clone, Debug)]
pub struct FieldText {
    /// Identity of the owning packet, e.g. `00_0010_7210_10_0100`.
    pub packet_id: String,
    /// Identity of the field within the packet, e.g. `000_2_0`.
    pub field_id: String,
    /// Name of the owning packet.
    pub packet_name: String,
    /// Name of the field.
    pub name: String,
    /// Unit of the value, possibly padded with blanks.
    pub unit_text: String,
    /// The value formatted for display, without its unit.
    pub value: String,
    /// The value formatted for display, with its unit.
    pub value_with_unit: String,
    /// Whether the field has a numeric raw value.
    pub has_number: bool,
}

impl FieldText {
    /// The key of the field: packet identity, an underscore, field identity.
    pub open spec fn key(&self) -> Seq<char> {
        self.packet_id@ + "_"@ + self.field_id@
    }

    /// The key of the field as a string.
    pub fn key_string(&self) -> (k: String)
        ensures
            k@ == self.key(),
    {
        let mut k = self.packet_id.clone();
        push_text(&mut k, "_");
        push_text(&mut k, self.field_id.as_str());
        k
    }
}

/// `i` is the position of the last field whose key is `key`.
pub open spec fn is_last_with_key(fields: Seq<FieldText>, key: Seq<char>, i: int) -> bool {
    &&& 0 <= i < fields.len()
    &&& fields[i].key() == key
    &&& forall|j: int| i < j < fields.len() ==> fields[j].key() != key
}

/// No field has the key `key`.
pub open spec fn no_field_with_key(fields: Seq<FieldText>, key: Seq<char>) -> bool {
    forall|j: int| 0 <= j < fields.len() ==> fields[j].key() != key
}

/// The position of the last field whose key is `key`: where several fields
/// share a key, the last one stands for it.
pub fn find_field(fields: &Vec<FieldText>, key: &String) -> (found: Option<usize>)
    ensures
        match found {
            Some(i) => is_last_with_key(fields@, key@, i as int),
            None => no_field_with_key(fields@, key@),
        },
{
    let mut found: Option<usize> = None;
    let mut i: usize = 0;
    while i < fields.len()
        invariant
            i <= fields.len(),
            match found {
                Some(f) => f < i && is_last_with_key(fields@.take(i as int), key@, f as int),
                None => no_field_with_key(fields@.take(i as int), key@),
            },
        decreases fields.len() - i,
    {
        let k = fields[i].key_string();
        if k == *key {
            found = Some(i);
        }
        i = i + 1;
    }
    proof {
        assert(fields@.take(fields.len() as int) =~= fields@);
    }
    found
}

} // verus!
