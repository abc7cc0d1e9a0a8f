//! Single-file live dump: one line per known field, written anew on each call.

use crate::config::Config;
use crate::field::FieldText;
use crate::text::{push_text, trim_text, trimmed};
use vstd::prelude::*;

verus! {

/// The line of a field whose unit is shown as `unit`: key, value, unit, and
/// `packet name: field name`, separated by semicolons.
pub open spec fn live_line_of(f: FieldText, unit: Seq<char>) -> Seq<char> {
    f.key() + ";"@ + f.value@ + ";"@ + unit + ";"@ + f.packet_name@ + ": "@ + f.name@ + "\n"@
}

/// The line of a field, with the unit's surrounding blanks removed.
pub open spec fn live_line(f: FieldText) -> Seq<char> {
    live_line_of(f, trimmed(f.unit_text@))
}

/// The lines of the fields, in order.
pub open spec fn live_lines(fields: Seq<FieldText>) -> Seq<char>
    decreases fields.len(),
{
    if fields.len() == 0 {
        Seq::<char>::empty()
    } else {
        live_lines(fields.drop_last()) + live_line(fields.last())
    }
}

/// The line of `field` with its unit shown as `unit`.
pub fn format_live_line(field: &FieldText, unit: &str) -> (line: String)
    ensures
        line@ == live_line_of(*field, unit@),
{
    let mut line = field.key_string();
    push_text(&mut line, ";");
    push_text(&mut line, field.value.as_str());
    push_text(&mut line, ";");
    push_text(&mut line, unit);
    push_text(&mut line, ";");
    push_text(&mut line, field.packet_name.as_str());
    push_text(&mut line, ": ");
    push_text(&mut line, field.name.as_str());
    push_text(&mut line, "\n");
    line
}

/// State of the live dump.
pub struct LiveDataTextGenerator {
    pub filename: String,
}

impl LiveDataTextGenerator {
    /// A generator that writes to the configured file.
    pub fn from_config(config: &Config) -> (g: LiveDataTextGenerator)
        ensures
            g.filename@ == config.live_data_text_output_filename@,
    {
        LiveDataTextGenerator { filename: config.live_data_text_output_filename.clone() }
    }

    /// The whole content of the file for `fields`.
    pub fn generate(&self, fields: &Vec<FieldText>) -> (content: String)
        ensures
            content@ == live_lines(fields@),
    {
        let mut content = String::new();
        let mut i: usize = 0;
        while i < fields.len()
            invariant
                i <= fields.len(),
                content@ == live_lines(fields@.take(i as int)),
            decreases fields.len() - i,
        {
            let field = &fields[i];
            let unit = trim_text(field.unit_text.as_str());
            let line = format_live_line(field, unit);
            push_text(&mut content, line.as_str());
            proof {
                assert(fields@.take(i + 1).drop_last() =~= fields@.take(i as int));
                assert(fields@.take(i + 1).last() == fields@[i as int]);
            }
            i = i + 1;
        }
        proof {
            assert(fields@.take(fields.len() as int) =~= fields@);
        }
        content
    }
}

} // verus!
