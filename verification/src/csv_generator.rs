//! Delimited-text output: one header line where the file or the set of
//! identities changed, then one line of values per call.

use crate::config::Config;
use crate::error::Error;
use crate::field::FieldText;
use crate::snapshot::{content_hash, sorted_form, SnapshotStore};
use crate::text::{push_text, trim_text, trimmed};
use crate::timestamp_file_writer::{
    format_timestamp, formatted_time, step_for, FileStep, LocalTimestamp, TimestampFileWriter,
};
use vstd::prelude::*;

verus! {

/// A header cell: a tab, the name, and the unit in square brackets where
/// there is one.
pub open spec fn header_cell_of(name: Seq<char>, unit: Seq<char>) -> Seq<char> {
    if unit.len() > 0 {
        "\t"@ + name + " ["@ + unit + "]"@
    } else {
        "\t"@ + name
    }
}

/// The header cell of a field, with the unit's surrounding blanks removed.
pub open spec fn header_cell(f: FieldText) -> Seq<char> {
    header_cell_of(f.name@, trimmed(f.unit_text@))
}

/// The header cells of the fields, in order.
pub open spec fn header_cells(fields: Seq<FieldText>) -> Seq<char>
    decreases fields.len(),
{
    if fields.len() == 0 {
        Seq::<char>::empty()
    } else {
        header_cells(fields.drop_last()) + header_cell(fields.last())
    }
}

/// The header line.
pub open spec fn header_line(fields: Seq<FieldText>) -> Seq<char> {
    "Datum"@ + header_cells(fields) + "\n"@
}

/// The value cells of the fields, in order: a tab and the display value each.
pub open spec fn value_cells(fields: Seq<FieldText>) -> Seq<char>
    decreases fields.len(),
{
    if fields.len() == 0 {
        Seq::<char>::empty()
    } else {
        value_cells(fields.drop_last()) + ("\t"@ + fields.last().value@)
    }
}

/// The data line: the time, then the value cells.
pub open spec fn data_line(time: Seq<char>, fields: Seq<FieldText>) -> Seq<char> {
    time + value_cells(fields) + "\n"@
}

/// The header cell for a name and a unit.
pub fn format_header_cell(name: &str, unit: &str) -> (cell: String)
    ensures
        cell@ == header_cell_of(name@, unit@),
{
    let mut cell = "\t".to_owned();
    push_text(&mut cell, name);
    if !unit.is_empty() {
        push_text(&mut cell, " [");
        push_text(&mut cell, unit);
        push_text(&mut cell, "]");
    }
    cell
}

/// The header line for `fields`.
pub fn format_header_line(fields: &Vec<FieldText>) -> (line: String)
    ensures
        line@ == header_line(fields@),
{
    let mut cells = String::new();
    let mut i: usize = 0;
    while i < fields.len()
        invariant
            i <= fields.len(),
            cells@ == header_cells(fields@.take(i as int)),
        decreases fields.len() - i,
    {
        let field = &fields[i];
        let unit = trim_text(field.unit_text.as_str());
        let cell = format_header_cell(field.name.as_str(), unit);
        push_text(&mut cells, cell.as_str());
        proof {
            assert(fields@.take(i + 1).drop_last() =~= fields@.take(i as int));
            assert(fields@.take(i + 1).last() == fields@[i as int]);
        }
        i = i + 1;
    }
    proof {
        assert(fields@.take(fields.len() as int) =~= fields@);
    }
    let mut line = "Datum".to_owned();
    push_text(&mut line, cells.as_str());
    push_text(&mut line, "\n");
    line
}

/// The data line for `fields` at the time shown as `time`.
pub fn format_data_line(time: &str, fields: &Vec<FieldText>) -> (line: String)
    ensures
        line@ == data_line(time@, fields@),
{
    let mut cells = String::new();
    let mut i: usize = 0;
    while i < fields.len()
        invariant
            i <= fields.len(),
            cells@ == value_cells(fields@.take(i as int)),
        decreases fields.len() - i,
    {
        let mut cell = "\t".to_owned();
        push_text(&mut cell, fields[i].value.as_str());
        push_text(&mut cells, cell.as_str());
        proof {
            assert(fields@.take(i + 1).drop_last() =~= fields@.take(i as int));
            assert(fields@.take(i + 1).last() == fields@[i as int]);
        }
        i = i + 1;
    }
    proof {
        assert(fields@.take(fields.len() as int) =~= fields@);
    }
    let mut line = time.to_owned();
    push_text(&mut line, cells.as_str());
    push_text(&mut line, "\n");
    line
}

/// What one call asks the owner of the file to do.
pub struct CsvOutput {
    /// Whether another file has to be opened first.
    pub step: FileStep,
    /// Whether the text starts with a header line.
    pub wrote_header: bool,
    /// The text to append to the file.
    pub text: String,
}

/// State of the delimited-text output.
pub struct CsvGenerator {
    file_writer: TimestampFileWriter,
    fingerprint: Option<u64>,
}

/// Whether a header line is due: the file is new, or the fingerprint is not
/// the one of the previous call.
pub open spec fn header_due(opens: bool, previous: Option<u64>, fingerprint: u64) -> bool {
    opens || previous != Some(fingerprint)
}

/// The text of one call.
pub open spec fn csv_text(with_header: bool, time: Seq<char>, fields: Seq<FieldText>) -> Seq<char> {
    if with_header {
        header_line(fields) + data_line(time, fields)
    } else {
        data_line(time, fields)
    }
}

/// How a call of `render` with fingerprint `fingerprint` relates the
/// generator before and after it to the result.
pub open spec fn rendered(
    before: CsvGenerator,
    after: CsvGenerator,
    fingerprint: u64,
    now: LocalTimestamp,
    fields: Seq<FieldText>,
    result: Result<CsvOutput, Error>,
) -> bool {
    let time = formatted_time("%Y.%m.%d %H:%M:%S"@, now.secs, now.offset_secs);
    let derived = formatted_time(before.writer().pattern(), now.secs, now.offset_secs);
    &&& after.writer().pattern() == before.writer().pattern()
    &&& after.writer().current() == before.writer().current()
    &&& match time {
        None => {
            &&& result is Err
            &&& result->Err_0.description_text() == "Unable to format the time"@
            &&& after.previous_fingerprint() == before.previous_fingerprint()
            &&& after.writer().timestamp() == before.writer().timestamp()
            &&& after.writer().dirty() == before.writer().dirty()
        },
        Some(time) => {
            &&& after.writer().timestamp() == now
            &&& !after.writer().dirty()
            &&& match derived {
                None => {
                    &&& result is Err
                    &&& result->Err_0.description_text() == "Unable to derive the file name"@
                    &&& after.previous_fingerprint() == before.previous_fingerprint()
                },
                Some(name) => {
                    &&& result is Ok
                    &&& after.previous_fingerprint() == Some(fingerprint)
                    &&& result->Ok_0.step.model() == step_for(derived, before.writer().current())
                    &&& result->Ok_0.wrote_header == header_due(
                        result->Ok_0.step is Open,
                        before.previous_fingerprint(),
                        fingerprint,
                    )
                    &&& result->Ok_0.text@ == csv_text(result->Ok_0.wrote_header, time, fields)
                },
            }
        },
    }
}

impl CsvGenerator {
    /// The rotation state of the output file.
    pub closed spec fn writer(&self) -> TimestampFileWriter {
        self.file_writer
    }

    /// The fingerprint seen by the previous call, if there was one.
    pub closed spec fn previous_fingerprint(&self) -> Option<u64> {
        self.fingerprint
    }

    /// A generator for the configured path pattern, with no file open and no
    /// fingerprint seen.
    pub fn from_config(config: &Config, now: LocalTimestamp) -> (g: CsvGenerator)
        ensures
            g.writer().pattern() == config.csv_output_filename_pattern@,
            g.writer().timestamp() == now,
            g.writer().dirty(),
            g.writer().current() is None,
            g.previous_fingerprint() is None,
    {
        let file_writer = TimestampFileWriter::new(config.csv_output_filename_pattern.clone(), now);
        CsvGenerator { file_writer, fingerprint: None }
    }

    /// One call on a snapshot whose fingerprint is `fingerprint`: says which
    /// file to write to and what to append.
    pub fn render(
        &mut self,
        fingerprint: u64,
        now: LocalTimestamp,
        fields: &Vec<FieldText>,
    ) -> (result: Result<CsvOutput, Error>)
        ensures
            rendered(*old(self), *final(self), fingerprint, now, fields@, result),
    {
        let time = match format_timestamp("%Y.%m.%d %H:%M:%S", now.secs, now.offset_secs) {
            Some(time) => time,
            None => {
                return Err(Error::from_text("Unable to format the time"));
            },
        };
        let step = self.file_writer.set_timestamp(now);
        let is_new_file = match &step {
            FileStep::Unformattable => {
                return Err(Error::from_text("Unable to derive the file name"));
            },
            FileStep::Open(_) => true,
            FileStep::Keep => false,
        };
        let (wrote_header, text) = self.compose(is_new_file, fingerprint, time.as_str(), fields);
        Ok(CsvOutput { step, wrote_header, text })
    }

    /// Remembers `fingerprint` and gives the text of one call at the time
    /// shown as `time`: a header line where the file is new or the
    /// fingerprint differs from the remembered one, then the data line.
    pub fn compose(
        &mut self,
        is_new_file: bool,
        fingerprint: u64,
        time: &str,
        fields: &Vec<FieldText>,
    ) -> (out: (bool, String))
        ensures
            final(self).writer() == old(self).writer(),
            final(self).previous_fingerprint() == Some(fingerprint),
            out.0 == header_due(is_new_file, old(self).previous_fingerprint(), fingerprint),
            out.1@ == csv_text(out.0, time@, fields@),
    {
        let fingerprint_differs = match self.fingerprint {
            Some(previous) => fingerprint != previous,
            None => true,
        };
        self.fingerprint = Some(fingerprint);
        let need_header = is_new_file || fingerprint_differs;
        let mut text = String::new();
        if need_header {
            let header = format_header_line(fields);
            push_text(&mut text, header.as_str());
        }
        let line = format_data_line(time, fields);
        push_text(&mut text, line.as_str());
        proof {
            assert(text@ =~= csv_text(need_header, time@, fields@));
        }
        (need_header, text)
    }

    /// One call on the snapshot `store`: takes the store's fingerprint and
    /// renders with it.
    pub fn generate(
        &mut self,
        store: &SnapshotStore,
        now: LocalTimestamp,
        fields: &Vec<FieldText>,
    ) -> (result: Result<CsvOutput, Error>)
        requires
            store.wf(),
        ensures
            rendered(
                *old(self),
                *final(self),
                content_hash(sorted_form(store@)),
                now,
                fields@,
                result,
            ),
    {
        let fingerprint = store.fingerprint();
        self.render(fingerprint, now, fields)
    }

    /// Records that the file at `filename` was opened.
    pub fn file_opened(&mut self, filename: String)
        ensures
            final(self).writer().pattern() == old(self).writer().pattern(),
            final(self).writer().timestamp() == old(self).writer().timestamp(),
            final(self).writer().dirty() == old(self).writer().dirty(),
            final(self).writer().current() == Some(filename@),
            final(self).previous_fingerprint() == old(self).previous_fingerprint(),
    {
        self.file_writer.file_opened(filename);
    }

    /// Whether a file is open to write to.
    pub fn can_write(&self) -> (b: bool)
        ensures
            b == (self.writer().current() is Some),
    {
        self.file_writer.can_write()
    }
}

} // verus!
