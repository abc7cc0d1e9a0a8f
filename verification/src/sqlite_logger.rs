//! Database output: decides, from the settings and the fields of a snapshot,
//! which statements run and what is bound to each parameter.

use crate::config::Config;
use crate::error::Error;
use crate::field::{find_field, is_last_with_key, no_field_with_key, FieldText};
use crate::text::push_text;
use vstd::prelude::*;

verus! {

/// The views of the strings, in order.
pub open spec fn texts_of(v: Seq<String>) -> Seq<Seq<char>> {
    v.map_values(|s: String| s@)
}

/// A copy of the strings.
pub fn clone_strings(v: &Vec<String>) -> (copy: Vec<String>)
    ensures
        texts_of(copy@) == texts_of(v@),
{
    let mut copy: Vec<String> = Vec::new();
    let mut i: usize = 0;
    while i < v.len()
        invariant
            i <= v.len(),
            copy@.len() == i,
            texts_of(copy@) =~= texts_of(v@.take(i as int)),
        decreases v.len() - i,
    {
        let ghost before = copy@;
        let item = v[i].clone();
        copy.push(item);
        proof {
            let a = texts_of(copy@);
            let b = texts_of(v@.take(i + 1));
            assert(a.len() == b.len());
            assert forall|j: int| 0 <= j < a.len() implies a[j] == b[j] by {
                if j < i {
                    assert(copy@[j] == before[j]);
                    assert(texts_of(before)[j] == texts_of(v@.take(i as int))[j]);
                }
            }
        }
        i = i + 1;
    }
    proof {
        assert(v@.take(v.len() as int) =~= v@);
    }
    copy
}

/// The two shapes of the database output.
pub enum Mode {
    /// One row per call in a table of data sets, one row per numeric field
    /// in a table of fields.
    Relational { datasets_table: String, fields_table: String },
    /// One statement per call, with a parameter per configured field name.
    Tabular { statement: String, fields: Vec<String> },
}

/// What is bound to one parameter of the tabular statement.
#[derive(Clone, Copy, Debug, PartialEq, Eq)]
pub enum Binding {
    /// The time of the call in UTC.
    UtcDateTime,
    /// The time of the call in local time.
    LocalDateTime,
    /// The numeric raw value of the field at this position.
    Number(usize),
    /// A database NULL.
    Null,
}

/// Whether `b` is the binding for the parameter named `name`: the two time
/// names stand for the time of the call; any other name stands for the last
/// field with that key, bound to its number, or to NULL where the field is
/// absent or has no number.
pub open spec fn binds(name: Seq<char>, fields: Seq<FieldText>, b: Binding) -> bool {
    if name == "UtcDateTime"@ {
        b is UtcDateTime
    } else if name == "LocalDateTime"@ {
        b is LocalDateTime
    } else {
        match b {
            Binding::Number(i) => is_last_with_key(fields, name, i as int)
                && fields[i as int].has_number,
            Binding::Null => no_field_with_key(fields, name) || exists|i: int|
                is_last_with_key(fields, name, i) && !fields[i].has_number,
            _ => false,
        }
    }
}

/// The positions of the fields that have a number, in order.
pub open spec fn numbered(fields: Seq<FieldText>) -> Seq<usize>
    decreases fields.len(),
{
    if fields.len() == 0 {
        Seq::<usize>::empty()
    } else if fields.last().has_number {
        numbered(fields.drop_last()).push((fields.len() - 1) as usize)
    } else {
        numbered(fields.drop_last())
    }
}

/// What one call does to the database.
pub enum LogPlan {
    /// Insert a row with the time of the call through `insert_dataset`, read
    /// its generated identity, then insert one row through `insert_field`
    /// for each position in `rows`: the identity, the field's key and its
    /// number.
    Relational { insert_dataset: String, insert_field: String, rows: Vec<usize> },
    /// Run `statement` with `bindings` bound to its parameters in order.
    Tabular { statement: String, bindings: Vec<Binding> },
}

/// State of the database output.
pub struct SqliteLogger {
    mode: Mode,
}

/// The settings select the relational shape.
pub open spec fn selects_relational(config: Config) -> bool {
    config.sqlite_datasets_table is Some && config.sqlite_fields_table is Some
        && config.sqlite_statement is None && config.sqlite_fields is None
}

/// The settings select the tabular shape.
pub open spec fn selects_tabular(config: Config) -> bool {
    config.sqlite_datasets_table is None && config.sqlite_fields_table is None
        && config.sqlite_statement is Some && config.sqlite_fields is Some
}

impl SqliteLogger {
    /// The shape that was configured.
    pub closed spec fn mode(&self) -> Mode {
        self.mode
    }

    /// Selects the shape from the settings. Exactly one of the two pairs of
    /// settings has to be given; any other combination is an error.
    pub fn from_config(config: &Config) -> (result: Result<SqliteLogger, Error>)
        ensures
            selects_relational(*config) ==> result is Ok && (result->Ok_0.mode() matches Mode::Relational {
                datasets_table,
                fields_table,
            } && datasets_table@ == config.sqlite_datasets_table->0@ && fields_table@
                == config.sqlite_fields_table->0@),
            selects_tabular(*config) ==> result is Ok && (result->Ok_0.mode() matches Mode::Tabular {
                statement,
                fields,
            } && statement@ == config.sqlite_statement->0@ && texts_of(fields@) == texts_of(
                config.sqlite_fields->0@,
            )),
            !selects_relational(*config) && !selects_tabular(*config) ==> result is Err
                && result->Err_0.description_text()
                == "Unsupported combination of SQLlite logger configuration"@
                && result->Err_0.cause_text() is None,
    {
        let mode = match (
            &config.sqlite_datasets_table,
            &config.sqlite_fields_table,
            &config.sqlite_statement,
            &config.sqlite_fields,
        ) {
            (Some(datasets_table), Some(fields_table), None, None) => Mode::Relational {
                datasets_table: datasets_table.clone(),
                fields_table: fields_table.clone(),
            },
            (None, None, Some(statement), Some(fields)) => Mode::Tabular {
                statement: statement.clone(),
                fields: clone_strings(fields),
            },
            _ => {
                return Err(
                    Error::from_text("Unsupported combination of SQLlite logger configuration"),
                );
            },
        };
        Ok(SqliteLogger { mode })
    }

    /// The statement that creates the two tables of the relational shape;
    /// none for the tabular shape.
    pub fn schema_statement(&self) -> (statement: Option<String>)
        ensures
            match self.mode() {
                Mode::Relational { datasets_table, fields_table } => statement is Some
                    && statement->0@ == "CREATE TABLE IF NOT EXISTS "@ + datasets_table@
                    + " (id INTEGER PRIMARY KEY, timestamp TEXT); CREATE TABLE IF NOT EXISTS "@
                    + fields_table@
                    + " (id INTEGER PRIMARY KEY, dataset_id INTEGER, packet_field_id TEXT, value REAL)"@,
                Mode::Tabular { .. } => statement is None,
            },
    {
        match &self.mode {
            Mode::Relational { datasets_table, fields_table } => {
                let mut s = "CREATE TABLE IF NOT EXISTS ".to_owned();
                push_text(&mut s, datasets_table.as_str());
                push_text(
                    &mut s,
                    " (id INTEGER PRIMARY KEY, timestamp TEXT); CREATE TABLE IF NOT EXISTS ",
                );
                push_text(&mut s, fields_table.as_str());
                push_text(
                    &mut s,
                    " (id INTEGER PRIMARY KEY, dataset_id INTEGER, packet_field_id TEXT, value REAL)",
                );
                Some(s)
            },
            Mode::Tabular { .. } => None,
        }
    }

    /// What a call on a snapshot with these fields does to the database.
    pub fn log(&self, fields: &Vec<FieldText>) -> (plan: LogPlan)
        ensures
            match self.mode() {
                Mode::Relational { datasets_table, fields_table } => plan matches LogPlan::Relational {
                    insert_dataset,
                    insert_field,
                    rows,
                } && insert_dataset@ == "INSERT INTO "@ + datasets_table@ + " (timestamp) VALUES (?)"@
                    && insert_field@ == "INSERT INTO "@ + fields_table@
                    + " (dataset_id, packet_field_id, value) VALUES (?, ?, ?)"@ && rows@
                    == numbered(fields@),
                Mode::Tabular { statement, fields: names } => plan matches LogPlan::Tabular {
                    statement: text,
                    bindings,
                } && text@ == statement@ && bindings@.len() == names@.len() && forall|k: int|
                    0 <= k < names@.len() ==> binds(names@[k]@, fields@, #[trigger] bindings@[k]),
            },
    {
        match &self.mode {
            Mode::Relational { datasets_table, fields_table } => {
                let mut insert_dataset = "INSERT INTO ".to_owned();
                push_text(&mut insert_dataset, datasets_table.as_str());
                push_text(&mut insert_dataset, " (timestamp) VALUES (?)");
                let mut insert_field = "INSERT INTO ".to_owned();
                push_text(&mut insert_field, fields_table.as_str());
                push_text(&mut insert_field, " (dataset_id, packet_field_id, value) VALUES (?, ?, ?)");
                let rows = numbered_fields(fields);
                LogPlan::Relational { insert_dataset, insert_field, rows }
            },
            Mode::Tabular { statement, fields: names } => {
                let bindings = resolve_bindings(names, fields);
                LogPlan::Tabular { statement: statement.clone(), bindings }
            },
        }
    }
}

/// The positions of the fields that have a number, in order.
pub fn numbered_fields(fields: &Vec<FieldText>) -> (rows: Vec<usize>)
    ensures
        rows@ == numbered(fields@),
{
    let mut rows: Vec<usize> = Vec::new();
    let mut i: usize = 0;
    while i < fields.len()
        invariant
            i <= fields.len(),
            rows@ == numbered(fields@.take(i as int)),
        decreases fields.len() - i,
    {
        if fields[i].has_number {
            rows.push(i);
        }
        proof {
            assert(fields@.take(i + 1).drop_last() =~= fields@.take(i as int));
            assert(fields@.take(i + 1).last() == fields@[i as int]);
        }
        i = i + 1;
    }
    proof {
        assert(fields@.take(fields.len() as int) =~= fields@);
    }
    rows
}

/// The binding for the parameter named `name`.
pub fn resolve_binding(name: &String, fields: &Vec<FieldText>) -> (b: Binding)
    ensures
        binds(name@, fields@, b),
{
    let utc = "UtcDateTime".to_owned();
    let local = "LocalDateTime".to_owned();
    if *name == utc {
        Binding::UtcDateTime
    } else if *name == local {
        Binding::LocalDateTime
    } else {
        match find_field(fields, name) {
            Some(i) => if fields[i].has_number {
                Binding::Number(i)
            } else {
                Binding::Null
            },
            None => Binding::Null,
        }
    }
}

/// The bindings for the parameters named `names`, in order.
pub fn resolve_bindings(names: &Vec<String>, fields: &Vec<FieldText>) -> (bindings: Vec<Binding>)
    ensures
        bindings@.len() == names@.len(),
        forall|k: int| 0 <= k < names@.len() ==> binds(names@[k]@, fields@, #[trigger] bindings@[k]),
{
    let mut bindings: Vec<Binding> = Vec::new();
    let mut k: usize = 0;
    while k < names.len()
        invariant
            k <= names.len(),
            bindings@.len() == k,
            forall|j: int| 0 <= j < k ==> binds(names@[j]@, fields@, #[trigger] bindings@[j]),
        decreases names.len() - k,
    {
        let b = resolve_binding(&names[k], fields);
        bindings.push(b);
        k = k + 1;
    }
    bindings
}

/// A parameter named after a field that the snapshot lacks is bound to NULL.
pub proof fn lemma_absent_field_binds_null(name: Seq<char>, fields: Seq<FieldText>, b: Binding)
    requires
        name != "UtcDateTime"@,
        name != "LocalDateTime"@,
        no_field_with_key(fields, name),
        binds(name, fields, b),
    ensures
        b is Null,
{
    match b {
        Binding::Number(i) => {
            assert(fields[i as int].key() == name);
        },
        _ => {},
    }
}

} // verus!
