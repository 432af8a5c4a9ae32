use vstd::prelude::*;
use vstd::string::StringExecFns;
use crate::errors::ToolError;

verus! {

// ---------------------------------------------------------------------------
// Raw entries: what the TOML reader hands over, before schema validation.
// ---------------------------------------------------------------------------
/// One field value of a raw configuration entry: a TOML string, or a value of
/// any other TOML type (which the variant schema does not accept).
pub enum RawValue {
    Str(String),
    Other,
}

impl View for RawValue {
    type V = Option<Seq<char>>;

    open spec fn view(&self) -> Option<Seq<char>> {
        match self {
            RawValue::Str(s) => Some(s@),
            RawValue::Other => None,
        }
    }
}

/// One top-level entry of the parsed configuration document: its key and,
/// when the entry is itself a table, that table's fields in reader order.
pub struct RawEntry {
    pub key: String,
    pub fields: Option<Vec<(String, RawValue)>>,
}

impl View for RawEntry {
    type V = (Seq<char>, Option<Seq<(Seq<char>, Option<Seq<char>>)>>);

    open spec fn view(&self) -> (Seq<char>, Option<Seq<(Seq<char>, Option<Seq<char>>)>>) {
        (
            self.key@,
            match self.fields {
                Some(fs) => Some(fs@.map(|i: int, p: (String, RawValue)| (p.0@, p.1@))),
                None => None,
            },
        )
    }
}

/// The views of a sequence of raw entries.
pub open spec fn raw_entries_view(es: Seq<RawEntry>) -> Seq<
    (Seq<char>, Option<Seq<(Seq<char>, Option<Seq<char>>)>>),
> {
    es.map(|i: int, e: RawEntry| e@)
}

/// No two top-level keys coincide — the TOML format itself rejects a key
/// defined twice.
pub open spec fn raw_keys_distinct(
    t: Seq<(Seq<char>, Option<Seq<(Seq<char>, Option<Seq<char>>)>>)>,
) -> bool {
    forall|i: int, j: int| 0 <= i < j < t.len() ==> t[i].0 != t[j].0
}

/// What the TOML reader yields for a given document: `None` when the text is
/// not a well-formed TOML document, otherwise the top-level entries in the
/// reader's order, each string-valued field kept as text and every other
/// value marked as such.
pub uninterp spec fn toml_entries(s: Seq<char>) -> Option<
    Seq<(Seq<char>, Option<Seq<(Seq<char>, Option<Seq<char>>)>>)>,
>;

/// Relies on `toml::from_str::<toml::Table>`: parsing a TOML document is a
/// function of its text alone, and a key defined twice is rejected by the
/// format, so the table's keys are distinct.
#[verifier::external_body]
fn parse_toml(s: &str) -> (r: Option<Vec<RawEntry>>)
    ensures
        r is Some <==> toml_entries(s@) is Some,
        r is Some ==> raw_entries_view(r->Some_0@) == toml_entries(s@)->Some_0,
        r is Some ==> raw_keys_distinct(raw_entries_view(r->Some_0@)),
{
    match toml::from_str::<toml::Table>(s) {
        Err(_) => None,
        Ok(t) => Some(t.into_iter().map(|(k, v)| RawEntry {
            key: k,
            fields: match v {
                toml::Value::Table(m) => Some(m.into_iter().map(|(f, w)| (f, match w {
                    toml::Value::String(x) => RawValue::Str(x),
                    _ => RawValue::Other,
                })).collect()),
                _ => None,
            },
        }).collect()),
    }
}

// ---------------------------------------------------------------------------
// The variant schema.
// ---------------------------------------------------------------------------
/// One named package configuration: a category label, a display name, an
/// optional version number, and a free-text description. The version number
/// is plain text throughout, so formatting such as leading zeros survives.
pub struct Variant {
    pub variant: String,
    pub name: String,
    pub number: Option<String>,
    pub description: String,
}

/// The mathematical content of a `Variant`.
pub ghost struct VariantView {
    pub variant: Seq<char>,
    pub name: Seq<char>,
    pub number: Option<Seq<char>>,
    pub description: Seq<char>,
}

impl View for Variant {
    type V = VariantView;

    open spec fn view(&self) -> VariantView {
        VariantView {
            variant: self.variant@,
            name: self.name@,
            number: match self.number {
                Some(n) => Some(n@),
                None => None,
            },
            description: self.description@,
        }
    }
}

/// One validated entry of the variant table: the unique key (which doubles
/// as the output directory name) and its record.
pub struct ConfigEntry {
    pub key: String,
    pub record: Variant,
}

/// The mathematical content of a `ConfigEntry`.
pub ghost struct ConfigEntryView {
    pub key: Seq<char>,
    pub record: VariantView,
}

impl View for ConfigEntry {
    type V = ConfigEntryView;

    open spec fn view(&self) -> ConfigEntryView {
        ConfigEntryView { key: self.key@, record: self.record@ }
    }
}

/// The views of a validated table.
pub open spec fn config_view(es: Seq<ConfigEntry>) -> Seq<ConfigEntryView> {
    es.map(|i: int, e: ConfigEntry| e@)
}

/// No two entries of a validated table share a key.
pub open spec fn distinct_config_keys(c: Seq<ConfigEntryView>) -> bool {
    forall|i: int, j: int| 0 <= i < j < c.len() ==> c[i].key != c[j].key
}

/// The value of the first field with the given name: `None` when absent,
/// `Some(None)` when present but not a string, `Some(Some(text))` otherwise.
pub open spec fn lookup_field(
    fs: Seq<(Seq<char>, Option<Seq<char>>)>,
    name: Seq<char>,
) -> Option<Option<Seq<char>>>
    decreases fs.len(),
{
    if fs.len() == 0 {
        None
    } else if fs[0].0 == name {
        Some(fs[0].1)
    } else {
        lookup_field(fs.skip(1), name)
    }
}

/// A table conforms to the variant schema: `variant`, `name` and
/// `description` are present as strings, and `number`, when present, is a
/// string. Fields beyond these are ignored, whatever their type.
pub open spec fn valid_fields(fs: Seq<(Seq<char>, Option<Seq<char>>)>) -> bool {
    &&& lookup_field(fs, "variant"@) matches Some(Some(_))
    &&& lookup_field(fs, "name"@) matches Some(Some(_))
    &&& !(lookup_field(fs, "number"@) matches Some(None))
    &&& lookup_field(fs, "description"@) matches Some(Some(_))
}

/// The record a conforming table denotes.
pub open spec fn record_of(fs: Seq<(Seq<char>, Option<Seq<char>>)>) -> VariantView {
    VariantView {
        variant: lookup_field(fs, "variant"@)->Some_0->Some_0,
        name: lookup_field(fs, "name"@)->Some_0->Some_0,
        number: match lookup_field(fs, "number"@) {
            Some(v) => v,
            None => None,
        },
        description: lookup_field(fs, "description"@)->Some_0->Some_0,
    }
}

/// Every entry of the raw table is itself a table and conforms to the schema.
pub open spec fn table_valid(
    t: Seq<(Seq<char>, Option<Seq<(Seq<char>, Option<Seq<char>>)>>)>,
) -> bool {
    forall|i: int|
        0 <= i < t.len() ==> (#[trigger] t[i]).1 is Some && valid_fields(t[i].1->Some_0)
}

/// The validated table a conforming raw table denotes, key for key.
pub open spec fn table_config(
    t: Seq<(Seq<char>, Option<Seq<(Seq<char>, Option<Seq<char>>)>>)>,
) -> Seq<ConfigEntryView> {
    t.map(
        |i: int, e: (Seq<char>, Option<Seq<(Seq<char>, Option<Seq<char>>)>>)|
            ConfigEntryView { key: e.0, record: record_of(e.1->Some_0) },
    )
}

/// The view of an exec field list.
pub open spec fn fields_view(fs: Seq<(String, RawValue)>) -> Seq<(Seq<char>, Option<Seq<char>>)> {
    fs.map(|i: int, p: (String, RawValue)| (p.0@, p.1@))
}

/// First field with the given name, by linear search, agreeing with
/// `lookup_field`.
fn find_field<'a>(fields: &'a Vec<(String, RawValue)>, name: &String) -> (r: Option<&'a RawValue>)
    ensures
        r is Some <==> lookup_field(fields_view(fields@), name@) is Some,
        r is Some ==> Some(r->Some_0@) == lookup_field(fields_view(fields@), name@),
{
    let ghost fv = fields_view(fields@);
    proof {
        assert(fv.skip(0) =~= fv);
    }
    let mut i: usize = 0;
    while i < fields.len()
        invariant
            0 <= i <= fields@.len(),
            fv == fields_view(fields@),
            lookup_field(fv, name@) == lookup_field(fv.skip(i as int), name@),
        decreases fields@.len() - i,
    {
        if fields[i].0.eq(name) {
            proof {
                assert(fv.skip(i as int)[0] == fv[i as int]);
            }
            return Some(&fields[i].1);
        }
        proof {
            assert(fv.skip(i as int)[0] == fv[i as int]);
            assert(fv.skip(i as int).skip(1) =~= fv.skip(i as int + 1));
        }
        i = i + 1;
    }
    proof {
        assert(fv.skip(i as int) =~= Seq::<(Seq<char>, Option<Seq<char>>)>::empty());
    }
    None
}

/// Validate one raw entry against the schema and build its record.
fn validate_entry(e: &RawEntry) -> (r: Result<Variant, ToolError>)
    ensures
        r is Ok <==> e@.1 is Some && valid_fields(e@.1->Some_0),
        r is Ok ==> r->Ok_0@ == record_of(e@.1->Some_0),
        r is Err ==> r->Err_0 is ConfigMalformed,
{
    let fields = match &e.fields {
        Some(fs) => fs,
        None => {
            return Err(ToolError::ConfigMalformed);
        },
    };
    let variant = match find_field(fields, &String::from_str("variant")) {
        Some(RawValue::Str(s)) => s.clone(),
        _ => {
            return Err(ToolError::ConfigMalformed);
        },
    };
    let name = match find_field(fields, &String::from_str("name")) {
        Some(RawValue::Str(s)) => s.clone(),
        _ => {
            return Err(ToolError::ConfigMalformed);
        },
    };
    let number = match find_field(fields, &String::from_str("number")) {
        Some(RawValue::Str(s)) => Some(s.clone()),
        None => None,
        Some(RawValue::Other) => {
            return Err(ToolError::ConfigMalformed);
        },
    };
    let description = match find_field(fields, &String::from_str("description")) {
        Some(RawValue::Str(s)) => s.clone(),
        _ => {
            return Err(ToolError::ConfigMalformed);
        },
    };
    Ok(Variant { variant, name, number, description })
}

/// Validate a whole raw table: the first non-conforming entry makes the
/// whole configuration malformed, exactly as the schema says.
pub fn validate_config(entries: &Vec<RawEntry>) -> (r: Result<Vec<ConfigEntry>, ToolError>)
    ensures
        r is Ok <==> table_valid(raw_entries_view(entries@)),
        r is Ok ==> config_view(r->Ok_0@) == table_config(raw_entries_view(entries@)),
        r is Err ==> r->Err_0 is ConfigMalformed,
{
    let ghost t = raw_entries_view(entries@);
    let mut out: Vec<ConfigEntry> = Vec::new();
    let mut i: usize = 0;
    while i < entries.len()
        invariant
            0 <= i <= entries@.len(),
            t == raw_entries_view(entries@),
            out@.len() == i,
            forall|j: int|
                0 <= j < i ==> (#[trigger] t[j]).1 is Some && valid_fields(t[j].1->Some_0),
            forall|j: int|
                0 <= j < i ==> (#[trigger] out@[j])@ == (ConfigEntryView {
                    key: t[j].0,
                    record: record_of(t[j].1->Some_0),
                }),
        decreases entries@.len() - i,
    {
        let e = &entries[i];
        match validate_entry(e) {
            Ok(record) => {
                out.push(ConfigEntry { key: e.key.clone(), record });
            },
            Err(err) => {
                proof {
                    assert(!((t[i as int]).1 is Some && valid_fields(t[i as int].1->Some_0)));
                }
                return Err(err);
            },
        }
        i = i + 1;
    }
    proof {
        assert(config_view(out@) =~= table_config(t));
    }
    Ok(out)
}

/// Load the configuration: parse the document text, then validate it against
/// the variant schema. Any parse or schema failure is one malformed-
/// configuration error; on success the entries carry distinct keys, in the
/// reader's order.
pub fn load_config(text: &str) -> (r: Result<Vec<ConfigEntry>, ToolError>)
    ensures
        r is Ok <==> (toml_entries(text@) is Some && table_valid(toml_entries(text@)->Some_0)),
        r is Ok ==> config_view(r->Ok_0@) == table_config(toml_entries(text@)->Some_0),
        r is Ok ==> distinct_config_keys(config_view(r->Ok_0@)),
        r is Err ==> r->Err_0 is ConfigMalformed,
{
    let entries = match parse_toml(text) {
        Some(es) => es,
        None => {
            return Err(ToolError::ConfigMalformed);
        },
    };
    let r = validate_config(&entries);
    proof {
        let t = raw_entries_view(entries@);
        if r is Ok {
            let c = config_view(r->Ok_0@);
            assert forall|i: int, j: int| 0 <= i < j < c.len() implies c[i].key != c[j].key by {
                assert(c[i] == table_config(t)[i]);
                assert(c[j] == table_config(t)[j]);
            }
        }
    }
    r
}

} // verus!
