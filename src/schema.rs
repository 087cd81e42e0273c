//! Table schemas: typed, named columns with string metadata.
use vstd::prelude::*;

verus! {

/// Column data types.
#[derive(Debug, Clone, Copy, PartialEq, Eq, Structural)]
pub enum SimpleDataType {
    Null,
    Boolean,
    Int8,
    Int16,
    Int32,
    Int64,
    UInt8,
    UInt16,
    UInt32,
    UInt64,
    Float32,
    Float64,
    Utf8,
    Binary,
    Timestamp,
}

/// Metadata pairs as mathematical values.
pub open spec fn pairs_view(m: Seq<(String, String)>) -> Seq<(Seq<char>, Seq<char>)> {
    m.map_values(|p: (String, String)| (p.0@, p.1@))
}

/// The value stored under `key` (keys are unique).
pub open spec fn meta_get(m: Seq<(Seq<char>, Seq<char>)>, key: Seq<char>) -> Option<Seq<char>>
    decreases m.len(),
{
    if m.len() == 0 {
        None
    } else if m[0].0 == key {
        Some(m[0].1)
    } else {
        meta_get(m.drop_first(), key)
    }
}

/// No key occurs twice.
pub open spec fn unique_keys(m: Seq<(Seq<char>, Seq<char>)>) -> bool {
    forall|i: int, j: int| 0 <= i < j < m.len() ==> m[i].0 != m[j].0
}

/// A column of a table.
#[derive(Debug, Clone)]
pub struct ColumnSchema {
    pub name: String,
    pub data_type: SimpleDataType,
    pub nullable: bool,
    pub metadata: Vec<(String, String)>,
}

/// A table: its name, its columns in order, and metadata.
#[derive(Debug, Clone)]
pub struct TableSchema {
    pub name: String,
    pub columns: Vec<ColumnSchema>,
    pub metadata: Vec<(String, String)>,
}

/// Summary of a stored table.
#[derive(Debug, Clone)]
pub struct TableStats {
    pub row_count: usize,
    pub column_count: usize,
    pub column_names: Vec<String>,
}

fn same_text(a: &str, b: &str) -> (r: bool)
    ensures
        r == (a@ == b@),
{
    String::from_str(a) == String::from_str(b)
}

/// Position of `key` in `m`, if it is there.
fn key_position(m: &Vec<(String, String)>, key: &str) -> (r: Option<usize>)
    ensures
        match r {
            Some(i) => i < m@.len() && m@[i as int].0@ == key@ && forall|j: int|
                0 <= j < i ==> m@[j].0@ != key@,
            None => forall|j: int| 0 <= j < m@.len() ==> m@[j].0@ != key@,
        },
{
    let mut i: usize = 0;
    while i < m.len()
        invariant
            i <= m@.len(),
            forall|j: int| 0 <= j < i ==> m@[j].0@ != key@,
        decreases m@.len() - i,
    {
        if same_text(m[i].0.as_str(), key) {
            return Some(i);
        }
        i += 1;
    }
    None
}

proof fn lemma_meta_get_at(m: Seq<(Seq<char>, Seq<char>)>, key: Seq<char>, i: int)
    requires
        0 <= i < m.len(),
        m[i].0 == key,
        forall|j: int| 0 <= j < i ==> m[j].0 != key,
    ensures
        meta_get(m, key) == Some(m[i].1),
    decreases i,
{
    if i > 0 {
        lemma_meta_get_at(m.drop_first(), key, i - 1);
    }
}

proof fn lemma_meta_get_absent(m: Seq<(Seq<char>, Seq<char>)>, key: Seq<char>)
    requires
        forall|j: int| 0 <= j < m.len() ==> m[j].0 != key,
    ensures
        meta_get(m, key) is None,
    decreases m.len(),
{
    if m.len() > 0 {
        lemma_meta_get_absent(m.drop_first(), key);
    }
}

/// Looks up the value of `key`.
fn meta_lookup<'a>(m: &'a Vec<(String, String)>, key: &str) -> (r: Option<&'a String>)
    ensures
        match r {
            Some(v) => meta_get(pairs_view(m@), key@) == Some(v@),
            None => meta_get(pairs_view(m@), key@) is None,
        },
{
    match key_position(m, key) {
        Some(i) => {
            proof {
                lemma_meta_get_at(pairs_view(m@), key@, i as int);
            }
            Some(&m[i].1)
        },
        None => {
            proof {
                lemma_meta_get_absent(pairs_view(m@), key@);
            }
            None
        },
    }
}

/// Stores `value` under `key`, replacing an earlier value of that key.
fn meta_insert(m: &mut Vec<(String, String)>, key: String, value: String)
    ensures
        meta_get(pairs_view(final(m)@), key@) == Some(value@),
        forall|k: Seq<char>| k != key@ ==> meta_get(pairs_view(final(m)@), k) == meta_get(
            pairs_view(old(m)@),
            k,
        ),
{
    let ghost kv = key@;
    let ghost vv = value@;
    match key_position(m, key.as_str()) {
        Some(i) => {
            m.set(i, (key, value));
            proof {
                let pm = pairs_view(m@);
                let po = pairs_view(old(m)@);
                assert(pm[i as int] == (kv, vv));
                assert forall|j: int| 0 <= j < i implies pm[j].0 != kv by {
                    assert(pm[j] == po[j]);
                }
                lemma_meta_get_at(pm, kv, i as int);
                assert forall|k: Seq<char>| k != kv implies meta_get(pm, k) == meta_get(po, k) by {
                    lemma_meta_get_other(po, pm, k, i as int);
                }
            }
        },
        None => {
            m.push((key, value));
            proof {
                let pm = pairs_view(m@);
                let po = pairs_view(old(m)@);
                assert(pm == po.push((kv, vv)));
                lemma_meta_get_at(pm, kv, po.len() as int);
                assert forall|k: Seq<char>| k != kv implies meta_get(pm, k) == meta_get(po, k) by {
                    lemma_meta_get_push(po, kv, vv, k);
                }
            }
        },
    }
}

proof fn lemma_meta_get_other(
    a: Seq<(Seq<char>, Seq<char>)>,
    b: Seq<(Seq<char>, Seq<char>)>,
    k: Seq<char>,
    i: int,
)
    requires
        a.len() == b.len(),
        0 <= i < a.len(),
        a[i].0 == b[i].0,
        a[i].0 != k,
        forall|j: int| 0 <= j < a.len() && j != i ==> a[j] == b[j],
    ensures
        meta_get(a, k) == meta_get(b, k),
    decreases a.len(),
{
    if a.len() > 0 && i > 0 {
        lemma_meta_get_other(a.drop_first(), b.drop_first(), k, i - 1);
    } else if a.len() > 0 {
        assert(a.drop_first() == b.drop_first());
    }
}

proof fn lemma_meta_get_push(
    a: Seq<(Seq<char>, Seq<char>)>,
    key: Seq<char>,
    value: Seq<char>,
    k: Seq<char>,
)
    requires
        k != key,
    ensures
        meta_get(a.push((key, value)), k) == meta_get(a, k),
    decreases a.len(),
{
    if a.len() > 0 {
        assert(a.push((key, value)).drop_first() =~= a.drop_first().push((key, value)));
        assert(a.push((key, value))[0] == a[0]);
        lemma_meta_get_push(a.drop_first(), key, value, k);
    } else {
        let one = a.push((key, value));
        assert(one.drop_first() =~= Seq::<(Seq<char>, Seq<char>)>::empty());
        assert(one[0].0 != k);
        assert(meta_get(one.drop_first(), k) is None);
    }
}

impl ColumnSchema {
    /// A nullable column without metadata.
    pub fn new_simple(name: String, data_type: SimpleDataType) -> (r: ColumnSchema)
        ensures
            r.name == name,
            r.data_type == data_type,
            r.nullable,
            r.metadata@.len() == 0,
    {
        ColumnSchema { name, data_type, nullable: true, metadata: Vec::new() }
    }

    /// The same column with nullability set.
    pub fn with_nullable(self, nullable: bool) -> (r: ColumnSchema)
        ensures
            r == (ColumnSchema { nullable, ..self }),
    {
        ColumnSchema { nullable, ..self }
    }

    /// The same column with `key` set to `value` in its metadata.
    pub fn with_metadata(self, key: &str, value: &str) -> (r: ColumnSchema)
        ensures
            r.name == self.name,
            r.data_type == self.data_type,
            r.nullable == self.nullable,
            meta_get(pairs_view(r.metadata@), key@) == Some(value@),
            forall|k: Seq<char>| k != key@ ==> meta_get(pairs_view(r.metadata@), k) == meta_get(
                pairs_view(self.metadata@),
                k,
            ),
    {
        let mut c = self;
        meta_insert(&mut c.metadata, String::from_str(key), String::from_str(value));
        c
    }

    /// The metadata value of `key`, if set.
    pub fn get_metadata(&self, key: &str) -> (r: Option<&String>)
        ensures
            match r {
                Some(v) => meta_get(pairs_view(self.metadata@), key@) == Some(v@),
                None => meta_get(pairs_view(self.metadata@), key@) is None,
            },
    {
        meta_lookup(&self.metadata, key)
    }
}

/// Names of the columns, in order.
pub open spec fn names_of(cols: Seq<ColumnSchema>) -> Seq<Seq<char>> {
    cols.map_values(|c: ColumnSchema| c.name@)
}

/// Index of the first column named `name`.
pub open spec fn first_named(cols: Seq<ColumnSchema>, name: Seq<char>, i: int) -> bool {
    0 <= i < cols.len() && cols[i].name@ == name && forall|j: int|
        0 <= j < i ==> cols[j].name@ != name
}

impl TableSchema {
    /// A table without columns or metadata.
    pub fn new(name: String) -> (r: TableSchema)
        ensures
            r.name == name,
            r.columns@.len() == 0,
            r.metadata@.len() == 0,
    {
        TableSchema { name, columns: Vec::new(), metadata: Vec::new() }
    }

    /// The same table with `column` appended.
    pub fn add_column(self, column: ColumnSchema) -> (r: TableSchema)
        ensures
            r.name == self.name,
            r.columns@ == self.columns@.push(column),
            r.metadata == self.metadata,
    {
        let mut t = self;
        t.columns.push(column);
        t
    }

    /// The same table with `key` set to `value` in its metadata.
    pub fn with_metadata(self, key: &str, value: &str) -> (r: TableSchema)
        ensures
            r.name == self.name,
            r.columns == self.columns,
            meta_get(pairs_view(r.metadata@), key@) == Some(value@),
            forall|k: Seq<char>| k != key@ ==> meta_get(pairs_view(r.metadata@), k) == meta_get(
                pairs_view(self.metadata@),
                k,
            ),
    {
        let mut t = self;
        meta_insert(&mut t.metadata, String::from_str(key), String::from_str(value));
        t
    }

    /// The first column named `name`.
    pub fn get_column(&self, name: &str) -> (r: Option<&ColumnSchema>)
        ensures
            match r {
                Some(c) => exists|i: int| first_named(self.columns@, name@, i) && *c
                    == self.columns@[i],
                None => forall|j: int|
                    0 <= j < self.columns@.len() ==> self.columns@[j].name@ != name@,
            },
    {
        match self.get_column_index(name) {
            Some(i) => Some(&self.columns[i]),
            None => None,
        }
    }

    /// Position of the first column named `name`.
    pub fn get_column_index(&self, name: &str) -> (r: Option<usize>)
        ensures
            match r {
                Some(i) => first_named(self.columns@, name@, i as int),
                None => forall|j: int|
                    0 <= j < self.columns@.len() ==> self.columns@[j].name@ != name@,
            },
    {
        let mut i: usize = 0;
        while i < self.columns.len()
            invariant
                i <= self.columns@.len(),
                forall|j: int| 0 <= j < i ==> self.columns@[j].name@ != name@,
            decreases self.columns@.len() - i,
        {
            if same_text(self.columns[i].name.as_str(), name) {
                return Some(i);
            }
            i += 1;
        }
        None
    }

    /// Names of the columns, in order.
    pub fn column_names(&self) -> (r: Vec<&str>)
        ensures
            r@.map_values(|s: &str| s@) == names_of(self.columns@),
    {
        let mut out: Vec<&str> = Vec::new();
        let mut i: usize = 0;
        while i < self.columns.len()
            invariant
                i <= self.columns@.len(),
                out@.map_values(|s: &str| s@) =~= names_of(self.columns@).subrange(0, i as int),
            decreases self.columns@.len() - i,
        {
            let ghost before = out@;
            out.push(self.columns[i].name.as_str());
            assert(out@.map_values(|s: &str| s@) =~= before.map_values(|s: &str| s@).push(
                self.columns@[i as int].name@,
            ));
            assert(names_of(self.columns@).subrange(0, i + 1) =~= names_of(
                self.columns@,
            ).subrange(0, i as int).push(self.columns@[i as int].name@));
            i += 1;
        }
        assert(names_of(self.columns@).subrange(0, i as int) =~= names_of(self.columns@));
        out
    }

    /// Number of columns.
    pub fn column_count(&self) -> (r: usize)
        ensures
            r == self.columns@.len(),
    {
        self.columns.len()
    }
}

/// Ready-made schemas for common tables.
pub struct SchemaBuilder;

fn column(name: &str, data_type: SimpleDataType, nullable: bool) -> (r: ColumnSchema)
    ensures
        r.name@ == name@,
        r.data_type == data_type,
        r.nullable == nullable,
        r.metadata@.len() == 0,
{
    ColumnSchema::new_simple(String::from_str(name), data_type).with_nullable(nullable)
}

/// The table has exactly these columns: names, types and nullability.
pub open spec fn has_columns(
    t: TableSchema,
    cols: Seq<(Seq<char>, SimpleDataType, bool)>,
) -> bool {
    t.columns@.len() == cols.len() && forall|i: int|
        0 <= i < cols.len() ==> t.columns@[i].name@ == cols[i].0 && t.columns@[i].data_type
            == cols[i].1 && t.columns@[i].nullable == cols[i].2
}

impl SchemaBuilder {
    /// `timeseries`: a required timestamp and a float value.
    pub fn time_series() -> (r: TableSchema)
        ensures
            r.name@ == "timeseries"@,
            has_columns(
                r,
                seq![
                    ("time"@, SimpleDataType::Timestamp, false),
                    ("value"@, SimpleDataType::Float64, true),
                ],
            ),
    {
        TableSchema::new(String::from_str("timeseries")).add_column(
            column("time", SimpleDataType::Timestamp, false),
        ).add_column(column("value", SimpleDataType::Float64, true))
    }

    /// `market_data`: time, symbol, price, size and side of each trade.
    pub fn market_data() -> (r: TableSchema)
        ensures
            r.name@ == "market_data"@,
            has_columns(
                r,
                seq![
                    ("time"@, SimpleDataType::Timestamp, false),
                    ("symbol"@, SimpleDataType::Utf8, true),
                    ("price"@, SimpleDataType::Float64, true),
                    ("size"@, SimpleDataType::Int64, true),
                    ("side"@, SimpleDataType::Utf8, true),
                ],
            ),
    {
        TableSchema::new(String::from_str("market_data")).add_column(
            column("time", SimpleDataType::Timestamp, false),
        ).add_column(column("symbol", SimpleDataType::Utf8, true)).add_column(
            column("price", SimpleDataType::Float64, true),
        ).add_column(column("size", SimpleDataType::Int64, true)).add_column(
            column("side", SimpleDataType::Utf8, true),
        )
    }

    /// `nodes`: a required id, a name and a type.
    pub fn graph_nodes() -> (r: TableSchema)
        ensures
            r.name@ == "nodes"@,
            has_columns(
                r,
                seq![
                    ("id"@, SimpleDataType::Int64, false),
                    ("name"@, SimpleDataType::Utf8, true),
                    ("type"@, SimpleDataType::Utf8, true),
                ],
            ),
    {
        TableSchema::new(String::from_str("nodes")).add_column(
            column("id", SimpleDataType::Int64, false),
        ).add_column(column("name", SimpleDataType::Utf8, true)).add_column(
            column("type", SimpleDataType::Utf8, true),
        )
    }

    /// `edges`: required source and target ids, a weight and a label.
    pub fn graph_edges() -> (r: TableSchema)
        ensures
            r.name@ == "edges"@,
            has_columns(
                r,
                seq![
                    ("src"@, SimpleDataType::Int64, false),
                    ("dst"@, SimpleDataType::Int64, false),
                    ("weight"@, SimpleDataType::Float64, true),
                    ("label"@, SimpleDataType::Utf8, true),
                ],
            ),
    {
        TableSchema::new(String::from_str("edges")).add_column(
            column("src", SimpleDataType::Int64, false),
        ).add_column(column("dst", SimpleDataType::Int64, false)).add_column(
            column("weight", SimpleDataType::Float64, true),
        ).add_column(column("label", SimpleDataType::Utf8, true))
    }
}

} // verus!
