//! Table identities: a table name with optional schema and catalog
//! qualification, its plain and its quoted SQL rendering.

use vstd::prelude::*;

verus! {

/// A table name, optionally qualified by a schema and a catalog.
#[derive(Clone, Debug, PartialEq, Eq)]
pub enum TableReference {
    /// An unqualified table name.
    Bare { table: String },
    /// A table name qualified by its schema.
    Partial { schema: String, table: String },
    /// A table name qualified by its catalog and schema.
    Full { catalog: String, schema: String, table: String },
}

impl View for TableReference {
    type V = Seq<Seq<char>>;

    /// The identifiers of the reference, outermost first: one, two or three of them.
    open spec fn view(&self) -> Seq<Seq<char>> {
        match self {
            TableReference::Bare { table } => seq![table@],
            TableReference::Partial { schema, table } => seq![schema@, table@],
            TableReference::Full { catalog, schema, table } => seq![catalog@, schema@, table@],
        }
    }
}

/// The identifiers joined by single dots.
pub open spec fn dotted(parts: Seq<Seq<char>>) -> Seq<char>
    decreases parts.len(),
{
    if parts.len() == 0 {
        Seq::<char>::empty()
    } else if parts.len() == 1 {
        parts[0]
    } else {
        dotted(parts.drop_last()) + seq!['.'] + parts.last()
    }
}

/// `c` may start an identifier that is written without quotes.
pub open spec fn starts_plain(c: char) -> bool {
    ('a' <= c && c <= 'z') || c == '_'
}

/// `c` may continue an identifier that is written without quotes.
pub open spec fn continues_plain(c: char) -> bool {
    starts_plain(c) || ('0' <= c && c <= '9')
}

/// The identifier is written as it stands: it is empty, or it starts with a
/// lower-case ASCII letter or an underscore and goes on with lower-case ASCII
/// letters, ASCII digits and underscores only.
pub open spec fn is_plain(identifier: Seq<char>) -> bool {
    &&& identifier.len() > 0 ==> starts_plain(identifier[0])
    &&& forall|i: int| 1 <= i < identifier.len() ==> continues_plain(#[trigger] identifier[i])
}

/// The identifier with every double quote doubled.
pub open spec fn doubled_quotes(identifier: Seq<char>) -> Seq<char>
    decreases identifier.len(),
{
    if identifier.len() == 0 {
        Seq::<char>::empty()
    } else if identifier.last() == '"' {
        doubled_quotes(identifier.drop_last()) + seq!['"', '"']
    } else {
        doubled_quotes(identifier.drop_last()) + seq![identifier.last()]
    }
}

/// The identifier as SQL text: unchanged where it is plain, otherwise between
/// double quotes with its own double quotes doubled.
pub open spec fn quoted_identifier(identifier: Seq<char>) -> Seq<char> {
    if is_plain(identifier) {
        identifier
    } else {
        seq!['"'] + doubled_quotes(identifier) + seq!['"']
    }
}

/// The quoted identifiers joined by single dots.
pub open spec fn quoted(parts: Seq<Seq<char>>) -> Seq<char> {
    dotted(parts.map_values(|identifier: Seq<char>| quoted_identifier(identifier)))
}

/// The identifiers that `datafusion` reads out of a dotted path; what
/// [`TableReference::parse_str`] returns, as a view.
pub uninterp spec fn parsed(path: Seq<char>) -> Seq<Seq<char>>;

/// `datafusion::sql::TableReference::to_quoted_string`, on the same identifiers.
/// The contract restates its source: each identifier goes through
/// `quote_identifier`, which leaves a plain identifier alone and otherwise
/// wraps it in double quotes, doubling the double quotes inside; the results
/// are joined by dots.
#[verifier::external_body]
fn datafusion_quoted(reference: &TableReference) -> (text: String)
    ensures
        text@ == quoted(reference@),
{
    let outside = match reference {
        TableReference::Bare { table } => datafusion::sql::TableReference::bare(table.as_str()),
        TableReference::Partial { schema, table } => {
            datafusion::sql::TableReference::partial(schema.as_str(), table.as_str())
        },
        TableReference::Full { catalog, schema, table } => {
            datafusion::sql::TableReference::full(catalog.as_str(), schema.as_str(), table.as_str())
        },
    };
    outside.to_quoted_string()
}

/// `datafusion::sql::TableReference::parse_str`: reads the path as a
/// multipart SQL identifier, and takes the whole path as a bare table name
/// where that fails. The identifiers it finds are named [`parsed`].
#[verifier::external_body]
fn datafusion_parsed(path: &str) -> (reference: TableReference)
    ensures
        reference@ == parsed(path@),
{
    match datafusion::sql::TableReference::parse_str(path) {
        datafusion::sql::TableReference::Bare { table } => TableReference::Bare {
            table: table.to_string(),
        },
        datafusion::sql::TableReference::Partial { schema, table } => TableReference::Partial {
            schema: schema.to_string(),
            table: table.to_string(),
        },
        datafusion::sql::TableReference::Full { catalog, schema, table } => TableReference::Full {
            catalog: catalog.to_string(),
            schema: schema.to_string(),
            table: table.to_string(),
        },
    }
}

impl TableReference {
    /// An unqualified reference to `table`.
    pub fn bare(table: String) -> (reference: Self)
        ensures
            reference == (TableReference::Bare { table }),
            reference@ == seq![table@],
    {
        TableReference::Bare { table }
    }

    /// A reference to `table` in `schema`.
    pub fn partial(schema: String, table: String) -> (reference: Self)
        ensures
            reference == (TableReference::Partial { schema, table }),
            reference@ == seq![schema@, table@],
    {
        TableReference::Partial { schema, table }
    }

    /// A reference to `table` in `schema` of `catalog`.
    pub fn full(catalog: String, schema: String, table: String) -> (reference: Self)
        ensures
            reference == (TableReference::Full { catalog, schema, table }),
            reference@ == seq![catalog@, schema@, table@],
    {
        TableReference::Full { catalog, schema, table }
    }

    /// The table name, without its qualification.
    pub fn table(&self) -> (name: &str)
        ensures
            name@ == self@.last(),
    {
        match self {
            TableReference::Bare { table } => table.as_str(),
            TableReference::Partial { table, .. } => table.as_str(),
            TableReference::Full { table, .. } => table.as_str(),
        }
    }

    /// The reference read out of a dotted path such as `schema.table`.
    pub fn parse_str(path: &str) -> (reference: Self)
        ensures
            reference@ == parsed(path@),
    {
        datafusion_parsed(path)
    }

    /// The reference as plain text: its identifiers joined by dots.
    pub fn to_string(&self) -> (text: String)
        ensures
            text@ == dotted(self@),
    {
        match self {
            TableReference::Bare { table } => table.clone(),
            TableReference::Partial { schema, table } => {
                let mut text = schema.clone();
                text.append(".");
                text.append(table.as_str());
                proof {
                    reveal_strlit(".");
                    assert("."@ =~= seq!['.']);
                    assert(self@.drop_last() =~= seq![schema@]);
                    reveal_with_fuel(dotted, 3);
                }
                text
            },
            TableReference::Full { catalog, schema, table } => {
                let mut text = catalog.clone();
                text.append(".");
                text.append(schema.as_str());
                text.append(".");
                text.append(table.as_str());
                proof {
                    reveal_strlit(".");
                    assert("."@ =~= seq!['.']);
                    assert(self@.drop_last() =~= seq![catalog@, schema@]);
                    assert(self@.drop_last().drop_last() =~= seq![catalog@]);
                    reveal_with_fuel(dotted, 4);
                }
                text
            },
        }
    }

    /// The reference as it is written inside a SQL statement: each identifier
    /// quoted where it needs it, joined by dots.
    pub fn to_quoted_string(&self) -> (text: String)
        ensures
            text@ == quoted(self@),
    {
        datafusion_quoted(self)
    }
}

/// A reference whose identifiers are all plain is written inside a
/// statement as it is written anywhere else: no identifier of it is quoted.
pub proof fn plain_reference_is_unquoted(parts: Seq<Seq<char>>)
    requires
        forall|i: int| 0 <= i < parts.len() ==> is_plain(#[trigger] parts[i]),
    ensures
        quoted(parts) == dotted(parts),
{
    assert(parts.map_values(|identifier: Seq<char>| quoted_identifier(identifier)) =~= parts);
}

/// An identifier that is not plain is written between double quotes, and at
/// least as long as it stands: quoting loses no character.
pub proof fn quoted_identifier_is_enclosed(identifier: Seq<char>)
    requires
        !is_plain(identifier),
    ensures
        quoted_identifier(identifier).first() == '"',
        quoted_identifier(identifier).last() == '"',
        quoted_identifier(identifier).len() >= identifier.len() + 2,
{
    lemma_doubled_quotes_len(identifier);
}

/// Doubling the double quotes drops no character.
proof fn lemma_doubled_quotes_len(identifier: Seq<char>)
    ensures
        doubled_quotes(identifier).len() >= identifier.len(),
    decreases identifier.len(),
{
    if identifier.len() > 0 {
        lemma_doubled_quotes_len(identifier.drop_last());
    }
}

} // verus!
