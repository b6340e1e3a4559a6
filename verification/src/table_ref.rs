//! Table references, and telling a table-valued function call from a plain
//! table name.

use sqlparser::ast::TableFactor;
use sqlparser::dialect::DuckDbDialect;
use sqlparser::parser::Parser;
use sqlparser::tokenizer::{Token, Tokenizer};
use vstd::prelude::*;

verus! {

/// A reference to a table: bare, qualified by a schema, or qualified by a
/// catalog and a schema.
#[derive(Debug, PartialEq, Eq)]
pub enum TableReference {
    Bare { table: String },
    Partial { schema: String, table: String },
    Full { catalog: String, schema: String, table: String },
}

/// What the parser made of a reference's tokens.
#[derive(Clone, Copy, Debug, PartialEq, Eq, Structural)]
pub enum ParsedFactor {
    /// The tokens are no table factor.
    Invalid,
    /// A named table. Where an argument list follows the name, `args` holds
    /// the number of its arguments.
    Table { args: Option<usize> },
    /// A table factor of any other kind.
    Other,
}

/// A token of the SQL tokenizer, carried from the tokenizer to the parser.
#[verifier::external_type_specification]
#[verifier::external_body]
pub struct ExToken(Token);

/// The tokens that the tokenizer reads from `text` under the engine's
/// dialect, or `None` where it rejects the text.
pub uninterp spec fn dialect_tokens(text: Seq<char>) -> Option<Seq<Token>>;

/// What the parser reads from `tokens` as a single table factor under the
/// engine's dialect.
pub uninterp spec fn parsed_factor(tokens: Seq<Token>) -> ParsedFactor;

/// Whether `c` is alphabetic or numeric in Unicode's sense.
pub uninterp spec fn alphanumeric(c: char) -> bool;

/// `char::is_alphanumeric` decides whether a character is alphabetic or
/// numeric; its result has the name `alphanumeric`.
pub assume_specification[ char::is_alphanumeric ](c: char) -> (r: bool)
    ensures
        r == alphanumeric(c),
;

/// Tokenizes `text` with `Tokenizer::tokenize` under the DuckDB dialect.
/// `None` stands for the tokenizer's error.
#[verifier::external_body]
fn tokenize(text: &str) -> (r: Option<Vec<Token>>)
    ensures
        match r {
            Some(tokens) => dialect_tokens(text@) == Some(tokens@),
            None => dialect_tokens(text@) is None,
        },
{
    Tokenizer::new(&DuckDbDialect {}, text).tokenize().ok()
}

/// Parses `tokens` with `Parser::parse_table_factor` under the DuckDB
/// dialect. A parse error is `Invalid`; of a named table the result keeps
/// whether an argument list was read and how many arguments it holds.
#[verifier::external_body]
fn parse_table_factor(tokens: Vec<Token>) -> (r: ParsedFactor)
    ensures
        r == parsed_factor(tokens@),
{
    match Parser::new(&DuckDbDialect {}).with_tokens(tokens).parse_table_factor() {
        Ok(TableFactor::Table { args, .. }) => ParsedFactor::Table {
            args: args.map(|list| list.args.len()),
        },
        Ok(_) => ParsedFactor::Other,
        Err(_) => ParsedFactor::Invalid,
    }
}

impl ParsedFactor {
    /// Whether the factor is a named table that carries an argument list,
    /// be it empty.
    pub open spec fn function_call(self) -> bool {
        self matches ParsedFactor::Table { args } && args is Some
    }

    /// Whether the factor is a named table that carries an argument list.
    pub fn is_function_call(&self) -> (r: bool)
        ensures
            r == self.function_call(),
    {
        match self {
            ParsedFactor::Table { args } => args.is_some(),
            _ => false,
        }
    }
}

/// How a bare reference's text classifies: as a function call iff it
/// tokenizes and its tokens parse as a named table with an argument list.
pub open spec fn function_text(text: Seq<char>) -> bool {
    match dialect_tokens(text) {
        Some(tokens) => parsed_factor(tokens).function_call(),
        None => false,
    }
}

/// The name that stands for a function call where a plain identifier is
/// expected: `c` itself, or an underscore for an opening parenthesis.
pub open spec fn flat_char(c: char) -> char {
    if c == '(' {
        '_'
    } else {
        c
    }
}

/// Whether `c` survives flattening.
pub open spec fn flat_kept(c: char) -> bool {
    alphanumeric(c) || c == '('
}

/// The flattened form of `name`: its alphanumeric characters and opening
/// parentheses, each parenthesis turned into an underscore.
pub open spec fn flattened(name: Seq<char>) -> Seq<char> {
    name.filter(|c: char| flat_kept(c)).map_values(|c: char| flat_char(c))
}

impl TableReference {
    /// The bare reference to `table`.
    pub fn bare(table: String) -> (r: TableReference)
        ensures
            r == (TableReference::Bare { table }),
    {
        TableReference::Bare { table }
    }

    /// The reference to `table` in `schema`.
    pub fn partial(schema: String, table: String) -> (r: TableReference)
        ensures
            r == (TableReference::Partial { schema, table }),
    {
        TableReference::Partial { schema, table }
    }

    /// The reference to `table` in `schema` of `catalog`.
    pub fn full(catalog: String, schema: String, table: String) -> (r: TableReference)
        ensures
            r == (TableReference::Full { catalog, schema, table }),
    {
        TableReference::Full { catalog, schema, table }
    }

    /// The table part of the reference.
    pub open spec fn table_name(self) -> Seq<char> {
        match self {
            TableReference::Bare { table } => table@,
            TableReference::Partial { table, .. } => table@,
            TableReference::Full { table, .. } => table@,
        }
    }

    /// Whether the reference classifies as a table-valued function call.
    /// Only a bare reference can.
    pub open spec fn table_function(self) -> bool {
        match self {
            TableReference::Bare { table } => function_text(table@),
            _ => false,
        }
    }

    /// The table part of the reference.
    pub fn table(&self) -> (r: &str)
        ensures
            r@ == self.table_name(),
    {
        match self {
            TableReference::Bare { table } => table.as_str(),
            TableReference::Partial { table, .. } => table.as_str(),
            TableReference::Full { table, .. } => table.as_str(),
        }
    }
}

/// Classifies a bare reference's text from what the tokenizer and the
/// parser made of it.
pub fn classify(parsed: Option<ParsedFactor>) -> (r: bool)
    ensures
        r == (parsed matches Some(factor) && factor.function_call()),
{
    match parsed {
        Some(factor) => factor.is_function_call(),
        None => false,
    }
}

/// Whether the reference is a table-valued function call rather than a
/// plain table name. A qualified reference never is; a bare one is iff it
/// tokenizes and parses as a named table with an argument list.
pub fn is_table_function(table_reference: &TableReference) -> (r: bool)
    ensures
        r == table_reference.table_function(),
        !(table_reference is Bare) ==> !r,
{
    match table_reference {
        TableReference::Bare { table } => {
            let parsed = match tokenize(table.as_str()) {
                Some(tokens) => Some(parse_table_factor(tokens)),
                None => None,
            };
            classify(parsed)
        },
        _ => false,
    }
}

/// A name that can stand for a function call where a plain identifier is
/// expected: the flattened table part, followed by `__view`.
pub fn flatten_table_function_name(table_reference: &TableReference) -> (r: String)
    ensures
        r@ == flattened(table_reference.table_name()) + "__view"@,
{
    let name = table_reference.table();
    let length = name.unicode_len();
    let mut flat = String::new();
    let mut i: usize = 0;
    while i < length
        invariant
            i <= length,
            length == name@.len(),
            flat@ == flattened(name@.take(i as int)),
        decreases length - i,
    {
        let c = name.get_char(i);
        proof {
            lemma_flattened_push(name@.take(i as int), c);
            assert(name@.take(i as int).push(c) == name@.take(i as int + 1));
        }
        if c.is_alphanumeric() || c == '(' {
            flat.push(if c == '(' { '_' } else { c });
        }
        i += 1;
    }
    assert(name@.take(i as int) == name@);
    flat.append("__view");
    flat
}

/// One more character at the end is flattened by itself.
proof fn lemma_flattened_push(name: Seq<char>, c: char)
    ensures
        flattened(name.push(c)) == if flat_kept(c) {
            flattened(name).push(flat_char(c))
        } else {
            flattened(name)
        },
{
    reveal(Seq::filter);
    assert(name.push(c).drop_last() == name);
}

} // verus!
