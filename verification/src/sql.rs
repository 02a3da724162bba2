//! Implied-table expansion: qualifying every unqualified column of a query
//! with the one table of the write schema that carries it.

use vstd::prelude::*;

verus! {

/// A column reference: its name, the table qualifying it (if any), and the
/// function it is computed by (if any). Anonymous function columns have no
/// implied table other than themselves.
#[derive(Debug, PartialEq, Eq)]
pub struct Column {
    pub name: String,
    pub table: Option<String>,
    pub function: Option<String>,
}

/// A leaf of a condition: a column reference or a literal.
#[derive(Debug, PartialEq, Eq)]
pub enum ConditionBase {
    Field(Column),
    Literal(String),
}

/// The operator joining the two arms of a condition tree.
#[derive(Clone, Copy, PartialEq, Eq, Structural, Debug)]
pub enum BinaryOperator {
    Equal,
    NotEqual,
    Less,
    LessOrEqual,
    Greater,
    GreaterOrEqual,
    And,
    Or,
}

/// A two-armed condition.
#[derive(Debug, PartialEq, Eq)]
pub struct ConditionTree {
    pub operator: BinaryOperator,
    pub left: Option<Box<ConditionExpression>>,
    pub right: Option<Box<ConditionExpression>>,
}

/// A WHERE-clause expression.
#[derive(Debug, PartialEq, Eq)]
pub enum ConditionExpression {
    ComparisonOp(ConditionTree),
    LogicalOp(ConditionTree),
    NegationOp(Box<ConditionExpression>),
    Base(ConditionBase),
}

/// The projected fields of a SELECT: either the unexpanded star or a list of
/// columns.
#[derive(Debug, PartialEq, Eq)]
pub enum FieldExpression {
    All,
    Cols(Vec<Column>),
}

/// A table reference.
#[derive(Debug, PartialEq, Eq)]
pub struct Table {
    pub name: String,
}

/// A SELECT query, as far as this pass reads it.
#[derive(Debug, PartialEq, Eq)]
pub struct SelectStatement {
    pub tables: Vec<Table>,
    pub fields: FieldExpression,
    pub where_clause: Option<ConditionExpression>,
}

/// An INSERT query; it cannot have implied tables and passes through
/// unchanged.
#[derive(Debug, PartialEq, Eq)]
pub struct InsertStatement {
    pub table: Table,
    pub fields: Vec<Column>,
}

/// A parsed query.
#[derive(Debug, PartialEq, Eq)]
pub enum SqlQuery {
    Insert(InsertStatement),
    Select(SelectStatement),
}

/// One table of the write schema: its name and its column names.
#[derive(Debug, PartialEq, Eq)]
pub struct SchemaTable {
    pub name: String,
    pub columns: Vec<String>,
}

/// The write schemas the pass resolves unqualified columns against.
#[derive(Debug, PartialEq, Eq)]
pub struct Schema {
    pub tables: Vec<SchemaTable>,
}

/// How many columns of one table carry the given name.
pub open spec fn count_matching(cols: Seq<String>, name: Seq<char>) -> nat
    decreases cols.len(),
{
    if cols.len() == 0 {
        0
    } else {
        count_matching(cols.drop_last(), name) + if cols.last()@ == name {
            1nat
        } else {
            0nat
        }
    }
}

/// The names of the tables that carry exactly one column of the given name,
/// in schema order.
pub open spec fn matching_tables(tables: Seq<SchemaTable>, name: Seq<char>) -> Seq<String>
    decreases tables.len(),
{
    if tables.len() == 0 {
        Seq::empty()
    } else {
        let rest = matching_tables(tables.drop_last(), name);
        if count_matching(tables.last().columns@, name) == 1 {
            rest.push(tables.last().name)
        } else {
            rest
        }
    }
}

/// A column name resolves when no table lists it twice and exactly one table
/// carries it.
pub open spec fn resolves(schema: Schema, name: Seq<char>) -> bool {
    &&& forall|i: int| 0 <= i < schema.tables@.len() ==> count_matching(
        (#[trigger] schema.tables@[i]).columns@,
        name,
    ) <= 1
    &&& matching_tables(schema.tables@, name).len() == 1
}

/// What translating one column yields: a column already qualified, or
/// computed by a function, is untouched; otherwise the one matching table is
/// filled in.
pub open spec fn translate_spec(c: Column, schema: Schema) -> Column {
    if c.table is Some || c.function is Some {
        c
    } else {
        Column { name: c.name, table: Some(matching_tables(schema.tables@, c.name@)[0]), function: c.function }
    }
}

/// Whether translating this column cannot fail: an unqualified, non-function
/// column must resolve.
pub open spec fn column_ok(c: Column, schema: Schema) -> bool {
    c.table is None && c.function is None ==> resolves(schema, c.name@)
}

/// What rewriting a condition yields: comparison arms translate their field
/// leaves, logical arms recurse, anything else is untouched.
pub open spec fn rewrite_cond_spec(schema: Schema, ce: ConditionExpression) -> ConditionExpression
    decreases ce,
{
    match ce {
        ConditionExpression::ComparisonOp(ct) => ConditionExpression::ComparisonOp(
            ConditionTree {
                operator: ct.operator,
                left: rewrite_arm_spec(schema, ct.left),
                right: rewrite_arm_spec(schema, ct.right),
            },
        ),
        ConditionExpression::LogicalOp(ct) => ConditionExpression::LogicalOp(
            ConditionTree {
                operator: ct.operator,
                left: match ct.left {
                    Some(l) => Some(Box::new(rewrite_cond_spec(schema, *l))),
                    None => None,
                },
                right: match ct.right {
                    Some(r) => Some(Box::new(rewrite_cond_spec(schema, *r))),
                    None => None,
                },
            },
        ),
        _ => ce,
    }
}

/// What rewriting one comparison arm yields: a field leaf is translated, any
/// other leaf kept, and a nested expression rewritten.
pub open spec fn rewrite_arm_spec(schema: Schema, o: Option<Box<ConditionExpression>>) -> Option<
    Box<ConditionExpression>,
>
    decreases o,
{
    match o {
        None => None,
        Some(b) => Some(
            Box::new(
                match *b {
                    ConditionExpression::Base(ConditionBase::Field(f)) => ConditionExpression::Base(
                        ConditionBase::Field(translate_spec(f, schema)),
                    ),
                    ConditionExpression::Base(b2) => ConditionExpression::Base(b2),
                    x => rewrite_cond_spec(schema, x),
                },
            ),
        ),
    }
}

/// Whether rewriting a condition translates only columns that resolve.
pub open spec fn cond_ok(ce: ConditionExpression, schema: Schema) -> bool
    decreases ce,
{
    match ce {
        ConditionExpression::ComparisonOp(ct) => arm_ok(ct.left, schema) && arm_ok(
            ct.right,
            schema,
        ),
        ConditionExpression::LogicalOp(ct) => (match ct.left {
            Some(l) => cond_ok(*l, schema),
            None => true,
        }) && (match ct.right {
            Some(r) => cond_ok(*r, schema),
            None => true,
        }),
        _ => true,
    }
}

/// Whether one comparison arm translates only columns that resolve.
pub open spec fn arm_ok(o: Option<Box<ConditionExpression>>, schema: Schema) -> bool
    decreases o,
{
    match o {
        None => true,
        Some(b) => match *b {
            ConditionExpression::Base(ConditionBase::Field(f)) => column_ok(f, schema),
            ConditionExpression::Base(_) => true,
            x => cond_ok(x, schema),
        },
    }
}

/// Translates one column against the schema: fills the implied table in.
pub fn translate_column(c: Column, schema: &Schema) -> (r: Column)
    requires
        column_ok(c, *schema),
    ensures
        r == translate_spec(c, *schema),
{
    if c.table.is_some() {
        return c;
    }
    if c.function.is_some() {
        return c;
    }
    let ghost tables0 = schema.tables@;
    let mut matches: Vec<String> = Vec::new();
    let mut i: usize = 0;
    while i < schema.tables.len()
        invariant
            i <= schema.tables@.len(),
            tables0 == schema.tables@,
            matches@ == matching_tables(tables0.take(i as int), c.name@),
        decreases schema.tables@.len() - i,
    {
        proof {
            assert(tables0.take(i + 1).drop_last() =~= tables0.take(i as int));
            assert(tables0.take(i + 1).last() == tables0[i as int]);
        }
        let ghost cols0 = schema.tables@[i as int].columns@;
        let mut cnt: usize = 0;
        let mut k: usize = 0;
        while k < schema.tables[i].columns.len()
            invariant
                i < schema.tables@.len(),
                tables0 == schema.tables@,
                cols0 == tables0[i as int].columns@,
                k <= cols0.len(),
                cnt <= k,
                cnt as nat == count_matching(cols0.take(k as int), c.name@),
            decreases cols0.len() - k,
        {
            proof {
                assert(cols0.take(k + 1).drop_last() =~= cols0.take(k as int));
                assert(cols0.take(k + 1).last() == cols0[k as int]);
            }
            if schema.tables[i].columns[k] == c.name {
                cnt += 1;
            }
            k += 1;
        }
        proof {
            assert(cols0.take(cols0.len() as int) =~= cols0);
        }
        if cnt == 1 {
            matches.push(schema.tables[i].name.clone());
        }
        i += 1;
    }
    proof {
        assert(tables0.take(tables0.len() as int) =~= tables0);
        assert(matches@ == matching_tables(tables0, c.name@));
        assert(matches@.len() == 1);
    }
    let t = matches.pop().unwrap();
    proof {
        assert(t == matching_tables(tables0, c.name@)[0]);
    }
    Column { name: c.name, table: Some(t), function: None }
}

/// Rewrites a WHERE-clause condition, translating the columns of comparison
/// arms and recursing through logical connectives.
pub fn rewrite_conditional(schema: &Schema, ce: ConditionExpression) -> (r: ConditionExpression)
    requires
        cond_ok(ce, *schema),
    ensures
        r == rewrite_cond_spec(*schema, ce),
    decreases ce,
{
    match ce {
        ConditionExpression::ComparisonOp(ct) => {
            let l = rewrite_arm(schema, ct.left);
            let r = rewrite_arm(schema, ct.right);
            ConditionExpression::ComparisonOp(
                ConditionTree { operator: ct.operator, left: l, right: r },
            )
        },
        ConditionExpression::LogicalOp(ct) => {
            let l = match ct.left {
                Some(lct) => Some(Box::new(rewrite_conditional(schema, *lct))),
                x => x,
            };
            let r = match ct.right {
                Some(rct) => Some(Box::new(rewrite_conditional(schema, *rct))),
                x => x,
            };
            ConditionExpression::LogicalOp(
                ConditionTree { operator: ct.operator, left: l, right: r },
            )
        },
        x => x,
    }
}

/// Rewrites one comparison arm.
fn rewrite_arm(schema: &Schema, o: Option<Box<ConditionExpression>>) -> (r: Option<Box<
    ConditionExpression,
>>)
    requires
        arm_ok(o, *schema),
    ensures
        r == rewrite_arm_spec(*schema, o),
    decreases o,
{
    match o {
        None => None,
        Some(b) => {
            let inner = match *b {
                ConditionExpression::Base(ConditionBase::Field(f)) => ConditionExpression::Base(
                    ConditionBase::Field(translate_column(f, schema)),
                ),
                ConditionExpression::Base(b2) => ConditionExpression::Base(b2),
                x => rewrite_conditional(schema, x),
            };
            Some(Box::new(inner))
        },
    }
}

/// Whether the whole query can be expanded: the star must already be
/// expanded, and every column this pass translates must resolve.
pub open spec fn query_ok(q: SqlQuery, schema: Schema) -> bool {
    match q {
        SqlQuery::Insert(_) => true,
        SqlQuery::Select(sq) => {
            &&& sq.fields matches FieldExpression::Cols(cs) ==> forall|i: int|
                0 <= i < cs@.len() ==> column_ok(#[trigger] cs@[i], schema)
            &&& !(sq.fields is All)
            &&& match sq.where_clause {
                Some(wc) => cond_ok(wc, schema),
                None => true,
            }
        },
    }
}

/// The expansion pass over a query.
pub trait ImpliedTableExpansion: Sized {
    /// When the pass is defined on this query.
    spec fn expandable(&self, schema: Schema) -> bool;

    /// What the pass yields.
    spec fn expansion_ok(&self, schema: Schema, r: SqlQuery) -> bool;

    /// Expands implied tables against the write schemas.
    fn expand_implied_tables(self, write_schemas: &Schema) -> (r: SqlQuery)
        requires
            self.expandable(*write_schemas),
        ensures
            self.expansion_ok(*write_schemas, r),
    ;
}

impl ImpliedTableExpansion for SqlQuery {
    open spec fn expandable(&self, schema: Schema) -> bool {
        query_ok(*self, schema)
    }

    /// An INSERT passes through unchanged; a SELECT keeps its tables, its
    /// field list is translated column by column, and its WHERE clause is
    /// rewritten.
    open spec fn expansion_ok(&self, schema: Schema, r: SqlQuery) -> bool {
        match *self {
            SqlQuery::Insert(_) => r == *self,
            SqlQuery::Select(sq) => {
                &&& r matches SqlQuery::Select(sq2) && ({
                    &&& sq2.tables == sq.tables
                    &&& sq.fields matches FieldExpression::Cols(cs) ==> (
                    sq2.fields matches FieldExpression::Cols(cs2) && cs2@ == cs@.map_values(
                        |c: Column| translate_spec(c, schema),
                    ))
                    &&& sq2.where_clause == (match sq.where_clause {
                        Some(wc) => Some(rewrite_cond_spec(schema, wc)),
                        None => None,
                    })
                })
            },
        }
    }

    fn expand_implied_tables(self, write_schemas: &Schema) -> (r: SqlQuery) {
        match self {
            SqlQuery::Insert(i) => SqlQuery::Insert(i),
            SqlQuery::Select(sq) => {
                let ghost sq0 = sq;
                let fields = match sq.fields {
                    FieldExpression::All => {
                        proof {
                            assert(false);
                        }
                        FieldExpression::All
                    },
                    FieldExpression::Cols(fs) => {
                        let ghost fs0 = fs@;
                        let mut fs = fs;
                        let mut out: Vec<Column> = Vec::new();
                        let n = fs.len();
                        let mut i: usize = 0;
                        while i < n
                            invariant
                                i <= n,
                                n == fs0.len(),
                                fs@ == fs0.skip(i as int),
                                forall|x: int| 0 <= x < fs0.len() ==> column_ok(
                                    #[trigger] fs0[x],
                                    *write_schemas,
                                ),
                                out@ == fs0.take(i as int).map_values(
                                    |c: Column| translate_spec(c, *write_schemas),
                                ),
                            decreases n - i,
                        {
                            proof {
                                assert(fs0.skip(i as int)[0] == fs0[i as int]);
                                assert(fs0.skip(i as int).remove(0) =~= fs0.skip(i + 1));
                            }
                            let c = fs.remove(0);
                            let t = translate_column(c, write_schemas);
                            out.push(t);
                            proof {
                                assert(fs0.take(i + 1).map_values(
                                    |c2: Column| translate_spec(c2, *write_schemas),
                                ) =~= fs0.take(i as int).map_values(
                                    |c2: Column| translate_spec(c2, *write_schemas),
                                ).push(translate_spec(fs0[i as int], *write_schemas)));
                            }
                            i += 1;
                        }
                        proof {
                            assert(fs0.take(n as int) =~= fs0);
                        }
                        FieldExpression::Cols(out)
                    },
                };
                let where_clause = match sq.where_clause {
                    None => None,
                    Some(wc) => Some(rewrite_conditional(write_schemas, wc)),
                };
                SqlQuery::Select(
                    SelectStatement { tables: sq.tables, fields, where_clause },
                )
            },
        }
    }
}

} // verus!
