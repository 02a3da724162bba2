use dataflow::sql::{
    BinaryOperator, Column, ConditionBase, ConditionExpression, ConditionTree, FieldExpression,
    ImpliedTableExpansion, Schema, SchemaTable, SelectStatement, SqlQuery, Table,
};

fn col(spec: &str) -> Column {
    match spec.find('.') {
        Some(i) => Column {
            name: spec[i + 1..].to_string(),
            table: Some(spec[..i].to_string()),
            function: None,
        },
        None => Column { name: spec.to_string(), table: None, function: None },
    }
}

fn table(name: &str) -> Table {
    Table { name: name.to_string() }
}

fn schema_table(name: &str, columns: &[&str]) -> SchemaTable {
    SchemaTable {
        name: name.to_string(),
        columns: columns.iter().map(|c| c.to_string()).collect(),
    }
}

#[test]
fn it_expands_implied_tables() {
    // SELECT name, title FROM users, articles WHERE users.id = author;
    // -->
    // SELECT users.name, articles.title FROM users, articles WHERE users.id = articles.author;
    let q = SelectStatement {
        tables: vec![table("users"), table("articles")],
        fields: FieldExpression::Cols(vec![col("name"), col("title")]),
        where_clause: Some(ConditionExpression::ComparisonOp(ConditionTree {
            operator: BinaryOperator::Equal,
            left: Some(Box::new(ConditionExpression::Base(ConditionBase::Field(col("users.id"))))),
            right: Some(Box::new(ConditionExpression::Base(ConditionBase::Field(col("author"))))),
        })),
    };
    let schema = Schema {
        tables: vec![
            schema_table("users", &["id", "name", "age"]),
            schema_table("articles", &["id", "title", "text", "author"]),
        ],
    };

    let res = SqlQuery::Select(q).expand_implied_tables(&schema);
    match res {
        SqlQuery::Select(tq) => {
            assert_eq!(
                tq.fields,
                FieldExpression::Cols(vec![col("users.name"), col("articles.title")])
            );
            assert_eq!(
                tq.where_clause,
                Some(ConditionExpression::ComparisonOp(ConditionTree {
                    operator: BinaryOperator::Equal,
                    left: Some(Box::new(ConditionExpression::Base(ConditionBase::Field(col(
                        "users.id"
                    ))))),
                    right: Some(Box::new(ConditionExpression::Base(ConditionBase::Field(col(
                        "articles.author"
                    ))))),
                }))
            );
        },
        // if we get anything other than a selection query back, something really weird is up
        _ => panic!(),
    }
}

#[test]
fn expansion_keeps_qualified_and_function_columns() {
    let func_col = || {
        let mut f = col("count");
        f.function = Some("count(all)".to_string());
        f
    };
    let q = SelectStatement {
        tables: vec![table("users")],
        fields: FieldExpression::Cols(vec![col("users.id"), func_col()]),
        where_clause: None,
    };
    let schema = Schema { tables: vec![schema_table("users", &["id"])] };
    match SqlQuery::Select(q).expand_implied_tables(&schema) {
        SqlQuery::Select(tq) => {
            assert_eq!(tq.fields, FieldExpression::Cols(vec![col("users.id"), func_col()]));
            assert_eq!(tq.where_clause, None);
        },
        _ => panic!(),
    }
}

#[test]
fn expansion_recurses_through_logical_operators() {
    let cmp = |l: &str, r: &str| {
        ConditionExpression::ComparisonOp(ConditionTree {
            operator: BinaryOperator::Equal,
            left: Some(Box::new(ConditionExpression::Base(ConditionBase::Field(col(l))))),
            right: Some(Box::new(ConditionExpression::Base(ConditionBase::Field(col(r))))),
        })
    };
    let q = SelectStatement {
        tables: vec![table("users"), table("articles")],
        fields: FieldExpression::Cols(vec![col("users.id")]),
        where_clause: Some(ConditionExpression::LogicalOp(ConditionTree {
            operator: BinaryOperator::And,
            left: Some(Box::new(cmp("name", "author"))),
            right: Some(Box::new(cmp("users.id", "title"))),
        })),
    };
    let schema = Schema {
        tables: vec![
            schema_table("users", &["id", "name"]),
            schema_table("articles", &["title", "author"]),
        ],
    };
    match SqlQuery::Select(q).expand_implied_tables(&schema) {
        SqlQuery::Select(tq) => {
            assert_eq!(
                tq.where_clause,
                Some(ConditionExpression::LogicalOp(ConditionTree {
                    operator: BinaryOperator::And,
                    left: Some(Box::new(cmp("users.name", "articles.author"))),
                    right: Some(Box::new(cmp("users.id", "articles.title"))),
                }))
            );
        },
        _ => panic!(),
    }
}

#[test]
fn insert_queries_pass_through_unchanged() {
    let q = SqlQuery::Insert(dataflow::sql::InsertStatement {
        table: table("users"),
        fields: vec![col("id"), col("name")],
    });
    let schema = Schema { tables: vec![schema_table("users", &["id", "name"])] };
    let expected = SqlQuery::Insert(dataflow::sql::InsertStatement {
        table: table("users"),
        fields: vec![col("id"), col("name")],
    });
    assert_eq!(q.expand_implied_tables(&schema), expected);
}
