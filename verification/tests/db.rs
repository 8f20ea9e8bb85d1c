use sqlbuilder::db::{
    table, ColumnList, JoinItem, JoinList, JoinType, OrderItem, OrderList, OrderType, QueryBuilder,
    QueryType, WhereCond, WhereList, WhereType,
};

#[test]
fn it_works() {
    println!(
        "{}",
        table("abc")
            .select()
            .column("a")
            .leftjoin("table_a")
            .eq("user_name", "jun")
            .eq("user_email", "mail")
            .asc("use_name")
            .get_sql()
    );
    assert_eq!(1 + 1, 2);
}

#[test]
fn render_is_deterministic_and_idempotent() {
    let mut b = table("abc");
    b.select().column("a").leftjoin("table_a").eq("user_name", "jun");
    let first = b.get_sql();
    let second = b.get_sql();
    assert_eq!(first, second);

    let mut c = table("abc");
    c.select().column("a").leftjoin("table_a").eq("user_name", "jun");
    assert_eq!(first, c.get_sql());
}

#[test]
fn columns_keep_insertion_order_and_exact_text() {
    let sql = table("t").select().column("a").column("b").column("a").get_sql();
    assert_eq!(sql, "SELECT  (a,b,a) FROM t  WHERE  ORDER BY ;");

    let sql = table("t").select().column(" A a ").get_sql();
    assert_eq!(sql, "SELECT  ( A a ) FROM t  WHERE  ORDER BY ;");
}

#[test]
fn eq_renders_equals_condition() {
    let sql = table("t").select().eq("x", "y").get_sql();
    assert_eq!(sql, "SELECT  () FROM t  WHERE x='y'  ORDER BY ;");
}

#[test]
fn neq_renders_not_equals_condition() {
    let sql = table("t").select().neq("x", "y").get_sql();
    assert_eq!(sql, "SELECT  () FROM t  WHERE x!='y'  ORDER BY ;");
}

#[test]
fn comparison_helpers_render_their_operators() {
    assert_eq!(
        table("t").select().ls("x", "y").get_sql(),
        "SELECT  () FROM t  WHERE x<'y'  ORDER BY ;"
    );
    assert_eq!(
        table("t").select().nls("x", "y").get_sql(),
        "SELECT  () FROM t  WHERE x>='y'  ORDER BY ;"
    );
    assert_eq!(
        table("t").select().gt("x", "y").get_sql(),
        "SELECT  () FROM t  WHERE x>'y'  ORDER BY ;"
    );
    assert_eq!(
        table("t").select().ngt("x", "y").get_sql(),
        "SELECT  () FROM t  WHERE x<='y'  ORDER BY ;"
    );
}

#[test]
fn cond_renders_custom_operator_verbatim() {
    let sql = table("t").select().cond("x", "<>", "y").get_sql();
    assert_eq!(sql, "SELECT  () FROM t  WHERE x<>'y'  ORDER BY ;");
}

#[test]
fn where_conditions_keep_call_order() {
    let sql = table("t").select().eq("a", "1").neq("b", "2").gt("c", "3").get_sql();
    assert_eq!(sql, "SELECT  () FROM t  WHERE a='1' AND b!='2' AND c>'3'  ORDER BY ;");
}

#[test]
fn bare_select_renders_empty_fragments() {
    let sql = table("t").select().get_sql();
    assert_eq!(sql, "SELECT  () FROM t  WHERE  ORDER BY ;");
}

#[test]
fn full_select_chain_renders_in_order() {
    let sql = table("users")
        .select()
        .column("name")
        .leftjoin("orders")
        .eq("users.id", "orders.uid")
        .asc("name")
        .get_sql();
    assert_eq!(
        sql,
        "SELECT  (name) FROM users LEFT JOIN orders WHERE users.id='orders.uid'  ORDER BY name ASC;"
    );
}

#[test]
fn last_kind_mark_wins() {
    let sql = table("t").select().update().get_sql();
    assert_eq!(sql, "UPDATE t SET  WHERE ;");

    let sql = table("t").update().select().get_sql();
    assert_eq!(sql, "SELECT  () FROM t  WHERE  ORDER BY ;");
}

#[test]
fn unset_kind_renders_empty_string() {
    let sql = table("t").get_sql();
    assert_eq!(sql, "");
}

#[test]
fn and_connected_conditions_all_appear_with_keyword() {
    let sql = table("t")
        .select()
        .eq("user_name", "jun")
        .eq("user_email", "mail")
        .get_sql();
    assert_eq!(
        sql,
        "SELECT  () FROM t  WHERE user_name='jun' AND user_email='mail'  ORDER BY ;"
    );
}

#[test]
fn joins_render_their_keywords_in_order() {
    let sql = table("t").select().join("j1").innerjoin("j2").get_sql();
    assert_eq!(sql, "SELECT  () FROM t JOIN j1 INNER JOIN j2 WHERE  ORDER BY ;");

    let sql = table("t").select().rightjoin("r").fulljoin("f").get_sql();
    assert_eq!(sql, "SELECT  () FROM t RIGHT JOIN r FULL JOIN f WHERE  ORDER BY ;");
}

#[test]
fn order_entries_render_in_call_order() {
    let sql = table("t").select().asc("a").desc("b").get_sql();
    assert_eq!(sql, "SELECT  () FROM t  WHERE  ORDER BY a ASC, b DESC;");
}

#[test]
fn orderby_ignores_its_direction_argument() {
    let sql = table("t").select().orderby("c", "DESC").get_sql();
    assert_eq!(sql, "SELECT  () FROM t  WHERE  ORDER BY c ASC;");
}

#[test]
fn update_with_conditions_renders_where_clause() {
    let sql = table("t").update().eq("x", "y").get_sql();
    assert_eq!(sql, "UPDATE t SET  WHERE x='y' ;");
}

fn bare_builder(kind: QueryType) -> QueryBuilder {
    QueryBuilder {
        query_type: kind,
        table_name: String::from("t"),
        columns: ColumnList::new(),
        joins: JoinList::new(),
        wheres: WhereList::new(),
        orders: OrderList::new(),
        distinct: false,
    }
}

#[test]
fn delete_kind_renders_delete_template() {
    let sql = bare_builder(QueryType::Delete).get_sql();
    assert_eq!(sql, "DELETE FROM t WHERE ;");
}

#[test]
fn insert_kind_renders_insert_template() {
    let mut b = bare_builder(QueryType::Insert);
    b.column("a").column("b");
    assert_eq!(b.get_sql(), "INSERT INTO t (a,b) VALUES ;");
}

#[test]
fn distinct_flag_renders_distinct_keyword() {
    let mut b = bare_builder(QueryType::Select);
    b.distinct = true;
    assert_eq!(b.get_sql(), "SELECT DISTINCT () FROM t  WHERE  ORDER BY ;");
}

#[test]
fn where_cond_to_string_quotes_right_hand_side() {
    let c = WhereCond {
        where_type: WhereType::And,
        left: String::from("a"),
        op: String::from("="),
        right: String::from("b"),
    };
    assert_eq!(c.to_string(), "a='b'");
}

#[test]
fn order_item_to_string_appends_direction() {
    let asc = OrderItem { order_type: OrderType::Asc, column: String::from("a") };
    assert_eq!(asc.to_string(), "a ASC");
    let desc = OrderItem { order_type: OrderType::Desc, column: String::from("a") };
    assert_eq!(desc.to_string(), "a DESC");
}

#[test]
fn join_item_to_string_uses_each_keyword() {
    let kinds = [
        (JoinType::Plain, "JOIN x"),
        (JoinType::Left, "LEFT JOIN x"),
        (JoinType::Right, "RIGHT JOIN x"),
        (JoinType::Inner, "INNER JOIN x"),
        (JoinType::Full, "FULL JOIN x"),
    ];
    for (kind, expected) in kinds {
        let item = JoinItem { join_type: kind, table: String::from("x") };
        assert_eq!(item.to_string(), expected);
    }
}

#[test]
fn empty_lists_render_their_fixed_prefixes() {
    assert_eq!(ColumnList::new().to_string(), "()");
    assert_eq!(WhereList::new().to_string(), "WHERE ");
    assert_eq!(OrderList::new().to_string(), "ORDER BY ");
    assert_eq!(JoinList::new().to_string(), "");
}

#[test]
fn where_list_renders_or_connector() {
    let mut ws = WhereList::new();
    ws.push_back(WhereCond {
        where_type: WhereType::And,
        left: String::from("a"),
        op: String::from("="),
        right: String::from("1"),
    });
    ws.push_back(WhereCond {
        where_type: WhereType::Or,
        left: String::from("b"),
        op: String::from("="),
        right: String::from("2"),
    });
    assert_eq!(ws.to_string(), "WHERE a='1' OR b='2' ");
}

#[test]
fn column_list_renders_pushed_names() {
    let mut cols = ColumnList::new();
    cols.push_back(String::from("a"));
    cols.push_back(String::from("b"));
    assert_eq!(cols.to_string(), "(a,b)");
}

#[test]
fn order_list_renders_pushed_items() {
    let mut os = OrderList::new();
    os.push_back(OrderItem { order_type: OrderType::Asc, column: String::from("a") });
    os.push_back(OrderItem { order_type: OrderType::Desc, column: String::from("b") });
    assert_eq!(os.to_string(), "ORDER BY a ASC, b DESC");
}

#[test]
fn join_list_renders_pushed_items() {
    let mut js = JoinList::new();
    js.push_back(JoinItem { join_type: JoinType::Plain, table: String::from("a") });
    js.push_back(JoinItem { join_type: JoinType::Left, table: String::from("b") });
    assert_eq!(js.to_string(), "JOIN a LEFT JOIN b");
}

#[test]
fn empty_table_name_is_accepted() {
    let sql = table("").select().get_sql();
    assert_eq!(sql, "SELECT  () FROM   WHERE  ORDER BY ;");
}
