//! The query builder: a tagged statement kind plus four append-only lists
//! (columns, joins, where-conditions, order items) and a table name, with a
//! render step that serializes the accumulated state into one SQL string.

use vstd::prelude::*;

verus! {

/// Which SQL statement template the builder renders. Set by the mark
/// methods; the last call wins. `Unset` renders to an empty string.
#[derive(Clone)]
pub enum QueryType {
    Unset,
    Select,
    Insert,
    Update,
    Delete,
}

/// Logical combinator joining a where-condition to the previous one.
#[derive(Clone)]
pub enum WhereType {
    And,
    Or,
}

/// Sort direction of one ORDER BY item.
#[derive(Clone)]
pub enum OrderType {
    Desc,
    Asc,
}

/// Flavour of one JOIN fragment. `Plain` renders as a bare `JOIN`.
#[derive(Clone)]
pub enum JoinType {
    Plain,
    Left,
    Right,
    Inner,
    Full,
}

/// One comparison clause: `left op 'right'`, attached to the previous
/// clause by `where_type` when it is not the first in its list.
#[derive(Clone)]
pub struct WhereCond {
    pub where_type: WhereType,
    pub left: String,
    pub op: String,
    pub right: String,
}

/// One ORDER BY entry: a column name and its direction.
#[derive(Clone)]
pub struct OrderItem {
    pub order_type: OrderType,
    pub column: String,
}

/// One JOIN entry: the join flavour and the joined table's name.
#[derive(Clone)]
pub struct JoinItem {
    pub join_type: JoinType,
    pub table: String,
}

/// Ordered list of column names; insertion order is preserved and
/// duplicates are kept.
#[derive(Clone)]
pub struct ColumnList {
    pub columns: Vec<String>,
}

/// Ordered list of where-conditions.
#[derive(Clone)]
pub struct WhereList {
    pub wheres: Vec<WhereCond>,
}

/// Ordered list of ORDER BY entries.
#[derive(Clone)]
pub struct OrderList {
    pub orders: Vec<OrderItem>,
}

/// Ordered list of JOIN entries.
#[derive(Clone)]
pub struct JoinList {
    pub joins: Vec<JoinItem>,
}

/// The mutable accumulator for one in-progress query. Chained mutators
/// append to the lists or set the kind; `get_sql` renders the state.
#[derive(Clone)]
pub struct QueryBuilder {
    pub query_type: QueryType,
    pub table_name: String,
    pub columns: ColumnList,
    pub joins: JoinList,
    pub wheres: WhereList,
    pub orders: OrderList,
    pub distinct: bool,
}

impl View for ColumnList {
    type V = Seq<String>;

    open spec fn view(&self) -> Seq<String> {
        self.columns@
    }
}

impl View for WhereList {
    type V = Seq<WhereCond>;

    open spec fn view(&self) -> Seq<WhereCond> {
        self.wheres@
    }
}

impl View for OrderList {
    type V = Seq<OrderItem>;

    open spec fn view(&self) -> Seq<OrderItem> {
        self.orders@
    }
}

impl View for JoinList {
    type V = Seq<JoinItem>;

    open spec fn view(&self) -> Seq<JoinItem> {
        self.joins@
    }
}

/// Keyword text of a join flavour.
pub open spec fn join_kind_text(k: JoinType) -> Seq<char> {
    match k {
        JoinType::Plain => "JOIN"@,
        JoinType::Left => "LEFT JOIN"@,
        JoinType::Right => "RIGHT JOIN"@,
        JoinType::Inner => "INNER JOIN"@,
        JoinType::Full => "FULL JOIN"@,
    }
}

/// Keyword text (with its trailing space) of a connector.
pub open spec fn connector_text(w: WhereType) -> Seq<char> {
    match w {
        WhereType::And => "AND "@,
        WhereType::Or => "OR "@,
    }
}

/// Keyword text of a sort direction.
pub open spec fn order_kind_text(o: OrderType) -> Seq<char> {
    match o {
        OrderType::Desc => "DESC"@,
        OrderType::Asc => "ASC"@,
    }
}

/// Text of one condition: `left op 'right'`, the right-hand side quoted,
/// no spaces inserted around the operator.
pub open spec fn where_cond_text(c: WhereCond) -> Seq<char> {
    c.left@ + c.op@ + "'"@ + c.right@ + "'"@
}

/// Text of one ORDER BY entry: the column, a space, and the direction.
pub open spec fn order_item_text(o: OrderItem) -> Seq<char> {
    o.column@ + " "@ + order_kind_text(o.order_type)
}

/// Text of one JOIN entry: the join keyword, a space, and the table.
pub open spec fn join_item_text(j: JoinItem) -> Seq<char> {
    join_kind_text(j.join_type) + " "@ + j.table@
}

/// Comma-separated column names, in insertion order, without the
/// surrounding parentheses.
pub open spec fn columns_text(cols: Seq<String>) -> Seq<char>
    decreases cols.len(),
{
    if cols.len() == 0 {
        Seq::<char>::empty()
    } else if cols.len() == 1 {
        cols.last()@
    } else {
        columns_text(cols.drop_last()) + ","@ + cols.last()@
    }
}

/// The rendered column list: the names parenthesized, `()` when empty.
pub open spec fn column_list_text(cols: Seq<String>) -> Seq<char> {
    "("@ + columns_text(cols) + ")"@
}

/// The conditions in call order, each followed by a space, each but the
/// first preceded by its own connector keyword.
pub open spec fn wheres_text(ws: Seq<WhereCond>) -> Seq<char>
    decreases ws.len(),
{
    if ws.len() == 0 {
        Seq::<char>::empty()
    } else {
        wheres_text(ws.drop_last()) + (if ws.len() == 1 {
            Seq::<char>::empty()
        } else {
            connector_text(ws.last().where_type)
        }) + where_cond_text(ws.last()) + " "@
    }
}

/// The rendered where clause: the literal `WHERE ` keyword followed by
/// the conditions, kept even when no condition was added.
pub open spec fn where_list_text(ws: Seq<WhereCond>) -> Seq<char> {
    "WHERE "@ + wheres_text(ws)
}

/// The ORDER BY entries in call order, separated by `, `.
pub open spec fn orders_text(os: Seq<OrderItem>) -> Seq<char>
    decreases os.len(),
{
    if os.len() == 0 {
        Seq::<char>::empty()
    } else if os.len() == 1 {
        order_item_text(os.last())
    } else {
        orders_text(os.drop_last()) + ", "@ + order_item_text(os.last())
    }
}

/// The rendered ordering clause: the literal `ORDER BY ` keyword followed
/// by the entries, kept even when no entry was added.
pub open spec fn order_list_text(os: Seq<OrderItem>) -> Seq<char> {
    "ORDER BY "@ + orders_text(os)
}

/// The JOIN fragments in call order, separated by single spaces.
pub open spec fn joins_text(js: Seq<JoinItem>) -> Seq<char>
    decreases js.len(),
{
    if js.len() == 0 {
        Seq::<char>::empty()
    } else if js.len() == 1 {
        join_item_text(js.last())
    } else {
        joins_text(js.drop_last()) + " "@ + join_item_text(js.last())
    }
}

/// The DISTINCT keyword when the flag is set, nothing otherwise.
pub open spec fn distinct_text(d: bool) -> Seq<char> {
    if d {
        "DISTINCT"@
    } else {
        Seq::<char>::empty()
    }
}

/// Appending a column appends its exact text at the end of the rendered
/// list, after a comma when the list was not empty: rendering preserves
/// insertion order and the input strings.
pub proof fn lemma_columns_text_push(cols: Seq<String>, c: String)
    ensures
        columns_text(cols.push(c)) == if cols.len() == 0 {
            c@
        } else {
            columns_text(cols) + ","@ + c@
        },
{
    assert(cols.push(c).drop_last() =~= cols);
    assert(cols.push(c).last() == c);
    if cols.len() == 0 {
        assert(columns_text(cols.push(c)) == c@);
    }
}

/// Appending a condition appends its exact text at the end of the
/// rendered clause, preceded by its own connector keyword when it is not
/// the first: conditions appear in call order, each attributed to its
/// connector.
pub proof fn lemma_wheres_text_push(ws: Seq<WhereCond>, c: WhereCond)
    ensures
        wheres_text(ws.push(c)) == wheres_text(ws) + (if ws.len() == 0 {
            Seq::<char>::empty()
        } else {
            connector_text(c.where_type)
        }) + where_cond_text(c) + " "@,
{
    assert(ws.push(c).drop_last() =~= ws);
    assert(ws.push(c).last() == c);
}

/// Appending an ORDER BY entry appends its exact text at the end of the
/// rendered clause, after `, ` when the list was not empty.
pub proof fn lemma_orders_text_push(os: Seq<OrderItem>, o: OrderItem)
    ensures
        orders_text(os.push(o)) == if os.len() == 0 {
            order_item_text(o)
        } else {
            orders_text(os) + ", "@ + order_item_text(o)
        },
{
    assert(os.push(o).drop_last() =~= os);
    assert(os.push(o).last() == o);
}

/// Appending a JOIN entry appends its exact text at the end of the
/// rendered fragment list, after a space when the list was not empty.
pub proof fn lemma_joins_text_push(js: Seq<JoinItem>, j: JoinItem)
    ensures
        joins_text(js.push(j)) == if js.len() == 0 {
            join_item_text(j)
        } else {
            joins_text(js) + " "@ + join_item_text(j)
        },
{
    assert(js.push(j).drop_last() =~= js);
    assert(js.push(j).last() == j);
}

impl WhereCond {
    /// Renders this condition as `left op 'right'`.
    pub fn to_string(&self) -> (r: String)
        ensures
            r@ == where_cond_text(*self),
    {
        let mut rst = String::new();
        rst.append(self.left.as_str());
        rst.append(self.op.as_str());
        rst.append("'");
        rst.append(self.right.as_str());
        rst.append("'");
        proof {
            assert(rst@ =~= where_cond_text(*self));
        }
        rst
    }
}

impl OrderItem {
    /// Renders this entry as `column ASC` or `column DESC`.
    pub fn to_string(&self) -> (r: String)
        ensures
            r@ == order_item_text(*self),
    {
        let mut rst = String::new();
        rst.append(self.column.as_str());
        rst.append(" ");
        rst.append(
            match self.order_type {
                OrderType::Desc => "DESC",
                OrderType::Asc => "ASC",
            },
        );
        proof {
            assert(rst@ =~= order_item_text(*self));
        }
        rst
    }
}

impl JoinItem {
    /// Renders this entry as `<KIND> JOIN <table>`.
    pub fn to_string(&self) -> (r: String)
        ensures
            r@ == join_item_text(*self),
    {
        let mut rst = String::new();
        rst.append(
            match self.join_type {
                JoinType::Plain => "JOIN",
                JoinType::Left => "LEFT JOIN",
                JoinType::Right => "RIGHT JOIN",
                JoinType::Inner => "INNER JOIN",
                JoinType::Full => "FULL JOIN",
            },
        );
        rst.append(" ");
        rst.append(self.table.as_str());
        proof {
            assert(rst@ =~= join_item_text(*self));
        }
        rst
    }
}

impl WhereList {
    /// An empty condition list.
    pub fn new() -> (r: WhereList)
        ensures
            r@ == Seq::<WhereCond>::empty(),
    {
        WhereList { wheres: Vec::new() }
    }

    /// Renders `WHERE ` followed by every condition in call order, each
    /// ending in a space, each but the first led by its connector keyword.
    pub fn to_string(&self) -> (r: String)
        ensures
            r@ == where_list_text(self@),
    {
        let mut rst = String::new();
        rst.append("WHERE ");
        proof {
            assert(rst@ =~= "WHERE "@ + wheres_text(self.wheres@.take(0)));
        }
        let mut i: usize = 0;
        while i < self.wheres.len()
            invariant
                i <= self.wheres.len(),
                rst@ == "WHERE "@ + wheres_text(self.wheres@.take(i as int)),
            decreases self.wheres.len() - i,
        {
            if i == 0 {
                let cond = self.wheres[i].to_string();
                rst.append(cond.as_str());
            } else {
                rst.append(
                    match self.wheres[i].where_type {
                        WhereType::And => "AND ",
                        WhereType::Or => "OR ",
                    },
                );
                let cond = self.wheres[i].to_string();
                rst.append(cond.as_str());
            }
            rst.append(" ");
            proof {
                assert(self.wheres@.take(i as int).push(self.wheres@[i as int]) =~= self.wheres@
                    .take(i as int + 1));
                lemma_wheres_text_push(self.wheres@.take(i as int), self.wheres@[i as int]);
                assert(rst@ =~= "WHERE "@ + wheres_text(self.wheres@.take(i as int + 1)));
            }
            i += 1;
        }
        proof {
            assert(self.wheres@.take(self.wheres.len() as int) =~= self.wheres@);
        }
        rst
    }

    /// Appends one condition at the end of the list.
    pub fn push_back(&mut self, item: WhereCond)
        ensures
            final(self)@ == old(self)@.push(item),
    {
        self.wheres.push(item);
    }
}

impl ColumnList {
    /// An empty column list.
    pub fn new() -> (r: ColumnList)
        ensures
            r@ == Seq::<String>::empty(),
    {
        ColumnList { columns: Vec::new() }
    }

    /// Renders the parenthesized, comma-separated column names in
    /// insertion order; `()` when no column was added.
    pub fn to_string(&self) -> (r: String)
        ensures
            r@ == column_list_text(self@),
    {
        let mut rst = String::new();
        rst.append("(");
        proof {
            assert(rst@ =~= "("@ + columns_text(self.columns@.take(0)));
        }
        let mut i: usize = 0;
        while i < self.columns.len()
            invariant
                i <= self.columns.len(),
                rst@ == "("@ + columns_text(self.columns@.take(i as int)),
            decreases self.columns.len() - i,
        {
            if i == 0 {
                rst.append(self.columns[i].as_str());
            } else {
                rst.append(",");
                rst.append(self.columns[i].as_str());
            }
            proof {
                assert(self.columns@.take(i as int).push(self.columns@[i as int]) =~= self.columns@
                    .take(i as int + 1));
                lemma_columns_text_push(self.columns@.take(i as int), self.columns@[i as int]);
                assert(rst@ =~= "("@ + columns_text(self.columns@.take(i as int + 1)));
            }
            i += 1;
        }
        proof {
            assert(self.columns@.take(self.columns.len() as int) =~= self.columns@);
        }
        rst.append(")");
        proof {
            assert(rst@ =~= column_list_text(self@));
        }
        rst
    }

    /// Appends one column name at the end of the list; duplicates are
    /// kept.
    pub fn push_back(&mut self, item: String)
        ensures
            final(self)@ == old(self)@.push(item),
    {
        self.columns.push(item);
    }
}

impl OrderList {
    /// An empty ordering list.
    pub fn new() -> (r: OrderList)
        ensures
            r@ == Seq::<OrderItem>::empty(),
    {
        OrderList { orders: Vec::new() }
    }

    /// Renders `ORDER BY ` followed by the entries in call order,
    /// separated by `, `.
    pub fn to_string(&self) -> (r: String)
        ensures
            r@ == order_list_text(self@),
    {
        let mut rst = String::new();
        rst.append("ORDER BY ");
        proof {
            assert(rst@ =~= "ORDER BY "@ + orders_text(self.orders@.take(0)));
        }
        let mut i: usize = 0;
        while i < self.orders.len()
            invariant
                i <= self.orders.len(),
                rst@ == "ORDER BY "@ + orders_text(self.orders@.take(i as int)),
            decreases self.orders.len() - i,
        {
            if i == 0 {
                let item = self.orders[i].to_string();
                rst.append(item.as_str());
            } else {
                rst.append(", ");
                let item = self.orders[i].to_string();
                rst.append(item.as_str());
            }
            proof {
                assert(self.orders@.take(i as int).push(self.orders@[i as int]) =~= self.orders@
                    .take(i as int + 1));
                lemma_orders_text_push(self.orders@.take(i as int), self.orders@[i as int]);
                assert(rst@ =~= "ORDER BY "@ + orders_text(self.orders@.take(i as int + 1)));
            }
            i += 1;
        }
        proof {
            assert(self.orders@.take(self.orders.len() as int) =~= self.orders@);
        }
        rst
    }

    /// Appends one ORDER BY entry at the end of the list.
    pub fn push_back(&mut self, item: OrderItem)
        ensures
            final(self)@ == old(self)@.push(item),
    {
        self.orders.push(item);
    }
}

impl JoinList {
    /// An empty join list.
    pub fn new() -> (r: JoinList)
        ensures
            r@ == Seq::<JoinItem>::empty(),
    {
        JoinList { joins: Vec::new() }
    }

    /// Renders the JOIN fragments in call order, separated by single
    /// spaces; empty when no join was added.
    pub fn to_string(&self) -> (r: String)
        ensures
            r@ == joins_text(self@),
    {
        let mut rst = String::new();
        proof {
            assert(rst@ =~= joins_text(self.joins@.take(0)));
        }
        let mut i: usize = 0;
        while i < self.joins.len()
            invariant
                i <= self.joins.len(),
                rst@ == joins_text(self.joins@.take(i as int)),
            decreases self.joins.len() - i,
        {
            if i == 0 {
                let item = self.joins[i].to_string();
                rst.append(item.as_str());
            } else {
                rst.append(" ");
                let item = self.joins[i].to_string();
                rst.append(item.as_str());
            }
            proof {
                assert(self.joins@.take(i as int).push(self.joins@[i as int]) =~= self.joins@.take(
                    i as int + 1));
                lemma_joins_text_push(self.joins@.take(i as int), self.joins@[i as int]);
                assert(rst@ =~= joins_text(self.joins@.take(i as int + 1)));
            }
            i += 1;
        }
        proof {
            assert(self.joins@.take(self.joins.len() as int) =~= self.joins@);
        }
        rst
    }

    /// Appends one JOIN entry at the end of the list.
    pub fn push_back(&mut self, item: JoinItem)
        ensures
            final(self)@ == old(self)@.push(item),
    {
        self.joins.push(item);
    }
}

/// Constructs a fresh builder for `name`: kind `Unset`, all lists empty,
/// distinct off. Any table name, including the empty string, is accepted.
pub fn table(name: &str) -> (r: QueryBuilder)
    ensures
        r.query_type == QueryType::Unset,
        r.table_name@ == name@,
        r.columns@ == Seq::<String>::empty(),
        r.joins@ == Seq::<JoinItem>::empty(),
        r.wheres@ == Seq::<WhereCond>::empty(),
        r.orders@ == Seq::<OrderItem>::empty(),
        r.distinct == false,
{
    QueryBuilder {
        query_type: QueryType::Unset,
        table_name: name.to_owned(),
        columns: ColumnList { columns: Vec::new() },
        joins: JoinList { joins: Vec::new() },
        wheres: WhereList { wheres: Vec::new() },
        orders: OrderList { orders: Vec::new() },
        distinct: false,
    }
}

/// All fields but the kind agree between two builder states.
pub open spec fn same_but_kind(a: QueryBuilder, b: QueryBuilder) -> bool {
    &&& b.table_name == a.table_name
    &&& b.columns == a.columns
    &&& b.joins == a.joins
    &&& b.wheres == a.wheres
    &&& b.orders == a.orders
    &&& b.distinct == a.distinct
}

/// All fields but the column list agree between two builder states.
pub open spec fn same_but_columns(a: QueryBuilder, b: QueryBuilder) -> bool {
    &&& b.query_type == a.query_type
    &&& b.table_name == a.table_name
    &&& b.joins == a.joins
    &&& b.wheres == a.wheres
    &&& b.orders == a.orders
    &&& b.distinct == a.distinct
}

/// All fields but the join list agree between two builder states.
pub open spec fn same_but_joins(a: QueryBuilder, b: QueryBuilder) -> bool {
    &&& b.query_type == a.query_type
    &&& b.table_name == a.table_name
    &&& b.columns == a.columns
    &&& b.wheres == a.wheres
    &&& b.orders == a.orders
    &&& b.distinct == a.distinct
}

/// All fields but the condition list agree between two builder states.
pub open spec fn same_but_wheres(a: QueryBuilder, b: QueryBuilder) -> bool {
    &&& b.query_type == a.query_type
    &&& b.table_name == a.table_name
    &&& b.columns == a.columns
    &&& b.joins == a.joins
    &&& b.orders == a.orders
    &&& b.distinct == a.distinct
}

/// All fields but the ordering list agree between two builder states.
pub open spec fn same_but_orders(a: QueryBuilder, b: QueryBuilder) -> bool {
    &&& b.query_type == a.query_type
    &&& b.table_name == a.table_name
    &&& b.columns == a.columns
    &&& b.joins == a.joins
    &&& b.wheres == a.wheres
    &&& b.distinct == a.distinct
}

/// State `b` is state `a` with one more column, named `name`, at the end.
pub open spec fn adds_column(a: QueryBuilder, b: QueryBuilder, name: Seq<char>) -> bool {
    &&& same_but_columns(a, b)
    &&& b.columns@.len() == a.columns@.len() + 1
    &&& b.columns@.drop_last() == a.columns@
    &&& b.columns@.last()@ == name
}

/// State `b` is state `a` with one more join of flavour `kind` on `tbl`
/// at the end.
pub open spec fn adds_join(a: QueryBuilder, b: QueryBuilder, kind: JoinType, tbl: Seq<char>) -> bool {
    &&& same_but_joins(a, b)
    &&& b.joins@.len() == a.joins@.len() + 1
    &&& b.joins@.drop_last() == a.joins@
    &&& b.joins@.last().join_type == kind
    &&& b.joins@.last().table@ == tbl
}

/// State `b` is state `a` with one more And-connected condition
/// `left op 'right'` at the end.
pub open spec fn adds_where(
    a: QueryBuilder,
    b: QueryBuilder,
    left: Seq<char>,
    op: Seq<char>,
    right: Seq<char>,
) -> bool {
    &&& same_but_wheres(a, b)
    &&& b.wheres@.len() == a.wheres@.len() + 1
    &&& b.wheres@.drop_last() == a.wheres@
    &&& b.wheres@.last().where_type == WhereType::And
    &&& b.wheres@.last().left@ == left
    &&& b.wheres@.last().op@ == op
    &&& b.wheres@.last().right@ == right
}

/// State `b` is state `a` with one more ordering entry on `column` in
/// direction `dir` at the end.
pub open spec fn adds_order(a: QueryBuilder, b: QueryBuilder, dir: OrderType, column: Seq<char>) -> bool {
    &&& same_but_orders(a, b)
    &&& b.orders@.len() == a.orders@.len() + 1
    &&& b.orders@.drop_last() == a.orders@
    &&& b.orders@.last().order_type == dir
    &&& b.orders@.last().column@ == column
}

/// The full SQL text a builder state renders to: one template per kind,
/// the empty string for `Unset`. The SET clause of UPDATE and the VALUES
/// clause of INSERT are never populated: the builder keeps no assignment
/// or value state, so those templates stay structurally incomplete.
pub open spec fn sql_text(b: QueryBuilder) -> Seq<char> {
    match b.query_type {
        QueryType::Unset => Seq::<char>::empty(),
        QueryType::Select => "SELECT "@ + distinct_text(b.distinct) + " "@ + column_list_text(
            b.columns@,
        ) + " FROM "@ + b.table_name@ + " "@ + joins_text(b.joins@) + " "@ + where_list_text(
            b.wheres@,
        ) + " "@ + order_list_text(b.orders@) + ";"@,
        QueryType::Update => "UPDATE "@ + b.table_name@ + " SET "@ + " "@ + where_list_text(
            b.wheres@,
        ) + ";"@,
        QueryType::Insert => "INSERT INTO "@ + b.table_name@ + " "@ + column_list_text(b.columns@)
            + " VALUES "@ + ";"@,
        QueryType::Delete => "DELETE FROM "@ + b.table_name@ + " "@ + where_list_text(b.wheres@)
            + ";"@,
    }
}

/// Rendering is deterministic: the SQL text is a function of the builder
/// state alone, so any two renders of equal (for instance, unmutated)
/// builders yield the same string.
pub proof fn lemma_render_deterministic(b1: QueryBuilder, b2: QueryBuilder)
    requires
        b1 == b2,
    ensures
        sql_text(b1) == sql_text(b2),
{
}

impl QueryBuilder {
    /// Marks the builder as a SELECT statement. The last mark call wins,
    /// whatever kind was set before; nothing else changes.
    pub fn select(&mut self) -> (r: &mut Self)
        ensures
            *final(self) == *final(r),
            r.query_type == QueryType::Select,
            same_but_kind(*old(self), *r),
    {
        self.query_type = QueryType::Select;
        self
    }

    /// Marks the builder as an UPDATE statement. The last mark call wins,
    /// whatever kind was set before; nothing else changes.
    pub fn update(&mut self) -> (r: &mut Self)
        ensures
            *final(self) == *final(r),
            r.query_type == QueryType::Update,
            same_but_kind(*old(self), *r),
    {
        self.query_type = QueryType::Update;
        self
    }

    /// Appends `col` to the column list; duplicates are kept.
    pub fn column(&mut self, col: &str) -> (r: &mut Self)
        ensures
            *final(self) == *final(r),
            adds_column(*old(self), *r, col@),
    {
        self.columns.push_back(col.to_owned());
        proof {
            assert(self.columns@.drop_last() =~= old(self).columns@);
        }
        self
    }

    /// Appends a plain JOIN on `tbl`.
    pub fn join(&mut self, tbl: &str) -> (r: &mut Self)
        ensures
            *final(self) == *final(r),
            adds_join(*old(self), *r, JoinType::Plain, tbl@),
    {
        self.joins.push_back(JoinItem { join_type: JoinType::Plain, table: tbl.to_owned() });
        proof {
            assert(self.joins@.drop_last() =~= old(self).joins@);
        }
        self
    }

    /// Appends a LEFT JOIN on `tbl`.
    pub fn leftjoin(&mut self, tbl: &str) -> (r: &mut Self)
        ensures
            *final(self) == *final(r),
            adds_join(*old(self), *r, JoinType::Left, tbl@),
    {
        self.joins.push_back(JoinItem { join_type: JoinType::Left, table: tbl.to_owned() });
        proof {
            assert(self.joins@.drop_last() =~= old(self).joins@);
        }
        self
    }

    /// Appends a RIGHT JOIN on `tbl`.
    pub fn rightjoin(&mut self, tbl: &str) -> (r: &mut Self)
        ensures
            *final(self) == *final(r),
            adds_join(*old(self), *r, JoinType::Right, tbl@),
    {
        self.joins.push_back(JoinItem { join_type: JoinType::Right, table: tbl.to_owned() });
        proof {
            assert(self.joins@.drop_last() =~= old(self).joins@);
        }
        self
    }

    /// Appends an INNER JOIN on `tbl`.
    pub fn innerjoin(&mut self, tbl: &str) -> (r: &mut Self)
        ensures
            *final(self) == *final(r),
            adds_join(*old(self), *r, JoinType::Inner, tbl@),
    {
        self.joins.push_back(JoinItem { join_type: JoinType::Inner, table: tbl.to_owned() });
        proof {
            assert(self.joins@.drop_last() =~= old(self).joins@);
        }
        self
    }

    /// Appends a FULL JOIN on `tbl`.
    pub fn fulljoin(&mut self, tbl: &str) -> (r: &mut Self)
        ensures
            *final(self) == *final(r),
            adds_join(*old(self), *r, JoinType::Full, tbl@),
    {
        self.joins.push_back(JoinItem { join_type: JoinType::Full, table: tbl.to_owned() });
        proof {
            assert(self.joins@.drop_last() =~= old(self).joins@);
        }
        self
    }

    /// Appends an And-connected condition with a caller-chosen operator.
    pub fn cond(&mut self, left: &str, op: &str, right: &str) -> (r: &mut Self)
        ensures
            *final(self) == *final(r),
            adds_where(*old(self), *r, left@, op@, right@),
    {
        self.wheres.push_back(
            WhereCond {
                where_type: WhereType::And,
                left: left.to_owned(),
                op: op.to_owned(),
                right: right.to_owned(),
            },
        );
        proof {
            assert(self.wheres@.drop_last() =~= old(self).wheres@);
        }
        self
    }

    /// Appends the condition `left = 'right'`.
    pub fn eq(&mut self, left: &str, right: &str) -> (r: &mut Self)
        ensures
            *final(self) == *final(r),
            adds_where(*old(self), *r, left@, "="@, right@),
    {
        self.wheres.push_back(
            WhereCond {
                where_type: WhereType::And,
                left: left.to_owned(),
                op: "=".to_owned(),
                right: right.to_owned(),
            },
        );
        proof {
            assert(self.wheres@.drop_last() =~= old(self).wheres@);
        }
        self
    }

    /// Appends the condition `left != 'right'`.
    pub fn neq(&mut self, left: &str, right: &str) -> (r: &mut Self)
        ensures
            *final(self) == *final(r),
            adds_where(*old(self), *r, left@, "!="@, right@),
    {
        self.wheres.push_back(
            WhereCond {
                where_type: WhereType::And,
                left: left.to_owned(),
                op: "!=".to_owned(),
                right: right.to_owned(),
            },
        );
        proof {
            assert(self.wheres@.drop_last() =~= old(self).wheres@);
        }
        self
    }

    /// Appends the condition `left < 'right'`.
    pub fn ls(&mut self, left: &str, right: &str) -> (r: &mut Self)
        ensures
            *final(self) == *final(r),
            adds_where(*old(self), *r, left@, "<"@, right@),
    {
        self.wheres.push_back(
            WhereCond {
                where_type: WhereType::And,
                left: left.to_owned(),
                op: "<".to_owned(),
                right: right.to_owned(),
            },
        );
        proof {
            assert(self.wheres@.drop_last() =~= old(self).wheres@);
        }
        self
    }

    /// Appends the condition `left >= 'right'` ("not less than").
    pub fn nls(&mut self, left: &str, right: &str) -> (r: &mut Self)
        ensures
            *final(self) == *final(r),
            adds_where(*old(self), *r, left@, ">="@, right@),
    {
        self.wheres.push_back(
            WhereCond {
                where_type: WhereType::And,
                left: left.to_owned(),
                op: ">=".to_owned(),
                right: right.to_owned(),
            },
        );
        proof {
            assert(self.wheres@.drop_last() =~= old(self).wheres@);
        }
        self
    }

    /// Appends the condition `left > 'right'`.
    pub fn gt(&mut self, left: &str, right: &str) -> (r: &mut Self)
        ensures
            *final(self) == *final(r),
            adds_where(*old(self), *r, left@, ">"@, right@),
    {
        self.wheres.push_back(
            WhereCond {
                where_type: WhereType::And,
                left: left.to_owned(),
                op: ">".to_owned(),
                right: right.to_owned(),
            },
        );
        proof {
            assert(self.wheres@.drop_last() =~= old(self).wheres@);
        }
        self
    }

    /// Appends the condition `left <= 'right'` ("not greater than").
    pub fn ngt(&mut self, left: &str, right: &str) -> (r: &mut Self)
        ensures
            *final(self) == *final(r),
            adds_where(*old(self), *r, left@, "<="@, right@),
    {
        self.wheres.push_back(
            WhereCond {
                where_type: WhereType::And,
                left: left.to_owned(),
                op: "<=".to_owned(),
                right: right.to_owned(),
            },
        );
        proof {
            assert(self.wheres@.drop_last() =~= old(self).wheres@);
        }
        self
    }

    /// Appends an ordering entry on `col`. The direction argument is
    /// accepted but ignored: the entry is always recorded as ascending.
    #[allow(unused_variables)]
    pub fn orderby(&mut self, col: &str, order: &str) -> (r: &mut Self)
        ensures
            *final(self) == *final(r),
            adds_order(*old(self), *r, OrderType::Asc, col@),
    {
        self.orders.push_back(OrderItem { order_type: OrderType::Asc, column: col.to_owned() });
        proof {
            assert(self.orders@.drop_last() =~= old(self).orders@);
        }
        self
    }

    /// Appends an ascending ordering entry on `col`.
    pub fn asc(&mut self, col: &str) -> (r: &mut Self)
        ensures
            *final(self) == *final(r),
            adds_order(*old(self), *r, OrderType::Asc, col@),
    {
        self.orders.push_back(OrderItem { order_type: OrderType::Asc, column: col.to_owned() });
        proof {
            assert(self.orders@.drop_last() =~= old(self).orders@);
        }
        self
    }

    /// Appends a descending ordering entry on `col`.
    pub fn desc(&mut self, col: &str) -> (r: &mut Self)
        ensures
            *final(self) == *final(r),
            adds_order(*old(self), *r, OrderType::Desc, col@),
    {
        self.orders.push_back(OrderItem { order_type: OrderType::Desc, column: col.to_owned() });
        proof {
            assert(self.orders@.drop_last() =~= old(self).orders@);
        }
        self
    }

    /// Renders the accumulated state into one SQL string. Reads the
    /// builder only, so repeated calls return the same text.
    pub fn get_sql(&self) -> (r: String)
        ensures
            r@ == sql_text(*self),
    {
        match self.query_type {
            QueryType::Unset => String::new(),
            QueryType::Select => {
                let mut rst = String::new();
                rst.append("SELECT ");
                if self.distinct {
                    rst.append("DISTINCT");
                }
                proof {
                    assert(rst@ =~= "SELECT "@ + distinct_text(self.distinct));
                }
                rst.append(" ");
                let cols = self.columns.to_string();
                rst.append(cols.as_str());
                rst.append(" FROM ");
                rst.append(self.table_name.as_str());
                rst.append(" ");
                let joins = self.joins.to_string();
                rst.append(joins.as_str());
                rst.append(" ");
                let wheres = self.wheres.to_string();
                rst.append(wheres.as_str());
                rst.append(" ");
                let orders = self.orders.to_string();
                rst.append(orders.as_str());
                rst.append(";");
                proof {
                    assert(rst@ =~= sql_text(*self));
                }
                rst
            },
            QueryType::Update => {
                // The SET clause is never populated: the builder keeps no
                // assignment state.
                let mut rst = String::new();
                rst.append("UPDATE ");
                rst.append(self.table_name.as_str());
                rst.append(" SET ");
                rst.append(" ");
                let wheres = self.wheres.to_string();
                rst.append(wheres.as_str());
                rst.append(";");
                proof {
                    assert(rst@ =~= sql_text(*self));
                }
                rst
            },
            QueryType::Insert => {
                // The VALUES clause is never populated: the builder keeps
                // no value state.
                let mut rst = String::new();
                rst.append("INSERT INTO ");
                rst.append(self.table_name.as_str());
                rst.append(" ");
                let cols = self.columns.to_string();
                rst.append(cols.as_str());
                rst.append(" VALUES ");
                rst.append(";");
                proof {
                    assert(rst@ =~= sql_text(*self));
                }
                rst
            },
            QueryType::Delete => {
                let mut rst = String::new();
                rst.append("DELETE FROM ");
                rst.append(self.table_name.as_str());
                rst.append(" ");
                let wheres = self.wheres.to_string();
                rst.append(wheres.as_str());
                rst.append(";");
                proof {
                    assert(rst@ =~= sql_text(*self));
                }
                rst
            },
        }
    }
}

} // verus!
