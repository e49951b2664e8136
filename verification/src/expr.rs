//! The expression tree: its nodes, the mathematical value of a tree, and
//! what makes a tree well formed.

use vstd::prelude::*;

verus! {

/// How a call treats null inputs.
#[derive(Clone, Copy, Debug, PartialEq, Eq, Structural)]
pub enum NullTreatment {
    RespectNulls,
    IgnoreNulls,
}

/// The unit in which a window frame counts its bounds.
#[derive(Clone, Copy, Debug, PartialEq, Eq, Structural)]
pub enum FrameUnits {
    Rows,
    Range,
    Groups,
}

/// One end of a window frame, relative to the current row.
#[derive(Clone, Copy, Debug, PartialEq, Eq, Structural)]
pub enum FrameBound {
    UnboundedPreceding,
    Preceding(u64),
    CurrentRow,
    Following(u64),
    UnboundedFollowing,
}

/// The rows around the current row over which a window function is evaluated.
#[derive(Clone, Copy, Debug, PartialEq, Eq, Structural)]
pub struct WindowFrame {
    pub units: FrameUnits,
    pub start_bound: FrameBound,
    pub end_bound: FrameBound,
}

/// Where a function definition was found.
#[derive(Clone, Copy, Debug, PartialEq, Eq, Structural)]
pub enum FunctionSource {
    /// The engine's fixed set of built-in functions.
    Builtin,
    /// A session's registry of user-defined aggregate functions.
    SessionUdaf,
    /// A session's registry of window functions.
    SessionWindow,
    /// A session's registry of aggregate functions.
    SessionAggregate,
    /// The aggregate functions that the engine offers without a session.
    DefaultAggregate,
}

/// A reference to a function definition: the place it was found in and the
/// name it has there. Two handles are the same function when both agree.
#[derive(Debug, PartialEq, Eq)]
pub struct FunctionHandle {
    pub source: FunctionSource,
    pub name: String,
}

/// The mathematical value of a [`FunctionHandle`].
pub ghost struct HandleView {
    pub source: FunctionSource,
    pub name: Seq<char>,
}

impl View for FunctionHandle {
    type V = HandleView;

    open spec fn view(&self) -> HandleView {
        HandleView { source: self.source, name: self.name@ }
    }
}

/// A literal value with its type tag. `None` inside a typed variant is the
/// null of that type.
#[derive(Debug, PartialEq, Eq)]
pub enum ScalarValue {
    Null,
    Boolean(Option<bool>),
    Int32(Option<i32>),
    Int64(Option<i64>),
    Utf8(Option<String>),
}

/// The mathematical value of a [`ScalarValue`].
pub ghost enum ScalarView {
    Null,
    Boolean(Option<bool>),
    Int32(Option<i32>),
    Int64(Option<i64>),
    Utf8(Option<Seq<char>>),
}

impl View for ScalarValue {
    type V = ScalarView;

    open spec fn view(&self) -> ScalarView {
        match self {
            ScalarValue::Null => ScalarView::Null,
            ScalarValue::Boolean(b) => ScalarView::Boolean(*b),
            ScalarValue::Int32(i) => ScalarView::Int32(*i),
            ScalarValue::Int64(i) => ScalarView::Int64(*i),
            ScalarValue::Utf8(s) => ScalarView::Utf8(
                match s {
                    Some(text) => Some(text@),
                    None => None,
                },
            ),
        }
    }
}

/// One node of an expression tree. A node owns its children.
#[derive(Debug, PartialEq, Eq)]
#[allow(inconsistent_fields)]
pub enum Expr {
    /// A reference to a column, optionally qualified by its table.
    Column { relation: Option<String>, name: String },
    /// A literal value.
    Literal { value: ScalarValue },
    /// `inner` under another name.
    Alias { inner: Box<Expr>, name: String },
    /// A sort key. It belongs in an ordering list.
    Sort { inner: Box<Expr>, ascending: bool, nulls_first: bool },
    /// A call of a scalar function.
    ScalarCall { function_name: String, args: Vec<Expr> },
    /// A call of an aggregate function, with its optional clauses.
    AggregateCall {
        function: FunctionHandle,
        args: Vec<Expr>,
        distinct: bool,
        filter: Option<Box<Expr>>,
        order_by: Option<Vec<Expr>>,
        null_treatment: Option<NullTreatment>,
    },
    /// A call of a window function.
    WindowCall {
        function: FunctionHandle,
        args: Vec<Expr>,
        partition_by: Vec<Expr>,
        order_by: Vec<Expr>,
        frame: WindowFrame,
        null_treatment: Option<NullTreatment>,
    },
    /// `expr IN (list)`, or `expr NOT IN (list)` when negated.
    InList { expr: Box<Expr>, list: Vec<Expr>, negated: bool },
    /// `CASE base WHEN .. THEN .. ELSE .. END`.
    Case { base: Option<Box<Expr>>, branches: Vec<(Expr, Expr)>, else_branch: Option<Box<Expr>> },
}

/// The mathematical value of an expression tree.
#[verifier::ext_equal]
#[allow(inconsistent_fields)]
pub ghost enum ExprView {
    Column { relation: Option<Seq<char>>, name: Seq<char> },
    Literal { value: ScalarView },
    Alias { inner: Box<ExprView>, name: Seq<char> },
    Sort { inner: Box<ExprView>, ascending: bool, nulls_first: bool },
    ScalarCall { function_name: Seq<char>, args: Seq<ExprView> },
    AggregateCall {
        function: HandleView,
        args: Seq<ExprView>,
        distinct: bool,
        filter: Option<Box<ExprView>>,
        order_by: Option<Seq<ExprView>>,
        null_treatment: Option<NullTreatment>,
    },
    WindowCall {
        function: HandleView,
        args: Seq<ExprView>,
        partition_by: Seq<ExprView>,
        order_by: Seq<ExprView>,
        frame: WindowFrame,
        null_treatment: Option<NullTreatment>,
    },
    InList { expr: Box<ExprView>, list: Seq<ExprView>, negated: bool },
    Case {
        base: Option<Box<ExprView>>,
        branches: Seq<(ExprView, ExprView)>,
        else_branch: Option<Box<ExprView>>,
    },
}

/// The value of the tree rooted at `e`.
pub open spec fn expr_view(e: Expr) -> ExprView
    decreases e,
{
    match e {
        Expr::Column { relation, name } => ExprView::Column {
            relation: match relation {
                Some(table) => Some(table@),
                None => None,
            },
            name: name@,
        },
        Expr::Literal { value } => ExprView::Literal { value: value@ },
        Expr::Alias { inner, name } => ExprView::Alias {
            inner: Box::new(expr_view(*inner)),
            name: name@,
        },
        Expr::Sort { inner, ascending, nulls_first } => ExprView::Sort {
            inner: Box::new(expr_view(*inner)),
            ascending,
            nulls_first,
        },
        Expr::ScalarCall { function_name, args } => ExprView::ScalarCall {
            function_name: function_name@,
            args: views(args@),
        },
        Expr::AggregateCall { function, args, distinct, filter, order_by, null_treatment } => {
            ExprView::AggregateCall {
                function: function@,
                args: views(args@),
                distinct,
                filter: match filter {
                    Some(condition) => Some(Box::new(expr_view(*condition))),
                    None => None,
                },
                order_by: match order_by {
                    Some(keys) => Some(views(keys@)),
                    None => None,
                },
                null_treatment,
            }
        },
        Expr::WindowCall { function, args, partition_by, order_by, frame, null_treatment } => {
            ExprView::WindowCall {
                function: function@,
                args: views(args@),
                partition_by: views(partition_by@),
                order_by: views(order_by@),
                frame,
                null_treatment,
            }
        },
        Expr::InList { expr, list, negated } => ExprView::InList {
            expr: Box::new(expr_view(*expr)),
            list: views(list@),
            negated,
        },
        Expr::Case { base, branches, else_branch } => ExprView::Case {
            base: match base {
                Some(operand) => Some(Box::new(expr_view(*operand))),
                None => None,
            },
            branches: branch_views(branches@),
            else_branch: match else_branch {
                Some(other) => Some(Box::new(expr_view(*other))),
                None => None,
            },
        },
    }
}

/// The values of the trees in `v`, in the same order.
pub open spec fn views(v: Seq<Expr>) -> Seq<ExprView>
    decreases v,
{
    Seq::new(
        v.len(),
        |i: int|
            if 0 <= i < v.len() {
                expr_view(v[i])
            } else {
                arbitrary()
            },
    )
}

/// The values of the `(when, then)` pairs in `v`, in the same order.
pub open spec fn branch_views(v: Seq<(Expr, Expr)>) -> Seq<(ExprView, ExprView)>
    decreases v,
{
    Seq::new(
        v.len(),
        |i: int|
            if 0 <= i < v.len() {
                (expr_view(v[i].0), expr_view(v[i].1))
            } else {
                arbitrary()
            },
    )
}

impl View for Expr {
    type V = ExprView;

    open spec fn view(&self) -> ExprView {
        expr_view(*self)
    }
}

/// The value of an optional child.
pub open spec fn boxed_view(o: Option<Box<Expr>>) -> Option<Box<ExprView>> {
    match o {
        Some(child) => Some(Box::new(child@)),
        None => None,
    }
}

/// The value of an optional tree.
pub open spec fn optional_view(o: Option<Expr>) -> Option<ExprView> {
    match o {
        Some(e) => Some(e@),
        None => None,
    }
}

/// `views` keeps the length and maps each tree to its value.
pub proof fn lemma_views(v: Seq<Expr>)
    ensures
        views(v).len() == v.len(),
        forall|i: int| 0 <= i < v.len() ==> #[trigger] views(v)[i] == v[i]@,
{
}

/// `branch_views` keeps the length and maps each pair to the pair of values.
pub proof fn lemma_branch_views(v: Seq<(Expr, Expr)>)
    ensures
        branch_views(v).len() == v.len(),
        forall|i: int| 0 <= i < v.len() ==> #[trigger] branch_views(v)[i] == (v[i].0@, v[i].1@),
{
}

/// Appending a tree appends its value.
pub proof fn lemma_views_push(v: Seq<Expr>, e: Expr)
    ensures
        views(v.push(e)) == views(v).push(e@),
{
    lemma_views(v);
    lemma_views(v.push(e));
    assert(views(v.push(e)) =~= views(v).push(e@));
}

/// Appending a pair appends the pair of its values.
pub proof fn lemma_branch_views_push(v: Seq<(Expr, Expr)>, when: Expr, then: Expr)
    ensures
        branch_views(v.push((when, then))) == branch_views(v).push((when@, then@)),
{
    lemma_branch_views(v);
    lemma_branch_views(v.push((when, then)));
    assert(branch_views(v.push((when, then))) =~= branch_views(v).push((when@, then@)));
}

/// A copy of `s`.
fn copy_text(s: &String) -> (r: String)
    ensures
        r@ == s@,
{
    s.clone()
}

/// A copy of an optional string.
fn copy_optional_text(o: &Option<String>) -> (r: Option<String>)
    ensures
        match (r, *o) {
            (Some(copy), Some(s)) => copy@ == s@,
            (None, None) => true,
            _ => false,
        },
{
    match o {
        Some(s) => Some(copy_text(s)),
        None => None,
    }
}

impl FunctionHandle {
    /// A handle of the same function.
    pub fn duplicate(&self) -> (r: FunctionHandle)
        ensures
            r@ == self@,
    {
        FunctionHandle { source: self.source, name: copy_text(&self.name) }
    }
}

impl ScalarValue {
    /// A copy of the value.
    pub fn duplicate(&self) -> (r: ScalarValue)
        ensures
            r@ == self@,
    {
        match self {
            ScalarValue::Null => ScalarValue::Null,
            ScalarValue::Boolean(b) => ScalarValue::Boolean(*b),
            ScalarValue::Int32(i) => ScalarValue::Int32(*i),
            ScalarValue::Int64(i) => ScalarValue::Int64(*i),
            ScalarValue::Utf8(s) => ScalarValue::Utf8(copy_optional_text(s)),
        }
    }
}

/// Copies of the trees in `v`, in the same order.
fn duplicate_all(v: &Vec<Expr>) -> (r: Vec<Expr>)
    ensures
        views(r@) == views(v@),
    decreases v,
{
    let mut r: Vec<Expr> = Vec::new();
    let mut i: usize = 0;
    proof {
        lemma_views(v@);
        lemma_views(r@);
    }
    while i < v.len()
        invariant
            i <= v.len(),
            r@.len() == i,
            views(r@).len() == i,
            views(v@).len() == v@.len(),
            forall|j: int| 0 <= j < i ==> #[trigger] views(r@)[j] == views(v@)[j],
        decreases v.len() - i,
    {
        let copy = v[i].duplicate();
        proof {
            lemma_views(v@);
            lemma_views_push(r@, copy);
        }
        r.push(copy);
        i = i + 1;
    }
    assert(views(r@) =~= views(v@));
    r
}

/// Copies of the pairs in `v`, in the same order.
fn duplicate_branches(v: &Vec<(Expr, Expr)>) -> (r: Vec<(Expr, Expr)>)
    ensures
        branch_views(r@) == branch_views(v@),
    decreases v,
{
    let mut r: Vec<(Expr, Expr)> = Vec::new();
    let mut i: usize = 0;
    proof {
        lemma_branch_views(v@);
        lemma_branch_views(r@);
    }
    while i < v.len()
        invariant
            i <= v.len(),
            r@.len() == i,
            branch_views(r@).len() == i,
            branch_views(v@).len() == v@.len(),
            forall|j: int| 0 <= j < i ==> #[trigger] branch_views(r@)[j] == branch_views(v@)[j],
        decreases v.len() - i,
    {
        let when = v[i].0.duplicate();
        let then = v[i].1.duplicate();
        proof {
            lemma_branch_views(v@);
            lemma_branch_views_push(r@, when, then);
        }
        r.push((when, then));
        i = i + 1;
    }
    assert(branch_views(r@) =~= branch_views(v@));
    r
}

/// A copy of an optional child.
fn duplicate_child(o: &Option<Box<Expr>>) -> (r: Option<Box<Expr>>)
    ensures
        boxed_view(r) == boxed_view(*o),
    decreases o,
{
    match o {
        Some(child) => Some(Box::new(child.duplicate())),
        None => None,
    }
}

impl Expr {
    /// A tree of the same value that shares nothing with this one: each node
    /// of the copy is a new node, so a change to either tree cannot show in
    /// the other.
    pub fn duplicate(&self) -> (r: Expr)
        ensures
            r@ == self@,
        decreases self,
    {
        match self {
            Expr::Column { relation, name } => Expr::Column {
                relation: copy_optional_text(relation),
                name: copy_text(name),
            },
            Expr::Literal { value } => Expr::Literal { value: value.duplicate() },
            Expr::Alias { inner, name } => Expr::Alias {
                inner: Box::new(inner.duplicate()),
                name: copy_text(name),
            },
            Expr::Sort { inner, ascending, nulls_first } => Expr::Sort {
                inner: Box::new(inner.duplicate()),
                ascending: *ascending,
                nulls_first: *nulls_first,
            },
            Expr::ScalarCall { function_name, args } => Expr::ScalarCall {
                function_name: copy_text(function_name),
                args: duplicate_all(args),
            },
            Expr::AggregateCall { function, args, distinct, filter, order_by, null_treatment } => {
                Expr::AggregateCall {
                    function: function.duplicate(),
                    args: duplicate_all(args),
                    distinct: *distinct,
                    filter: duplicate_child(filter),
                    order_by: match order_by {
                        Some(keys) => Some(duplicate_all(keys)),
                        None => None,
                    },
                    null_treatment: *null_treatment,
                }
            },
            Expr::WindowCall { function, args, partition_by, order_by, frame, null_treatment } => {
                Expr::WindowCall {
                    function: function.duplicate(),
                    args: duplicate_all(args),
                    partition_by: duplicate_all(partition_by),
                    order_by: duplicate_all(order_by),
                    frame: *frame,
                    null_treatment: *null_treatment,
                }
            },
            Expr::InList { expr, list, negated } => Expr::InList {
                expr: Box::new(expr.duplicate()),
                list: duplicate_all(list),
                negated: *negated,
            },
            Expr::Case { base, branches, else_branch } => Expr::Case {
                base: duplicate_child(base),
                branches: duplicate_branches(branches),
                else_branch: duplicate_child(else_branch),
            },
        }
    }
}

impl Clone for Expr {
    /// A copy that shares nothing with this tree; see [`Expr::duplicate`].
    fn clone(&self) -> (r: Expr)
        ensures
            r@ == self@,
    {
        self.duplicate()
    }
}

impl Clone for FunctionHandle {
    fn clone(&self) -> (r: FunctionHandle)
        ensures
            r@ == self@,
    {
        self.duplicate()
    }
}

impl Clone for ScalarValue {
    fn clone(&self) -> (r: ScalarValue)
        ensures
            r@ == self@,
    {
        self.duplicate()
    }
}

/// Every tree in `s` is well formed.
pub open spec fn all_well_formed(s: Seq<ExprView>) -> bool
    decreases s,
{
    forall|i: int| 0 <= i < s.len() ==> well_formed(#[trigger] s[i])
}

/// A tree is well formed when every ordering list that an aggregate call in
/// it carries is non-empty: a call without ordering has no list at all.
pub open spec fn well_formed(e: ExprView) -> bool
    decreases e,
{
    match e {
        ExprView::Column { .. } => true,
        ExprView::Literal { .. } => true,
        ExprView::Alias { inner, .. } => well_formed(*inner),
        ExprView::Sort { inner, .. } => well_formed(*inner),
        ExprView::ScalarCall { args, .. } => all_well_formed(args),
        ExprView::AggregateCall { args, filter, order_by, .. } => {
            &&& all_well_formed(args)
            &&& filter matches Some(condition) ==> well_formed(*condition)
            &&& order_by matches Some(keys) ==> keys.len() > 0 && all_well_formed(keys)
        },
        ExprView::WindowCall { args, partition_by, order_by, .. } => {
            &&& all_well_formed(args)
            &&& all_well_formed(partition_by)
            &&& all_well_formed(order_by)
        },
        ExprView::InList { expr, list, .. } => well_formed(*expr) && all_well_formed(list),
        ExprView::Case { base, branches, else_branch } => {
            &&& base matches Some(b) ==> well_formed(*b)
            &&& forall|i: int|
                0 <= i < branches.len() ==> well_formed((#[trigger] branches[i]).0)
                    && well_formed(branches[i].1)
            &&& else_branch matches Some(other) ==> well_formed(*other)
        },
    }
}

} // verus!
