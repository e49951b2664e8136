//! Constructors of leaf and composite nodes. Each one is a function from its
//! children and parameters to a new node; none looks inside a child.

use crate::expr::{
    all_well_formed, boxed_view, branch_views, lemma_branch_views, lemma_branch_views_push,
    lemma_views, lemma_views_push, optional_view, views, well_formed, Expr, ExprView, ScalarValue,
    ScalarView,
};
use vstd::prelude::*;

verus! {

/// The value of a call of the scalar function `name` on `args`.
pub open spec fn scalar_call(name: Seq<char>, args: Seq<ExprView>) -> ExprView {
    ExprView::ScalarCall { function_name: name, args }
}

/// `args`, with `extra` behind them where there is one.
pub open spec fn with_optional(args: Seq<ExprView>, extra: Option<ExprView>) -> Seq<ExprView> {
    match extra {
        Some(last) => args.push(last),
        None => args,
    }
}

/// A reference to the column `name`, without a table qualifier.
pub fn col(name: &str) -> (r: Expr)
    ensures
        r@ == (ExprView::Column { relation: None, name: name@ }),
        well_formed(r@),
{
    Expr::Column { relation: None, name: name.to_owned() }
}

/// A literal node that holds `value`.
pub fn lit(value: ScalarValue) -> (r: Expr)
    ensures
        r@ == (ExprView::Literal { value: value@ }),
        well_formed(r@),
{
    Expr::Literal { value }
}

/// `expr` under the name `name`.
pub fn alias(expr: Expr, name: &str) -> (r: Expr)
    ensures
        r@ == (ExprView::Alias { inner: Box::new(expr@), name: name@ }),
        well_formed(r@) == well_formed(expr@),
{
    Expr::Alias { inner: Box::new(expr), name: name.to_owned() }
}

/// A sort key on `expr`.
pub fn order_by(expr: Expr, asc: bool, nulls_first: bool) -> (r: Expr)
    ensures
        r@ == (ExprView::Sort { inner: Box::new(expr@), ascending: asc, nulls_first }),
        well_formed(r@) == well_formed(expr@),
{
    Expr::Sort { inner: Box::new(expr), ascending: asc, nulls_first }
}

/// `expr IN (value)`, or `expr NOT IN (value)` when `negated`. The list keeps
/// its order.
pub fn in_list(expr: Expr, value: Vec<Expr>, negated: bool) -> (r: Expr)
    ensures
        r@ == (ExprView::InList { expr: Box::new(expr@), list: views(value@), negated }),
        well_formed(r@) == (well_formed(expr@) && all_well_formed(views(value@))),
{
    Expr::InList { expr: Box::new(expr), list: value, negated }
}

/// A call of the scalar function `name` on `args`, in their order. Whether the
/// function exists and takes these arguments is the engine's to decide when it
/// plans the query.
pub fn scalar_function(name: &str, args: Vec<Expr>) -> (r: Expr)
    ensures
        r@ == scalar_call(name@, views(args@)),
        well_formed(r@) == all_well_formed(views(args@)),
{
    Expr::ScalarCall { function_name: name.to_owned(), args }
}

/// The vector that holds `a` alone.
pub(crate) fn one(a: Expr) -> (r: Vec<Expr>)
    ensures
        views(r@) == seq![a@],
{
    let mut r: Vec<Expr> = Vec::new();
    r.push(a);
    proof {
        lemma_views(r@);
        assert(views(r@) =~= seq![a@]);
    }
    r
}

/// The vector that holds `a` and `b`.
pub(crate) fn two(a: Expr, b: Expr) -> (r: Vec<Expr>)
    ensures
        views(r@) == seq![a@, b@],
{
    let mut r: Vec<Expr> = Vec::new();
    r.push(a);
    r.push(b);
    proof {
        lemma_views(r@);
        assert(views(r@) =~= seq![a@, b@]);
    }
    r
}

/// The vector that holds `a`, `b` and `c`.
pub(crate) fn three(a: Expr, b: Expr, c: Expr) -> (r: Vec<Expr>)
    ensures
        views(r@) == seq![a@, b@, c@],
{
    let mut r: Vec<Expr> = Vec::new();
    r.push(a);
    r.push(b);
    r.push(c);
    proof {
        lemma_views(r@);
        assert(views(r@) =~= seq![a@, b@, c@]);
    }
    r
}

/// `args` with `extra` pushed behind them where there is one.
fn push_optional(args: Vec<Expr>, extra: Option<Expr>) -> (r: Vec<Expr>)
    ensures
        views(r@) == with_optional(views(args@), optional_view(extra)),
{
    match extra {
        Some(last) => {
            let mut r = args;
            proof {
                lemma_views_push(r@, last);
            }
            r.push(last);
            r
        },
        None => args,
    }
}

/// The node that [`make_array`] gives.
pub open spec fn make_array_call(elements: Seq<ExprView>) -> ExprView {
    scalar_call("make_array"@, elements)
}

/// The node that [`array`] gives.
pub open spec fn array_call(elements: Seq<ExprView>) -> ExprView {
    scalar_call("make_array"@, elements)
}

/// The node that [`array_concat`] gives.
pub open spec fn array_concat_call(arrays: Seq<ExprView>) -> ExprView {
    scalar_call("array_concat"@, arrays)
}

/// The node that [`array_cat`] gives.
pub open spec fn array_cat_call(arrays: Seq<ExprView>) -> ExprView {
    scalar_call("array_concat"@, arrays)
}

/// The node that [`power`] gives.
pub open spec fn power_call(base: ExprView, exponent: ExprView) -> ExprView {
    scalar_call("power"@, seq![base, exponent])
}

/// The node that [`pow`] gives.
pub open spec fn pow_call(base: ExprView, exponent: ExprView) -> ExprView {
    scalar_call("power"@, seq![base, exponent])
}

/// The node that [`date_part`] gives.
pub open spec fn date_part_call(part: ExprView, date: ExprView) -> ExprView {
    scalar_call("date_part"@, seq![part, date])
}

/// The node that [`datepart`] gives.
pub open spec fn datepart_call(part: ExprView, date: ExprView) -> ExprView {
    scalar_call("date_part"@, seq![part, date])
}

/// An alias gives the node that its canonical constructor gives: `array`
/// that of `make_array`, `array_cat` that of `array_concat`, `pow` that of
/// `power`, `datepart` that of `date_part`.
pub proof fn lemma_scalar_aliases(list: Seq<ExprView>, a: ExprView, b: ExprView)
    ensures
        array_call(list) == make_array_call(list),
        array_cat_call(list) == array_concat_call(list),
        pow_call(a, b) == power_call(a, b),
        datepart_call(a, b) == date_part_call(a, b),
{
}

/// An array of the given elements.
pub fn make_array(exprs: Vec<Expr>) -> (r: Expr)
    ensures
        r@ == make_array_call(views(exprs@)),
        well_formed(r@) == all_well_formed(views(exprs@)),
{
    scalar_function("make_array", exprs)
}

/// Another name of [`make_array`].
pub fn array(exprs: Vec<Expr>) -> (r: Expr)
    ensures
        r@ == array_call(views(exprs@)),
        well_formed(r@) == all_well_formed(views(exprs@)),
{
    make_array(exprs)
}

/// The concatenation of the given arrays.
pub fn array_concat(exprs: Vec<Expr>) -> (r: Expr)
    ensures
        r@ == array_concat_call(views(exprs@)),
        well_formed(r@) == all_well_formed(views(exprs@)),
{
    scalar_function("array_concat", exprs)
}

/// Another name of [`array_concat`].
pub fn array_cat(exprs: Vec<Expr>) -> (r: Expr)
    ensures
        r@ == array_cat_call(views(exprs@)),
        well_formed(r@) == all_well_formed(views(exprs@)),
{
    array_concat(exprs)
}

/// The value of `array_position(array, element, index)`: the index is handed
/// on as a 64-bit integer literal, a null one where none is given.
pub open spec fn array_position_call(
    array: ExprView,
    element: ExprView,
    index: Option<i64>,
) -> ExprView {
    scalar_call(
        "array_position"@,
        seq![array, element, ExprView::Literal { value: ScalarView::Int64(index) }],
    )
}

/// The position of `element` in `array`, searching from `index`.
pub fn array_position(array: Expr, element: Expr, index: Option<i64>) -> (r: Expr)
    ensures
        r@ == array_position_call(array@, element@, index),
{
    let start = Expr::Literal { value: ScalarValue::Int64(index) };
    scalar_function("array_position", three(array, element, start))
}

/// Another name of [`array_position`].
pub fn array_indexof(array: Expr, element: Expr, index: Option<i64>) -> (r: Expr)
    ensures
        r@ == array_position_call(array@, element@, index),
{
    array_position(array, element, index)
}

/// Another name of [`array_position`].
pub fn list_position(array: Expr, element: Expr, index: Option<i64>) -> (r: Expr)
    ensures
        r@ == array_position_call(array@, element@, index),
{
    array_position(array, element, index)
}

/// Another name of [`array_position`].
pub fn list_indexof(array: Expr, element: Expr, index: Option<i64>) -> (r: Expr)
    ensures
        r@ == array_position_call(array@, element@, index),
{
    array_position(array, element, index)
}

/// The value of `array_slice(array, begin, end)`, with the stride as a fourth
/// argument where one is given.
pub open spec fn array_slice_call(
    array: ExprView,
    begin: ExprView,
    end: ExprView,
    stride: Option<ExprView>,
) -> ExprView {
    scalar_call("array_slice"@, with_optional(seq![array, begin, end], stride))
}

/// The elements of `array` from `begin` to `end`, every `stride`-th one where
/// a stride is given.
pub fn array_slice(array: Expr, begin: Expr, end: Expr, stride: Option<Expr>) -> (r: Expr)
    ensures
        r@ == array_slice_call(array@, begin@, end@, optional_view(stride)),
{
    scalar_function("array_slice", push_optional(three(array, begin, end), stride))
}

/// Another name of [`array_slice`].
pub fn list_slice(array: Expr, begin: Expr, end: Expr, stride: Option<Expr>) -> (r: Expr)
    ensures
        r@ == array_slice_call(array@, begin@, end@, optional_view(stride)),
{
    array_slice(array, begin, end, stride)
}

/// `base` raised to the power `exponent`.
pub fn power(base: Expr, exponent: Expr) -> (r: Expr)
    ensures
        r@ == power_call(base@, exponent@),
{
    scalar_function("power", two(base, exponent))
}

/// Another name of [`power`].
pub fn pow(base: Expr, exponent: Expr) -> (r: Expr)
    ensures
        r@ == pow_call(base@, exponent@),
{
    power(base, exponent)
}

/// The field `part` of the date or time `date`.
pub fn date_part(part: Expr, date: Expr) -> (r: Expr)
    ensures
        r@ == date_part_call(part@, date@),
{
    scalar_function("date_part", two(part, date))
}

/// Another name of [`date_part`].
pub fn datepart(part: Expr, date: Expr) -> (r: Expr)
    ensures
        r@ == datepart_call(part@, date@),
{
    date_part(part, date)
}

/// The binary hash of `value` under the algorithm that `method` names.
pub fn digest(value: Expr, method: Expr) -> (r: Expr)
    ensures
        r@ == scalar_call("digest"@, seq![value@, method@]),
{
    scalar_function("digest", two(value, method))
}

/// The concatenation of the text of all the arguments.
pub fn concat(args: Vec<Expr>) -> (r: Expr)
    ensures
        r@ == scalar_call("concat"@, views(args@)),
        well_formed(r@) == all_well_formed(views(args@)),
{
    scalar_function("concat", args)
}

/// The value of the separator `sep` as a string literal.
pub open spec fn separator(sep: Seq<char>) -> ExprView {
    ExprView::Literal { value: ScalarView::Utf8(Some(sep)) }
}

/// The concatenation of the text of `args` with `sep` between them: the
/// separator goes in front of the arguments, as a string literal.
pub fn concat_ws(sep: String, args: Vec<Expr>) -> (r: Expr)
    ensures
        r@ == scalar_call("concat_ws"@, seq![separator(sep@)] + views(args@)),
        well_formed(r@) == all_well_formed(views(args@)),
{
    let ghost rest = args@;
    let mut all = args;
    let first = Expr::Literal { value: ScalarValue::Utf8(Some(sep)) };
    all.insert(0, first);
    proof {
        lemma_views(rest);
        lemma_views(all@);
        let whole = seq![separator(sep@)] + views(rest);
        assert(views(all@) =~= whole);
        if all_well_formed(views(rest)) {
            assert forall|i: int| 0 <= i < whole.len() implies well_formed(#[trigger] whole[i]) by {
                if i > 0 {
                    assert(whole[i] == views(rest)[i - 1]);
                }
            }
        }
        if all_well_formed(whole) {
            assert forall|i: int| 0 <= i < views(rest).len() implies well_formed(
                #[trigger] views(rest)[i],
            ) by {
                assert(whole[i + 1] == views(rest)[i]);
            }
        }
    }
    scalar_function("concat_ws", all)
}

/// The value of a call of the regular-expression function `name` on `values`
/// and `regex`, with the flags as a third argument where they are given.
pub open spec fn regexp_call(
    name: Seq<char>,
    values: ExprView,
    regex: ExprView,
    flags: Option<ExprView>,
) -> ExprView {
    scalar_call(name, with_optional(seq![values, regex], flags))
}

/// Whether `values` has a match of `regex`.
pub fn regexp_like(values: Expr, regex: Expr, flags: Option<Expr>) -> (r: Expr)
    ensures
        r@ == regexp_call("regexp_like"@, values@, regex@, optional_view(flags)),
{
    scalar_function("regexp_like", push_optional(two(values, regex), flags))
}

/// The matches of `regex` in `values`.
pub fn regexp_match(values: Expr, regex: Expr, flags: Option<Expr>) -> (r: Expr)
    ensures
        r@ == regexp_call("regexp_match"@, values@, regex@, optional_view(flags)),
{
    scalar_function("regexp_match", push_optional(two(values, regex), flags))
}

/// `string` with the matches of `pattern` replaced by `replacement`.
pub fn regexp_replace(string: Expr, pattern: Expr, replacement: Expr, flags: Option<Expr>) -> (r:
    Expr)
    ensures
        r@ == scalar_call(
            "regexp_replace"@,
            with_optional(seq![string@, pattern@, replacement@], optional_view(flags)),
        ),
{
    scalar_function("regexp_replace", push_optional(three(string, pattern, replacement), flags))
}

/// A `CASE` expression under construction: its base and the branches it has
/// so far.
#[derive(Clone, Debug, PartialEq, Eq)]
pub struct CaseBuilder {
    pub base: Option<Box<Expr>>,
    pub branches: Vec<(Expr, Expr)>,
}

/// Starts a `CASE expr WHEN ..` expression, as yet without branches.
pub fn case(expr: Expr) -> (r: CaseBuilder)
    ensures
        boxed_view(r.base) == Some(Box::new(expr@)),
        branch_views(r.branches@) == Seq::<(ExprView, ExprView)>::empty(),
{
    let r = CaseBuilder { base: Some(Box::new(expr)), branches: Vec::new() };
    proof {
        lemma_branch_views(r.branches@);
        assert(branch_views(r.branches@) =~= Seq::<(ExprView, ExprView)>::empty());
    }
    r
}

impl CaseBuilder {
    /// The value of the finished expression with the branches so far and the
    /// given `ELSE`.
    pub open spec fn finished(self, else_branch: Option<Box<ExprView>>) -> ExprView {
        ExprView::Case {
            base: boxed_view(self.base),
            branches: branch_views(self.branches@),
            else_branch,
        }
    }

    /// Adds the branch `WHEN when THEN then` behind the branches so far.
    pub fn when(self, when: Expr, then: Expr) -> (r: CaseBuilder)
        ensures
            boxed_view(r.base) == boxed_view(self.base),
            branch_views(r.branches@) == branch_views(self.branches@).push((when@, then@)),
    {
        let CaseBuilder { base, branches } = self;
        let mut branches = branches;
        proof {
            lemma_branch_views_push(branches@, when, then);
        }
        branches.push((when, then));
        CaseBuilder { base, branches }
    }

    /// Finishes the expression with `ELSE else_expr`.
    pub fn otherwise(self, else_expr: Expr) -> (r: Expr)
        ensures
            r@ == self.finished(Some(Box::new(else_expr@))),
    {
        Expr::Case {
            base: self.base,
            branches: self.branches,
            else_branch: Some(Box::new(else_expr)),
        }
    }

    /// Finishes the expression without an `ELSE`.
    pub fn end(self) -> (r: Expr)
        ensures
            r@ == self.finished(None),
    {
        Expr::Case { base: self.base, branches: self.branches, else_branch: None }
    }
}

} // verus!
