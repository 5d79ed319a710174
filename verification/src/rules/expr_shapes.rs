//! Decisions the production rules take on the shape of an expression: which
//! subtractions a condition shows to be safe, whether a range has a length
//! fixed in the source, which parameters are `H160` addresses, and which
//! divisors can be zero. The syntax walk reports each shape as plain values.
use vstd::prelude::*;
use crate::text::{chars_of, chars_equal, copy_range, equals_str, find, find_exec, occurs_at};

verus! {

/// Whether two strings hold the same text.
fn same_text(a: &String, b: &String) -> (r: bool)
    ensures
        r == (a@ == b@),
{
    chars_equal(&chars_of(a.as_str()), &chars_of(b.as_str()))
}

/// Whether a string is the text `lit`.
fn is_text(a: &String, lit: &str) -> (r: bool)
    ensures
        r == (a@ == lit@),
{
    equals_str(&chars_of(a.as_str()), lit)
}

// ---------------------------------------------------------------------------
// Subtractions that a condition shows to be safe
// ---------------------------------------------------------------------------

/// A comparison operator.
pub enum CompareOp {
    Gt,
    Ge,
    Lt,
    Le,
    /// Any other binary operator.
    Other,
}

/// An `if` condition as far as it orders two operands; operands are given
/// by their keys (integer literals by their digits, `x.into()` by `x`,
/// anything else by its tokens without whitespace).
pub enum ConditionShape {
    /// `left op right`.
    Binary { op: CompareOp, left: String, right: String },
    /// `receiver.method(arg)`, a method call with exactly one argument.
    Method { method: String, receiver: String, arg: String },
    /// Any other condition.
    Other,
}

/// A subtraction `(a, b)`, that is `a - b`, by its operands' texts.
pub open spec fn pair_view(p: (String, String)) -> (Seq<char>, Seq<char>) {
    (p.0@, p.1@)
}

/// The subtractions that a condition shows to be safe: `(a, b)` where the
/// condition, when true, gives `a >= b` (the then-branch's pair) and, when
/// false, gives `b >= a` or `b > a` (the else-branch's pair).
pub open spec fn condition_safe_pairs(c: ConditionShape) -> Option<
    ((Seq<char>, Seq<char>), (Seq<char>, Seq<char>)),
> {
    match c {
        ConditionShape::Binary { op, left, right } => match op {
            CompareOp::Gt | CompareOp::Ge => Some(((left@, right@), (right@, left@))),
            CompareOp::Lt | CompareOp::Le => Some(((right@, left@), (left@, right@))),
            CompareOp::Other => None,
        },
        ConditionShape::Method { method, receiver, arg } => if method@ == "gt"@ || method@ == "ge"@ {
            Some(((receiver@, arg@), (arg@, receiver@)))
        } else if method@ == "lt"@ || method@ == "le"@ {
            Some(((arg@, receiver@), (receiver@, arg@)))
        } else {
            None
        },
        ConditionShape::Other => None,
    }
}

/// The safe subtractions of an `if` condition, for its then- and
/// else-branch.
pub fn safe_subtractions_from_condition(c: &ConditionShape) -> (r: Option<((String, String), (String, String))>)
    ensures
        match r {
            Some((t, e)) => condition_safe_pairs(*c) == Some((pair_view(t), pair_view(e))),
            None => condition_safe_pairs(*c) is None,
        },
{
    match c {
        ConditionShape::Binary { op, left, right } => match op {
            CompareOp::Gt | CompareOp::Ge => Some(
                ((left.clone(), right.clone()), (right.clone(), left.clone())),
            ),
            CompareOp::Lt | CompareOp::Le => Some(
                ((right.clone(), left.clone()), (left.clone(), right.clone())),
            ),
            CompareOp::Other => None,
        },
        ConditionShape::Method { method, receiver, arg } => {
            if is_text(method, "gt") || is_text(method, "ge") {
                Some(((receiver.clone(), arg.clone()), (arg.clone(), receiver.clone())))
            } else if is_text(method, "lt") || is_text(method, "le") {
                Some(((arg.clone(), receiver.clone()), (receiver.clone(), arg.clone())))
            } else {
                None
            }
        },
        ConditionShape::Other => None,
    }
}

/// The subtractions that an arm of `match a.cmp(&b)` shows to be safe, by
/// the name of the arm's pattern (`a` and `b` by their keys): `Greater`
/// gives `a - b`, `Less` gives `b - a`, `Equal` gives both, any other
/// pattern none.
pub open spec fn three_way_arm_pairs(a: Seq<char>, b: Seq<char>, arm: Option<Seq<char>>) -> Seq<
    (Seq<char>, Seq<char>),
> {
    match arm {
        Some(name) => if name == "Greater"@ {
            seq![(a, b)]
        } else if name == "Less"@ {
            seq![(b, a)]
        } else if name == "Equal"@ {
            seq![(a, b), (b, a)]
        } else {
            seq![]
        },
        None => seq![],
    }
}

/// The safe subtractions of one arm of a three-way comparison of `a` and
/// `b`, by the name of the arm's pattern.
pub fn safe_subtractions_from_three_way_arm(a: &String, b: &String, arm: &Option<String>) -> (r: Vec<(String, String)>)
    ensures
        r@.map_values(|p: (String, String)| pair_view(p)) == three_way_arm_pairs(
            a@,
            b@,
            match arm {
                Some(n) => Some(n@),
                None => None,
            },
        ),
{
    let mut r: Vec<(String, String)> = Vec::new();
    match arm {
        Some(name) => {
            if is_text(name, "Greater") {
                r.push((a.clone(), b.clone()));
            } else if is_text(name, "Less") {
                r.push((b.clone(), a.clone()));
            } else if is_text(name, "Equal") {
                r.push((a.clone(), b.clone()));
                r.push((b.clone(), a.clone()));
            }
        },
        None => {},
    }
    proof {
        let v = r@.map_values(|p: (String, String)| pair_view(p));
        assert(v =~= three_way_arm_pairs(
            a@,
            b@,
            match arm {
                Some(n) => Some(n@),
                None => None,
            },
        ));
    }
    r
}

// ---------------------------------------------------------------------------
// Ranges of a length fixed in the source
// ---------------------------------------------------------------------------

/// An end of a range: its value when it is an integer literal that fits in
/// `usize`, its tokens without whitespace, and, when it is a sum `l + r`,
/// each side's tokens without whitespace and literal value.
pub struct RangeEnd {
    pub literal: Option<usize>,
    pub key: String,
    pub sum: Option<((String, Option<usize>), (String, Option<usize>))>,
}

/// A range expression `start..end` or `start..=end`, either end optional.
pub struct RangeShape {
    /// `..`, not `..=`.
    pub half_open: bool,
    pub start: Option<RangeEnd>,
    pub end: Option<RangeEnd>,
}

/// `end` is `start + n` or `n + start` for an integer literal `n`.
pub open spec fn is_start_plus_literal(start: RangeEnd, end: RangeEnd) -> bool {
    match end.sum {
        Some(((lk, ll), (rk, rl))) => if lk@ == start.key@ {
            rl is Some
        } else if rk@ == start.key@ {
            ll is Some
        } else {
            false
        },
        None => false,
    }
}

/// A half-open range whose length the source fixes: `..n`; `a..b` with
/// literals `a <= b`; or `s..s + n` (`s..n + s`) for a literal `n`.
pub open spec fn range_has_static_len(r: RangeShape) -> bool {
    r.half_open && match (r.start, r.end) {
        (None, Some(end)) => end.literal is Some,
        (Some(start), Some(end)) => match (start.literal, end.literal) {
            (Some(a), Some(b)) => b >= a,
            _ => is_start_plus_literal(start, end),
        },
        _ => false,
    }
}

/// Whether the source fixes the length of a half-open range.
pub fn half_open_range_has_static_len(r: &RangeShape) -> (b: bool)
    ensures
        b == range_has_static_len(*r),
{
    if !r.half_open {
        return false;
    }
    match (&r.start, &r.end) {
        (None, Some(end)) => end.literal.is_some(),
        (Some(start), Some(end)) => {
            match (start.literal, end.literal) {
                (Some(a), Some(b)) => b >= a,
                _ => match &end.sum {
                    Some(((lk, ll), (rk, rl))) => {
                        if same_text(lk, &start.key) {
                            rl.is_some()
                        } else if same_text(rk, &start.key) {
                            ll.is_some()
                        } else {
                            false
                        }
                    },
                    None => false,
                },
            }
        },
        _ => false,
    }
}

// ---------------------------------------------------------------------------
// `H160` parameters
// ---------------------------------------------------------------------------

/// A typed parameter of a function: the last segment of its type's path,
/// and its name when the pattern is a plain identifier.
pub struct ParamShape {
    pub type_last_ident: Option<String>,
    pub name: Option<String>,
}

/// The names of the parameters of type `H160`, in order.
pub open spec fn h160_names(ps: Seq<ParamShape>) -> Seq<Seq<char>>
    decreases ps.len(),
{
    if ps.len() == 0 {
        seq![]
    } else {
        let rest = h160_names(ps.drop_last());
        let p = ps.last();
        match (p.type_last_ident, p.name) {
            (Some(t), Some(n)) => if t@ == "H160"@ {
                rest.push(n@)
            } else {
                rest
            },
            _ => rest,
        }
    }
}

/// The names of a function's parameters of type `H160`.
pub fn h160_param_names(ps: &Vec<ParamShape>) -> (r: Vec<String>)
    ensures
        r@.map_values(|s: String| s@) == h160_names(ps@),
{
    let mut r: Vec<String> = Vec::new();
    let mut i: usize = 0;
    assert(ps@.take(0) =~= Seq::<ParamShape>::empty());
    while i < ps.len()
        invariant
            i <= ps@.len(),
            r@.map_values(|s: String| s@) == h160_names(ps@.take(i as int)),
        decreases ps.len() - i,
    {
        assert(ps@.take(i + 1).drop_last() =~= ps@.take(i as int));
        assert(ps@.take(i + 1).last() == ps@[i as int]);
        match (&ps[i].type_last_ident, &ps[i].name) {
            (Some(t), Some(n)) => {
                if is_text(t, "H160") {
                    let ghost before = r@.map_values(|s: String| s@);
                    r.push(n.clone());
                    assert(r@.map_values(|s: String| s@) =~= before.push(n@));
                }
            },
            _ => {},
        }
        i += 1;
    }
    assert(ps@.take(ps@.len() as int) =~= ps@);
    r
}

/// `x.as_ref()[12..].try_into()` on an `H160` parameter `x` (one of
/// `h160`): the range is half-open from the literal 12 with no end, and
/// `indexed_as_ref_of` is the name `x` whose `as_ref()` is indexed.
pub open spec fn is_h160_suffix(range: RangeShape, indexed_as_ref_of: Option<Seq<char>>, h160: Seq<Seq<char>>) -> bool {
    &&& range.half_open
    &&& range.end is None
    &&& range.start matches Some(s) && s.literal == Some(12usize)
    &&& indexed_as_ref_of matches Some(x) && h160.contains(x)
}

/// Whether a `try_into` of an indexed range takes the last twenty bytes of
/// an `H160` parameter.
pub fn h160_suffix_try_into(range: &RangeShape, indexed_as_ref_of: &Option<String>, h160: &Vec<String>) -> (b: bool)
    ensures
        b == is_h160_suffix(
            *range,
            match indexed_as_ref_of {
                Some(x) => Some(x@),
                None => None,
            },
            h160@.map_values(|s: String| s@),
        ),
{
    if !range.half_open || range.end.is_some() {
        return false;
    }
    let starts_at_12 = match &range.start {
        Some(s) => match s.literal {
            Some(v) => v == 12,
            None => false,
        },
        None => false,
    };
    if !starts_at_12 {
        return false;
    }
    match indexed_as_ref_of {
        Some(x) => holds_text(h160, x),
        None => false,
    }
}

/// Whether one of `names` is the text of `x`.
fn holds_text(names: &Vec<String>, x: &String) -> (r: bool)
    ensures
        r == names@.map_values(|s: String| s@).contains(x@),
{
    let ghost v = names@.map_values(|s: String| s@);
    let mut i: usize = 0;
    while i < names.len()
        invariant
            i <= names@.len(),
            v == names@.map_values(|s: String| s@),
            forall|j: int| 0 <= j < i ==> v[j] != x@,
        decreases names.len() - i,
    {
        if same_text(&names[i], x) {
            assert(v[i as int] == x@);
            return true;
        }
        i += 1;
    }
    false
}

// ---------------------------------------------------------------------------
// Divisors that can be zero
// ---------------------------------------------------------------------------

/// The shape of a divisor or of a `let`'s initializer.
pub enum DivisorShape {
    /// A path, by its tokens as written back.
    Path { tokens: String },
    /// A call of a path: the path's last segment and its tokens as written
    /// back.
    Call { last_ident: Option<String>, path_tokens: String },
    /// A method call: the method's name and the whole call's tokens without
    /// whitespace.
    MethodCall { method: String, tokens: String },
    /// Any other expression.
    Other,
}

/// The key under which a divisor that can be zero is tracked: a path; a
/// `get()` call, by its path; a `len()` or `count()` call, by its tokens;
/// none for anything else.
pub open spec fn spec_risky_divisor_key(d: DivisorShape) -> Option<Seq<char>> {
    match d {
        DivisorShape::Path { tokens } => Some(tokens@),
        DivisorShape::Call { last_ident, path_tokens } => match last_ident {
            Some(n) => if n@ == "get"@ {
                Some(path_tokens@)
            } else {
                None
            },
            None => None,
        },
        DivisorShape::MethodCall { method, tokens } => if method@ == "len"@ || method@ == "count"@ {
            Some(tokens@)
        } else {
            None
        },
        DivisorShape::Other => None,
    }
}

/// The key of a divisor that can be zero, if it is one.
pub fn risky_divisor_key(d: &DivisorShape) -> (r: Option<String>)
    ensures
        match r {
            Some(k) => spec_risky_divisor_key(*d) == Some(k@),
            None => spec_risky_divisor_key(*d) is None,
        },
{
    match d {
        DivisorShape::Path { tokens } => Some(tokens.clone()),
        DivisorShape::Call { last_ident, path_tokens } => match last_ident {
            Some(n) => {
                if is_text(n, "get") {
                    Some(path_tokens.clone())
                } else {
                    None
                }
            },
            None => None,
        },
        DivisorShape::MethodCall { method, tokens } => {
            if is_text(method, "len") || is_text(method, "count") {
                Some(tokens.clone())
            } else {
                None
            }
        },
        DivisorShape::Other => None,
    }
}

// ---------------------------------------------------------------------------
// `BigUint` values that a rejecting `if` bounds
// ---------------------------------------------------------------------------

/// What is known of a local variable: whether it holds a `BigUint`, its
/// value when it was built from an integer literal, and whether it is known
/// to fit in `u32` (built from such a literal, or bounded by an `if` above
/// that returns an error).
#[derive(Clone, Copy)]
pub struct BigUintVar {
    pub is_biguint: bool,
    pub const_value: Option<u128>,
    pub bounded_to_usize: bool,
}

/// What a `let` learns of its variable from its initializer: `built` is
/// `None` when the initializer is no `BigUint::from(..)` or
/// `BigUint::from_bytes_be(..)` call, else the literal value it was built
/// from, if any.
pub open spec fn var_of_init(built: Option<Option<u128>>) -> BigUintVar {
    match built {
        Some(v) => BigUintVar {
            is_biguint: true,
            const_value: v,
            bounded_to_usize: v matches Some(x) && x <= 0xffff_ffff,
        },
        None => BigUintVar { is_biguint: false, const_value: None, bounded_to_usize: false },
    }
}

/// The variables of one block, in the order they were declared or
/// re-marked; a later entry for a name replaces an earlier one.
pub type ScopeView = Seq<(Seq<char>, BigUintVar)>;

/// The last entry for `name` in a scope.
pub open spec fn scope_find(scope: ScopeView, name: Seq<char>) -> Option<BigUintVar>
    decreases scope.len(),
{
    if scope.len() == 0 {
        None
    } else if scope.last().0 == name {
        Some(scope.last().1)
    } else {
        scope_find(scope.drop_last(), name)
    }
}

/// What the innermost scope that knows `name` says of it.
pub open spec fn stack_find(scopes: Seq<ScopeView>, name: Seq<char>) -> Option<BigUintVar>
    decreases scopes.len(),
{
    if scopes.len() == 0 {
        None
    } else {
        match scope_find(scopes.last(), name) {
            Some(v) => Some(v),
            None => stack_find(scopes.drop_last(), name),
        }
    }
}

/// `scopes` with the entry `(name, v)` added to the innermost scope; nothing
/// changes when there is no scope.
pub open spec fn stack_mark(scopes: Seq<ScopeView>, name: Seq<char>, v: BigUintVar) -> Seq<ScopeView> {
    if scopes.len() == 0 {
        scopes
    } else {
        scopes.update(scopes.len() - 1, scopes.last().push((name, v)))
    }
}

/// The `BigUint` knowledge of the blocks around the walk's position,
/// innermost last.
pub struct BigUintScopes {
    pub scopes: Vec<Vec<(String, BigUintVar)>>,
}

/// A scope by its names' texts.
pub open spec fn scope_view(scope: Seq<(String, BigUintVar)>) -> ScopeView {
    scope.map_values(|e: (String, BigUintVar)| (e.0@, e.1))
}

impl BigUintScopes {
    pub open spec fn view(&self) -> Seq<ScopeView> {
        self.scopes@.map_values(|sc: Vec<(String, BigUintVar)>| scope_view(sc@))
    }

    /// No block entered yet.
    pub fn new() -> (r: BigUintScopes)
        ensures
            r.view() == Seq::<ScopeView>::empty(),
    {
        let r = BigUintScopes { scopes: Vec::new() };
        assert(r.view() =~= Seq::<ScopeView>::empty());
        r
    }

    /// Enters a block (or a function's body).
    pub fn enter(&mut self)
        ensures
            final(self).view() == old(self).view().push(Seq::<(Seq<char>, BigUintVar)>::empty()),
    {
        self.scopes.push(Vec::new());
        proof {
            assert(scope_view(Seq::<(String, BigUintVar)>::empty()) =~= Seq::<(Seq<char>, BigUintVar)>::empty());
            assert(self.view() =~= old(self).view().push(Seq::<(Seq<char>, BigUintVar)>::empty()));
        }
    }

    /// Leaves the innermost block.
    pub fn leave(&mut self)
        ensures
            old(self).view().len() > 0 ==> final(self).view() == old(self).view().drop_last(),
            old(self).view().len() == 0 ==> final(self).view() == old(self).view(),
    {
        if self.scopes.len() > 0 {
            self.scopes.pop();
            assert(self.view() =~= old(self).view().drop_last());
        }
    }

    /// What the innermost scope that knows `name` says of it.
    pub fn find(&self, name: &String) -> (r: Option<BigUintVar>)
        ensures
            r == stack_find(self.view(), name@),
    {
        let ghost all = self.view();
        let mut k: usize = self.scopes.len();
        assert(all.take(k as int) =~= all);
        while k > 0
            invariant
                k <= self.scopes@.len(),
                all == self.view(),
                stack_find(all, name@) == stack_find(all.take(k as int), name@),
            decreases k,
        {
            let scope = &self.scopes[k - 1];
            let ghost sv = scope_view(scope@);
            assert(all.take(k as int).last() == sv);
            assert(all.take(k as int).drop_last() =~= all.take(k - 1));
            let mut j: usize = scope.len();
            assert(sv.take(j as int) =~= sv);
            while j > 0
                invariant
                    j <= scope@.len(),
                    0 < k <= self.scopes@.len(),
                    all == self.view(),
                    *scope == self.scopes@[k - 1],
                    sv == scope_view(scope@),
                    all.take(k as int).last() == sv,
                    stack_find(all, name@) == stack_find(all.take(k as int), name@),
                    scope_find(sv, name@) == scope_find(sv.take(j as int), name@),
                decreases j,
            {
                assert(sv.take(j as int).drop_last() =~= sv.take(j - 1));
                assert(sv.take(j as int).last() == (scope@[j - 1].0@, scope@[j - 1].1));
                if same_text(&scope[j - 1].0, name) {
                    return Some(scope[j - 1].1);
                }
                j -= 1;
            }
            assert(sv.take(0) =~= Seq::<(Seq<char>, BigUintVar)>::empty());
            k -= 1;
        }
        assert(all.take(0) =~= Seq::<ScopeView>::empty());
        None
    }

    /// Adds `(name, v)` to the innermost scope, if there is one.
    fn mark(&mut self, name: String, v: BigUintVar)
        ensures
            final(self).view() == stack_mark(old(self).view(), name@, v),
    {
        let n = self.scopes.len();
        if n > 0 {
            let mut top = self.scopes.pop().unwrap();
            proof {
                assert(self.scopes@ =~= old(self).scopes@.drop_last());
            }
            let ghost before = top@;
            top.push((name, v));
            self.scopes.push(top);
            proof {
                assert(scope_view(top@) =~= scope_view(before).push((name@, v)));
                assert(self.view() =~= stack_mark(old(self).view(), name@, v));
            }
        }
    }

    /// A `let` of `name` whose initializer builds a `BigUint` as `built`
    /// says (see `var_of_init`).
    pub fn declare(&mut self, name: String, built: Option<Option<u128>>)
        ensures
            final(self).view() == stack_mark(old(self).view(), name@, var_of_init(built)),
    {
        let v = match built {
            Some(value) => BigUintVar {
                is_biguint: true,
                const_value: value,
                bounded_to_usize: match value {
                    Some(x) => x <= 0xffff_ffff,
                    None => false,
                },
            },
            None => BigUintVar { is_biguint: false, const_value: None, bounded_to_usize: false },
        };
        self.mark(name, v);
    }

    /// The value of the bound in a comparison: an integer literal's value;
    /// else, for a name, the value a known `BigUint` was built from; else
    /// the value of a `BigUint::from(literal)` call (`built`).
    pub open spec fn spec_bound_value(
        &self,
        literal: Option<u128>,
        ident: Option<Seq<char>>,
        built: Option<Option<u128>>,
    ) -> Option<u128> {
        match literal {
            Some(v) => Some(v),
            None => {
                let from_name = match ident {
                    Some(n) => match stack_find(self.view(), n) {
                        Some(var) => var.const_value,
                        None => None,
                    },
                    None => None,
                };
                match from_name {
                    Some(v) => Some(v),
                    None => match built {
                        Some(b) => b,
                        None => None,
                    },
                }
            },
        }
    }

    /// The value of the bound in a comparison (see `spec_bound_value`).
    pub fn bound_value(&self, literal: Option<u128>, ident: &Option<String>, built: Option<Option<u128>>) -> (r: Option<u128>)
        ensures
            r == self.spec_bound_value(
                literal,
                match ident {
                    Some(n) => Some(n@),
                    None => None,
                },
                built,
            ),
    {
        if let Some(v) = literal {
            return Some(v);
        }
        if let Some(n) = ident {
            if let Some(var) = self.find(n) {
                if let Some(v) = var.const_value {
                    return Some(v);
                }
            }
        }
        match built {
            Some(b) => b,
            None => None,
        }
    }

    /// An `if` whose branch returns an error and whose condition compares
    /// the variable `candidate` against a bound of value `bound`, on the
    /// side that rejects values above the bound: when `candidate` is a known
    /// `BigUint` and the bound fits in `u32`, the variable is marked as
    /// bounded in the innermost scope.
    pub open spec fn spec_rejecting_if(&self, candidate: Option<Seq<char>>, bound: Option<u128>) -> Seq<ScopeView> {
        match (candidate, bound) {
            (Some(n), Some(b)) => match stack_find(self.view(), n) {
                Some(var) => if var.is_biguint && b <= 0xffff_ffff {
                    stack_mark(self.view(), n, BigUintVar { bounded_to_usize: true, ..var })
                } else {
                    self.view()
                },
                None => self.view(),
            },
            _ => self.view(),
        }
    }

    /// Takes a rejecting `if` into account (see `spec_rejecting_if`).
    pub fn rejecting_if(&mut self, candidate: Option<String>, bound: Option<u128>)
        ensures
            final(self).view() == old(self).spec_rejecting_if(
                match candidate {
                    Some(n) => Some(n@),
                    None => None,
                },
                bound,
            ),
    {
        match (candidate, bound) {
            (Some(n), Some(b)) => match self.find(&n) {
                Some(var) => {
                    if var.is_biguint && b <= 0xffff_ffff {
                        self.mark(n, BigUintVar { is_biguint: var.is_biguint, const_value: var.const_value, bounded_to_usize: true });
                    }
                },
                None => {},
            },
            _ => {},
        }
    }

    /// `name.to_usize()` is on a `BigUint` known to fit in `u32`.
    pub fn is_bounded(&self, name: &String) -> (r: bool)
        ensures
            r == (stack_find(self.view(), name@) matches Some(v) && v.is_biguint && v.bounded_to_usize),
    {
        match self.find(name) {
            Some(v) => v.is_biguint && v.bounded_to_usize,
            None => false,
        }
    }
}

// ---------------------------------------------------------------------------
// The bound of `ConstU32<..>`
// ---------------------------------------------------------------------------

/// Every character of `s` is a decimal digit.
pub open spec fn all_digits(s: Seq<char>) -> bool {
    forall|i: int| 0 <= i < s.len() ==> '0' <= #[trigger] s[i] <= '9'
}

/// The number that the decimal digits `s` write.
pub open spec fn decimal_value(s: Seq<char>) -> int
    decreases s.len(),
{
    if s.len() == 0 {
        0
    } else {
        decimal_value(s.drop_last()) * 10 + (s.last() as int - '0' as int)
    }
}

/// What `u128::from_str` gives for `s`: an optional `+`, then one or more
/// decimal digits writing a number that fits in `u128`.
pub open spec fn parse_u128(s: Seq<char>) -> Option<u128> {
    let digits = if s.len() > 0 && s[0] == '+' {
        s.skip(1)
    } else {
        s
    };
    if digits.len() > 0 && all_digits(digits) && decimal_value(digits) <= u128::MAX {
        Some(decimal_value(digits) as u128)
    } else {
        None
    }
}

/// `s` read as `u128::from_str` reads it.
pub fn parse_u128_exec(s: &Vec<char>) -> (r: Option<u128>)
    ensures
        r == parse_u128(s@),
{
    let start: usize = if s.len() > 0 && s[0] == '+' {
        1
    } else {
        0
    };
    let ghost digits = s@.skip(start as int);
    assert(s@.skip(0) =~= s@);
    assert(digits == (if s@.len() > 0 && s@[0] == '+' {
        s@.skip(1)
    } else {
        s@
    }));
    if start >= s.len() {
        return None;
    }
    let mut v: u128 = 0;
    let mut i: usize = start;
    assert(digits.take(0) =~= Seq::<char>::empty());
    while i < s.len()
        invariant
            start <= i <= s@.len(),
            start < s@.len(),
            digits == s@.skip(start as int),
            digits == (if s@.len() > 0 && s@[0] == '+' {
                s@.skip(1)
            } else {
                s@
            }),
            all_digits(digits.take(i - start)),
            v == decimal_value(digits.take(i - start)),
        decreases s.len() - i,
    {
        let c = s[i];
        let k = i - start;
        assert(digits.take(k + 1).drop_last() =~= digits.take(k as int));
        assert(digits.take(k + 1).last() == c);
        if c < '0' || c > '9' {
            assert(digits[k as int] == c);
            assert(!all_digits(digits));
            return None;
        }
        let d: u128 = (c as u32 - '0' as u32) as u128;
        assert(decimal_value(digits.take(k + 1)) == v * 10 + d);
        assert forall|j: int| 0 <= j < k + 1 implies '0' <= #[trigger] digits.take(k + 1)[j] <= '9' by {
            if j < k {
                assert(digits.take(k + 1)[j] == digits.take(k as int)[j]);
            }
        }
        let next = match v.checked_mul(10) {
            Some(m) => m.checked_add(d),
            None => None,
        };
        match next {
            Some(n) => {
                v = n;
            },
            None => {
                proof {
                    lemma_decimal_value_grows(digits, k + 1);
                    assert(digits.take(digits.len() as int) =~= digits);
                    if all_digits(digits) {
                        assert(decimal_value(digits.take(k + 1)) <= decimal_value(digits.take(digits.len() as int)));
                    }
                }
                return None;
            },
        }
        i += 1;
    }
    assert(digits.take(s.len() - start) =~= digits);
    Some(v)
}

/// Digits after a prefix never make the number smaller.
proof fn lemma_decimal_value_grows(s: Seq<char>, k: int)
    requires
        0 <= k <= s.len(),
        all_digits(s.take(k)),
    ensures
        forall|m: int| k <= m <= s.len() && all_digits(s.take(m)) ==> decimal_value(s.take(k)) <= decimal_value(#[trigger] s.take(m)),
    decreases s.len() - k,
{
    lemma_decimal_value_nonneg(s.take(k));
    if k < s.len() {
        if all_digits(s.take(k + 1)) {
            lemma_decimal_value_grows(s, k + 1);
            assert(s.take(k + 1).drop_last() =~= s.take(k));
        } else {
            assert forall|m: int| k < m <= s.len() implies !all_digits(#[trigger] s.take(m)) by {
                let j = choose|j: int| 0 <= j < s.take(k + 1).len() && !('0' <= #[trigger] s.take(k + 1)[j] <= '9');
                assert(s.take(m)[j] == s.take(k + 1)[j]);
            }
        }
    }
}

/// Decimal digits write no negative number.
proof fn lemma_decimal_value_nonneg(s: Seq<char>)
    requires
        all_digits(s),
    ensures
        decimal_value(s) >= 0,
    decreases s.len(),
{
    if s.len() > 0 {
        assert(all_digits(s.drop_last())) by {
            assert forall|i: int| 0 <= i < s.drop_last().len() implies '0' <= #[trigger] s.drop_last()[i] <= '9' by {
                assert(s.drop_last()[i] == s[i]);
            }
        }
        lemma_decimal_value_nonneg(s.drop_last());
        assert(s.last() == s[s.len() - 1]);
    }
}

/// The value of the last constant named `name` among `consts`.
pub open spec fn const_lookup(consts: Seq<(Seq<char>, u128)>, name: Seq<char>) -> Option<u128>
    decreases consts.len(),
{
    if consts.len() == 0 {
        None
    } else if consts.last().0 == name {
        Some(consts.last().1)
    } else {
        const_lookup(consts.drop_last(), name)
    }
}

/// The bound written between `ConstU32<` and the next `>` in `tokens`: as a
/// `u128` literal, else as the name of one of the file's integer constants
/// `consts` (a later one of the same name replacing an earlier one).
pub open spec fn const_u32_bound(tokens: Seq<char>, consts: Seq<(Seq<char>, u128)>) -> Option<u128> {
    match find(tokens, "ConstU32<"@) {
        None => None,
        Some(i) => {
            let rest = tokens.skip(i + 9);
            match find(rest, ">"@) {
                None => None,
                Some(j) => {
                    let bound = rest.take(j);
                    match parse_u128(bound) {
                        Some(v) => Some(v),
                        None => const_lookup(consts, bound),
                    }
                },
            }
        },
    }
}

/// The bound of the first `ConstU32<..>` in `tokens` (see `const_u32_bound`).
pub fn const_u32_bound_exec(tokens: &str, consts: &Vec<(String, u128)>) -> (r: Option<u128>)
    ensures
        r == const_u32_bound(tokens@, consts@.map_values(|e: (String, u128)| (e.0@, e.1))),
{
    let t = chars_of(tokens);
    let marker = chars_of("ConstU32<");
    proof {
        reveal_strlit("ConstU32<");
        reveal_strlit(">");
    }
    let i = match find_exec(&t, &marker) {
        Some(i) => i,
        None => return None,
    };
    assert(marker@.len() == 9);
    assert(occurs_at(t@, marker@, i as int));
    assert(i + marker@.len() <= t@.len());
    assert(t@.len() == t.len());
    let start = i + 9;
    let rest = copy_range(&t, start, t.len());
    assert(rest@ =~= t@.skip(start as int));
    let j = match find_exec(&rest, &chars_of(">")) {
        Some(j) => j,
        None => return None,
    };
    let bound = copy_range(&rest, 0, j);
    assert(bound@ =~= rest@.take(j as int));
    match parse_u128_exec(&bound) {
        Some(v) => Some(v),
        None => {
            let ghost cv = consts@.map_values(|e: (String, u128)| (e.0@, e.1));
            assert(const_u32_bound(tokens@, cv) == const_lookup(cv, bound@));
            let mut k: usize = consts.len();
            assert(cv.take(k as int) =~= cv);
            while k > 0
                invariant
                    k <= consts@.len(),
                    cv == consts@.map_values(|e: (String, u128)| (e.0@, e.1)),
                    const_u32_bound(tokens@, cv) == const_lookup(cv, bound@),
                    const_lookup(cv, bound@) == const_lookup(cv.take(k as int), bound@),
                decreases k,
            {
                assert(cv.take(k as int).drop_last() =~= cv.take(k - 1));
                assert(cv.take(k as int).last() == (consts@[k - 1].0@, consts@[k - 1].1));
                if chars_equal(&chars_of(consts[k - 1].0.as_str()), &bound) {
                    return Some(consts[k - 1].1);
                }
                k -= 1;
            }
            assert(cv.take(0) =~= Seq::<(Seq<char>, u128)>::empty());
            None
        },
    }
}

// ---------------------------------------------------------------------------
// The names the rules recognise
// ---------------------------------------------------------------------------

/// A call that validates the origin, by the last segment of its path:
/// `ensure_signed`, `ensure_root` or `ensure_none`.
pub open spec fn spec_is_validation_callee(name: Seq<char>) -> bool {
    name == "ensure_signed"@ || name == "ensure_root"@ || name == "ensure_none"@
}

/// Whether a call validates the origin (see `spec_is_validation_callee`).
pub fn is_validation_callee(name: &str) -> (r: bool)
    ensures
        r == spec_is_validation_callee(name@),
{
    let n = chars_of(name);
    equals_str(&n, "ensure_signed") || equals_str(&n, "ensure_root") || equals_str(&n, "ensure_none")
}

/// The macro that rejects a call with an error: `ensure!`, by the last
/// segment of its path.
pub open spec fn spec_is_ensure_macro(name: Seq<char>) -> bool {
    name == "ensure"@
}

/// Whether a macro is `ensure!`.
pub fn is_ensure_macro(name: &str) -> (r: bool)
    ensures
        r == spec_is_ensure_macro(name@),
{
    equals_str(&chars_of(name), "ensure")
}

/// A call that writes storage, by the last segment of its path: `put`,
/// `insert`, `mutate`, `set` or `append`.
pub open spec fn spec_is_storage_write_callee(name: Seq<char>) -> bool {
    name == "put"@ || name == "insert"@ || name == "mutate"@ || name == "set"@ || name == "append"@
}

/// Whether a call writes storage (see `spec_is_storage_write_callee`).
pub fn is_storage_write_callee(name: &str) -> (r: bool)
    ensures
        r == spec_is_storage_write_callee(name@),
{
    let n = chars_of(name);
    equals_str(&n, "put") || equals_str(&n, "insert") || equals_str(&n, "mutate") || equals_str(&n, "set")
        || equals_str(&n, "append")
}

/// The root-origin guard `ensure_root`, by the last segment of a call's path.
pub open spec fn spec_is_root_guard_callee(name: Seq<char>) -> bool {
    name == "ensure_root"@
}

/// Whether a call is the root-origin guard.
pub fn is_root_guard_callee(name: &str) -> (r: bool)
    ensures
        r == spec_is_root_guard_callee(name@),
{
    equals_str(&chars_of(name), "ensure_root")
}

/// `ensure_root(..).is_ok()`: the method is `is_ok` and its receiver a call
/// whose path ends in `ensure_root`.
pub open spec fn spec_is_root_check(method: Seq<char>, receiver_callee: Option<Seq<char>>) -> bool {
    &&& method == "is_ok"@
    &&& receiver_callee matches Some(n) && spec_is_root_guard_callee(n)
}

/// Whether a method call is `ensure_root(..).is_ok()`.
pub fn is_root_check(method: &str, receiver_callee: &Option<String>) -> (r: bool)
    ensures
        r == spec_is_root_check(
            method@,
            match receiver_callee {
                Some(n) => Some(n@),
                None => None,
            },
        ),
{
    equals_str(&chars_of(method), "is_ok") && match receiver_callee {
        Some(n) => is_root_guard_callee(n.as_str()),
        None => false,
    }
}

/// The error constructor `Err`, by the last segment of a path.
pub open spec fn spec_is_error_constructor(name: Seq<char>) -> bool {
    name == "Err"@
}

/// Whether a path names the error constructor.
pub fn is_error_constructor(name: &str) -> (r: bool)
    ensures
        r == spec_is_error_constructor(name@),
{
    equals_str(&chars_of(name), "Err")
}

// ---------------------------------------------------------------------------
// The limit of `clear_prefix`
// ---------------------------------------------------------------------------

/// The limit argument of a `clear_prefix` call, its groups and parentheses
/// taken off.
pub enum LimitShape {
    /// A path, by its last segment.
    Path { last_ident: Option<String> },
    /// A call of a path, by the path's last segment, and its first argument.
    Call { name: Option<String>, first_arg: Option<Box<LimitShape>> },
    /// Anything else.
    Other,
}

/// A limit that does not limit: `None`, a path ending in `MAX`, or
/// `Some(..)` of such a limit.
pub open spec fn spec_is_unbounded_limit(l: LimitShape) -> bool
    decreases l,
{
    match l {
        LimitShape::Path { last_ident } => match last_ident {
            Some(n) => n@ == "None"@ || n@ == "MAX"@,
            None => false,
        },
        LimitShape::Call { name, first_arg } => {
            &&& name matches Some(n) && n@ == "Some"@
            &&& match first_arg {
                Some(a) => spec_is_unbounded_limit(*a),
                None => false,
            }
        },
        LimitShape::Other => false,
    }
}

/// Whether a `clear_prefix` limit does not limit.
pub fn is_unbounded_limit(l: &LimitShape) -> (r: bool)
    ensures
        r == spec_is_unbounded_limit(*l),
    decreases l,
{
    match l {
        LimitShape::Path { last_ident } => match last_ident {
            Some(n) => is_text(n, "None") || is_text(n, "MAX"),
            None => false,
        },
        LimitShape::Call { name, first_arg } => {
            let is_some = match name {
                Some(n) => is_text(n, "Some"),
                None => false,
            };
            if !is_some {
                return false;
            }
            match first_arg {
                Some(a) => is_unbounded_limit(a),
                None => false,
            }
        },
        LimitShape::Other => false,
    }
}

// ---------------------------------------------------------------------------
// Types
// ---------------------------------------------------------------------------

/// A path in a type, by its last segment (`None` for a path without
/// segments), with the type paths written inside it (its generic
/// arguments, at any depth through types that are no paths).
pub struct TypeModel {
    pub last_ident: Option<String>,
    pub args: Vec<TypeModel>,
}

/// A collection with a bound on its length.
pub open spec fn is_bounded_collection_name(n: Seq<char>) -> bool {
    n == "BoundedBTreeMap"@ || n == "BoundedBTreeSet"@ || n == "BoundedVec"@ || n == "WeakBoundedVec"@
}

/// A collection without a bound on its length.
pub open spec fn is_unbounded_collection_name(n: Seq<char>) -> bool {
    n == "Vec"@ || n == "BTreeMap"@ || n == "BTreeSet"@
}

/// The type path holds an unbounded collection that no bounded collection
/// around it limits: a bounded collection is not looked into, an unbounded
/// one is found, and any other path is looked into.
pub open spec fn spec_holds_unbounded(t: TypeModel) -> bool
    decreases t,
{
    match t.last_ident {
        Some(n) => if is_bounded_collection_name(n@) {
            false
        } else if is_unbounded_collection_name(n@) {
            true
        } else {
            exists|i: int| 0 <= i < t.args@.len() && spec_holds_unbounded(#[trigger] t.args@[i])
        },
        None => false,
    }
}

/// One of the type paths `ts` holds an unbounded collection.
pub open spec fn spec_any_holds_unbounded(ts: Seq<TypeModel>) -> bool {
    exists|i: int| 0 <= i < ts.len() && spec_holds_unbounded(#[trigger] ts[i])
}

/// The type path, or one written inside it, ends in `name`.
pub open spec fn spec_mentions_type(t: TypeModel, name: Seq<char>) -> bool
    decreases t,
{
    ||| (t.last_ident matches Some(n) && n@ == name)
    ||| exists|i: int| 0 <= i < t.args@.len() && spec_mentions_type(#[trigger] t.args@[i], name)
}

/// One of the type paths `ts` mentions `name`.
pub open spec fn spec_any_mentions_type(ts: Seq<TypeModel>, name: Seq<char>) -> bool {
    exists|i: int| 0 <= i < ts.len() && spec_mentions_type(#[trigger] ts[i], name)
}

proof fn lemma_arg_smaller(t: TypeModel, i: int)
    requires
        0 <= i < t.args@.len(),
    ensures
        decreases_to!(t => t.args@[i]),
{
    assert(decreases_to!(t => t.args));
    assert(decreases_to!(t.args => t.args@));
    assert(decreases_to!(t.args@ => t.args@[i]));
}

/// Whether a type path holds an unbounded collection (see
/// `spec_holds_unbounded`).
pub fn holds_unbounded(t: &TypeModel) -> (r: bool)
    ensures
        r == spec_holds_unbounded(*t),
    decreases *t,
{
    match &t.last_ident {
        Some(n) => {
            let c = chars_of(n.as_str());
            if equals_str(&c, "BoundedBTreeMap") || equals_str(&c, "BoundedBTreeSet") || equals_str(
                &c,
                "BoundedVec",
            ) || equals_str(&c, "WeakBoundedVec") {
                return false;
            }
            if equals_str(&c, "Vec") || equals_str(&c, "BTreeMap") || equals_str(&c, "BTreeSet") {
                return true;
            }
            let mut i: usize = 0;
            while i < t.args.len()
                invariant
                    i <= t.args@.len(),
                    t.last_ident matches Some(m) && !is_bounded_collection_name(m@)
                        && !is_unbounded_collection_name(m@),
                    forall|j: int| 0 <= j < i ==> !spec_holds_unbounded(#[trigger] t.args@[j]),
                decreases t.args.len() - i,
            {
                proof {
                    lemma_arg_smaller(*t, i as int);
                }
                if holds_unbounded(&t.args[i]) {
                    return true;
                }
                i += 1;
            }
            false
        },
        None => false,
    }
}

/// Whether one of the type paths `ts` holds an unbounded collection.
pub fn any_holds_unbounded(ts: &Vec<TypeModel>) -> (r: bool)
    ensures
        r == spec_any_holds_unbounded(ts@),
{
    let mut i: usize = 0;
    while i < ts.len()
        invariant
            i <= ts@.len(),
            forall|j: int| 0 <= j < i ==> !spec_holds_unbounded(#[trigger] ts@[j]),
        decreases ts.len() - i,
    {
        if holds_unbounded(&ts[i]) {
            return true;
        }
        i += 1;
    }
    false
}

/// Whether a type path, or one written inside it, ends in `name`.
pub fn mentions_type(t: &TypeModel, name: &str) -> (r: bool)
    ensures
        r == spec_mentions_type(*t, name@),
    decreases *t,
{
    let here = match &t.last_ident {
        Some(n) => equals_str(&chars_of(n.as_str()), name),
        None => false,
    };
    if here {
        return true;
    }
    let mut i: usize = 0;
    while i < t.args.len()
        invariant
            i <= t.args@.len(),
            !(t.last_ident matches Some(n) && n@ == name@),
            forall|j: int| 0 <= j < i ==> !spec_mentions_type(#[trigger] t.args@[j], name@),
        decreases t.args.len() - i,
    {
        proof {
            lemma_arg_smaller(*t, i as int);
        }
        if mentions_type(&t.args[i], name) {
            return true;
        }
        i += 1;
    }
    false
}

/// Whether one of the type paths `ts` mentions `name`.
pub fn any_mentions_type(ts: &Vec<TypeModel>, name: &str) -> (r: bool)
    ensures
        r == spec_any_mentions_type(ts@, name@),
{
    let mut i: usize = 0;
    while i < ts.len()
        invariant
            i <= ts@.len(),
            forall|j: int| 0 <= j < i ==> !spec_mentions_type(#[trigger] ts@[j], name@),
        decreases ts.len() - i,
    {
        if mentions_type(&ts[i], name) {
            return true;
        }
        i += 1;
    }
    false
}

} // verus!
