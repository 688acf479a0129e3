//! The interpreter: walks a syntax tree and computes its value in a frame.

use crate::context::{Context, ContextView};
use crate::errors::{
    ErrorType, ErrorTypeView, ErrorView, Fault, Halt, HaltView, RunTimeError,
};
use crate::floats::{
    FloatBits, FloatFacts, FloatOp, FloatRequestView, FloatTable, NEGATIVE_ONE,
};
use crate::number::{
    bare, division_by_zero, float_power, float_quotient, float_result, in_range, negative_power,
    number_text, power_fits, quotient, Number, NumberType, NumberTypeView, NumberView,
};
use crate::parser::{Node, NodeView};
use crate::symbols::{bound, find, find_after_bound};
use crate::text::push_text;
use crate::token::{kind_text, Token, TokenKind, TokenType, TokenView};
use vstd::arithmetic::power::pow;
use vstd::prelude::*;

verus! {

/// The runtime failure with `message` at the span of `token`, in the frame
/// `context`.
pub open spec fn runtime_error(
    token: TokenView,
    message: Seq<char>,
    context: ContextView,
) -> HaltView {
    HaltView::Error(
        ErrorTypeView::RunTime(
            ErrorView { start: token.start, end: token.end, name: "Runtime Error"@, message },
            context,
        ),
    )
}

/// The integer `v` as a result, which came from no source text; a fault
/// where no 64-bit signed integer holds it.
pub open spec fn integer_result(v: int) -> Result<NumberTypeView, HaltView> {
    if in_range(v) {
        Ok(NumberTypeView::Integer(bare(v as i64)))
    } else {
        Err(HaltView::Fault(Fault::Overflow))
    }
}

/// A float result as a tagged number.
pub open spec fn tagged(r: Result<NumberView<FloatBits>, HaltView>) -> Result<
    NumberTypeView,
    HaltView,
> {
    match r {
        Ok(n) => Ok(NumberTypeView::Float(n)),
        Err(h) => Err(h),
    }
}

/// Why the operator `op` cannot be applied to `left` and `right`: a runtime
/// failure at the operator whose message holds both operands written out,
/// between the words given.
pub open spec fn rejected(
    op: TokenView,
    before: Seq<char>,
    between: Seq<char>,
    after: Seq<char>,
    left: NumberTypeView,
    right: NumberTypeView,
    context: ContextView,
    facts: FloatFacts,
) -> HaltView {
    match number_text(left, facts) {
        Err(q) => HaltView::Float(q),
        Ok(first) => match number_text(right, facts) {
            Err(q) => HaltView::Float(q),
            Ok(second) => runtime_error(op, before + first + between + second + after, context),
        },
    }
}

/// The failure for a token that is no operator where one must stand.
pub open spec fn invalid_operator(
    op: TokenView,
    context: ContextView,
    facts: FloatFacts,
) -> HaltView {
    match kind_text(op.kind, facts) {
        Err(q) => HaltView::Float(q),
        Ok(name) => runtime_error(op, "Invalid operator token '"@ + name + "'"@, context),
    }
}

/// Whether two numbers are of the same kind.
pub open spec fn same_kind(left: NumberTypeView, right: NumberTypeView) -> bool {
    (left is Integer && right is Integer) || (left is Float && right is Float)
}

/// The result of the binary operator `op` on `left` and `right`. Sum,
/// difference, product and quotient take two numbers of the same kind and
/// give one of that kind; a quotient by zero is answered with a diagnostic
/// at the right operand. A power takes an integer exponent, which must not
/// be negative, and is of the kind of its base. Numbers of kinds that the
/// operator does not take are rejected: none is ever converted.
pub open spec fn apply(
    op: TokenView,
    left: NumberTypeView,
    right: NumberTypeView,
    context: ContextView,
    facts: FloatFacts,
) -> Result<NumberTypeView, HaltView> {
    match op.kind {
        TokenKind::Plus => match (left, right) {
            (NumberTypeView::Integer(a), NumberTypeView::Integer(b)) => integer_result(
                a.value + b.value,
            ),
            (NumberTypeView::Float(a), NumberTypeView::Float(b)) => tagged(
                float_result(facts, FloatOp::Add, a.value.bits, b.value.bits),
            ),
            _ => Err(
                rejected(
                    op,
                    "Cant add "@,
                    " with "@,
                    " due to different types"@,
                    left,
                    right,
                    context,
                    facts,
                ),
            ),
        },
        TokenKind::Minus => match (left, right) {
            (NumberTypeView::Integer(a), NumberTypeView::Integer(b)) => integer_result(
                a.value - b.value,
            ),
            (NumberTypeView::Float(a), NumberTypeView::Float(b)) => tagged(
                float_result(facts, FloatOp::Sub, a.value.bits, b.value.bits),
            ),
            _ => Err(
                rejected(
                    op,
                    "Cant subtract "@,
                    " from "@,
                    " due to different types"@,
                    left,
                    right,
                    context,
                    facts,
                ),
            ),
        },
        TokenKind::Multiply => match (left, right) {
            (NumberTypeView::Integer(a), NumberTypeView::Integer(b)) => integer_result(
                a.value * b.value,
            ),
            (NumberTypeView::Float(a), NumberTypeView::Float(b)) => tagged(
                float_result(facts, FloatOp::Mul, a.value.bits, b.value.bits),
            ),
            _ => Err(
                rejected(
                    op,
                    "Cant Multiply "@,
                    " with "@,
                    " due to different types"@,
                    left,
                    right,
                    context,
                    facts,
                ),
            ),
        },
        TokenKind::Divide => match (left, right) {
            (NumberTypeView::Integer(a), NumberTypeView::Integer(b)) => if b.value == 0 {
                Err(HaltView::Error(division_by_zero(b)))
            } else {
                integer_result(quotient(a.value as int, b.value as int))
            },
            (NumberTypeView::Float(a), NumberTypeView::Float(b)) => tagged(
                float_quotient(facts, a.value.bits, b),
            ),
            _ => Err(
                rejected(
                    op,
                    "Cant Divide "@,
                    " with "@,
                    " due to different types"@,
                    left,
                    right,
                    context,
                    facts,
                ),
            ),
        },
        TokenKind::Pow => match (left, right) {
            (NumberTypeView::Integer(a), NumberTypeView::Integer(b)) => if b.value < 0 {
                Err(HaltView::Error(negative_power(b)))
            } else if power_fits(a.value as int, b.value as int) {
                Ok(NumberTypeView::Integer(bare(pow(a.value as int, b.value as nat) as i64)))
            } else {
                Err(HaltView::Fault(Fault::Overflow))
            },
            (NumberTypeView::Float(a), NumberTypeView::Integer(b)) => tagged(
                float_power(facts, a.value.bits, b),
            ),
            _ => Err(
                rejected(op, "Cant raise "@, " to "@, ""@, left, right, context, facts),
            ),
        },
        _ => Err(invalid_operator(op, context, facts)),
    }
}

/// The result of the sign `op` before the number `n`: a minus gives the
/// product with minus one, a plus the number itself.
pub open spec fn signed(
    op: TokenView,
    n: NumberTypeView,
    context: ContextView,
    facts: FloatFacts,
) -> Result<NumberTypeView, HaltView> {
    match op.kind {
        TokenKind::Minus => match n {
            NumberTypeView::Integer(x) => integer_result(x.value * -1),
            NumberTypeView::Float(x) => tagged(
                float_result(facts, FloatOp::Mul, x.value.bits, NEGATIVE_ONE),
            ),
        },
        TokenKind::Plus => Ok(n),
        _ => Err(invalid_operator(op, context, facts)),
    }
}

/// The number that a literal token stands for, with the token's span and
/// the frame it is read in; a runtime failure for a token that is no
/// literal.
pub open spec fn literal(token: TokenView, context: ContextView, facts: FloatFacts) -> Result<
    NumberTypeView,
    HaltView,
> {
    match token.kind {
        TokenKind::Int(v) => Ok(
            NumberTypeView::Integer(
                NumberView {
                    value: v,
                    pos_start: token.start,
                    pos_end: token.end,
                    context: Some(context),
                },
            ),
        ),
        TokenKind::Float(b) => Ok(
            NumberTypeView::Float(
                NumberView {
                    value: FloatBits { bits: b },
                    pos_start: token.start,
                    pos_end: token.end,
                    context: Some(context),
                },
            ),
        ),
        _ => match kind_text(token.kind, facts) {
            Err(q) => Err(HaltView::Float(q)),
            Ok(name) => Err(
                runtime_error(
                    token,
                    "Non Value Token "@ + name + " found inside visit value function"@,
                    context,
                ),
            ),
        },
    }
}

/// The value of the variable that `token` names in the frame `context`.
pub open spec fn variable(token: TokenView, context: ContextView) -> Result<
    NumberTypeView,
    HaltView,
> {
    match token.kind {
        TokenKind::Identifier(name) => match context.symbols {
            None => Err(runtime_error(token, "No Symbol Table!"@, context)),
            Some(symbols) => match find(symbols, name) {
                None => Err(runtime_error(token, name + " is not defined"@, context)),
                Some(value) => Ok(value),
            },
        },
        _ => Err(runtime_error(token, "Invalid Variable name"@, context)),
    }
}

/// The frame `context` with `name` bound to `value`.
pub open spec fn assigned(
    context: ContextView,
    name: Seq<char>,
    value: NumberTypeView,
) -> ContextView {
    ContextView { symbols: Some(bound(context.symbols->0, name, value)), ..context }
}

/// The value of the tree `node` in the frame `context`, and the frame
/// afterwards. A literal is its number. A sign or an operator is applied
/// to the values of its operands, the left one first; the first failure
/// ends the evaluation. An assignment binds the value of its right side
/// in the frame and has that value. A variable has the value it is bound
/// to.
pub open spec fn eval(node: NodeView, context: ContextView, facts: FloatFacts) -> (
    Result<NumberTypeView, HaltView>,
    ContextView,
)
    decreases node,
{
    match node {
        NodeView::Value(token) => (literal(token, context, facts), context),
        NodeView::Unary(op, child) => {
            let (inner, after) = eval(*child, context, facts);
            match inner {
                Ok(n) => (signed(op, n, after, facts), after),
                Err(h) => (Err(h), after),
            }
        },
        NodeView::Binop(l, op, r) => {
            let (first, between) = eval(*l, context, facts);
            match first {
                Err(h) => (Err(h), between),
                Ok(left) => {
                    let (second, after) = eval(*r, between, facts);
                    match second {
                        Err(h) => (Err(h), after),
                        Ok(right) => (apply(op, left, right, after, facts), after),
                    }
                },
            }
        },
        NodeView::VarAssign(token, child) => match token.kind {
            TokenKind::Identifier(name) => {
                let (inner, after) = eval(*child, context, facts);
                match inner {
                    Err(h) => (Err(h), after),
                    Ok(value) => if after.symbols is Some {
                        (Ok(value), assigned(after, name, value))
                    } else {
                        (Err(runtime_error(token, "No Symbol Table!"@, after)), after)
                    },
                }
            },
            _ => (Err(runtime_error(token, "Invalid Variable namee"@, context)), context),
        },
        NodeView::VarAccess(token) => (variable(token, context), context),
    }
}

/// The number of nodes of a tree.
pub open spec fn node_size(node: NodeView) -> nat
    decreases node,
{
    match node {
        NodeView::Value(_) => 1,
        NodeView::Unary(_, child) => 1 + node_size(*child),
        NodeView::Binop(l, _, r) => 1 + node_size(*l) + node_size(*r),
        NodeView::VarAssign(_, child) => 1 + node_size(*child),
        NodeView::VarAccess(_) => 1,
    }
}

/// Whether the tree holds an assignment.
pub open spec fn assigns(node: NodeView) -> bool
    decreases node,
{
    match node {
        NodeView::Value(_) => false,
        NodeView::Unary(_, child) => assigns(*child),
        NodeView::Binop(l, _, r) => assigns(*l) || assigns(*r),
        NodeView::VarAssign(_, _) => true,
        NodeView::VarAccess(_) => false,
    }
}

/// Numbers are never converted: sum, difference, product and quotient of
/// an integer and a float have no value. The failure is a runtime failure
/// at the operator, in the frame given, whose message ends with the words
/// "due to different types"; or, while the table lacks the rendering of an
/// operand, the request for that rendering.
pub proof fn mixed_kinds_are_rejected(
    op: TokenView,
    left: NumberTypeView,
    right: NumberTypeView,
    context: ContextView,
    facts: FloatFacts,
)
    requires
        op.kind is Plus || op.kind is Minus || op.kind is Multiply || op.kind is Divide,
        !same_kind(left, right),
    ensures
        match apply(op, left, right, context, facts) {
            Ok(_) => false,
            Err(HaltView::Float(q)) => number_text(left, facts) == Err::<
                Seq<char>,
                FloatRequestView,
            >(q) || number_text(right, facts) == Err::<Seq<char>, FloatRequestView>(
                q,
            ),
            Err(HaltView::Error(ErrorTypeView::RunTime(e, c))) => c == context && e.start
                == op.start && e.end == op.end && exists|head: Seq<char>|
                e.message == head + " due to different types"@,
            Err(_) => false,
        },
{
    match apply(op, left, right, context, facts) {
        Err(HaltView::Error(ErrorTypeView::RunTime(e, c))) => {
            let first = number_text(left, facts)->Ok_0;
            let second = number_text(right, facts)->Ok_0;
            let head = if op.kind is Plus {
                "Cant add "@ + first + " with "@ + second
            } else if op.kind is Minus {
                "Cant subtract "@ + first + " from "@ + second
            } else if op.kind is Multiply {
                "Cant Multiply "@ + first + " with "@ + second
            } else {
                "Cant Divide "@ + first + " with "@ + second
            };
            assert(e.message == head + " due to different types"@);
        },
        _ => {},
    }
}

/// A quotient of two integers by zero has no value: the failure is a
/// division-by-zero diagnostic whose span is that of the right operand.
pub proof fn division_by_zero_is_located(
    op: TokenView,
    left: NumberView<i64>,
    right: NumberView<i64>,
    context: ContextView,
    facts: FloatFacts,
)
    requires
        op.kind is Divide,
        right.value == 0,
    ensures
        apply(
            op,
            NumberTypeView::Integer(left),
            NumberTypeView::Integer(right),
            context,
            facts,
        ) == Err::<NumberTypeView, HaltView>(HaltView::Error(division_by_zero(right))),
        division_by_zero(right) matches ErrorTypeView::DivisionByZero(e) && e.start
            == right.pos_start && e.end == right.pos_end,
{
}

/// A power by a negative exponent has no value, whatever the kind of the
/// base: the failure is an invalid-power diagnostic at the exponent.
pub proof fn negative_exponent_is_rejected(
    op: TokenView,
    left: NumberTypeView,
    right: NumberView<i64>,
    context: ContextView,
    facts: FloatFacts,
)
    requires
        op.kind is Pow,
        right.value < 0,
    ensures
        apply(op, left, NumberTypeView::Integer(right), context, facts) == Err::<
            NumberTypeView,
            HaltView,
        >(HaltView::Error(negative_power(right))),
{
}

/// A variable that was assigned is found: in a frame with bindings, an
/// assignment whose right side has a value has that value, and reading the
/// variable gives the same value, in the frame that the assignment leaves
/// and in every frame that holds the same bindings, such as a frame
/// entered from it that was given them.
pub proof fn assigned_variable_is_found(
    target: TokenView,
    source: TokenView,
    name: Seq<char>,
    child: NodeView,
    context: ContextView,
    reader: ContextView,
    facts: FloatFacts,
)
    requires
        target.kind == TokenKind::Identifier(name),
        source.kind == TokenKind::Identifier(name),
        eval(child, context, facts).0 is Ok,
        eval(child, context, facts).1.symbols is Some,
        reader.symbols == eval(
            NodeView::VarAssign(target, Box::new(child)),
            context,
            facts,
        ).1.symbols,
    ensures
        ({
            let value = eval(child, context, facts).0->Ok_0;
            let (assigned_value, after) = eval(
                NodeView::VarAssign(target, Box::new(child)),
                context,
                facts,
            );
            &&& assigned_value == Ok::<NumberTypeView, HaltView>(value)
            &&& eval(NodeView::VarAccess(source), after, facts) == (
                Ok::<NumberTypeView, HaltView>(value),
                after,
            )
            &&& eval(NodeView::VarAccess(source), reader, facts) == (
                Ok::<NumberTypeView, HaltView>(value),
                reader,
            )
        }),
{
    let (inner, between) = eval(child, context, facts);
    find_after_bound(between.symbols->0, name, inner->Ok_0, name);
}

/// A variable that is not bound has no value: reading it is a runtime
/// failure at the variable, whose message is the name and the words
/// "is not defined".
pub proof fn unassigned_variable_is_undefined(
    source: TokenView,
    name: Seq<char>,
    context: ContextView,
    facts: FloatFacts,
)
    requires
        source.kind == TokenKind::Identifier(name),
        context.symbols is Some,
        find(context.symbols->0, name) is None,
    ensures
        eval(NodeView::VarAccess(source), context, facts) == (
            Err::<NumberTypeView, HaltView>(
                runtime_error(source, name + " is not defined"@, context),
            ),
            context,
        ),
{
}

/// Evaluation changes nothing but the bindings, and those only by
/// assignment: a tree without an assignment leaves the frame as it was.
pub proof fn frame_kept_without_assignment(node: NodeView, context: ContextView, facts: FloatFacts)
    requires
        !assigns(node),
    ensures
        eval(node, context, facts).1 == context,
    decreases node,
{
    match node {
        NodeView::Unary(_, child) => {
            frame_kept_without_assignment(*child, context, facts);
        },
        NodeView::Binop(l, _, r) => {
            frame_kept_without_assignment(*l, context, facts);
            frame_kept_without_assignment(*r, context, facts);
        },
        _ => {},
    }
}

/// Evaluation can be repeated: trees, frames and tables of the same value
/// give the same result and leave frames of the same value.
pub proof fn evaluation_is_repeatable(
    first: Node,
    second: Node,
    here: Context,
    there: Context,
    floats: FloatTable,
    again: FloatTable,
)
    requires
        first@ == second@,
        here@ == there@,
        floats@ == again@,
    ensures
        eval(first@, here@, floats@) == eval(second@, there@, again@),
{
}

/// The evaluator of syntax trees.
#[derive(Clone, Copy, Debug)]
pub struct Interpeter;

/// The runtime failure with `message` at the span of `token`.
fn failure(token: &Token, message: String, context: &Context) -> (r: Halt)
    ensures
        r@ == runtime_error(token@, message@, context@),
{
    Halt::Error(
        ErrorType::RunTimeError(
            RunTimeError::new(
                token.position_start(),
                token.position_end(),
                message,
                context.duplicate(),
            ),
        ),
    )
}

/// The failure for a token that is no operator where one must stand.
fn invalid(optok: &Token, context: &Context, floats: &FloatTable) -> (r: Halt)
    ensures
        r@ == invalid_operator(optok@, context@, floats@),
{
    match optok.to_text(floats) {
        Err(q) => Halt::Float(q),
        Ok(name) => {
            let mut message = String::new();
            push_text(&mut message, "Invalid operator token '");
            push_text(&mut message, name.as_str());
            push_text(&mut message, "'");
            failure(optok, message, context)
        },
    }
}

/// The failure for operands that the operator does not take.
fn reject(
    optok: &Token,
    before: &str,
    between: &str,
    after: &str,
    left: &NumberType,
    right: &NumberType,
    context: &Context,
    floats: &FloatTable,
) -> (r: Halt)
    ensures
        r@ == rejected(
            optok@,
            before@,
            between@,
            after@,
            left@,
            right@,
            context@,
            floats@,
        ),
{
    let first = match left.to_text(floats) {
        Ok(t) => t,
        Err(q) => {
            return Halt::Float(q);
        },
    };
    let second = match right.to_text(floats) {
        Ok(t) => t,
        Err(q) => {
            return Halt::Float(q);
        },
    };
    let mut message = String::new();
    push_text(&mut message, before);
    push_text(&mut message, first.as_str());
    push_text(&mut message, between);
    push_text(&mut message, second.as_str());
    push_text(&mut message, after);
    failure(optok, message, context)
}

/// A float result as a tagged number.
fn tag(r: Result<Number<FloatBits>, Halt>) -> (t: Result<NumberType, Halt>)
    ensures
        match t {
            Ok(n) => r is Ok && n@ == NumberTypeView::Float(r->Ok_0@),
            Err(h) => r is Err && h@ == r->Err_0@,
        },
{
    match r {
        Ok(n) => Ok(NumberType::Float(n)),
        Err(h) => Err(h),
    }
}

impl Interpeter {
    /// An evaluator; it holds no state.
    pub fn new() -> (r: Self) {
        Self {  }
    }

    /// Computes the value of `node` in the frame `context`, as [`eval`]
    /// describes. Results of float operations are read from `floats`.
    pub fn visit(&self, node: Node, context: &mut Context, floats: &FloatTable) -> (r: Result<
        NumberType,
        Halt,
    >)
        ensures
            final(context)@ == eval(node@, old(context)@, floats@).1,
            match r {
                Ok(n) => eval(node@, old(context)@, floats@).0 == Ok::<NumberTypeView, HaltView>(
                    n@,
                ),
                Err(h) => eval(node@, old(context)@, floats@).0 == Err::<
                    NumberTypeView,
                    HaltView,
                >(h@),
            },
        decreases node_size(node@), 1int,
    {
        match node {
            Node::Binop(left, op, right) => self.visit_binop_node(
                *left,
                op,
                *right,
                context,
                floats,
            ),
            Node::Value(val) => self.visit_value_node(val, context, floats),
            Node::Unary(op, child) => self.visit_unary_node(op, *child, context, floats),
            Node::VarAssignNode(name, child) => self.visit_varass_node(
                name,
                *child,
                context,
                floats,
            ),
            Node::VarAccessNode(tok) => self.visit_varacc_node(tok, context),
        }
    }

    /// Reads a variable, as [`variable`] describes.
    fn visit_varacc_node(&self, name_tok: Token, context: &Context) -> (r: Result<
        NumberType,
        Halt,
    >)
        ensures
            match r {
                Ok(n) => variable(name_tok@, context@) == Ok::<NumberTypeView, HaltView>(n@),
                Err(h) => variable(name_tok@, context@) == Err::<NumberTypeView, HaltView>(h@),
            },
    {
        let variable_name = match &name_tok.type_ {
            TokenType::Identifier(name) => name.clone(),
            _ => {
                return Err(failure(&name_tok, "Invalid Variable name".to_owned(), context));
            },
        };
        if context.symbol_map.is_none() {
            return Err(failure(&name_tok, "No Symbol Table!".to_owned(), context));
        }
        match context.get_symbol(variable_name.clone()) {
            None => {
                let mut message = variable_name;
                push_text(&mut message, " is not defined");
                Err(failure(&name_tok, message, context))
            },
            Some(value) => Ok(value),
        }
    }

    /// Evaluates an assignment: binds the value of `node` to the name in the frame.
    fn visit_varass_node(
        &self,
        token: Token,
        node: Node,
        context: &mut Context,
        floats: &FloatTable,
    ) -> (r: Result<NumberType, Halt>)
        ensures
            final(context)@ == eval(
                NodeView::VarAssign(token@, Box::new(node@)),
                old(context)@,
                floats@,
            ).1,
            match r {
                Ok(n) => eval(
                    NodeView::VarAssign(token@, Box::new(node@)),
                    old(context)@,
                    floats@,
                ).0 == Ok::<NumberTypeView, HaltView>(n@),
                Err(h) => eval(
                    NodeView::VarAssign(token@, Box::new(node@)),
                    old(context)@,
                    floats@,
                ).0 == Err::<NumberTypeView, HaltView>(h@),
            },
        decreases node_size(node@), 2int,
    {
        let variable_name = match &token.type_ {
            TokenType::Identifier(name) => name.clone(),
            _ => {
                return Err(failure(&token, "Invalid Variable namee".to_owned(), context));
            },
        };
        let value = match self.visit(node, context, floats) {
            Ok(val) => val,
            Err(e) => {
                return Err(e);
            },
        };
        if context.symbol_map.is_none() {
            return Err(failure(&token, "No Symbol Table!".to_owned(), context));
        }
        context.set_symbol(variable_name, value.duplicate());
        Ok(value)
    }

    /// Evaluates both operands, the left one first, and applies the operator.
    fn visit_binop_node(
        &self,
        left: Node,
        optok: Token,
        right: Node,
        context: &mut Context,
        floats: &FloatTable,
    ) -> (r: Result<NumberType, Halt>)
        ensures
            final(context)@ == eval(
                NodeView::Binop(Box::new(left@), optok@, Box::new(right@)),
                old(context)@,
                floats@,
            ).1,
            match r {
                Ok(n) => eval(
                    NodeView::Binop(Box::new(left@), optok@, Box::new(right@)),
                    old(context)@,
                    floats@,
                ).0 == Ok::<NumberTypeView, HaltView>(n@),
                Err(h) => eval(
                    NodeView::Binop(Box::new(left@), optok@, Box::new(right@)),
                    old(context)@,
                    floats@,
                ).0 == Err::<NumberTypeView, HaltView>(h@),
            },
        decreases node_size(left@) + node_size(right@), 2int,
    {
        let left = match self.visit(left, context, floats) {
            Ok(num) => num,
            Err(e) => {
                return Err(e);
            },
        };
        let right = match self.visit(right, context, floats) {
            Ok(num) => num,
            Err(e) => {
                return Err(e);
            },
        };
        self.apply(&optok, left, right, context, floats)
    }

    /// Applies the binary operator `optok` to two numbers, as [`apply`]
    /// describes.
    pub fn apply(
        &self,
        optok: &Token,
        left: NumberType,
        right: NumberType,
        context: &Context,
        floats: &FloatTable,
    ) -> (r: Result<NumberType, Halt>)
        ensures
            match r {
                Ok(n) => apply(optok@, left@, right@, context@, floats@) == Ok::<
                    NumberTypeView,
                    HaltView,
                >(n@),
                Err(h) => apply(optok@, left@, right@, context@, floats@) == Err::<
                    NumberTypeView,
                    HaltView,
                >(h@),
            },
    {
        match optok.type_ {
            TokenType::Plus => self.sum(optok, left, right, context, floats),
            TokenType::Minus => self.difference(optok, left, right, context, floats),
            TokenType::Multiply => self.product(optok, left, right, context, floats),
            TokenType::Divide => self.ratio(optok, left, right, context, floats),
            TokenType::Pow => self.power(optok, left, right, context, floats),
            _ => Err(invalid(optok, context, floats)),
        }
    }

    /// The sum of two numbers of one kind.
    fn sum(
        &self,
        optok: &Token,
        left: NumberType,
        right: NumberType,
        context: &Context,
        floats: &FloatTable,
    ) -> (r: Result<NumberType, Halt>)
        requires
            optok@.kind is Plus,
        ensures
            match r {
                Ok(n) => apply(optok@, left@, right@, context@, floats@) == Ok::<
                    NumberTypeView,
                    HaltView,
                >(n@),
                Err(h) => apply(optok@, left@, right@, context@, floats@) == Err::<
                    NumberTypeView,
                    HaltView,
                >(h@),
            },
    {
        match (left, right) {
            (NumberType::Integer(num1), NumberType::Integer(num2)) => {
                match num1.value.checked_add(num2.value) {
                    Some(_) => Ok(NumberType::Integer(num1.add(num2))),
                    None => Err(Halt::Fault(Fault::Overflow)),
                }
            },
            (NumberType::Float(num1), NumberType::Float(num2)) => tag(num1.add(num2, floats)),
            (left, right) => Err(
                reject(
                    optok,
                    "Cant add ",
                    " with ",
                    " due to different types",
                    &left,
                    &right,
                    context,
                    floats,
                ),
            ),
        }
    }

    /// The difference of two numbers of one kind.
    fn difference(
        &self,
        optok: &Token,
        left: NumberType,
        right: NumberType,
        context: &Context,
        floats: &FloatTable,
    ) -> (r: Result<NumberType, Halt>)
        requires
            optok@.kind is Minus,
        ensures
            match r {
                Ok(n) => apply(optok@, left@, right@, context@, floats@) == Ok::<
                    NumberTypeView,
                    HaltView,
                >(n@),
                Err(h) => apply(optok@, left@, right@, context@, floats@) == Err::<
                    NumberTypeView,
                    HaltView,
                >(h@),
            },
    {
        match (left, right) {
            (NumberType::Integer(num1), NumberType::Integer(num2)) => {
                match num1.value.checked_sub(num2.value) {
                    Some(_) => Ok(NumberType::Integer(num1.sub(num2))),
                    None => Err(Halt::Fault(Fault::Overflow)),
                }
            },
            (NumberType::Float(num1), NumberType::Float(num2)) => tag(num1.sub(num2, floats)),
            (left, right) => Err(
                reject(
                    optok,
                    "Cant subtract ",
                    " from ",
                    " due to different types",
                    &left,
                    &right,
                    context,
                    floats,
                ),
            ),
        }
    }

    /// The product of two numbers of one kind.
    fn product(
        &self,
        optok: &Token,
        left: NumberType,
        right: NumberType,
        context: &Context,
        floats: &FloatTable,
    ) -> (r: Result<NumberType, Halt>)
        requires
            optok@.kind is Multiply,
        ensures
            match r {
                Ok(n) => apply(optok@, left@, right@, context@, floats@) == Ok::<
                    NumberTypeView,
                    HaltView,
                >(n@),
                Err(h) => apply(optok@, left@, right@, context@, floats@) == Err::<
                    NumberTypeView,
                    HaltView,
                >(h@),
            },
    {
        match (left, right) {
            (NumberType::Integer(num1), NumberType::Integer(num2)) => {
                match num1.value.checked_mul(num2.value) {
                    Some(_) => Ok(NumberType::Integer(num1.mult(num2))),
                    None => Err(Halt::Fault(Fault::Overflow)),
                }
            },
            (NumberType::Float(num1), NumberType::Float(num2)) => tag(num1.mult(num2, floats)),
            (left, right) => Err(
                reject(
                    optok,
                    "Cant Multiply ",
                    " with ",
                    " due to different types",
                    &left,
                    &right,
                    context,
                    floats,
                ),
            ),
        }
    }

    /// The quotient of two numbers of one kind.
    fn ratio(
        &self,
        optok: &Token,
        left: NumberType,
        right: NumberType,
        context: &Context,
        floats: &FloatTable,
    ) -> (r: Result<NumberType, Halt>)
        requires
            optok@.kind is Divide,
        ensures
            match r {
                Ok(n) => apply(optok@, left@, right@, context@, floats@) == Ok::<
                    NumberTypeView,
                    HaltView,
                >(n@),
                Err(h) => apply(optok@, left@, right@, context@, floats@) == Err::<
                    NumberTypeView,
                    HaltView,
                >(h@),
            },
    {
        match (left, right) {
            (NumberType::Integer(num1), NumberType::Integer(num2)) => {
                if num2.value != 0 && num1.value.checked_div(num2.value).is_none() {
                    return Err(Halt::Fault(Fault::Overflow));
                }
                match num1.div(num2) {
                    Ok(num) => Ok(NumberType::Integer(num)),
                    Err(e) => Err(Halt::Error(ErrorType::DivisionByZeroError(e))),
                }
            },
            (NumberType::Float(num1), NumberType::Float(num2)) => tag(num1.div(num2, floats)),
            (left, right) => Err(
                reject(
                    optok,
                    "Cant Divide ",
                    " with ",
                    " due to different types",
                    &left,
                    &right,
                    context,
                    floats,
                ),
            ),
        }
    }

    /// The power of a number by an integer exponent.
    fn power(
        &self,
        optok: &Token,
        left: NumberType,
        right: NumberType,
        context: &Context,
        floats: &FloatTable,
    ) -> (r: Result<NumberType, Halt>)
        requires
            optok@.kind is Pow,
        ensures
            match r {
                Ok(n) => apply(optok@, left@, right@, context@, floats@) == Ok::<
                    NumberTypeView,
                    HaltView,
                >(n@),
                Err(h) => apply(optok@, left@, right@, context@, floats@) == Err::<
                    NumberTypeView,
                    HaltView,
                >(h@),
            },
    {
        match (left, right) {
            (NumberType::Integer(num1), NumberType::Integer(num2)) => {
                if !num1.pow_fits(&num2) {
                    return Err(Halt::Fault(Fault::Overflow));
                }
                match num1.pow(num2) {
                    Ok(num) => Ok(NumberType::Integer(num)),
                    Err(e) => Err(Halt::Error(ErrorType::InvalidPowerError(e))),
                }
            },
            (NumberType::Float(num1), NumberType::Integer(num2)) => tag(num1.pow(num2, floats)),
            (left, right) => Err(
                reject(optok, "Cant raise ", " to ", "", &left, &right, context, floats),
            ),
        }
    }

    /// Whether two numbers are of the same kind.
    pub fn check_if_same_numbertype(&self, first: &NumberType, other: &NumberType) -> (r: bool)
        ensures
            r == same_kind(first@, other@),
    {
        matches!(
            (first, other),
            (NumberType::Integer(_), NumberType::Integer(_)) | (
                NumberType::Float(_),
                NumberType::Float(_),
            )
        )
    }

    /// Reads a literal, as [`literal`] describes.
    fn visit_value_node(&self, token: Token, context: &Context, floats: &FloatTable) -> (r: Result<
        NumberType,
        Halt,
    >)
        ensures
            match r {
                Ok(n) => literal(token@, context@, floats@) == Ok::<NumberTypeView, HaltView>(n@),
                Err(h) => literal(token@, context@, floats@) == Err::<NumberTypeView, HaltView>(
                    h@,
                ),
            },
    {
        match token.type_ {
            TokenType::Int(val) => Ok(
                NumberType::Integer(
                    Number::new(
                        val,
                        token.position_start(),
                        token.position_end(),
                        Some(context.duplicate()),
                    ),
                ),
            ),
            TokenType::Float(val) => Ok(
                NumberType::Float(
                    Number::new(
                        val,
                        token.position_start(),
                        token.position_end(),
                        Some(context.duplicate()),
                    ),
                ),
            ),
            _ => {
                let name = match token.to_text(floats) {
                    Ok(t) => t,
                    Err(q) => {
                        return Err(Halt::Float(q));
                    },
                };
                let mut message = String::new();
                push_text(&mut message, "Non Value Token ");
                push_text(&mut message, name.as_str());
                push_text(&mut message, " found inside visit value function");
                Err(failure(&token, message, context))
            },
        }
    }

    /// Evaluates the operand and applies the sign, as [`signed`] describes.
    fn visit_unary_node(
        &self,
        optok: Token,
        node: Node,
        context: &mut Context,
        floats: &FloatTable,
    ) -> (r: Result<NumberType, Halt>)
        ensures
            final(context)@ == eval(
                NodeView::Unary(optok@, Box::new(node@)),
                old(context)@,
                floats@,
            ).1,
            match r {
                Ok(n) => eval(NodeView::Unary(optok@, Box::new(node@)), old(context)@, floats@).0
                    == Ok::<NumberTypeView, HaltView>(n@),
                Err(h) => eval(NodeView::Unary(optok@, Box::new(node@)), old(context)@, floats@).0
                    == Err::<NumberTypeView, HaltView>(h@),
            },
        decreases node_size(node@), 2int,
    {
        let number = match self.visit(node, context, floats) {
            Ok(num) => num,
            Err(e) => {
                return Err(e);
            },
        };
        match optok.type_ {
            TokenType::Minus => match number {
                NumberType::Integer(num) => match num.value.checked_mul(-1) {
                    Some(_) => Ok(NumberType::Integer(num.mult(Number::new_no_pos(-1)))),
                    None => Err(Halt::Fault(Fault::Overflow)),
                },
                NumberType::Float(num) => tag(
                    num.mult(Number::new_no_pos(FloatBits::new(NEGATIVE_ONE)), floats),
                ),
            },
            TokenType::Plus => Ok(number),
            _ => Err(invalid(&optok, context, floats)),
        }
    }
}

} // verus!
