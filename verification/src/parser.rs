//! The parser: from tokens to a syntax tree, by recursive descent over
//! three levels of binding power.

use crate::errors::{diagnostic, ErrorType, ErrorTypeView, ErrorView, SyntaxError};
use crate::floats::{FloatFacts, FloatRequest, FloatRequestView, FloatTable};
use crate::lexer::tokens_view;
use crate::text::push_text;
use crate::token::{kind_text, Token, TokenKind, TokenType, TokenView};
use vstd::prelude::*;

verus! {

/// A syntax tree. Every node owns its children.
#[derive(Debug, PartialEq)]
pub enum Node {
    Binop(Box<Node>, Token, Box<Node>),
    Value(Token),
    Unary(Token, Box<Node>),
    VarAssignNode(Token, Box<Node>),
    VarAccessNode(Token),
}

/// The mathematical value of a [`Node`].
pub ghost enum NodeView {
    Binop(Box<NodeView>, TokenView, Box<NodeView>),
    Value(TokenView),
    Unary(TokenView, Box<NodeView>),
    VarAssign(TokenView, Box<NodeView>),
    VarAccess(TokenView),
}

/// The value of a tree.
pub open spec fn node_view(n: Node) -> NodeView
    decreases n,
{
    match n {
        Node::Binop(l, op, r) => NodeView::Binop(
            Box::new(node_view(*l)),
            op@,
            Box::new(node_view(*r)),
        ),
        Node::Value(t) => NodeView::Value(t@),
        Node::Unary(op, c) => NodeView::Unary(op@, Box::new(node_view(*c))),
        Node::VarAssignNode(name, c) => NodeView::VarAssign(name@, Box::new(node_view(*c))),
        Node::VarAccessNode(name) => NodeView::VarAccess(name@),
    }
}

impl View for Node {
    type V = NodeView;

    open spec fn view(&self) -> NodeView {
        node_view(*self)
    }
}

impl Default for Node {
    fn default() -> (r: Self)
        ensures
            r@ == NodeView::Value(
                TokenView { kind: TokenKind::Int(0), start: None, end: None },
            ),
    {
        Node::Value(Token::default())
    }
}

impl Clone for Node {
    fn clone(&self) -> (r: Self)
        ensures
            r@ == self@,
        decreases self,
    {
        match self {
            Node::Binop(l, op, r) => Node::Binop(
                Box::new((**l).clone()),
                op.clone(),
                Box::new((**r).clone()),
            ),
            Node::Value(t) => Node::Value(t.clone()),
            Node::Unary(op, c) => Node::Unary(op.clone(), Box::new((**c).clone())),
            Node::VarAssignNode(name, c) => Node::VarAssignNode(
                name.clone(),
                Box::new((**c).clone()),
            ),
            Node::VarAccessNode(name) => Node::VarAccessNode(name.clone()),
        }
    }
}

/// How a tree is written out: a leaf as its token, an inner node as its
/// parts between square brackets, an operator between its operands. The
/// result is the request for a float rendering where `facts` lacks one.
pub open spec fn node_text(n: NodeView, facts: FloatFacts) -> Result<Seq<char>, FloatRequestView>
    decreases n,
{
    match n {
        NodeView::Binop(l, op, r) => match node_text(*l, facts) {
            Err(q) => Err(q),
            Ok(left) => match kind_text(op.kind, facts) {
                Err(q) => Err(q),
                Ok(middle) => match node_text(*r, facts) {
                    Err(q) => Err(q),
                    Ok(right) => Ok("["@ + left + ", "@ + middle + ", "@ + right + "]"@),
                },
            },
        },
        NodeView::Value(t) => kind_text(t.kind, facts),
        NodeView::Unary(op, c) => match kind_text(op.kind, facts) {
            Err(q) => Err(q),
            Ok(first) => match node_text(*c, facts) {
                Err(q) => Err(q),
                Ok(second) => Ok("["@ + first + ", "@ + second + "]"@),
            },
        },
        NodeView::VarAssign(name, c) => match kind_text(name.kind, facts) {
            Err(q) => Err(q),
            Ok(first) => match node_text(*c, facts) {
                Err(q) => Err(q),
                Ok(second) => Ok("["@ + first + ", "@ + second + "]"@),
            },
        },
        NodeView::VarAccess(name) => kind_text(name.kind, facts),
    }
}

impl Node {
    /// Writes the tree out, as [`node_text`] describes.
    pub fn to_text(&self, floats: &FloatTable) -> (r: Result<String, FloatRequest>)
        ensures
            match r {
                Ok(t) => node_text(self@, floats@) == Ok::<Seq<char>, FloatRequestView>(t@),
                Err(q) => node_text(self@, floats@) == Err::<Seq<char>, FloatRequestView>(q@),
            },
        decreases self, 0int,
    {
        match self {
            Node::Binop(l, op, r) => {
                let left = match l.to_text(floats) {
                    Ok(t) => t,
                    Err(q) => {
                        return Err(q);
                    },
                };
                let middle = match op.to_text(floats) {
                    Ok(t) => t,
                    Err(q) => {
                        return Err(q);
                    },
                };
                let right = match r.to_text(floats) {
                    Ok(t) => t,
                    Err(q) => {
                        return Err(q);
                    },
                };
                let mut out = String::new();
                push_text(&mut out, "[");
                push_text(&mut out, left.as_str());
                push_text(&mut out, ", ");
                push_text(&mut out, middle.as_str());
                push_text(&mut out, ", ");
                push_text(&mut out, right.as_str());
                push_text(&mut out, "]");
                Ok(out)
            },
            Node::Value(t) => t.to_text(floats),
            Node::Unary(op, c) => Self::pair_text(op, c, floats),
            Node::VarAssignNode(name, c) => Self::pair_text(name, c, floats),
            Node::VarAccessNode(name) => name.to_text(floats),
        }
    }

    /// Writes out a token and a tree between square brackets.
    fn pair_text(head: &Token, child: &Node, floats: &FloatTable) -> (r: Result<
        String,
        FloatRequest,
    >)
        ensures
            match r {
                Ok(t) => node_text(NodeView::Unary(head@, Box::new(child@)), floats@) == Ok::<
                    Seq<char>,
                    FloatRequestView,
                >(t@),
                Err(q) => node_text(NodeView::Unary(head@, Box::new(child@)), floats@) == Err::<
                    Seq<char>,
                    FloatRequestView,
                >(q@),
            },
        decreases child, 1int,
    {
        let first = match head.to_text(floats) {
            Ok(t) => t,
            Err(q) => {
                return Err(q);
            },
        };
        let second = match child.to_text(floats) {
            Ok(t) => t,
            Err(q) => {
                return Err(q);
            },
        };
        let mut out = String::new();
        push_text(&mut out, "[");
        push_text(&mut out, first.as_str());
        push_text(&mut out, ", ");
        push_text(&mut out, second.as_str());
        push_text(&mut out, "]");
        Ok(out)
    }
}

/// Walks the whole tree, operands from left to right, and leaves it as it
/// is.
pub fn print_ast(root: Node)
    decreases root,
{
    match root {
        Node::Binop(left, _op, right) => {
            print_ast(*left);
            print_ast(*right)
        },
        Node::Value(_val) => {},
        Node::Unary(_op, node) => {
            print_ast(*node);
        },
        Node::VarAssignNode(_name, node) => {
            print_ast(*node);
        },
        Node::VarAccessNode(_name) => {},
    }
}

/// A level of binding power with binary operators: sums and differences of
/// terms, or products and quotients of factors.
#[derive(Clone, Copy, Debug, PartialEq, Eq, Structural)]
pub enum Level {
    Expression,
    Term,
}

/// Whether a token of kind `kind` is a binary operator of `level`.
pub open spec fn is_operator(kind: TokenKind, level: Level) -> bool {
    match level {
        Level::Expression => kind is Plus || kind is Minus,
        Level::Term => kind is Multiply || kind is Divide,
    }
}

/// The diagnostic with `message` at the span of `token`.
pub open spec fn syntax_error(token: TokenView, message: Seq<char>) -> ErrorTypeView {
    ErrorTypeView::Syntax(
        ErrorView { start: token.start, end: token.end, name: "Syntax Error"@, message },
    )
}

/// How many tokens are left from index `i` on.
pub open spec fn remaining(ts: Seq<TokenView>, i: int) -> nat {
    if i < ts.len() {
        (ts.len() - i) as nat
    } else {
        0
    }
}

/// The place of each parsing function in the order in which they call one
/// another on the same token.
pub open spec fn rank(level: Level, part: int) -> int {
    match level {
        Level::Expression => 4 + part,
        Level::Term => 1 + part,
    }
}

/// A factor from token `i` on, and how many tokens it takes: a number, a
/// signed factor, or an expression between parentheses. A parenthesis that
/// is not closed is answered at the opening one.
pub open spec fn factor(ts: Seq<TokenView>, i: int) -> (Result<NodeView, ErrorTypeView>, nat)
    decreases remaining(ts, i), 0int,
{
    if i < 0 || i >= ts.len() {
        (
            Err(
                syntax_error(
                    TokenView { kind: TokenKind::EndOfFile, start: None, end: None },
                    "Expected Int or Float"@,
                ),
            ),
            0,
        )
    } else {
        let token = ts[i];
        match token.kind {
            TokenKind::Int(_) | TokenKind::Float(_) => (Ok(NodeView::Value(token)), 1),
            TokenKind::Plus | TokenKind::Minus => {
                let (inner, n) = factor(ts, i + 1);
                match inner {
                    Ok(node) => (Ok(NodeView::Unary(token, Box::new(node))), 1 + n),
                    Err(e) => (Err(e), 1 + n),
                }
            },
            TokenKind::LParen => {
                let (inner, n) = binary(ts, i + 1, Level::Expression);
                match inner {
                    Err(e) => (Err(e), 1 + n),
                    Ok(node) => if i + 1 + n < ts.len() && ts[i + 1 + n].kind is RParen {
                        (Ok(node), 1 + n + 1)
                    } else {
                        (Err(syntax_error(token, "Expected ')'"@)), 1 + n)
                    },
                }
            },
            _ => (Err(syntax_error(token, "Expected Int or Float"@)), 0),
        }
    }
}

/// An operand of `level` from token `i` on: a term for an expression, a
/// factor for a term.
pub open spec fn operand(ts: Seq<TokenView>, i: int, level: Level) -> (
    Result<NodeView, ErrorTypeView>,
    nat,
)
    decreases remaining(ts, i), rank(level, 0),
{
    match level {
        Level::Expression => binary(ts, i, Level::Term),
        Level::Term => factor(ts, i),
    }
}

/// What follows the operand `left` of `level` at token `j`: as long as an
/// operator of the level comes next, it and the operand after it are
/// joined with what came before, so that operators of one level group from
/// the left.
pub open spec fn fold(ts: Seq<TokenView>, left: NodeView, j: int, level: Level) -> (
    Result<NodeView, ErrorTypeView>,
    nat,
)
    decreases remaining(ts, j), rank(level, 1),
{
    if 0 <= j < ts.len() && is_operator(ts[j].kind, level) {
        let (next, n) = operand(ts, j + 1, level);
        match next {
            Ok(right) => {
                let joined = NodeView::Binop(Box::new(left), ts[j], Box::new(right));
                let (all, m) = fold(ts, joined, j + 1 + n, level);
                (all, 1 + n + m)
            },
            Err(e) => (Err(e), 1 + n),
        }
    } else {
        (Ok(left), 0)
    }
}

/// Operands of `level` from token `i` on with the operators of the level
/// between them, and how many tokens they take.
pub open spec fn binary(ts: Seq<TokenView>, i: int, level: Level) -> (
    Result<NodeView, ErrorTypeView>,
    nat,
)
    decreases remaining(ts, i), rank(level, 2),
{
    let (first, n) = operand(ts, i, level);
    match first {
        Ok(left) => {
            let (all, m) = fold(ts, left, i + n, level);
            (all, n + m)
        },
        Err(e) => (Err(e), n),
    }
}

/// The tree of the expression that the tokens from `i` on form. After the
/// expression the end-of-file token must follow: whatever else stands
/// there is answered with a diagnostic at its span.
pub open spec fn parse_from(ts: Seq<TokenView>, i: int) -> Result<NodeView, ErrorTypeView> {
    let (tree, n) = binary(ts, i, Level::Expression);
    match tree {
        Ok(node) => if 0 <= i + n < ts.len() && !(ts[i + n].kind is EndOfFile) {
            Err(syntax_error(ts[i + n], "Expected '+', '-', '*', or '/'"@))
        } else {
            Ok(node)
        },
        Err(e) => Err(e),
    }
}

/// An end-of-file token stands at index `i` or after it.
pub open spec fn ends(ts: Seq<TokenView>, i: int) -> bool {
    exists|k: int| i <= k < ts.len() && (#[trigger] ts[k]).kind is EndOfFile
}

/// A factor takes no token from the end-of-file token on.
proof fn factor_stops_at_end(ts: Seq<TokenView>, i: int, k: int)
    requires
        0 <= i <= k < ts.len(),
        ts[k].kind is EndOfFile,
    ensures
        i + factor(ts, i).1 <= k,
    decreases remaining(ts, i), 0int,
{
    let token = ts[i];
    match token.kind {
        TokenKind::Plus | TokenKind::Minus => {
            factor_stops_at_end(ts, i + 1, k);
        },
        TokenKind::LParen => {
            binary_stops_at_end(ts, i + 1, k, Level::Expression);
        },
        _ => {},
    }
}

/// An operand takes no token from the end-of-file token on.
proof fn operand_stops_at_end(ts: Seq<TokenView>, i: int, k: int, level: Level)
    requires
        0 <= i <= k < ts.len(),
        ts[k].kind is EndOfFile,
    ensures
        i + operand(ts, i, level).1 <= k,
    decreases remaining(ts, i), rank(level, 0),
{
    match level {
        Level::Expression => binary_stops_at_end(ts, i, k, Level::Term),
        Level::Term => factor_stops_at_end(ts, i, k),
    }
}

/// Operators and operands take no token from the end-of-file token on.
proof fn fold_stops_at_end(ts: Seq<TokenView>, left: NodeView, j: int, k: int, level: Level)
    requires
        0 <= j <= k < ts.len(),
        ts[k].kind is EndOfFile,
    ensures
        j + fold(ts, left, j, level).1 <= k,
    decreases remaining(ts, j), rank(level, 1),
{
    if is_operator(ts[j].kind, level) {
        operand_stops_at_end(ts, j + 1, k, level);
        let (next, n) = operand(ts, j + 1, level);
        match next {
            Ok(right) => {
                let joined = NodeView::Binop(Box::new(left), ts[j], Box::new(right));
                fold_stops_at_end(ts, joined, j + 1 + n, k, level);
            },
            Err(_) => {},
        }
    }
}

/// Operands with operators between them take no token from the
/// end-of-file token on.
proof fn binary_stops_at_end(ts: Seq<TokenView>, i: int, k: int, level: Level)
    requires
        0 <= i <= k < ts.len(),
        ts[k].kind is EndOfFile,
    ensures
        i + binary(ts, i, level).1 <= k,
    decreases remaining(ts, i), rank(level, 2),
{
    operand_stops_at_end(ts, i, k, level);
    let (first, n) = operand(ts, i, level);
    match first {
        Ok(left) => {
            fold_stops_at_end(ts, left, i + n, k, level);
        },
        Err(_) => {},
    }
}

/// Nothing may follow the expression: where tokens with an end-of-file
/// token among them parse into a tree, the expression takes the tokens up
/// to an end-of-file token and none after it.
pub proof fn parsed_expression_ends_the_tokens(ts: Seq<TokenView>, i: int)
    requires
        0 <= i,
        ends(ts, i),
        parse_from(ts, i) is Ok,
    ensures
        i + binary(ts, i, Level::Expression).1 < ts.len(),
        ts[i + binary(ts, i, Level::Expression).1].kind is EndOfFile,
{
    let k = choose|k: int| i <= k < ts.len() && (#[trigger] ts[k]).kind is EndOfFile;
    binary_stops_at_end(ts, i, k, Level::Expression);
}

/// Whether a token of kind `kind` is a numeric literal.
pub open spec fn is_number(kind: TokenKind) -> bool {
    kind is Int || kind is Float
}

/// The tree of one numeric literal.
pub open spec fn leaf(token: TokenView) -> Box<NodeView> {
    Box::new(NodeView::Value(token))
}

/// A numeric literal alone is a term that takes one token, where no
/// operator of terms follows it.
proof fn single_factor_term(ts: Seq<TokenView>, i: int)
    requires
        0 <= i,
        i + 1 < ts.len(),
        is_number(ts[i].kind),
        !is_operator(ts[i + 1].kind, Level::Term),
    ensures
        binary(ts, i, Level::Term) == (Ok::<NodeView, ErrorTypeView>(NodeView::Value(ts[i])), 1nat),
{
    assert(factor(ts, i) == (Ok::<NodeView, ErrorTypeView>(NodeView::Value(ts[i])), 1nat));
    assert(operand(ts, i, Level::Term) == factor(ts, i));
    assert(fold(ts, NodeView::Value(ts[i]), i + 1, Level::Term) == (
        Ok::<NodeView, ErrorTypeView>(NodeView::Value(ts[i])),
        0nat,
    ));
}

/// Operators of one level group from the left: three numbers with two
/// operators of the same level between them parse into the tree whose left
/// operand holds the first two numbers.
pub proof fn same_level_groups_from_the_left(
    a: TokenView,
    first: TokenView,
    b: TokenView,
    second: TokenView,
    c: TokenView,
    end: TokenView,
    level: Level,
)
    requires
        is_number(a.kind),
        is_number(b.kind),
        is_number(c.kind),
        is_operator(first.kind, level),
        is_operator(second.kind, level),
        end.kind is EndOfFile,
    ensures
        parse_from(seq![a, first, b, second, c, end], 0) == Ok::<NodeView, ErrorTypeView>(
            NodeView::Binop(
                Box::new(NodeView::Binop(leaf(a), first, leaf(b))),
                second,
                leaf(c),
            ),
        ),
{
    let ts = seq![a, first, b, second, c, end];
    let inner = NodeView::Binop(leaf(a), first, leaf(b));
    let outer = NodeView::Binop(Box::new(inner), second, leaf(c));
    assert(ts[0] == a && ts[1] == first && ts[2] == b && ts[3] == second && ts[4] == c && ts[5]
        == end);
    assert(factor(ts, 0) == (Ok::<NodeView, ErrorTypeView>(NodeView::Value(a)), 1nat));
    assert(factor(ts, 2) == (Ok::<NodeView, ErrorTypeView>(NodeView::Value(b)), 1nat));
    assert(factor(ts, 4) == (Ok::<NodeView, ErrorTypeView>(NodeView::Value(c)), 1nat));
    match level {
        Level::Term => {
            assert(operand(ts, 0, level) == factor(ts, 0));
            assert(operand(ts, 2, level) == factor(ts, 2));
            assert(operand(ts, 4, level) == factor(ts, 4));
            assert(fold(ts, outer, 5, level) == (Ok::<NodeView, ErrorTypeView>(outer), 0nat));
            assert(fold(ts, inner, 3, level) == (Ok::<NodeView, ErrorTypeView>(outer), 2nat));
            assert(fold(ts, NodeView::Value(a), 1, level) == (
                Ok::<NodeView, ErrorTypeView>(outer),
                4nat,
            ));
            assert(binary(ts, 0, level) == (Ok::<NodeView, ErrorTypeView>(outer), 5nat));
            assert(operand(ts, 0, Level::Expression) == binary(ts, 0, Level::Term));
            assert(fold(ts, outer, 5, Level::Expression) == (
                Ok::<NodeView, ErrorTypeView>(outer),
                0nat,
            ));
            assert(binary(ts, 0, Level::Expression) == (
                Ok::<NodeView, ErrorTypeView>(outer),
                5nat,
            ));
        },
        Level::Expression => {
            single_factor_term(ts, 0);
            single_factor_term(ts, 2);
            single_factor_term(ts, 4);
            assert(operand(ts, 0, level) == binary(ts, 0, Level::Term));
            assert(operand(ts, 2, level) == binary(ts, 2, Level::Term));
            assert(operand(ts, 4, level) == binary(ts, 4, Level::Term));
            assert(fold(ts, outer, 5, level) == (Ok::<NodeView, ErrorTypeView>(outer), 0nat));
            assert(fold(ts, inner, 3, level) == (Ok::<NodeView, ErrorTypeView>(outer), 2nat));
            assert(fold(ts, NodeView::Value(a), 1, level) == (
                Ok::<NodeView, ErrorTypeView>(outer),
                4nat,
            ));
            assert(binary(ts, 0, level) == (Ok::<NodeView, ErrorTypeView>(outer), 5nat));
        },
    }
}

/// A product binds tighter than a sum: a number, an operator of
/// expressions, and two numbers with an operator of terms between them
/// parse into the tree whose right operand holds the last two numbers.
pub proof fn term_binds_tighter(
    a: TokenView,
    first: TokenView,
    b: TokenView,
    second: TokenView,
    c: TokenView,
    end: TokenView,
)
    requires
        is_number(a.kind),
        is_number(b.kind),
        is_number(c.kind),
        is_operator(first.kind, Level::Expression),
        is_operator(second.kind, Level::Term),
        end.kind is EndOfFile,
    ensures
        parse_from(seq![a, first, b, second, c, end], 0) == Ok::<NodeView, ErrorTypeView>(
            NodeView::Binop(
                leaf(a),
                first,
                Box::new(NodeView::Binop(leaf(b), second, leaf(c))),
            ),
        ),
{
    let ts = seq![a, first, b, second, c, end];
    let inner = NodeView::Binop(leaf(b), second, leaf(c));
    let outer = NodeView::Binop(leaf(a), first, Box::new(inner));
    assert(ts[0] == a && ts[1] == first && ts[2] == b && ts[3] == second && ts[4] == c && ts[5]
        == end);
    single_factor_term(ts, 0);
    assert(factor(ts, 2) == (Ok::<NodeView, ErrorTypeView>(NodeView::Value(b)), 1nat));
    assert(factor(ts, 4) == (Ok::<NodeView, ErrorTypeView>(NodeView::Value(c)), 1nat));
    assert(operand(ts, 2, Level::Term) == factor(ts, 2));
    assert(operand(ts, 4, Level::Term) == factor(ts, 4));
    assert(fold(ts, inner, 5, Level::Term) == (Ok::<NodeView, ErrorTypeView>(inner), 0nat));
    assert(fold(ts, NodeView::Value(b), 3, Level::Term) == (
        Ok::<NodeView, ErrorTypeView>(inner),
        2nat,
    ));
    assert(binary(ts, 2, Level::Term) == (Ok::<NodeView, ErrorTypeView>(inner), 3nat));
    assert(operand(ts, 0, Level::Expression) == binary(ts, 0, Level::Term));
    assert(operand(ts, 2, Level::Expression) == binary(ts, 2, Level::Term));
    assert(fold(ts, outer, 5, Level::Expression) == (
        Ok::<NodeView, ErrorTypeView>(outer),
        0nat,
    ));
    assert(fold(ts, NodeView::Value(a), 1, Level::Expression) == (
        Ok::<NodeView, ErrorTypeView>(outer),
        4nat,
    ));
    assert(binary(ts, 0, Level::Expression) == (Ok::<NodeView, ErrorTypeView>(outer), 5nat));
}

/// A parser over a sequence of tokens.
#[derive(Debug)]
pub struct Parser {
    pub tokens: Vec<Token>,
    pub token_index: usize,
    pub current_token: Token,
}

impl Parser {
    /// The values of the tokens.
    pub open spec fn stream(&self) -> Seq<TokenView> {
        tokens_view(self.tokens@)
    }

    /// The current token is the one at the current index, and an
    /// end-of-file token stands there or after it.
    pub open spec fn well_formed(&self) -> bool {
        &&& self.token_index < self.tokens@.len()
        &&& self.current_token@ == self.stream()[self.token_index as int]
        &&& ends(self.stream(), self.token_index as int)
    }

    /// Whether an end-of-file token stands among `tokens`, so that a parser
    /// over them is well formed.
    pub fn is_terminated(tokens: &Vec<Token>) -> (r: bool)
        ensures
            r == ends(tokens_view(tokens@), 0),
    {
        let mut i: usize = 0;
        while i < tokens.len()
            invariant
                i <= tokens.len(),
                forall|k: int|
                    0 <= k < i ==> !((#[trigger] tokens_view(tokens@)[k]).kind is EndOfFile),
            decreases tokens.len() - i,
        {
            if matches!(tokens[i].type_, TokenType::EndOfFile) {
                assert(tokens_view(tokens@)[i as int].kind is EndOfFile);
                return true;
            }
            i += 1;
        }
        false
    }

    /// A parser at the first of `tokens`.
    pub fn new(tokens: Vec<Token>) -> (r: Self)
        ensures
            r.stream() == tokens_view(tokens@),
            r.token_index == 0,
            ends(tokens_view(tokens@), 0) ==> r.well_formed(),
    {
        let current_token = if tokens.len() > 0 {
            tokens[0].clone()
        } else {
            Token::default()
        };
        Self { tokens, token_index: 0, current_token }
    }

    /// Moves on to the next token.
    fn advance(&mut self)
        requires
            old(self).well_formed(),
            !(old(self).current_token@.kind is EndOfFile),
        ensures
            final(self).well_formed(),
            final(self).stream() == old(self).stream(),
            final(self).token_index == old(self).token_index + 1,
    {
        let ghost ts = self.stream();
        let ghost k = choose|k: int|
            self.token_index <= k < ts.len() && (#[trigger] ts[k]).kind is EndOfFile;
        assert(self.token_index + 1 < self.tokens.len());
        self.token_index += 1;
        self.current_token = self.tokens[self.token_index].clone();
        assert(ts[k].kind is EndOfFile);
    }

    /// Parses the tokens into the tree of one expression, as [`parse_from`]
    /// describes.
    pub fn parse(&mut self) -> (r: Result<Node, ErrorType>)
        requires
            old(self).well_formed(),
        ensures
            final(self).well_formed(),
            final(self).stream() == old(self).stream(),
            final(self).token_index == old(self).token_index + binary(
                old(self).stream(),
                old(self).token_index as int,
                Level::Expression,
            ).1,
            match r {
                Ok(node) => parse_from(old(self).stream(), old(self).token_index as int) == Ok::<
                    NodeView,
                    ErrorTypeView,
                >(node@),
                Err(e) => parse_from(old(self).stream(), old(self).token_index as int) == Err::<
                    NodeView,
                    ErrorTypeView,
                >(e@),
            },
    {
        let result = self.expression();
        match result {
            Ok(node) => {
                if !matches!(self.current_token.type_, TokenType::EndOfFile) {
                    Err(
                        ErrorType::SyntaxError(
                            SyntaxError::new(
                                self.current_token.position_start(),
                                self.current_token.position_end(),
                                "Expected '+', '-', '*', or '/'".to_owned(),
                            ),
                        ),
                    )
                } else {
                    Ok(node)
                }
            },
            Err(e) => Err(e),
        }
    }

    /// Parses one factor, as [`factor`] describes.
    fn factor(&mut self) -> (r: Result<Node, ErrorType>)
        requires
            old(self).well_formed(),
        ensures
            final(self).well_formed(),
            final(self).stream() == old(self).stream(),
            final(self).token_index == old(self).token_index + factor(
                old(self).stream(),
                old(self).token_index as int,
            ).1,
            match r {
                Ok(node) => factor(old(self).stream(), old(self).token_index as int).0 == Ok::<
                    NodeView,
                    ErrorTypeView,
                >(node@),
                Err(e) => factor(old(self).stream(), old(self).token_index as int).0 == Err::<
                    NodeView,
                    ErrorTypeView,
                >(e@),
            },
        decreases remaining(old(self).stream(), old(self).token_index as int), 0int,
    {
        let token = self.current_token.clone();
        match token.type_ {
            TokenType::Int(_) | TokenType::Float(_) => {
                self.advance();
                Ok(Node::Value(token))
            },
            TokenType::Plus | TokenType::Minus => {
                self.advance();
                match self.factor() {
                    Ok(inner) => Ok(Node::Unary(token, Box::new(inner))),
                    Err(e) => Err(e),
                }
            },
            TokenType::LParen => {
                self.advance();
                match self.expression() {
                    Err(e) => Err(e),
                    Ok(node) => {
                        if matches!(self.current_token.type_, TokenType::RParen) {
                            self.advance();
                            Ok(node)
                        } else {
                            Err(
                                ErrorType::SyntaxError(
                                    SyntaxError::new(
                                        token.position_start(),
                                        token.position_end(),
                                        "Expected ')'".to_owned(),
                                    ),
                                ),
                            )
                        }
                    },
                }
            },
            _ => Err(
                ErrorType::SyntaxError(
                    SyntaxError::new(
                        token.position_start(),
                        token.position_end(),
                        "Expected Int or Float".to_owned(),
                    ),
                ),
            ),
        }
    }

    /// Parses one term: factors with `*` and `/` between them.
    fn term(&mut self) -> (r: Result<Node, ErrorType>)
        requires
            old(self).well_formed(),
        ensures
            final(self).well_formed(),
            final(self).stream() == old(self).stream(),
            final(self).token_index == old(self).token_index + binary(
                old(self).stream(),
                old(self).token_index as int,
                Level::Term,
            ).1,
            match r {
                Ok(node) => binary(
                    old(self).stream(),
                    old(self).token_index as int,
                    Level::Term,
                ).0 == Ok::<NodeView, ErrorTypeView>(node@),
                Err(e) => binary(
                    old(self).stream(),
                    old(self).token_index as int,
                    Level::Term,
                ).0 == Err::<NodeView, ErrorTypeView>(e@),
            },
        decreases remaining(old(self).stream(), old(self).token_index as int), 4int,
    {
        self.binary_operation(Level::Term)
    }

    /// Parses one expression: terms with `+` and `-` between them.
    fn expression(&mut self) -> (r: Result<Node, ErrorType>)
        requires
            old(self).well_formed(),
        ensures
            final(self).well_formed(),
            final(self).stream() == old(self).stream(),
            final(self).token_index == old(self).token_index + binary(
                old(self).stream(),
                old(self).token_index as int,
                Level::Expression,
            ).1,
            match r {
                Ok(node) => binary(
                    old(self).stream(),
                    old(self).token_index as int,
                    Level::Expression,
                ).0 == Ok::<NodeView, ErrorTypeView>(node@),
                Err(e) => binary(
                    old(self).stream(),
                    old(self).token_index as int,
                    Level::Expression,
                ).0 == Err::<NodeView, ErrorTypeView>(e@),
            },
        decreases remaining(old(self).stream(), old(self).token_index as int), 8int,
    {
        self.binary_operation(Level::Expression)
    }

    /// Parses one operand of `level`.
    fn operand(&mut self, level: Level) -> (r: Result<Node, ErrorType>)
        requires
            old(self).well_formed(),
        ensures
            final(self).well_formed(),
            final(self).stream() == old(self).stream(),
            final(self).token_index == old(self).token_index + operand(
                old(self).stream(),
                old(self).token_index as int,
                level,
            ).1,
            match r {
                Ok(node) => operand(old(self).stream(), old(self).token_index as int, level).0
                    == Ok::<NodeView, ErrorTypeView>(node@),
                Err(e) => operand(old(self).stream(), old(self).token_index as int, level).0
                    == Err::<NodeView, ErrorTypeView>(e@),
            },
        decreases
                remaining(old(self).stream(), old(self).token_index as int),
                (match level {
                    Level::Expression => 5int,
                    Level::Term => 1int,
                }),
    {
        match level {
            Level::Expression => self.term(),
            Level::Term => self.factor(),
        }
    }

    /// Parses operands of `level` with the operators of the level between
    /// them, and joins them from the left.
    fn binary_operation(&mut self, level: Level) -> (r: Result<Node, ErrorType>)
        requires
            old(self).well_formed(),
        ensures
            final(self).well_formed(),
            final(self).stream() == old(self).stream(),
            final(self).token_index == old(self).token_index + binary(
                old(self).stream(),
                old(self).token_index as int,
                level,
            ).1,
            match r {
                Ok(node) => binary(old(self).stream(), old(self).token_index as int, level).0
                    == Ok::<NodeView, ErrorTypeView>(node@),
                Err(e) => binary(old(self).stream(), old(self).token_index as int, level).0
                    == Err::<NodeView, ErrorTypeView>(e@),
            },
        decreases
                remaining(old(self).stream(), old(self).token_index as int),
                (match level {
                    Level::Expression => 7int,
                    Level::Term => 3int,
                }),
    {
        let ghost ts = self.stream();
        let ghost start = self.token_index as int;
        let mut left = match self.operand(level) {
            Ok(node) => node,
            Err(e) => {
                return Err(e);
            },
        };
        let ghost after = self.token_index as int;
        let ghost whole = fold(ts, left@, after, level);
        loop
            invariant
                self.well_formed(),
                self.stream() == ts,
                ts == old(self).stream(),
                start == old(self).token_index,
                start <= after <= self.token_index,
                binary(ts, start, level).0 == whole.0,
                start + binary(ts, start, level).1 == after + whole.1,
                fold(ts, left@, self.token_index as int, level).0 == whole.0,
                self.token_index + fold(ts, left@, self.token_index as int, level).1 == after
                    + whole.1,
            ensures
                self.well_formed(),
                self.stream() == ts,
                whole.0 == Ok::<NodeView, ErrorTypeView>(left@),
                self.token_index == after + whole.1,
            decreases remaining(ts, self.token_index as int),
        {
            let is_next = match level {
                Level::Expression => matches!(
                    self.current_token.type_,
                    TokenType::Plus | TokenType::Minus
                ),
                Level::Term => matches!(
                    self.current_token.type_,
                    TokenType::Multiply | TokenType::Divide
                ),
            };
            if !is_next {
                break ;
            }
            let current = self.current_token.clone();
            self.advance();
            let right = match self.operand(level) {
                Ok(node) => node,
                Err(e) => {
                    return Err(e);
                },
            };
            left = Node::Binop(Box::new(left), current, Box::new(right));
        }
        Ok(left)
    }
}

} // verus!
