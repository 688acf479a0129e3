use finshell::errors::{ErrorType, Halt};
use finshell::floats::{FloatAnswer, FloatBits, FloatOp, FloatRequest, FloatTable};
use finshell::lexer::Lexer;
use finshell::parser::{print_ast, Node, Parser};
use finshell::token::{Token, TokenType};

fn perform(request: &FloatRequest) -> FloatAnswer {
    match request {
        FloatRequest::Parse(text) => FloatAnswer::Bits(text.parse::<f64>().unwrap().to_bits()),
        FloatRequest::Apply(op, left, right) => {
            let a = f64::from_bits(*left);
            let b = f64::from_bits(*right);
            let result = match op {
                FloatOp::Add => a + b,
                FloatOp::Sub => a - b,
                FloatOp::Mul => a * b,
                FloatOp::Div => a / b,
                FloatOp::Pow => num::pow::pow(a, *right as usize),
            };
            FloatAnswer::Bits(result.to_bits())
        }
        FloatRequest::Display(bits) => FloatAnswer::Text(format!("{}", f64::from_bits(*bits))),
        FloatRequest::Debug(bits) => FloatAnswer::Text(format!("{:?}", f64::from_bits(*bits))),
    }
}

fn get_tokens_from_str(s: &str) -> Vec<Token> {
    let mut floats = FloatTable::new();
    loop {
        let mut lexer = Lexer::new("test".to_string(), s.to_string());
        match lexer.tokenize(&floats) {
            Ok(ts) => return ts,
            Err(Halt::Float(request)) => {
                let result = perform(&request);
                floats.record(request, result);
            }
            Err(e) => panic!("Lexer failed to exctract tokens due to: {:?}", e),
        }
    }
}

fn parse(s: &str) -> Result<Node, ErrorType> {
    let tokens = get_tokens_from_str(s);
    let mut parser = Parser::new(tokens);
    parser.parse()
}

fn get_ast_from_string(s: &str) -> Node {
    match parse(s) {
        Ok(root) => root,
        Err(e) => panic!("Parser failed to parse due to: {:?}", e),
    }
}

fn text_of(node: &Node) -> String {
    let mut floats = FloatTable::new();
    loop {
        match node.to_text(&floats) {
            Ok(text) => return text,
            Err(request) => {
                let result = perform(&request);
                floats.record(request, result);
            }
        }
    }
}

fn syntax_error(s: &str) -> (String, Option<i64>) {
    match parse(s) {
        Err(ErrorType::SyntaxError(e)) => (
            e.error.error_message.clone(),
            e.error.pos_begin.as_ref().map(|p| p.index()),
        ),
        other => panic!("{:?}", other),
    }
}

#[test]
fn test_parser() {
    let ast = get_ast_from_string("3*4+5/5");
    println!("AST: {:?}", ast);
}

#[test]
fn test_unary_op() {
    let ast1 = Node::Unary(
        Token::new_no_pos(TokenType::Minus),
        Box::new(Node::Value(Token::new_no_pos(TokenType::Int(3)))),
    );
    let ast2 = get_ast_from_string("-3");
    let ast1_rep = text_of(&ast1);
    let ast2_rep = text_of(&ast2);
    assert_eq!(ast1_rep, ast2_rep);
}

#[test]
fn test_ast_print() {
    let ast = get_ast_from_string("3/1+2*4");
    print_ast(ast);
}

#[test]
fn tree_is_written_with_brackets() {
    assert_eq!(text_of(&get_ast_from_string("-3")), "[Minus, Int(3)]");
    assert_eq!(
        text_of(&get_ast_from_string("3*4+5/5")),
        "[[Int(3), Multiply, Int(4)], Plus, [Int(5), Divide, Int(5)]]"
    );
    assert_eq!(
        text_of(&get_ast_from_string("1.5+2")),
        "[Float(1.5), Plus, Int(2)]"
    );
    let assign = Node::VarAssignNode(
        Token::new_no_pos(TokenType::Identifier("x\"y".to_string())),
        Box::new(Node::VarAccessNode(Token::new_no_pos(TokenType::Keyword(
            "muut".to_string(),
        )))),
    );
    assert_eq!(
        text_of(&assign),
        "[Identifier(\"x\\\"y\"), Keyword(\"muut\")]"
    );
}

#[test]
fn subtraction_groups_from_the_left() {
    assert_eq!(
        text_of(&get_ast_from_string("3-2-1")),
        "[[Int(3), Minus, Int(2)], Minus, Int(1)]"
    );
    assert_eq!(
        text_of(&get_ast_from_string("8/4/2")),
        "[[Int(8), Divide, Int(4)], Divide, Int(2)]"
    );
}

#[test]
fn product_binds_tighter_than_sum() {
    assert_eq!(
        text_of(&get_ast_from_string("2+3*4")),
        "[Int(2), Plus, [Int(3), Multiply, Int(4)]]"
    );
}

#[test]
fn parentheses_group() {
    assert_eq!(
        text_of(&get_ast_from_string("4*(3-2)/(4-2)")),
        "[[Int(4), Multiply, [Int(3), Minus, Int(2)]], Divide, [Int(4), Minus, Int(2)]]"
    );
    assert_eq!(text_of(&get_ast_from_string("((7))")), "Int(7)");
}

#[test]
fn signs_chain_to_the_right() {
    assert_eq!(
        text_of(&get_ast_from_string("-+-3")),
        "[Minus, [Plus, [Minus, Int(3)]]]"
    );
    assert_eq!(
        text_of(&get_ast_from_string("2--3")),
        "[Int(2), Minus, [Minus, Int(3)]]"
    );
}

#[test]
fn trailing_input_is_a_syntax_error() {
    assert_eq!(
        syntax_error("3+4)"),
        ("Expected '+', '-', '*', or '/'".to_string(), Some(3))
    );
    assert_eq!(
        syntax_error("3 4"),
        ("Expected '+', '-', '*', or '/'".to_string(), Some(2))
    );
    assert_eq!(
        syntax_error("2^3"),
        ("Expected '+', '-', '*', or '/'".to_string(), Some(1))
    );
}

#[test]
fn missing_operand_is_a_syntax_error() {
    assert_eq!(
        syntax_error("3+"),
        ("Expected Int or Float".to_string(), Some(2))
    );
    assert_eq!(syntax_error(""), ("Expected Int or Float".to_string(), Some(0)));
    assert_eq!(
        syntax_error("x = 5"),
        ("Expected Int or Float".to_string(), Some(0))
    );
    assert_eq!(
        syntax_error("2*)"),
        ("Expected Int or Float".to_string(), Some(2))
    );
}

#[test]
fn open_parenthesis_is_answered_at_the_opening_one() {
    assert_eq!(syntax_error("1+(2*3"), ("Expected ')'".to_string(), Some(2)));
}

#[test]
fn syntax_error_has_its_kind_name() {
    match parse("3+") {
        Err(ErrorType::SyntaxError(e)) => assert_eq!(e.error.error_name, "Syntax Error"),
        other => panic!("{:?}", other),
    }
}

#[test]
fn parser_starts_at_the_first_token() {
    let tokens = get_tokens_from_str("1+2");
    let parser = Parser::new(tokens.clone());
    assert_eq!(parser.token_index, 0);
    assert_eq!(parser.current_token, tokens[0]);
    let empty = Parser::new(Vec::new());
    assert_eq!(empty.current_token, Token::default());
}

#[test]
fn default_node_is_integer_zero() {
    assert_eq!(
        Node::default(),
        Node::Value(Token::new_no_pos(TokenType::Int(0)))
    );
    assert_eq!(TokenType::default(), TokenType::Int(0));
    assert_eq!(
        Node::Value(Token::new_no_pos(TokenType::Float(FloatBits::new(7)))).clone(),
        Node::Value(Token::new_no_pos(TokenType::Float(FloatBits::new(7))))
    );
}
