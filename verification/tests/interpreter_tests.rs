use finshell::context::Context;
use finshell::errors::{ErrorType, Fault, Halt};
use finshell::finshell::run;
use finshell::floats::{FloatAnswer, FloatBits, FloatOp, FloatRequest, FloatTable};
use finshell::interpeter::Interpeter;
use finshell::lexer::Lexer;
use finshell::number::{Number, NumberType};
use finshell::parser::{Node, Parser};
use finshell::symbols::SymbolMap;
use finshell::token::{Token, TokenType};

fn perform(request: &FloatRequest) -> FloatAnswer {
    match request {
        FloatRequest::Parse(text) => FloatAnswer::Bits(text.parse::<f64>().unwrap().to_bits()),
        FloatRequest::Apply(op, left, right) => {
            let a = f64::from_bits(*left);
            let b = f64::from_bits(*right);
            let result = match op {
                FloatOp::Add => a + b,
                FloatOp::Sub => a - b,
                FloatOp::Mul => a * b,
                FloatOp::Div => a / b,
                FloatOp::Pow => num::pow::pow(a, *right as usize),
            };
            FloatAnswer::Bits(result.to_bits())
        }
        FloatRequest::Display(bits) => FloatAnswer::Text(format!("{}", f64::from_bits(*bits))),
        FloatRequest::Debug(bits) => FloatAnswer::Text(format!("{:?}", f64::from_bits(*bits))),
    }
}

fn evaluate(text: &str) -> Result<NumberType, Halt> {
    let mut floats = FloatTable::new();
    loop {
        match run("<stdin>".to_string(), text.to_string(), &floats) {
            Ok((_, value)) => return Ok(value),
            Err(Halt::Float(request)) => {
                let result = perform(&request);
                floats.record(request, result);
            }
            Err(other) => return Err(other),
        }
    }
}

fn visit(node: &Node, context: &mut Context) -> Result<NumberType, Halt> {
    let mut floats = FloatTable::new();
    let interpeter = Interpeter::new();
    loop {
        let mut frame = context.clone();
        match interpeter.visit(node.clone(), &mut frame, &floats) {
            Err(Halt::Float(request)) => {
                let result = perform(&request);
                floats.record(request, result);
            }
            other => {
                *context = frame;
                return other;
            }
        }
    }
}

fn integer(result: Result<NumberType, Halt>) -> i64 {
    match result {
        Ok(NumberType::Integer(n)) => n.value(),
        other => panic!("{:?}", other),
    }
}

fn float(result: Result<NumberType, Halt>) -> f64 {
    match result {
        Ok(NumberType::Float(n)) => f64::from_bits(n.value().bits()),
        other => panic!("{:?}", other),
    }
}

fn runtime_message(result: Result<NumberType, Halt>) -> String {
    match result {
        Err(Halt::Error(ErrorType::RunTimeError(e))) => {
            assert_eq!(e.error.error_name, "Runtime Error");
            e.error.error_message
        }
        other => panic!("{:?}", other),
    }
}

fn int_node(value: i64) -> Node {
    Node::Value(Token::new_no_pos(TokenType::Int(value)))
}

fn float_node(value: f64) -> Node {
    Node::Value(Token::new_no_pos(TokenType::Float(FloatBits::new(
        value.to_bits(),
    ))))
}

fn binop(left: Node, op: TokenType, right: Node) -> Node {
    Node::Binop(Box::new(left), Token::new_no_pos(op), Box::new(right))
}

fn name(text: &str) -> Token {
    Token::new_no_pos(TokenType::Identifier(text.to_string()))
}

fn frame_with_bindings() -> Context {
    let mut context = Context::init("Test Program");
    context.set_symbol_map(SymbolMap::new());
    context
}

#[test]
fn test_interpeter() {
    let text = "4*(3-2)/(4-2)".to_string();
    let mut lexer: Lexer = Lexer::new("finshell Â£".to_string(), text);
    let floats = FloatTable::new();
    let tokens: Vec<Token> = match lexer.tokenize(&floats) {
        Ok(t) => t,
        Err(e) => panic!("{:?}", e),
    };

    let mut parser = Parser::new(tokens);
    let result = parser.parse();

    let mut node: Option<Node> = None;
    if let Ok(root) = result {
        node = Some(root);
    }

    if let Some(root) = node {
        let interpeter = Interpeter::new();
        let mut context = Context::init("Test Program");
        let result = interpeter.visit(root, &mut context, &floats);
        match result {
            Ok(num) => println!("{}", num.to_text(&floats).unwrap()),
            Err(e) => panic!("{:?}", e),
        };
    }
}

#[test]
fn parenthesized_quotient_is_two() {
    assert_eq!(integer(evaluate("4*(3-2)/(4-2)")), 2);
}

#[test]
fn subtraction_is_left_associative() {
    assert_eq!(integer(evaluate("3-2-1")), 0);
}

#[test]
fn product_comes_before_sum() {
    assert_eq!(integer(evaluate("2+3*4")), 14);
    assert_eq!(integer(evaluate("(2+3)*4")), 20);
}

#[test]
fn integer_quotient_rounds_towards_zero() {
    assert_eq!(integer(evaluate("1/2")), 0);
    assert_eq!(integer(evaluate("7/2")), 3);
    assert_eq!(integer(evaluate("-7/2")), -3);
    assert_eq!(integer(evaluate("7/-2")), -3);
    assert_eq!(integer(evaluate("-7/-2")), 3);
}

#[test]
fn signs_apply_to_the_next_factor() {
    assert_eq!(integer(evaluate("-3")), -3);
    assert_eq!(integer(evaluate("--3")), 3);
    assert_eq!(integer(evaluate("+4")), 4);
    assert_eq!(integer(evaluate("2--3")), 5);
    assert_eq!(float(evaluate("-2.5")), -2.5);
    assert_eq!(float(evaluate("+2.5")), 2.5);
}

#[test]
fn float_arithmetic_goes_through_the_table() {
    assert_eq!(float(evaluate("1.5+2.25")), 3.75);
    assert_eq!(float(evaluate("1.5-2.25")), -0.75);
    assert_eq!(float(evaluate("1.5*2.0")), 3.0);
    assert_eq!(float(evaluate("1.0/4.0")), 0.25);
    assert_eq!(float(evaluate("0.1+0.2")), 0.1 + 0.2);
}

#[test]
fn float_operation_is_requested_when_missing() {
    let mut floats = FloatTable::new();
    floats.record_bits(FloatRequest::Parse("1.5".to_string()), 1.5f64.to_bits());
    floats.record_bits(FloatRequest::Parse("2.0".to_string()), 2.0f64.to_bits());
    match run("f".to_string(), "1.5*2.0".to_string(), &floats) {
        Err(Halt::Float(FloatRequest::Apply(FloatOp::Mul, a, b))) => {
            assert_eq!(a, 1.5f64.to_bits());
            assert_eq!(b, 2.0f64.to_bits());
        }
        other => panic!("{:?}", other),
    }
    floats.record_bits(
        FloatRequest::Apply(FloatOp::Mul, 1.5f64.to_bits(), 2.0f64.to_bits()),
        3.0f64.to_bits(),
    );
    match run("f".to_string(), "1.5*2.0".to_string(), &floats) {
        Ok((_, NumberType::Float(n))) => assert_eq!(n.value().bits(), 3.0f64.to_bits()),
        other => panic!("{:?}", other),
    }
}

#[test]
fn division_by_zero_is_at_the_right_operand() {
    match evaluate("5/0") {
        Err(Halt::Error(ErrorType::DivisionByZeroError(e))) => {
            assert_eq!(e.error.error_name, "DivisionByZero Error");
            assert_eq!(e.error.error_message, "Division by Zero");
            assert_eq!(e.error.pos_begin.as_ref().unwrap().index(), 2);
            assert_eq!(e.error.pos_end.as_ref().unwrap().index(), 3);
        }
        other => panic!("{:?}", other),
    }
    match evaluate("1.5/0.0") {
        Err(Halt::Error(ErrorType::DivisionByZeroError(e))) => {
            assert_eq!(e.error.pos_begin.as_ref().unwrap().index(), 4);
            assert_eq!(e.error.pos_end.as_ref().unwrap().index(), 7);
        }
        other => panic!("{:?}", other),
    }
    assert!(matches!(
        evaluate("5/(1-1)"),
        Err(Halt::Error(ErrorType::DivisionByZeroError(_)))
    ));
    assert!(matches!(
        evaluate("1.0/(0.0*-1.0)"),
        Err(Halt::Error(ErrorType::DivisionByZeroError(_)))
    ));
}

#[test]
fn mixed_kinds_are_not_converted() {
    let mut context = frame_with_bindings();
    assert_eq!(
        runtime_message(visit(
            &binop(int_node(1), TokenType::Plus, float_node(2.5)),
            &mut context
        )),
        "Cant add 1 with 2.5 due to different types"
    );
    assert_eq!(
        runtime_message(visit(
            &binop(float_node(2.5), TokenType::Minus, int_node(1)),
            &mut context
        )),
        "Cant subtract 2.5 from 1 due to different types"
    );
    assert_eq!(
        runtime_message(visit(
            &binop(int_node(-4), TokenType::Multiply, float_node(2.0)),
            &mut context
        )),
        "Cant Multiply -4 with 2 due to different types"
    );
    assert_eq!(
        runtime_message(visit(
            &binop(int_node(1), TokenType::Divide, float_node(0.0)),
            &mut context
        )),
        "Cant Divide 1 with 0 due to different types"
    );
    assert_eq!(
        runtime_message(evaluate("1+2.5")),
        "Cant add 1 with 2.5 due to different types"
    );
}

#[test]
fn power_takes_an_integer_exponent() {
    let mut context = frame_with_bindings();
    assert_eq!(
        integer(visit(
            &binop(int_node(2), TokenType::Pow, int_node(10)),
            &mut context
        )),
        1024
    );
    assert_eq!(
        integer(visit(
            &binop(int_node(-3), TokenType::Pow, int_node(3)),
            &mut context
        )),
        -27
    );
    assert_eq!(
        integer(visit(
            &binop(int_node(0), TokenType::Pow, int_node(0)),
            &mut context
        )),
        1
    );
    assert_eq!(
        integer(visit(
            &binop(int_node(-2), TokenType::Pow, int_node(63)),
            &mut context
        )),
        i64::MIN
    );
    assert_eq!(
        float(visit(
            &binop(float_node(1.5), TokenType::Pow, int_node(2)),
            &mut context
        )),
        2.25
    );
    assert_eq!(
        runtime_message(visit(
            &binop(float_node(1.5), TokenType::Pow, float_node(2.0)),
            &mut context
        )),
        "Cant raise 1.5 to 2"
    );
    assert_eq!(
        runtime_message(visit(
            &binop(int_node(2), TokenType::Pow, float_node(2.0)),
            &mut context
        )),
        "Cant raise 2 to 2"
    );
}

#[test]
fn negative_exponent_is_rejected() {
    let mut context = frame_with_bindings();
    for base in [int_node(2), float_node(2.0)] {
        match visit(&binop(base, TokenType::Pow, int_node(-1)), &mut context) {
            Err(Halt::Error(ErrorType::InvalidPowerError(e))) => {
                assert_eq!(e.error.error_name, "InvalidPower Error");
                assert_eq!(e.error.error_message, "Cant raise to Negative power");
            }
            other => panic!("{:?}", other),
        }
    }
}

#[test]
fn overflow_is_a_fault() {
    assert!(matches!(
        evaluate("9223372036854775807+1"),
        Err(Halt::Fault(Fault::Overflow))
    ));
    assert!(matches!(
        evaluate("-9223372036854775807-2"),
        Err(Halt::Fault(Fault::Overflow))
    ));
    assert!(matches!(
        evaluate("4611686018427387904*2"),
        Err(Halt::Fault(Fault::Overflow))
    ));
    assert!(matches!(
        evaluate("(-9223372036854775807-1)/-1"),
        Err(Halt::Fault(Fault::Overflow))
    ));
    assert!(matches!(
        evaluate("-(-9223372036854775807-1)"),
        Err(Halt::Fault(Fault::Overflow))
    ));
    assert_eq!(integer(evaluate("-9223372036854775807-1")), i64::MIN);
    let mut context = frame_with_bindings();
    assert!(matches!(
        visit(
            &binop(int_node(2), TokenType::Pow, int_node(63)),
            &mut context
        ),
        Err(Halt::Fault(Fault::Overflow))
    ));
}

#[test]
fn assigned_variable_is_read_back() {
    let mut context = frame_with_bindings();
    let assign = Node::VarAssignNode(name("x"), Box::new(int_node(5)));
    assert_eq!(integer(visit(&assign, &mut context)), 5);
    let read = Node::VarAccessNode(name("x"));
    assert_eq!(integer(visit(&read, &mut context)), 5);
    let again = Node::VarAssignNode(
        name("x"),
        Box::new(binop(
            Node::VarAccessNode(name("x")),
            TokenType::Plus,
            int_node(1),
        )),
    );
    assert_eq!(integer(visit(&again, &mut context)), 6);
    assert_eq!(integer(visit(&read, &mut context)), 6);
    let other = Node::VarAssignNode(name("y"), Box::new(float_node(1.5)));
    assert_eq!(float(visit(&other, &mut context)), 1.5);
    assert_eq!(integer(visit(&read, &mut context)), 6);
    assert_eq!(
        float(visit(&Node::VarAccessNode(name("y")), &mut context)),
        1.5
    );
}

#[test]
fn unassigned_variable_is_not_defined() {
    let mut context = frame_with_bindings();
    assert_eq!(
        runtime_message(visit(&Node::VarAccessNode(name("y")), &mut context)),
        "y is not defined"
    );
}

#[test]
fn binding_of_a_parent_is_not_seen_in_a_child() {
    let mut parent = frame_with_bindings();
    let assign = Node::VarAssignNode(name("x"), Box::new(int_node(5)));
    assert_eq!(integer(visit(&assign, &mut parent)), 5);
    let mut child = Context::new(
        "child",
        Some(Box::new(parent.clone())),
        None,
        Some(SymbolMap::new()),
    );
    assert_eq!(
        runtime_message(visit(&Node::VarAccessNode(name("x")), &mut child)),
        "x is not defined"
    );
    let mut heir = Context::new(
        "heir",
        Some(Box::new(parent.clone())),
        None,
        parent.symbol_map(),
    );
    assert_eq!(
        integer(visit(&Node::VarAccessNode(name("x")), &mut heir)),
        5
    );
}

#[test]
fn variables_need_bindings_and_a_name() {
    let mut bare = Context::init("bare");
    assert_eq!(
        runtime_message(visit(&Node::VarAccessNode(name("x")), &mut bare)),
        "No Symbol Table!"
    );
    assert_eq!(
        runtime_message(visit(
            &Node::VarAssignNode(name("x"), Box::new(int_node(1))),
            &mut bare
        )),
        "No Symbol Table!"
    );
    let mut context = frame_with_bindings();
    assert_eq!(
        runtime_message(visit(
            &Node::VarAccessNode(Token::new_no_pos(TokenType::Plus)),
            &mut context
        )),
        "Invalid Variable name"
    );
    assert_eq!(
        runtime_message(visit(
            &Node::VarAssignNode(Token::new_no_pos(TokenType::Int(1)), Box::new(int_node(1))),
            &mut context
        )),
        "Invalid Variable namee"
    );
}

#[test]
fn tokens_out_of_place_are_runtime_failures() {
    let mut context = frame_with_bindings();
    assert_eq!(
        runtime_message(visit(
            &Node::Value(Token::new_no_pos(TokenType::Plus)),
            &mut context
        )),
        "Non Value Token Plus found inside visit value function"
    );
    assert_eq!(
        runtime_message(visit(
            &Node::Value(name("x")),
            &mut context
        )),
        "Non Value Token Identifier(\"x\") found inside visit value function"
    );
    assert_eq!(
        runtime_message(visit(
            &binop(int_node(1), TokenType::Int(7), int_node(2)),
            &mut context
        )),
        "Invalid operator token 'Int(7)'"
    );
    assert_eq!(
        runtime_message(visit(
            &binop(
                int_node(1),
                TokenType::Float(FloatBits::new(2.0f64.to_bits())),
                int_node(2)
            ),
            &mut context
        )),
        "Invalid operator token 'Float(2.0)'"
    );
    assert_eq!(
        runtime_message(visit(
            &Node::Unary(
                Token::new_no_pos(TokenType::Multiply),
                Box::new(int_node(1))
            ),
            &mut context
        )),
        "Invalid operator token 'Multiply'"
    );
}

#[test]
fn left_operand_fails_first() {
    let mut context = frame_with_bindings();
    let node = binop(
        Node::VarAccessNode(name("a")),
        TokenType::Plus,
        Node::VarAssignNode(name("b"), Box::new(int_node(1))),
    );
    assert_eq!(runtime_message(visit(&node, &mut context)), "a is not defined");
    assert_eq!(
        runtime_message(visit(&Node::VarAccessNode(name("b")), &mut context)),
        "b is not defined"
    );
}

#[test]
fn literal_carries_its_span_and_frame() {
    match evaluate("  42") {
        Ok(NumberType::Integer(n)) => {
            assert_eq!(n.value(), 42);
            assert_eq!(n.pos_start.as_ref().unwrap().index(), 2);
            assert_eq!(n.pos_end.as_ref().unwrap().index(), 4);
            let frame = n.context.as_ref().unwrap();
            assert_eq!(frame.display_name(), "Program");
            assert!(frame.parent().is_none());
            assert!(frame.parent_pos().is_none());
            let bound = frame.symbol_map().unwrap();
            assert_eq!(
                bound.get("zero".to_string()),
                Some(&NumberType::Integer(Number::new_no_pos(0)))
            );
        }
        other => panic!("{:?}", other),
    }
    match evaluate("1+2") {
        Ok(NumberType::Integer(n)) => {
            assert_eq!(n, Number::new_no_pos(3));
        }
        other => panic!("{:?}", other),
    }
}

#[test]
fn evaluation_can_be_repeated() {
    let mut floats = FloatTable::new();
    floats.record_bits(FloatRequest::Parse("0.5".to_string()), 0.5f64.to_bits());
    let first = run("f".to_string(), "4*(3-2)/(4-2)".to_string(), &floats).unwrap();
    let interpeter = Interpeter::new();
    let mut one = frame_with_bindings();
    let mut two = frame_with_bindings();
    let a = interpeter
        .visit(first.0.clone(), &mut one, &floats)
        .unwrap();
    let b = interpeter
        .visit(first.0.clone(), &mut two, &floats)
        .unwrap();
    assert_eq!(a, b);
    assert_eq!(one, two);
    assert_eq!(one, frame_with_bindings());
    assert_eq!(integer(Ok(a)), 2);
}

#[test]
fn run_gives_the_tree_and_the_value() {
    let floats = FloatTable::new();
    let (tree, value) = run("f".to_string(), "2+3".to_string(), &floats).unwrap();
    assert_eq!(tree.to_text(&floats).unwrap(), "[Int(2), Plus, Int(3)]");
    assert_eq!(value.to_text(&floats).unwrap(), "5");
    assert!(matches!(
        run("f".to_string(), "2+@".to_string(), &floats),
        Err(Halt::Error(ErrorType::DisallowedCharError(_)))
    ));
    assert!(matches!(
        run("f".to_string(), "3+4)".to_string(), &floats),
        Err(Halt::Error(ErrorType::SyntaxError(_)))
    ));
    assert!(matches!(
        run("f".to_string(), "zero+1".to_string(), &floats),
        Err(Halt::Error(ErrorType::SyntaxError(_)))
    ));
}

#[test]
fn numbers_of_one_kind_are_recognized() {
    let interpeter = Interpeter::new();
    let one = NumberType::Integer(Number::new_no_pos(1));
    let two = NumberType::Integer(Number::new_no_pos(2));
    let half = NumberType::Float(Number::new_no_pos(FloatBits::new(0.5f64.to_bits())));
    assert!(interpeter.check_if_same_numbertype(&one, &two));
    assert!(interpeter.check_if_same_numbertype(&half, &half));
    assert!(!interpeter.check_if_same_numbertype(&one, &half));
    assert!(!interpeter.check_if_same_numbertype(&half, &two));
}

#[test]
fn operator_is_applied_to_two_numbers() {
    let interpeter = Interpeter::new();
    let floats = FloatTable::new();
    let context = frame_with_bindings();
    let result = interpeter.apply(
        &Token::new_no_pos(TokenType::Minus),
        NumberType::Integer(Number::new_no_pos(10)),
        NumberType::Integer(Number::new_no_pos(4)),
        &context,
        &floats,
    );
    assert_eq!(integer(result), 6);
}
