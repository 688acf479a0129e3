use finshell::context::Context;
use finshell::errors::ErrorType;
use finshell::floats::{FloatAnswer, FloatBits, FloatOp, FloatRequest, FloatTable};
use finshell::number::{Number, NumberType};
use finshell::position::Position;
use finshell::symbols::SymbolMap;
use finshell::text::{chars_of, push_int, push_nat, push_text, string_of};
use finshell::token::{Token, TokenType};

#[test]
fn position_moves_one_character_at_a_time() {
    let mut position = Position::new(-1, 0, -1, "f".to_string(), "a\nb".to_string());
    position.advance(None);
    assert_eq!(
        (position.index(), position.line(), position.column()),
        (0, 0, 0)
    );
    position.advance(Some('a'));
    assert_eq!(
        (position.index(), position.line(), position.column()),
        (1, 0, 1)
    );
    position.advance(Some('\n'));
    assert_eq!(
        (position.index(), position.line(), position.column()),
        (2, 1, 0)
    );
    position.advance(Some('b'));
    assert_eq!(
        (position.index(), position.line(), position.column()),
        (3, 1, 1)
    );
    assert_eq!(position.file_name(), "f");
    assert_eq!(position.file_text(), "a\nb");
    assert_eq!(position.clone(), position);
}

#[test]
fn symbol_map_gets_what_was_set() {
    let mut map: SymbolMap<i64> = SymbolMap::new();
    assert_eq!(map.get("a".to_string()), None);
    assert_eq!(map.set("a".to_string(), 1), None);
    assert_eq!(map.set("b".to_string(), 2), None);
    assert_eq!(map.get("a".to_string()), Some(&1));
    assert_eq!(map.get("b".to_string()), Some(&2));
    assert_eq!(map.set("a".to_string(), 3), Some(1));
    assert_eq!(map.get("a".to_string()), Some(&3));
    assert_eq!(map.get("b".to_string()), Some(&2));
    assert_eq!(map.symbols.len(), 2);
    assert_eq!(map.remove("a".to_string()), Some(3));
    assert_eq!(map.get("a".to_string()), None);
    assert_eq!(map.get("b".to_string()), Some(&2));
    assert_eq!(map.remove("a".to_string()), None);
    assert_eq!(map.symbols.len(), 1);
}

#[test]
fn context_holds_its_parts() {
    let root = Context::init("Program");
    assert_eq!(root.display_name(), "Program");
    assert_eq!(root.parent(), None);
    assert_eq!(root.parent_pos(), None);
    assert_eq!(root.symbol_map(), None);
    let entered = Position::new(3, 0, 3, "f".to_string(), "text".to_string());
    let mut child = Context::new(
        "child",
        Some(Box::new(root.clone())),
        Some(entered.clone()),
        None,
    );
    assert_eq!(child.parent(), Some(Box::new(root)));
    assert_eq!(child.parent_pos(), Some(entered));
    let mut map = SymbolMap::new();
    map.set(
        "x".to_string(),
        NumberType::Integer(Number::new_no_pos(5)),
    );
    child.set_symbol_map(map);
    assert_eq!(
        child.get_symbol("x".to_string()),
        Some(NumberType::Integer(Number::new_no_pos(5)))
    );
    assert_eq!(child.get_symbol("y".to_string()), None);
    child.set_symbol(
        "y".to_string(),
        NumberType::Float(Number::new_no_pos(FloatBits::new(1))),
    );
    child.set_symbol(
        "x".to_string(),
        NumberType::Integer(Number::new_no_pos(6)),
    );
    assert_eq!(
        child.get_symbol("x".to_string()),
        Some(NumberType::Integer(Number::new_no_pos(6)))
    );
    assert_eq!(child.symbol_map().unwrap().symbols.len(), 2);
    assert_eq!(child.clone(), child);
    assert_eq!(child.duplicate(), child);
}

#[test]
fn number_holds_its_parts() {
    let start = Position::new(0, 0, 0, "f".to_string(), "12".to_string());
    let end = Position::new(2, 0, 2, "f".to_string(), "12".to_string());
    let frame = Context::init("Program");
    let mut number = Number::new(
        12i64,
        Some(start.clone()),
        Some(end.clone()),
        Some(frame.clone()),
    );
    assert_eq!(number.value(), 12);
    assert_eq!(number.pos_start, Some(start.clone()));
    assert_eq!(number.pos_end, Some(end.clone()));
    assert_eq!(number.context, Some(frame.clone()));
    number.set_pos(Some(end.clone()), None);
    assert_eq!(number.pos_start, Some(end));
    assert_eq!(number.pos_end, None);
    number.set_context(Context::init("other"));
    assert_eq!(number.context, Some(Context::init("other")));
    assert_eq!(number.clone(), number);
    let bare = Number::new_no_pos(3i64);
    assert_eq!(bare.pos_start, None);
    assert_eq!(bare.pos_end, None);
    assert_eq!(bare.context, None);
}

#[test]
fn integer_arithmetic_is_exact() {
    let seven = Number::new_no_pos(7i64);
    assert_eq!(seven.add(Number::new_no_pos(5)), Number::new_no_pos(12));
    assert_eq!(seven.sub(Number::new_no_pos(9)), Number::new_no_pos(-2));
    assert_eq!(seven.mult(Number::new_no_pos(-3)), Number::new_no_pos(-21));
    assert_eq!(
        seven.div(Number::new_no_pos(2)).unwrap(),
        Number::new_no_pos(3)
    );
    assert_eq!(
        Number::new_no_pos(-7i64)
            .div(Number::new_no_pos(2))
            .unwrap(),
        Number::new_no_pos(-3)
    );
    assert_eq!(
        seven.pow(Number::new_no_pos(3)).unwrap(),
        Number::new_no_pos(343)
    );
    assert_eq!(
        seven.pow(Number::new_no_pos(0)).unwrap(),
        Number::new_no_pos(1)
    );
    assert_eq!(
        Number::new_no_pos(3i64)
            .pow(Number::new_no_pos(39))
            .unwrap(),
        Number::new_no_pos(4052555153018976267)
    );
}

#[test]
fn power_fits_while_the_result_does() {
    let three = Number::new_no_pos(3i64);
    assert!(three.pow_fits(&Number::new_no_pos(39)));
    assert!(!three.pow_fits(&Number::new_no_pos(40)));
    assert!(three.pow_fits(&Number::new_no_pos(-1)));
    let minus_two = Number::new_no_pos(-2i64);
    assert!(minus_two.pow_fits(&Number::new_no_pos(63)));
    assert!(!minus_two.pow_fits(&Number::new_no_pos(64)));
    assert!(Number::new_no_pos(1i64).pow_fits(&Number::new_no_pos(i64::MAX)));
    assert!(Number::new_no_pos(0i64).pow_fits(&Number::new_no_pos(0)));
}

#[test]
fn integer_division_by_zero_is_at_the_divisor() {
    let start = Position::new(2, 0, 2, "f".to_string(), "5/0".to_string());
    let end = Position::new(3, 0, 3, "f".to_string(), "5/0".to_string());
    let zero = Number::new(0i64, Some(start.clone()), Some(end.clone()), None);
    match Number::new_no_pos(5i64).div(zero) {
        Err(e) => {
            assert_eq!(e.error.pos_begin, Some(start));
            assert_eq!(e.error.pos_end, Some(end));
            assert_eq!(e.error.error_message, "Division by Zero");
        }
        Ok(n) => panic!("{:?}", n),
    }
}

#[test]
fn integer_power_by_a_negative_exponent_is_at_the_exponent() {
    let start = Position::new(2, 0, 2, "f".to_string(), "2^x".to_string());
    let exponent = Number::new(-1i64, Some(start.clone()), None, None);
    match Number::new_no_pos(2i64).pow(exponent) {
        Err(e) => {
            assert_eq!(e.error.pos_begin, Some(start));
            assert_eq!(e.error.pos_end, None);
            assert_eq!(e.error.error_message, "Cant raise to Negative power");
        }
        Ok(n) => panic!("{:?}", n),
    }
}

#[test]
fn float_arithmetic_reads_the_table() {
    let mut floats = FloatTable::new();
    let a = Number::new_no_pos(FloatBits::new(1.5f64.to_bits()));
    let b = Number::new_no_pos(FloatBits::new(0.5f64.to_bits()));
    assert!(a.add(b.clone(), &floats).is_err());
    floats.record_bits(
        FloatRequest::Apply(FloatOp::Add, a.value().bits(), b.value().bits()),
        2.0f64.to_bits(),
    );
    floats.record_bits(
        FloatRequest::Apply(FloatOp::Sub, a.value().bits(), b.value().bits()),
        1.0f64.to_bits(),
    );
    floats.record_bits(
        FloatRequest::Apply(FloatOp::Mul, a.value().bits(), b.value().bits()),
        0.75f64.to_bits(),
    );
    floats.record_bits(
        FloatRequest::Apply(FloatOp::Div, a.value().bits(), b.value().bits()),
        3.0f64.to_bits(),
    );
    floats.record_bits(
        FloatRequest::Apply(FloatOp::Pow, a.value().bits(), 2),
        2.25f64.to_bits(),
    );
    let bits = |n: Number<FloatBits>| f64::from_bits(n.value().bits());
    assert_eq!(bits(a.add(b.clone(), &floats).unwrap()), 2.0);
    assert_eq!(bits(a.sub(b.clone(), &floats).unwrap()), 1.0);
    assert_eq!(bits(a.mult(b.clone(), &floats).unwrap()), 0.75);
    assert_eq!(bits(a.div(b.clone(), &floats).unwrap()), 3.0);
    assert_eq!(bits(a.pow(Number::new_no_pos(2), &floats).unwrap()), 2.25);
    assert!(b.add(a.clone(), &floats).is_err());
    for zero in [0.0f64, -0.0f64] {
        match a.div(Number::new_no_pos(FloatBits::new(zero.to_bits())), &floats) {
            Err(finshell::errors::Halt::Error(ErrorType::DivisionByZeroError(_))) => {}
            other => panic!("{:?}", other),
        }
    }
    match a.pow(Number::new_no_pos(-2), &floats) {
        Err(finshell::errors::Halt::Error(ErrorType::InvalidPowerError(_))) => {}
        other => panic!("{:?}", other),
    }
}

#[test]
fn float_zero_is_either_zero() {
    assert!(FloatBits::new(0.0f64.to_bits()).is_zero());
    assert!(FloatBits::new((-0.0f64).to_bits()).is_zero());
    assert!(!FloatBits::new(1.0f64.to_bits()).is_zero());
    assert!(!FloatBits::new(f64::MIN_POSITIVE.to_bits()).is_zero());
    assert!(!FloatBits::new(f64::NAN.to_bits()).is_zero());
    assert_eq!(finshell::floats::NEGATIVE_ONE, (-1.0f64).to_bits());
    assert_eq!(finshell::floats::NEGATIVE_ZERO, (-0.0f64).to_bits());
}

#[test]
fn table_answers_with_what_was_recorded_last() {
    let mut floats = FloatTable::new();
    let request = FloatRequest::Parse("1.5".to_string());
    assert_eq!(floats.bits(request.clone()), Err(request.clone()));
    floats.record(request.clone(), FloatAnswer::Text("wrong".to_string()));
    assert_eq!(floats.bits(request.clone()), Err(request.clone()));
    assert_eq!(floats.text(request.clone()), Ok("wrong".to_string()));
    floats.record(request.clone(), FloatAnswer::Bits(7));
    assert_eq!(floats.bits(request.clone()), Ok(FloatBits::new(7)));
    assert_eq!(floats.text(request.clone()), Err(request.clone()));
    floats.record_bits(request.clone(), 8);
    assert_eq!(floats.bits(request.clone()), Ok(FloatBits::new(8)));
    floats.record_text(FloatRequest::Display(8), "eight".to_string());
    assert_eq!(
        floats.text(FloatRequest::Display(8)),
        Ok("eight".to_string())
    );
    assert_eq!(
        floats.text(FloatRequest::Debug(8)),
        Err(FloatRequest::Debug(8))
    );
    assert!(FloatRequest::Display(8).same(&FloatRequest::Display(8)));
    assert!(!FloatRequest::Display(8).same(&FloatRequest::Debug(8)));
    assert!(!FloatRequest::Apply(FloatOp::Add, 1, 2).same(&FloatRequest::Apply(FloatOp::Add, 2, 1)));
    assert!(FloatRequest::Parse("1.5".to_string()).same(&request));
}

#[test]
fn numbers_are_written_in_decimal() {
    let mut floats = FloatTable::new();
    assert_eq!(
        NumberType::Integer(Number::new_no_pos(-120))
            .to_text(&floats)
            .unwrap(),
        "-120"
    );
    let half = NumberType::Float(Number::new_no_pos(FloatBits::new(0.5f64.to_bits())));
    assert_eq!(
        half.to_text(&floats),
        Err(FloatRequest::Display(0.5f64.to_bits()))
    );
    floats.record_text(FloatRequest::Display(0.5f64.to_bits()), "0.5".to_string());
    assert_eq!(half.to_text(&floats).unwrap(), "0.5");
}

#[test]
fn integers_are_rendered_exactly() {
    let mut out = String::new();
    push_int(&mut out, 0);
    push_text(&mut out, " ");
    push_int(&mut out, -7);
    push_text(&mut out, " ");
    push_int(&mut out, 1234567890);
    push_text(&mut out, " ");
    push_int(&mut out, i64::MIN as i128);
    push_text(&mut out, " ");
    push_int(&mut out, i128::MIN);
    push_text(&mut out, " ");
    push_nat(&mut out, u128::MAX);
    assert_eq!(
        out,
        "0 -7 1234567890 -9223372036854775808 -170141183460469231731687303715884105728 340282366920938463463374607431768211455"
    );
}

#[test]
fn text_is_taken_apart_and_put_together() {
    let chars = chars_of("aé£z");
    assert_eq!(chars, vec!['a', 'é', '£', 'z']);
    assert_eq!(string_of(&chars, 1, 3), "é£");
    assert_eq!(string_of(&chars, 2, 2), "");
    assert_eq!(chars_of(""), Vec::<char>::new());
}

#[test]
fn tokens_are_written_by_kind() {
    let mut floats = FloatTable::new();
    let text = |kind: TokenType, floats: &FloatTable| Token::new_no_pos(kind).to_text(floats);
    assert_eq!(text(TokenType::Int(-5), &floats).unwrap(), "Int(-5)");
    assert_eq!(text(TokenType::Plus, &floats).unwrap(), "Plus");
    assert_eq!(text(TokenType::Minus, &floats).unwrap(), "Minus");
    assert_eq!(text(TokenType::Multiply, &floats).unwrap(), "Multiply");
    assert_eq!(text(TokenType::Divide, &floats).unwrap(), "Divide");
    assert_eq!(text(TokenType::Pow, &floats).unwrap(), "Pow");
    assert_eq!(text(TokenType::LParen, &floats).unwrap(), "LParen");
    assert_eq!(text(TokenType::RParen, &floats).unwrap(), "RParen");
    assert_eq!(text(TokenType::EndOfFile, &floats).unwrap(), "EndOfFile");
    assert_eq!(text(TokenType::Equal, &floats).unwrap(), "Equal");
    assert_eq!(
        text(TokenType::Identifier("a\tb".to_string()), &floats).unwrap(),
        "Identifier(\"a\\tb\")"
    );
    assert_eq!(
        text(TokenType::Keyword("muut".to_string()), &floats).unwrap(),
        "Keyword(\"muut\")"
    );
    let two = TokenType::Float(FloatBits::new(2.0f64.to_bits()));
    assert_eq!(
        text(two.clone(), &floats),
        Err(FloatRequest::Debug(2.0f64.to_bits()))
    );
    floats.record_text(FloatRequest::Debug(2.0f64.to_bits()), "2.0".to_string());
    assert_eq!(text(two, &floats).unwrap(), "Float(2.0)");
}

#[test]
fn token_holds_its_parts() {
    let start = Position::new(0, 0, 0, "f".to_string(), "+".to_string());
    let token = Token::new(TokenType::Plus, Some(start.clone()), None);
    assert_eq!(token.type_(), TokenType::Plus);
    assert_eq!(token.position_start(), Some(start));
    assert_eq!(token.position_end(), None);
    let bare = Token::new_no_pos(TokenType::Int(1));
    assert_eq!(bare.position_start(), None);
    assert_eq!(bare.position_end(), None);
    assert_eq!(Token::default(), Token::new_no_pos(TokenType::Int(0)));
    assert_eq!(token.clone(), token);
}
