//! One line of source text through all three stages: scan, parse, evaluate.

use crate::context::{entries_view, entries_view_index, Context, ContextView};
use crate::errors::{Halt, HaltView};
use crate::floats::{FloatFacts, FloatTable};
use crate::interpeter::{eval, Interpeter};
use crate::lexer::{lex, lex_ends, tokens_view, Lexer};
use crate::number::{bare, Number, NumberType, NumberTypeView};
use crate::parser::{ends, parse_from, Node, NodeView, Parser};
use crate::symbols::SymbolMap;
use vstd::prelude::*;

verus! {

/// The frame in which a line is evaluated: the frame of the program, with
/// the one variable `zero`.
pub open spec fn program_frame() -> ContextView {
    ContextView {
        display_name: "Program"@,
        parent: None,
        parent_pos: None,
        symbols: Some(seq![("zero"@, NumberTypeView::Integer(bare(0i64)))]),
    }
}

/// The tree and the value of the expression that `text` holds, or the
/// first reason why one of the three stages stopped.
pub open spec fn evaluate(file_name: Seq<char>, text: Seq<char>, facts: FloatFacts) -> Result<
    (NodeView, NumberTypeView),
    HaltView,
> {
    match lex(file_name, text, facts) {
        Err(h) => Err(h),
        Ok(tokens) => match parse_from(tokens, 0) {
            Err(e) => Err(HaltView::Error(e)),
            Ok(node) => match eval(node, program_frame(), facts).0 {
                Err(h) => Err(h),
                Ok(value) => Ok((node, value)),
            },
        },
    }
}

/// Evaluates one line of source text in a fresh frame of the program, as
/// [`evaluate`] describes.
pub fn run(file_name: String, text: String, floats: &FloatTable) -> (r: Result<
    (Node, NumberType),
    Halt,
>)
    requires
        text@.len() < i64::MAX,
    ensures
        match r {
            Ok(pair) => evaluate(file_name@, text@, floats@) == Ok::<
                (NodeView, NumberTypeView),
                HaltView,
            >((pair.0@, pair.1@)),
            Err(h) => evaluate(file_name@, text@, floats@) == Err::<
                (NodeView, NumberTypeView),
                HaltView,
            >(h@),
        },
{
    let mut main_symbol_map = SymbolMap::<NumberType>::new();
    let zero = NumberType::Integer(Number::new_no_pos(0));
    assert(zero@ == NumberTypeView::Integer(bare(0i64)));
    let ghost none = main_symbol_map.bindings();
    main_symbol_map.set("zero".to_owned(), zero);
    proof {
        let held = main_symbol_map.bindings();
        assert(held == none.push(("zero"@, zero)));
        assert(held[0] == ("zero"@, zero));
        entries_view_index(main_symbol_map.symbols@);
        assert(entries_view(main_symbol_map.symbols@) =~= seq![
            ("zero"@, NumberTypeView::Integer(bare(0i64))),
        ]);
    }
    let mut lexer = Lexer::new(file_name, text);
    let tokens = match lexer.tokenize(floats) {
        Ok(t) => t,
        Err(e) => {
            return Err(e);
        },
    };
    proof {
        lex_ends(file_name@, text@, 0, floats@);
        let ts = tokens_view(tokens@);
        assert(ts[ts.len() - 1].kind is EndOfFile);
        assert(ends(ts, 0));
    }
    let mut parser = Parser::new(tokens);
    let root = match parser.parse() {
        Ok(node) => node,
        Err(e) => {
            return Err(Halt::Error(e));
        },
    };
    let interpeter = Interpeter::new();
    let mut context = Context::init("Program");
    context.set_symbol_map(main_symbol_map);
    let value = match interpeter.visit(root.clone(), &mut context, floats) {
        Ok(num) => num,
        Err(e) => {
            return Err(e);
        },
    };
    Ok((root, value))
}

} // verus!
