//! Floating-point values and the table of float operations.
//!
//! A float is held as its IEEE-754 double-precision bit pattern. No function
//! of this library computes with floats: where the result of a float
//! operation is needed it is looked up in a [`FloatTable`], and where the
//! table has no answer the operation is handed back as a [`FloatRequest`]
//! for the caller to perform and record.

use vstd::prelude::*;

verus! {

/// The bit pattern of a double-precision float.
#[derive(Clone, Copy, Debug, PartialEq, Eq, Structural)]
pub struct FloatBits {
    pub bits: u64,
}

/// The bit pattern of `-1.0`.
pub const NEGATIVE_ONE: u64 = 0xBFF0_0000_0000_0000;

/// The bit pattern of `-0.0`; that of `0.0` is zero.
pub const NEGATIVE_ZERO: u64 = 0x8000_0000_0000_0000;

/// Whether `bits` is one of the two float zeros.
pub open spec fn is_float_zero(bits: u64) -> bool {
    bits == 0 || bits == NEGATIVE_ZERO
}

impl FloatBits {
    /// The float with the bit pattern `bits`.
    pub fn new(bits: u64) -> (r: Self)
        ensures
            r.bits == bits,
    {
        Self { bits }
    }

    /// The bit pattern of the float.
    pub fn bits(&self) -> (r: u64)
        ensures
            r == self.bits,
    {
        self.bits
    }

    /// Whether the float equals zero: positive or negative zero.
    pub fn is_zero(&self) -> (r: bool)
        ensures
            r == is_float_zero(self.bits),
    {
        self.bits == 0 || self.bits == NEGATIVE_ZERO
    }
}

/// A binary float operation. The right operand of `Pow` is an unsigned
/// integer exponent, not a bit pattern.
#[derive(Clone, Copy, Debug, PartialEq, Eq, Structural)]
pub enum FloatOp {
    Add,
    Sub,
    Mul,
    Div,
    Pow,
}

/// A float operation whose result only the caller can compute.
#[derive(Debug, PartialEq)]
pub enum FloatRequest {
    /// The float that a decimal literal denotes.
    Parse(String),
    /// The result of a binary operation on two operands.
    Apply(FloatOp, u64, u64),
    /// The plain decimal rendering of a float.
    Display(u64),
    /// The rendering of a float that always shows a fractional part.
    Debug(u64),
}

/// The mathematical value of a [`FloatRequest`].
pub ghost enum FloatRequestView {
    Parse(Seq<char>),
    Apply(FloatOp, u64, u64),
    Display(u64),
    Debug(u64),
}

impl View for FloatRequest {
    type V = FloatRequestView;

    open spec fn view(&self) -> FloatRequestView {
        match *self {
            FloatRequest::Parse(s) => FloatRequestView::Parse(s@),
            FloatRequest::Apply(op, a, b) => FloatRequestView::Apply(op, a, b),
            FloatRequest::Display(a) => FloatRequestView::Display(a),
            FloatRequest::Debug(a) => FloatRequestView::Debug(a),
        }
    }
}

impl Clone for FloatRequest {
    fn clone(&self) -> (r: Self)
        ensures
            r == *self,
    {
        match self {
            FloatRequest::Parse(s) => FloatRequest::Parse(s.clone()),
            FloatRequest::Apply(op, a, b) => FloatRequest::Apply(*op, *a, *b),
            FloatRequest::Display(a) => FloatRequest::Display(*a),
            FloatRequest::Debug(a) => FloatRequest::Debug(*a),
        }
    }
}

impl FloatRequest {
    /// Whether two requests ask for the same operation on the same operands.
    pub fn same(&self, other: &FloatRequest) -> (r: bool)
        ensures
            r == (self@ == other@),
    {
        match (self, other) {
            (FloatRequest::Parse(s), FloatRequest::Parse(t)) => *s == *t,
            (FloatRequest::Apply(op, a, b), FloatRequest::Apply(oq, c, d)) => *op == *oq && *a
                == *c && *b == *d,
            (FloatRequest::Display(a), FloatRequest::Display(c)) => *a == *c,
            (FloatRequest::Debug(a), FloatRequest::Debug(c)) => *a == *c,
            _ => false,
        }
    }
}

/// The result of a float operation: a bit pattern, or a rendering.
#[derive(Debug, PartialEq)]
pub enum FloatAnswer {
    Bits(u64),
    Text(String),
}

/// The mathematical value of a [`FloatAnswer`].
pub ghost enum FloatAnswerView {
    Bits(u64),
    Text(Seq<char>),
}

impl View for FloatAnswer {
    type V = FloatAnswerView;

    open spec fn view(&self) -> FloatAnswerView {
        match *self {
            FloatAnswer::Bits(b) => FloatAnswerView::Bits(b),
            FloatAnswer::Text(s) => FloatAnswerView::Text(s@),
        }
    }
}

/// The recorded answers, oldest first.
pub type FloatFacts = Seq<(FloatRequestView, FloatAnswerView)>;

/// The answer that `facts` holds for `request`: the one recorded last.
pub open spec fn answer(facts: FloatFacts, request: FloatRequestView) -> Option<FloatAnswerView>
    decreases facts.len(),
{
    if facts.len() == 0 {
        None
    } else if facts.last().0 == request {
        Some(facts.last().1)
    } else {
        answer(facts.drop_last(), request)
    }
}

/// The bit pattern that `facts` holds for `request`, if it holds one.
pub open spec fn answer_bits(facts: FloatFacts, request: FloatRequestView) -> Option<u64> {
    match answer(facts, request) {
        Some(FloatAnswerView::Bits(b)) => Some(b),
        _ => None,
    }
}

/// The rendering that `facts` holds for `request`, if it holds one.
pub open spec fn answer_text(facts: FloatFacts, request: FloatRequestView) -> Option<Seq<char>> {
    match answer(facts, request) {
        Some(FloatAnswerView::Text(t)) => Some(t),
        _ => None,
    }
}

/// A table of float operations and their results, filled in by the caller.
#[derive(Debug)]
pub struct FloatTable {
    entries: Vec<(FloatRequest, FloatAnswer)>,
}

impl View for FloatTable {
    type V = FloatFacts;

    closed spec fn view(&self) -> FloatFacts {
        Seq::new(self.entries@.len(), |i: int| (self.entries@[i].0@, self.entries@[i].1@))
    }
}

impl FloatTable {
    /// The table that holds no answer.
    pub fn new() -> (r: Self)
        ensures
            r@ == Seq::<(FloatRequestView, FloatAnswerView)>::empty(),
    {
        let r = Self { entries: Vec::new() };
        assert(r@ =~= Seq::<(FloatRequestView, FloatAnswerView)>::empty());
        r
    }

    /// Records `result` as the answer to `request`, in place of any earlier
    /// answer to it.
    pub fn record(&mut self, request: FloatRequest, result: FloatAnswer)
        ensures
            final(self)@ == old(self)@.push((request@, result@)),
    {
        self.entries.push((request, result));
        assert(self@ =~= old(self)@.push((request@, result@)));
    }

    /// Records that the operation `request` gives the bit pattern `bits`.
    pub fn record_bits(&mut self, request: FloatRequest, bits: u64)
        ensures
            final(self)@ == old(self)@.push((request@, FloatAnswerView::Bits(bits))),
    {
        self.record(request, FloatAnswer::Bits(bits));
    }

    /// Records that the rendering `request` gives `text`.
    pub fn record_text(&mut self, request: FloatRequest, text: String)
        ensures
            final(self)@ == old(self)@.push((request@, FloatAnswerView::Text(text@))),
    {
        self.record(request, FloatAnswer::Text(text));
    }

    /// The index of the answer recorded last for `request`.
    fn lookup(&self, request: &FloatRequest) -> (r: Option<usize>)
        ensures
            match r {
                Some(i) => i < self.entries.len() && answer(self@, request@) == Some(
                    self.entries@[i as int].1@,
                ),
                None => answer(self@, request@) is None,
            },
    {
        let mut i: usize = self.entries.len();
        assert(self@.subrange(0, i as int) == self@);
        while i > 0
            invariant
                i <= self.entries.len(),
                answer(self@, request@) == answer(self@.subrange(0, i as int), request@),
            decreases i,
        {
            let ghost prefix = self@.subrange(0, i as int);
            i -= 1;
            assert(prefix.drop_last() == self@.subrange(0, i as int));
            assert(prefix.last() == self@[i as int]);
            if self.entries[i].0.same(request) {
                return Some(i);
            }
        }
        None
    }

    /// The bit pattern recorded for `request`, or the request itself where
    /// the table holds no bit pattern for it.
    pub fn bits(&self, request: FloatRequest) -> (r: Result<FloatBits, FloatRequest>)
        ensures
            match r {
                Ok(b) => answer_bits(self@, request@) == Some(b.bits),
                Err(q) => answer_bits(self@, request@) is None && q@ == request@,
            },
    {
        match self.lookup(&request) {
            Some(i) => match &self.entries[i].1 {
                FloatAnswer::Bits(b) => Ok(FloatBits { bits: *b }),
                FloatAnswer::Text(_) => Err(request),
            },
            None => Err(request),
        }
    }

    /// The rendering recorded for `request`, or the request itself where the
    /// table holds no rendering for it.
    pub fn text(&self, request: FloatRequest) -> (r: Result<String, FloatRequest>)
        ensures
            match r {
                Ok(t) => answer_text(self@, request@) == Some(t@),
                Err(q) => answer_text(self@, request@) is None && q@ == request@,
            },
    {
        match self.lookup(&request) {
            Some(i) => match &self.entries[i].1 {
                FloatAnswer::Text(t) => Ok(t.clone()),
                FloatAnswer::Bits(_) => Err(request),
            },
            None => Err(request),
        }
    }
}

} // verus!
