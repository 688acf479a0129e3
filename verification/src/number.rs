//! Numbers: an integer or a float, tagged by kind, with the span of source
//! text and the frame it was computed in.

use crate::context::{number_type_view, number_view, Context, ContextView};
use crate::errors::{
    DivisionByZeroError, ErrorType, ErrorTypeView, ErrorView, Halt, HaltView, InvalidPowerError,
};
use crate::floats::{
    answer_bits, answer_text, is_float_zero, FloatBits, FloatFacts, FloatOp, FloatRequest,
    FloatRequestView, FloatTable,
};
use crate::position::{clone_position, view_opt, Position, PositionView};
use crate::text::{int_text, push_int};
use vstd::arithmetic::power::pow;
use vstd::prelude::*;

verus! {

/// A value with where it came from.
#[derive(Debug, PartialEq)]
pub struct Number<T> {
    pub value: T,
    pub pos_start: Option<Position>,
    pub pos_end: Option<Position>,
    pub context: Option<Context>,
}

/// The mathematical value of a [`Number`].
pub ghost struct NumberView<T> {
    pub value: T,
    pub pos_start: Option<PositionView>,
    pub pos_end: Option<PositionView>,
    pub context: Option<ContextView>,
}

/// An integer or a float. The kind of a number never changes, and no
/// operation turns one kind into the other.
#[derive(Debug, PartialEq)]
pub enum NumberType {
    Integer(Number<i64>),
    Float(Number<FloatBits>),
}

/// The mathematical value of a [`NumberType`].
pub ghost enum NumberTypeView {
    Integer(NumberView<i64>),
    Float(NumberView<FloatBits>),
}

impl<T> View for Number<T> {
    type V = NumberView<T>;

    open spec fn view(&self) -> NumberView<T> {
        number_view(*self)
    }
}

impl View for NumberType {
    type V = NumberTypeView;

    open spec fn view(&self) -> NumberTypeView {
        number_type_view(*self)
    }
}

/// The value `value` that came from no source text and no frame.
pub open spec fn bare<T>(value: T) -> NumberView<T> {
    NumberView { value, pos_start: None, pos_end: None, context: None }
}

impl<T> Number<T> {
    /// A number that came from no source text and no frame.
    pub fn new_no_pos(value: T) -> (r: Self)
        ensures
            r@ == bare(value),
    {
        Self { value, pos_start: None, pos_end: None, context: None }
    }

    /// A number made of the parts given.
    pub fn new(
        value: T,
        pos_start: Option<Position>,
        pos_end: Option<Position>,
        context: Option<Context>,
    ) -> (r: Self)
        ensures
            r.value == value,
            r.pos_start == pos_start,
            r.pos_end == pos_end,
            r.context == context,
    {
        Self { value, pos_start, pos_end, context }
    }

    /// The value.
    pub fn value(&self) -> (r: T) where T: Copy
        ensures
            r == self@.value,
    {
        self.value
    }

    /// Gives the number the span from `pos_start` to `pos_end`.
    pub fn set_pos(&mut self, pos_start: Option<Position>, pos_end: Option<Position>)
        ensures
            final(self)@ == (NumberView {
                pos_start: view_opt(pos_start),
                pos_end: view_opt(pos_end),
                ..old(self)@
            }),
    {
        self.pos_start = pos_start;
        self.pos_end = pos_end;
    }

    /// Gives the number the frame `context`.
    pub fn set_context(&mut self, context: Context)
        ensures
            final(self)@ == (NumberView { context: Some(context@), ..old(self)@ }),
    {
        self.context = Some(context);
    }

    /// A copy of the number, with its frame.
    pub fn duplicate(&self) -> (r: Self) where T: Copy
        ensures
            r@ == self@,
        decreases self, 0int,
    {
        Number {
            value: self.value,
            pos_start: clone_position(&self.pos_start),
            pos_end: clone_position(&self.pos_end),
            context: match &self.context {
                Some(c) => Some(c.duplicate()),
                None => None,
            },
        }
    }
}

impl NumberType {
    /// A copy of the number, with its frame.
    pub fn duplicate(&self) -> (r: Self)
        ensures
            r@ == self@,
        decreases self, 1int,
    {
        match self {
            NumberType::Integer(x) => NumberType::Integer(x.duplicate()),
            NumberType::Float(x) => NumberType::Float(x.duplicate()),
        }
    }
}

impl<T: Copy> Clone for Number<T> {
    fn clone(&self) -> (r: Self)
        ensures
            r@ == self@,
    {
        self.duplicate()
    }
}

impl Clone for NumberType {
    fn clone(&self) -> (r: Self)
        ensures
            r@ == self@,
    {
        self.duplicate()
    }
}

/// Whether a 64-bit signed integer holds `v`.
pub open spec fn in_range(v: int) -> bool {
    i64::MIN <= v <= i64::MAX
}

/// The quotient of `x` by `d`, rounded towards zero; `d` is not zero.
pub open spec fn quotient(x: int, d: int) -> int {
    if x == 0 {
        0
    } else if x > 0 && d > 0 {
        x / d
    } else if x < 0 && d < 0 {
        (x * -1) / (d * -1)
    } else if x < 0 {
        ((x * -1) / d) * -1
    } else {
        (x / (d * -1)) * -1
    }
}

/// `num::pow::pow` at `i64`: `base` raised to the power `exp` by repeated
/// squaring, where every product is a power of `base` no larger in
/// magnitude than the result; `pow(0, 0)` is one.
#[verifier::external_body]
fn int_pow(base: i64, exp: usize) -> (r: i64)
    requires
        in_range(pow(base as int, exp as nat)),
    ensures
        r == pow(base as int, exp as nat),
{
    num::pow::pow(base, exp)
}

/// `num::checked_pow` at `i64`: `base` raised to the power `exp` by
/// repeated squaring, or nothing where a product overflows, which happens
/// exactly where the result does.
#[verifier::external_body]
fn int_checked_pow(base: i64, exp: usize) -> (r: Option<i64>)
    ensures
        match r {
            Some(v) => v == pow(base as int, exp as nat),
            None => !in_range(pow(base as int, exp as nat)),
        },
{
    num::checked_pow(base, exp)
}

/// `num::Zero::is_zero` at `i64`: whether the value equals zero.
#[verifier::external_body]
fn int_is_zero(v: &i64) -> (r: bool)
    ensures
        r == (*v == 0),
{
    num::Zero::is_zero(v)
}

/// The diagnostic for a division by the number `right`.
pub open spec fn division_by_zero(right: NumberView<i64>) -> ErrorTypeView {
    ErrorTypeView::DivisionByZero(
        ErrorView {
            start: right.pos_start,
            end: right.pos_end,
            name: "DivisionByZero Error"@,
            message: "Division by Zero"@,
        },
    )
}

/// The diagnostic for a power with the negative exponent `exponent`.
pub open spec fn negative_power(exponent: NumberView<i64>) -> ErrorTypeView {
    ErrorTypeView::InvalidPower(
        ErrorView {
            start: exponent.pos_start,
            end: exponent.pos_end,
            name: "InvalidPower Error"@,
            message: "Cant raise to Negative power"@,
        },
    )
}

/// Whether the power of `base` by `exponent` can be computed: the exponent
/// is negative, which is answered with a diagnostic, or the power is an
/// integer that fits.
pub open spec fn power_fits(base: int, exponent: int) -> bool {
    exponent < 0 || (exponent <= usize::MAX && in_range(pow(base, exponent as nat)))
}

impl Number<i64> {
    /// The sum, which came from no source text.
    pub fn add(&self, other: Number<i64>) -> (r: Self)
        requires
            in_range(self.value + other.value),
        ensures
            r@ == bare((self.value + other.value) as i64),
    {
        Self::new_no_pos(self.value + other.value)
    }

    /// The difference, which came from no source text.
    pub fn sub(&self, other: Number<i64>) -> (r: Self)
        requires
            in_range(self.value - other.value),
        ensures
            r@ == bare((self.value - other.value) as i64),
    {
        Self::new_no_pos(self.value - other.value)
    }

    /// The product, which came from no source text.
    pub fn mult(&self, other: Number<i64>) -> (r: Self)
        requires
            in_range(self.value * other.value),
        ensures
            r@ == bare((self.value * other.value) as i64),
    {
        Self::new_no_pos(self.value * other.value)
    }

    /// Whether [`Number::pow`] can be called with the exponent `other`.
    pub fn pow_fits(&self, other: &Number<i64>) -> (r: bool)
        ensures
            r == power_fits(self.value as int, other.value as int),
    {
        if other.value < 0 {
            true
        } else if other.value as u64 > usize::MAX as u64 {
            false
        } else {
            int_checked_pow(self.value, other.value as usize).is_some()
        }
    }

    /// The power of the number by the exponent `other`; a diagnostic at the
    /// exponent's span where the exponent is negative.
    pub fn pow(&self, other: Number<i64>) -> (r: Result<Self, InvalidPowerError>)
        requires
            power_fits(self.value as int, other.value as int),
        ensures
            match r {
                Ok(n) => other.value >= 0 && n@ == bare(
                    pow(self.value as int, other.value as nat) as i64,
                ),
                Err(e) => other.value < 0 && ErrorTypeView::InvalidPower(e.error@)
                    == negative_power(other@),
            },
    {
        if other.value < 0 {
            return Err(
                InvalidPowerError::new(
                    clone_position(&other.pos_start),
                    clone_position(&other.pos_end),
                    "Cant raise to Negative power".to_owned(),
                ),
            );
        }
        Ok(Self::new_no_pos(int_pow(self.value, other.value as usize)))
    }

    /// The quotient, rounded towards zero; a diagnostic at the span of
    /// `other` where that is zero.
    pub fn div(&self, other: Number<i64>) -> (r: Result<Self, DivisionByZeroError>)
        requires
            other.value != 0 ==> in_range(quotient(self.value as int, other.value as int)),
        ensures
            match r {
                Ok(n) => other.value != 0 && n@ == bare(
                    quotient(self.value as int, other.value as int) as i64,
                ),
                Err(e) => other.value == 0 && ErrorTypeView::DivisionByZero(e.error@)
                    == division_by_zero(other@),
            },
    {
        if int_is_zero(&other.value) {
            return Err(
                DivisionByZeroError::new(
                    clone_position(&other.pos_start),
                    clone_position(&other.pos_end),
                    "Division by Zero".to_owned(),
                ),
            );
        }
        match self.value.checked_div(other.value) {
            Some(q) => Ok(Self::new_no_pos(q)),
            None => vstd::pervasive::unreached(),
        }
    }
}

/// The result of the float operation `op` on `left` and `right` as `facts`
/// has it: a float that came from no source text, or the request for the
/// operation where `facts` lacks it.
pub open spec fn float_result(facts: FloatFacts, op: FloatOp, left: u64, right: u64) -> Result<
    NumberView<FloatBits>,
    HaltView,
> {
    match answer_bits(facts, FloatRequestView::Apply(op, left, right)) {
        Some(v) => Ok(bare(FloatBits { bits: v })),
        None => Err(HaltView::Float(FloatRequestView::Apply(op, left, right))),
    }
}

/// The quotient of two floats as `facts` has it; a diagnostic at the span
/// of `right` where that is a float zero.
pub open spec fn float_quotient(
    facts: FloatFacts,
    left: u64,
    right: NumberView<FloatBits>,
) -> Result<NumberView<FloatBits>, HaltView> {
    if is_float_zero(right.value.bits) {
        Err(
            HaltView::Error(
                ErrorTypeView::DivisionByZero(
                    ErrorView {
                        start: right.pos_start,
                        end: right.pos_end,
                        name: "DivisionByZero Error"@,
                        message: "Division by Zero"@,
                    },
                ),
            ),
        )
    } else {
        float_result(facts, FloatOp::Div, left, right.value.bits)
    }
}

/// The power of a float by an integer exponent as `facts` has it; a
/// diagnostic at the exponent's span where the exponent is negative.
pub open spec fn float_power(facts: FloatFacts, base: u64, exponent: NumberView<i64>) -> Result<
    NumberView<FloatBits>,
    HaltView,
> {
    if exponent.value < 0 {
        Err(HaltView::Error(negative_power(exponent)))
    } else {
        float_result(facts, FloatOp::Pow, base, exponent.value as u64)
    }
}

/// Looks the operation up in `floats`, as [`float_result`] describes.
fn float_apply(floats: &FloatTable, op: FloatOp, left: u64, right: u64) -> (r: Result<
    Number<FloatBits>,
    Halt,
>)
    ensures
        match r {
            Ok(n) => float_result(floats@, op, left, right) == Ok::<
                NumberView<FloatBits>,
                HaltView,
            >(n@),
            Err(h) => float_result(floats@, op, left, right) == Err::<
                NumberView<FloatBits>,
                HaltView,
            >(h@),
        },
{
    match floats.bits(FloatRequest::Apply(op, left, right)) {
        Ok(b) => Ok(Number::new_no_pos(b)),
        Err(q) => Err(Halt::Float(q)),
    }
}

impl Number<FloatBits> {
    /// The sum as `floats` has it, which came from no source text.
    pub fn add(&self, other: Number<FloatBits>, floats: &FloatTable) -> (r: Result<Self, Halt>)
        ensures
            match r {
                Ok(n) => float_result(floats@, FloatOp::Add, self.value.bits, other.value.bits)
                    == Ok::<NumberView<FloatBits>, HaltView>(n@),
                Err(h) => float_result(floats@, FloatOp::Add, self.value.bits, other.value.bits)
                    == Err::<NumberView<FloatBits>, HaltView>(h@),
            },
    {
        float_apply(floats, FloatOp::Add, self.value.bits, other.value.bits)
    }

    /// The difference as `floats` has it, which came from no source text.
    pub fn sub(&self, other: Number<FloatBits>, floats: &FloatTable) -> (r: Result<Self, Halt>)
        ensures
            match r {
                Ok(n) => float_result(floats@, FloatOp::Sub, self.value.bits, other.value.bits)
                    == Ok::<NumberView<FloatBits>, HaltView>(n@),
                Err(h) => float_result(floats@, FloatOp::Sub, self.value.bits, other.value.bits)
                    == Err::<NumberView<FloatBits>, HaltView>(h@),
            },
    {
        float_apply(floats, FloatOp::Sub, self.value.bits, other.value.bits)
    }

    /// The product as `floats` has it, which came from no source text.
    pub fn mult(&self, other: Number<FloatBits>, floats: &FloatTable) -> (r: Result<Self, Halt>)
        ensures
            match r {
                Ok(n) => float_result(floats@, FloatOp::Mul, self.value.bits, other.value.bits)
                    == Ok::<NumberView<FloatBits>, HaltView>(n@),
                Err(h) => float_result(floats@, FloatOp::Mul, self.value.bits, other.value.bits)
                    == Err::<NumberView<FloatBits>, HaltView>(h@),
            },
    {
        float_apply(floats, FloatOp::Mul, self.value.bits, other.value.bits)
    }

    /// The power by the integer exponent `other` as `floats` has it; a
    /// diagnostic at the exponent's span where the exponent is negative.
    pub fn pow(&self, other: Number<i64>, floats: &FloatTable) -> (r: Result<Self, Halt>)
        ensures
            match r {
                Ok(n) => float_power(floats@, self.value.bits, other@) == Ok::<
                    NumberView<FloatBits>,
                    HaltView,
                >(n@),
                Err(h) => float_power(floats@, self.value.bits, other@) == Err::<
                    NumberView<FloatBits>,
                    HaltView,
                >(h@),
            },
    {
        if other.value < 0 {
            return Err(
                Halt::Error(
                    ErrorType::InvalidPowerError(
                        InvalidPowerError::new(
                            clone_position(&other.pos_start),
                            clone_position(&other.pos_end),
                            "Cant raise to Negative power".to_owned(),
                        ),
                    ),
                ),
            );
        }
        float_apply(floats, FloatOp::Pow, self.value.bits, other.value as u64)
    }

    /// The quotient as `floats` has it; a diagnostic at the span of `other`
    /// where that is a float zero.
    pub fn div(&self, other: Number<FloatBits>, floats: &FloatTable) -> (r: Result<Self, Halt>)
        ensures
            match r {
                Ok(n) => float_quotient(floats@, self.value.bits, other@) == Ok::<
                    NumberView<FloatBits>,
                    HaltView,
                >(n@),
                Err(h) => float_quotient(floats@, self.value.bits, other@) == Err::<
                    NumberView<FloatBits>,
                    HaltView,
                >(h@),
            },
    {
        if other.value.is_zero() {
            return Err(
                Halt::Error(
                    ErrorType::DivisionByZeroError(
                        DivisionByZeroError::new(
                            clone_position(&other.pos_start),
                            clone_position(&other.pos_end),
                            "Division by Zero".to_owned(),
                        ),
                    ),
                ),
            );
        }
        float_apply(floats, FloatOp::Div, self.value.bits, other.value.bits)
    }
}

/// How a number is written out: an integer as its decimal numeral, a float
/// as `facts` renders it, or the request for the rendering where `facts`
/// lacks it.
pub open spec fn number_text(n: NumberTypeView, facts: FloatFacts) -> Result<
    Seq<char>,
    FloatRequestView,
> {
    match n {
        NumberTypeView::Integer(x) => Ok(int_text(x.value as int)),
        NumberTypeView::Float(x) => match answer_text(
            facts,
            FloatRequestView::Display(x.value.bits),
        ) {
            Some(t) => Ok(t),
            None => Err(FloatRequestView::Display(x.value.bits)),
        },
    }
}

impl NumberType {
    /// Writes the number out, as [`number_text`] describes.
    pub fn to_text(&self, floats: &FloatTable) -> (r: Result<String, FloatRequest>)
        ensures
            match r {
                Ok(t) => number_text(self@, floats@) == Ok::<Seq<char>, FloatRequestView>(t@),
                Err(q) => number_text(self@, floats@) == Err::<Seq<char>, FloatRequestView>(q@),
            },
    {
        match self {
            NumberType::Integer(x) => {
                let mut out = String::new();
                push_int(&mut out, x.value as i128);
                Ok(out)
            },
            NumberType::Float(x) => floats.text(FloatRequest::Display(x.value.bits)),
        }
    }
}

} // verus!
