//! The typed values that declarations carry.

use vstd::prelude::*;
use crate::number::{
    blend, blended, lemma_blend_with_all, lemma_blend_with_nothing, share_of, Share, ONE,
};
use crate::text::{clone_strings, owned, str_eq};

verus! {

/// The unit of a dimension.
#[derive(Debug, Clone, Copy, PartialEq, Eq, Structural)]
pub enum Unit {
    Unknown,
    Unsupported,
    Number,
    Px,
    Em,
    Rem,
    Pt,
    Percent,
    Degrees,
    Radians,
    Seconds,
    Milliseconds,
}

impl Unit {
    /// Whether `suffix` is a unit of CSS that is recognised but not supported.
    pub open spec fn is_unsupported_suffix(suffix: Seq<char>) -> bool {
        suffix == "mm"@ || suffix == "cm"@ || suffix == "Q"@ || suffix == "in"@ || suffix == "pc"@
            || suffix == "vh"@ || suffix == "vw"@ || suffix == "lh"@ || suffix == "rlh"@ || suffix
            == "grad"@ || suffix == "turn"@
    }

    /// The unit that a suffix names.
    pub open spec fn of_suffix(suffix: Seq<char>) -> Unit {
        if suffix == "px"@ {
            Unit::Px
        } else if suffix == "em"@ {
            Unit::Em
        } else if suffix == "rem"@ {
            Unit::Rem
        } else if suffix == "pt"@ {
            Unit::Pt
        } else if suffix == "%"@ {
            Unit::Percent
        } else if suffix == "deg"@ {
            Unit::Degrees
        } else if suffix == "rad"@ {
            Unit::Radians
        } else if suffix == "s"@ {
            Unit::Seconds
        } else if suffix == "ms"@ {
            Unit::Milliseconds
        } else if Unit::is_unsupported_suffix(suffix) {
            Unit::Unsupported
        } else {
            Unit::Unknown
        }
    }

    /// Maps a unit suffix to its unit. Every text has an answer: what is not
    /// known maps to `Unknown`.
    pub fn parse(input: &str) -> (unit: Unit)
        ensures
            unit == Unit::of_suffix(input@),
    {
        if str_eq(input, "px") {
            Unit::Px
        } else if str_eq(input, "em") {
            Unit::Em
        } else if str_eq(input, "rem") {
            Unit::Rem
        } else if str_eq(input, "pt") {
            Unit::Pt
        } else if str_eq(input, "%") {
            Unit::Percent
        } else if str_eq(input, "deg") {
            Unit::Degrees
        } else if str_eq(input, "rad") {
            Unit::Radians
        } else if str_eq(input, "s") {
            Unit::Seconds
        } else if str_eq(input, "ms") {
            Unit::Milliseconds
        } else if str_eq(input, "mm") || str_eq(input, "cm") || str_eq(input, "Q") || str_eq(
            input,
            "in",
        ) || str_eq(input, "pc") || str_eq(input, "vh") || str_eq(input, "vw") || str_eq(
            input,
            "lh",
        ) || str_eq(input, "rlh") || str_eq(input, "grad") || str_eq(input, "turn") {
            Unit::Unsupported
        } else {
            Unit::Unknown
        }
    }
}

} // verus!

verus! {

/// A number with a unit. `value` holds the IEEE-754 single-precision bit
/// pattern of the number, so that two dimensions are equal exactly when they
/// were written the same way.
#[derive(Debug, Clone, Copy, PartialEq, Eq)]
pub struct Dimension {
    pub value: u32,
    pub unit: Unit,
}

impl Dimension {
    /// A length in pixels.
    pub fn px(value: u32) -> (dimension: Dimension)
        ensures
            dimension == (Dimension { value, unit: Unit::Px }),
    {
        Dimension { value, unit: Unit::Px }
    }

    pub open spec fn spec_is_number(&self) -> bool {
        self.unit == Unit::Number
    }

    pub open spec fn spec_is_length(&self) -> bool {
        self.unit == Unit::Px || self.unit == Unit::Em || self.unit == Unit::Rem || self.unit
            == Unit::Pt
    }

    pub open spec fn spec_is_percent(&self) -> bool {
        self.unit == Unit::Percent
    }

    pub open spec fn spec_is_angle(&self) -> bool {
        self.unit == Unit::Degrees || self.unit == Unit::Radians
    }

    #[verifier::when_used_as_spec(spec_is_number)]
    pub fn is_number(&self) -> (yes: bool)
        ensures
            yes == self.spec_is_number(),
    {
        match self.unit {
            Unit::Number => true,
            _ => false,
        }
    }

    #[verifier::when_used_as_spec(spec_is_length)]
    pub fn is_length(&self) -> (yes: bool)
        ensures
            yes == self.spec_is_length(),
    {
        match self.unit {
            Unit::Px | Unit::Em | Unit::Rem | Unit::Pt => true,
            _ => false,
        }
    }

    #[verifier::when_used_as_spec(spec_is_percent)]
    pub fn is_percent(&self) -> (yes: bool)
        ensures
            yes == self.spec_is_percent(),
    {
        match self.unit {
            Unit::Percent => true,
            _ => false,
        }
    }

    #[verifier::when_used_as_spec(spec_is_angle)]
    pub fn is_angle(&self) -> (yes: bool)
        ensures
            yes == self.spec_is_angle(),
    {
        match self.unit {
            Unit::Degrees | Unit::Radians => true,
            _ => false,
        }
    }
}

/// What a modified color does to the color it wraps.
#[derive(Debug, PartialEq)]
pub enum ColorOperation {
    SetChannels { r: Option<u8>, g: Option<u8>, b: Option<u8>, a: Option<u8> },
    Add { other: Box<Color> },
    Subtract { other: Box<Color> },
    Multiply { other: Box<Color> },
    /// `amount` holds the bit pattern of a single-precision number.
    Mix { other: Box<Color>, amount: u32 },
}

/// A color: nothing, four concrete channels, a color that the embedder
/// interprets, or another color with an operation applied to it.
#[derive(Debug, PartialEq)]
pub enum Color {
    Empty,
    Rgba { r: u8, g: u8, b: u8, a: u8 },
    Custom { source: String, arguments: Vec<String> },
    Modified { color: Box<Color>, operation: ColorOperation },
}

/// The mathematical value of a [`ColorOperation`].
pub enum ColorOperationView {
    SetChannels { r: Option<u8>, g: Option<u8>, b: Option<u8>, a: Option<u8> },
    Add { other: Box<ColorView> },
    Subtract { other: Box<ColorView> },
    Multiply { other: Box<ColorView> },
    Mix { other: Box<ColorView>, amount: u32 },
}

/// The mathematical value of a [`Color`].
pub enum ColorView {
    Empty,
    Rgba { r: u8, g: u8, b: u8, a: u8 },
    Custom { source: Seq<char>, arguments: Seq<Seq<char>> },
    Modified { color: Box<ColorView>, operation: ColorOperationView },
}

pub open spec fn color_view(color: Color) -> ColorView
    decreases color,
{
    match color {
        Color::Empty => ColorView::Empty,
        Color::Rgba { r, g, b, a } => ColorView::Rgba { r, g, b, a },
        Color::Custom { source, arguments } => ColorView::Custom {
            source: source@,
            arguments: arguments.deep_view(),
        },
        Color::Modified { color, operation } => ColorView::Modified {
            color: Box::new(color_view(*color)),
            operation: operation_view(operation),
        },
    }
}

pub open spec fn operation_view(operation: ColorOperation) -> ColorOperationView
    decreases operation,
{
    match operation {
        ColorOperation::SetChannels { r, g, b, a } => ColorOperationView::SetChannels { r, g, b, a },
        ColorOperation::Add { other } => ColorOperationView::Add {
            other: Box::new(color_view(*other)),
        },
        ColorOperation::Subtract { other } => ColorOperationView::Subtract {
            other: Box::new(color_view(*other)),
        },
        ColorOperation::Multiply { other } => ColorOperationView::Multiply {
            other: Box::new(color_view(*other)),
        },
        ColorOperation::Mix { other, amount } => ColorOperationView::Mix {
            other: Box::new(color_view(*other)),
            amount,
        },
    }
}

impl DeepView for Color {
    type V = ColorView;

    open spec fn deep_view(&self) -> ColorView {
        color_view(*self)
    }
}

impl DeepView for ColorOperation {
    type V = ColorOperationView;

    open spec fn deep_view(&self) -> ColorOperationView {
        operation_view(*self)
    }
}

impl Clone for Color {
    fn clone(&self) -> (copy: Color)
        ensures
            copy.deep_view() == self.deep_view(),
        decreases self,
    {
        match self {
            Color::Empty => Color::Empty,
            Color::Rgba { r, g, b, a } => Color::Rgba { r: *r, g: *g, b: *b, a: *a },
            Color::Custom { source, arguments } => Color::Custom {
                source: source.clone(),
                arguments: clone_strings(arguments),
            },
            Color::Modified { color, operation } => {
                let inner: Color = (**color).clone();
                Color::Modified { color: Box::new(inner), operation: operation.clone() }
            },
        }
    }
}

impl Clone for ColorOperation {
    fn clone(&self) -> (copy: ColorOperation)
        ensures
            copy.deep_view() == self.deep_view(),
        decreases self,
    {
        match self {
            ColorOperation::SetChannels { r, g, b, a } => ColorOperation::SetChannels {
                r: *r,
                g: *g,
                b: *b,
                a: *a,
            },
            ColorOperation::Add { other } => {
                let inner: Color = (**other).clone();
                ColorOperation::Add { other: Box::new(inner) }
            },
            ColorOperation::Subtract { other } => {
                let inner: Color = (**other).clone();
                ColorOperation::Subtract { other: Box::new(inner) }
            },
            ColorOperation::Multiply { other } => {
                let inner: Color = (**other).clone();
                ColorOperation::Multiply { other: Box::new(inner) }
            },
            ColorOperation::Mix { other, amount } => {
                let inner: Color = (**other).clone();
                ColorOperation::Mix { other: Box::new(inner), amount: *amount }
            },
        }
    }
}

} // verus!

verus! {

impl ColorOperation {
    /// The operation that adds `color`, channel by channel.
    pub fn add(color: &Color) -> (operation: ColorOperation)
        ensures
            operation.deep_view() == (ColorOperationView::Add {
                other: Box::new(color.deep_view()),
            }),
    {
        ColorOperation::Add { other: Box::new(color.clone()) }
    }

    /// The operation that subtracts `color`, channel by channel.
    pub fn subtract(color: &Color) -> (operation: ColorOperation)
        ensures
            operation.deep_view() == (ColorOperationView::Subtract {
                other: Box::new(color.deep_view()),
            }),
    {
        ColorOperation::Subtract { other: Box::new(color.clone()) }
    }

    /// The operation that multiplies by `color`, channel by channel.
    pub fn multiply(color: &Color) -> (operation: ColorOperation)
        ensures
            operation.deep_view() == (ColorOperationView::Multiply {
                other: Box::new(color.deep_view()),
            }),
    {
        ColorOperation::Multiply { other: Box::new(color.clone()) }
    }

    /// The operation that replaces each channel for which a value is given.
    pub fn set(r: Option<u8>, g: Option<u8>, b: Option<u8>, a: Option<u8>) -> (operation:
        ColorOperation)
        ensures
            operation == (ColorOperation::SetChannels { r, g, b, a }),
    {
        ColorOperation::SetChannels { r, g, b, a }
    }

    /// The operation that blends towards `color` by `amount`, the bit pattern
    /// of a single-precision number.
    pub fn mix(color: &Color, amount: u32) -> (operation: ColorOperation)
        ensures
            operation.deep_view() == (ColorOperationView::Mix {
                other: Box::new(color.deep_view()),
                amount,
            }),
    {
        ColorOperation::Mix { other: Box::new(color.clone()), amount }
    }
}

impl ColorView {
    /// No modified color wraps the empty color, at any depth.
    pub open spec fn well_formed(self) -> bool
        decreases self,
    {
        match self {
            ColorView::Modified { color, operation } => {
                &&& !(*color is Empty)
                &&& color.well_formed()
                &&& operation.well_formed()
            },
            _ => true,
        }
    }
}

impl ColorOperationView {
    /// The color that the operation holds, if any, is well formed.
    pub open spec fn well_formed(self) -> bool
        decreases self,
    {
        match self {
            ColorOperationView::SetChannels { .. } => true,
            ColorOperationView::Add { other } => other.well_formed(),
            ColorOperationView::Subtract { other } => other.well_formed(),
            ColorOperationView::Multiply { other } => other.well_formed(),
            ColorOperationView::Mix { other, .. } => other.well_formed(),
        }
    }
}

/// A color with an operation applied to it. The empty color stays what it is.
pub open spec fn modified_color(first: ColorView, operation: ColorOperationView) -> ColorView {
    if first is Empty {
        ColorView::Empty
    } else {
        ColorView::Modified { color: Box::new(first), operation }
    }
}

/// The blend of two colors by the share that a number stands for. Two colors
/// of four channels are blended channel by channel; of any other colors the
/// blend is the first, to be blended towards the second.
pub open spec fn mixed_color(first: ColorView, second: ColorView, amount: u32) -> ColorView {
    match (first, second) {
        (
            ColorView::Rgba { r, g, b, a },
            ColorView::Rgba { r: other_r, g: other_g, b: other_b, a: other_a },
        ) => ColorView::Rgba {
            r: blended(r, other_r, share_of(amount)) as u8,
            g: blended(g, other_g, share_of(amount)) as u8,
            b: blended(b, other_b, share_of(amount)) as u8,
            a: blended(a, other_a, share_of(amount)) as u8,
        },
        _ => modified_color(
            first,
            ColorOperationView::Mix { other: Box::new(second), amount },
        ),
    }
}

/// Blending two colors of four channels by zero gives the first, and by
/// one the second.
pub proof fn lemma_mix_at_the_ends(first: ColorView, second: ColorView)
    requires
        first is Rgba,
        second is Rgba,
    ensures
        mixed_color(first, second, 0) == first,
        mixed_color(first, second, ONE) == second,
{
    assert(share_of(0) == (Share { numerator: 0, shift: 0 }));
    assert(share_of(ONE) == (Share { numerator: 1, shift: 0 }));
    match (first, second) {
        (
            ColorView::Rgba { r, g, b, a },
            ColorView::Rgba { r: other_r, g: other_g, b: other_b, a: other_a },
        ) => {
            lemma_blend_with_nothing(r, other_r);
            lemma_blend_with_nothing(g, other_g);
            lemma_blend_with_nothing(b, other_b);
            lemma_blend_with_nothing(a, other_a);
            lemma_blend_with_all(r, other_r);
            lemma_blend_with_all(g, other_g);
            lemma_blend_with_all(b, other_b);
            lemma_blend_with_all(a, other_a);
        },
        _ => {},
    }
}

impl Color {
    /// The blend of two colors by `amount`, the bit pattern of a
    /// single-precision number, which is kept between zero and one.
    pub fn mix(first: &Color, second: &Color, amount: u32) -> (color: Color)
        ensures
            color.deep_view() == mixed_color(first.deep_view(), second.deep_view(), amount),
    {
        match (first, second) {
            (
                Color::Rgba { r, g, b, a },
                Color::Rgba { r: other_r, g: other_g, b: other_b, a: other_a },
            ) => Color::Rgba {
                r: blend(*r, *other_r, amount),
                g: blend(*g, *other_g, amount),
                b: blend(*b, *other_b, amount),
                a: blend(*a, *other_a, amount),
            },
            _ => Color::modified(first, ColorOperation::mix(second, amount)),
        }
    }

    /// The empty color.
    pub fn empty() -> (color: Color)
        ensures
            color == Color::Empty,
    {
        Color::Empty
    }

    /// A color of four concrete channels.
    pub fn rgba(r: u8, g: u8, b: u8, a: u8) -> (color: Color)
        ensures
            color == (Color::Rgba { r, g, b, a }),
    {
        Color::Rgba { r, g, b, a }
    }

    /// A color that the embedder interprets.
    pub fn custom(source: String, arguments: Vec<String>) -> (color: Color)
        ensures
            color == (Color::Custom { source, arguments }),
    {
        Color::Custom { source, arguments }
    }

    /// `first` with `operation` applied to it. The empty color stays what it
    /// is: no operation changes it, and no modified color wraps it.
    pub fn modified(first: &Color, operation: ColorOperation) -> (color: Color)
        ensures
            first is Empty ==> color == Color::Empty,
            !(first is Empty) ==> color.deep_view() == (ColorView::Modified {
                color: Box::new(first.deep_view()),
                operation: operation.deep_view(),
            }),
            first.deep_view().well_formed() && operation.deep_view().well_formed()
                ==> color.deep_view().well_formed(),
    {
        match first {
            Color::Empty => Color::Empty,
            _ => Color::Modified { color: Box::new(first.clone()), operation },
        }
    }
}

/// The payload of a [`Value`].
#[derive(Debug, PartialEq)]
pub enum ValueData {
    Empty,
    Dimension(Dimension),
    String(String),
    Color(Color),
    Image(String),
    Url(String),
    Integer(i32),
}

/// One typed value of a declaration.
#[derive(Debug, PartialEq)]
pub struct Value {
    pub data: ValueData,
}

/// The mathematical value of a [`Value`].
pub enum ValueView {
    Empty,
    Dimension(Dimension),
    String(Seq<char>),
    Color(ColorView),
    Image(Seq<char>),
    Url(Seq<char>),
    Integer(i32),
}

/// The kind of a value.
#[derive(Debug, Clone, Copy, PartialEq, Eq, Structural)]
pub enum ValueType {
    Empty,
    Dimension,
    String,
    Color,
    Image,
    Url,
    Integer,
}

impl ValueView {
    /// The kind of the value.
    pub open spec fn value_type(self) -> ValueType {
        match self {
            ValueView::Empty => ValueType::Empty,
            ValueView::Dimension(_) => ValueType::Dimension,
            ValueView::String(_) => ValueType::String,
            ValueView::Color(_) => ValueType::Color,
            ValueView::Image(_) => ValueType::Image,
            ValueView::Url(_) => ValueType::Url,
            ValueView::Integer(_) => ValueType::Integer,
        }
    }
}

impl DeepView for Value {
    type V = ValueView;

    open spec fn deep_view(&self) -> ValueView {
        match self.data {
            ValueData::Empty => ValueView::Empty,
            ValueData::Dimension(dimension) => ValueView::Dimension(dimension),
            ValueData::String(text) => ValueView::String(text@),
            ValueData::Color(color) => ValueView::Color(color.deep_view()),
            ValueData::Image(text) => ValueView::Image(text@),
            ValueData::Url(text) => ValueView::Url(text@),
            ValueData::Integer(number) => ValueView::Integer(number),
        }
    }
}

impl Clone for Value {
    fn clone(&self) -> (copy: Value)
        ensures
            copy.deep_view() == self.deep_view(),
    {
        let data = match &self.data {
            ValueData::Empty => ValueData::Empty,
            ValueData::Dimension(dimension) => ValueData::Dimension(*dimension),
            ValueData::String(text) => ValueData::String(text.clone()),
            ValueData::Color(color) => ValueData::Color(color.clone()),
            ValueData::Image(text) => ValueData::Image(text.clone()),
            ValueData::Url(text) => ValueData::Url(text.clone()),
            ValueData::Integer(number) => ValueData::Integer(*number),
        };
        Value { data }
    }
}

/// A copy of a list of values.
pub fn clone_values(list: &Vec<Value>) -> (copy: Vec<Value>)
    ensures
        copy.deep_view() == list.deep_view(),
{
    let mut copy: Vec<Value> = Vec::new();
    let mut i: usize = 0;
    while i < list.len()
        invariant
            i <= list.len(),
            copy.len() == i,
            forall|k: int| 0 <= k < i ==> copy[k].deep_view() == list[k].deep_view(),
        decreases list.len() - i,
    {
        copy.push(list[i].clone());
        i += 1;
    }
    assert(copy.deep_view() =~= list.deep_view());
    copy
}

impl Value {
    /// The empty value.
    pub fn empty() -> (value: Value)
        ensures
            value.deep_view() == ValueView::Empty,
    {
        Value { data: ValueData::Empty }
    }

    /// The empty value, shared and for reading only: a stand-in where a value
    /// is asked for by reference and there is none.
    pub fn empty_ref() -> (value: &'static Value)
        ensures
            value.deep_view() == ValueView::Empty,
    {
        &Value { data: ValueData::Empty }
    }

    /// A value that holds a URL.
    pub fn new_url(url: &str) -> (value: Value)
        ensures
            value.deep_view() == ValueView::Url(url@),
    {
        Value { data: ValueData::Url(owned(url)) }
    }

    /// A plain number, given as the bit pattern of a single-precision number:
    /// a dimension whose unit is `Number`.
    pub fn number(bits: u32) -> (value: Value)
        ensures
            value.deep_view() == ValueView::Dimension(Dimension { value: bits, unit: Unit::Number }),
    {
        Value { data: ValueData::Dimension(Dimension { value: bits, unit: Unit::Number }) }
    }

    /// The kind of the value.
    pub fn value_type(&self) -> (kind: ValueType)
        ensures
            kind == self.deep_view().value_type(),
    {
        match &self.data {
            ValueData::Empty => ValueType::Empty,
            ValueData::Dimension(_) => ValueType::Dimension,
            ValueData::String(_) => ValueType::String,
            ValueData::Color(_) => ValueType::Color,
            ValueData::Image(_) => ValueType::Image,
            ValueData::Url(_) => ValueType::Url,
            ValueData::Integer(_) => ValueType::Integer,
        }
    }

    /// The text of a string value; the empty text for any other value.
    pub fn to_string(&self) -> (text: String)
        ensures
            text@ == match self.deep_view() {
                ValueView::String(held) => held,
                _ => Seq::<char>::empty(),
            },
    {
        match &self.data {
            ValueData::String(text) => text.clone(),
            _ => String::new(),
        }
    }
}

impl From<&str> for Value {
    fn from(value: &str) -> (made: Value)
        ensures
            made.deep_view() == ValueView::String(value@),
    {
        Value { data: ValueData::String(owned(value)) }
    }
}

impl vstd::std_specs::convert::FromSpecImpl<&str> for Value {
    open spec fn obeys_from_spec() -> bool {
        false
    }

    open spec fn from_spec(value: &str) -> Value {
        arbitrary()
    }
}

impl From<i32> for Value {
    fn from(value: i32) -> (made: Value)
    {
        Value { data: ValueData::Integer(value) }
    }
}

impl vstd::std_specs::convert::FromSpecImpl<i32> for Value {
    open spec fn obeys_from_spec() -> bool {
        true
    }

    open spec fn from_spec(value: i32) -> Value {
        Value { data: ValueData::Integer(value) }
    }
}

impl From<Color> for Value {
    fn from(value: Color) -> (made: Value)
    {
        Value { data: ValueData::Color(value) }
    }
}

impl vstd::std_specs::convert::FromSpecImpl<Color> for Value {
    open spec fn obeys_from_spec() -> bool {
        true
    }

    open spec fn from_spec(value: Color) -> Value {
        Value { data: ValueData::Color(value) }
    }
}

impl From<Dimension> for Value {
    fn from(value: Dimension) -> (made: Value)
    {
        Value { data: ValueData::Dimension(value) }
    }
}

impl vstd::std_specs::convert::FromSpecImpl<Dimension> for Value {
    open spec fn obeys_from_spec() -> bool {
        true
    }

    open spec fn from_spec(value: Dimension) -> Value {
        Value { data: ValueData::Dimension(value) }
    }
}

} // verus!

verus! {

/// Why a value or a color is not what it was asked to be.
#[derive(Debug, PartialEq, Eq)]
pub struct ValueConversionError {
    pub message: String,
}

impl ValueConversionError {
    /// The error that says `message`.
    pub fn new(message: &str) -> (error: ValueConversionError)
        ensures
            error.message@ == message@,
    {
        ValueConversionError { message: owned(message) }
    }
}

/// The kind of a color.
#[derive(Debug, Clone, Copy, PartialEq, Eq, Structural)]
pub enum ColorType {
    Empty,
    Rgba,
    Custom,
    Modified,
}

/// The four channels of a concrete color.
#[derive(Debug, Clone, Copy, PartialEq, Eq, Structural)]
pub struct Rgba {
    pub r: u8,
    pub g: u8,
    pub b: u8,
    pub a: u8,
}

/// What a color that the embedder interprets holds.
#[derive(Debug, PartialEq, Eq)]
pub struct CustomColor {
    pub source: String,
    pub arguments: Vec<String>,
}

/// The kind of an operation on a color.
#[derive(Debug, Clone, Copy, PartialEq, Eq, Structural)]
pub enum ColorOperationType {
    SetChannels,
    Add,
    Subtract,
    Multiply,
    Mix,
}

/// The channels that a `set` operation replaces: the new value of a channel,
/// or -1 for a channel that stays.
#[derive(Debug, Clone, Copy, PartialEq, Eq, Structural)]
pub struct SetColorOperationValues {
    pub r: i16,
    pub g: i16,
    pub b: i16,
    pub a: i16,
}

/// What a `mix` operation holds: the color to blend towards, and the bit
/// pattern of the amount.
#[derive(Debug, PartialEq)]
pub struct MixColorOperationValues {
    pub other: Box<Color>,
    pub amount: u32,
}

/// What a modified color holds.
#[derive(Debug, PartialEq)]
pub struct ModifiedColor {
    pub color: Box<Color>,
    pub operation: Box<ColorOperation>,
}

/// The value of a channel that may stay: the channel, or -1.
pub open spec fn channel_or_unset(channel: Option<u8>) -> i16 {
    match channel {
        Some(value) => value as i16,
        None => -1i16,
    }
}

/// The value of a channel that may stay: the channel, or -1.
pub fn channel_value(channel: Option<u8>) -> (value: i16)
    ensures
        value == channel_or_unset(channel),
{
    match channel {
        Some(value) => value as i16,
        None => -1,
    }
}

impl ColorOperationView {
    /// The kind of the operation.
    pub open spec fn operation_type(self) -> ColorOperationType {
        match self {
            ColorOperationView::SetChannels { .. } => ColorOperationType::SetChannels,
            ColorOperationView::Add { .. } => ColorOperationType::Add,
            ColorOperationView::Subtract { .. } => ColorOperationType::Subtract,
            ColorOperationView::Multiply { .. } => ColorOperationType::Multiply,
            ColorOperationView::Mix { .. } => ColorOperationType::Mix,
        }
    }
}

impl ModifiedColor {
    /// The kind of the operation.
    pub fn operation_type(&self) -> (kind: ColorOperationType)
        ensures
            kind == self.operation.deep_view().operation_type(),
    {
        match &*self.operation {
            ColorOperation::SetChannels { .. } => ColorOperationType::SetChannels,
            ColorOperation::Add { .. } => ColorOperationType::Add,
            ColorOperation::Subtract { .. } => ColorOperationType::Subtract,
            ColorOperation::Multiply { .. } => ColorOperationType::Multiply,
            ColorOperation::Mix { .. } => ColorOperationType::Mix,
        }
    }

    /// The color that an `add`, `subtract` or `multiply` operation holds.
    pub fn color_value(&self) -> (outcome: Result<Box<Color>, ValueConversionError>)
        ensures
            match self.operation.deep_view() {
                ColorOperationView::Add { other } => outcome matches Ok(color)
                    && color.deep_view() == *other,
                ColorOperationView::Subtract { other } => outcome matches Ok(color)
                    && color.deep_view() == *other,
                ColorOperationView::Multiply { other } => outcome matches Ok(color)
                    && color.deep_view() == *other,
                _ => outcome is Err,
            },
    {
        match &*self.operation {
            ColorOperation::Add { other } => Ok(Box::new((**other).clone())),
            ColorOperation::Subtract { other } => Ok(Box::new((**other).clone())),
            ColorOperation::Multiply { other } => Ok(Box::new((**other).clone())),
            _ => Err(ValueConversionError::new("Modified color does not have a color value")),
        }
    }

    /// The channels that a `set` operation replaces.
    pub fn set_values(&self) -> (outcome: Result<SetColorOperationValues, ValueConversionError>)
        ensures
            match self.operation.deep_view() {
                ColorOperationView::SetChannels { r, g, b, a } => outcome == Ok::<
                    SetColorOperationValues,
                    ValueConversionError,
                >(
                    SetColorOperationValues {
                        r: channel_or_unset(r),
                        g: channel_or_unset(g),
                        b: channel_or_unset(b),
                        a: channel_or_unset(a),
                    },
                ),
                _ => outcome is Err,
            },
    {
        match &*self.operation {
            ColorOperation::SetChannels { r, g, b, a } => Ok(
                SetColorOperationValues {
                    r: channel_value(*r),
                    g: channel_value(*g),
                    b: channel_value(*b),
                    a: channel_value(*a),
                },
            ),
            _ => Err(ValueConversionError::new("Not a set color operation")),
        }
    }

    /// What a `mix` operation holds.
    pub fn mix_values(&self) -> (outcome: Result<MixColorOperationValues, ValueConversionError>)
        ensures
            match self.operation.deep_view() {
                ColorOperationView::Mix { other, amount } => outcome matches Ok(values)
                    && values.other.deep_view() == *other && values.amount == amount,
                _ => outcome is Err,
            },
    {
        match &*self.operation {
            ColorOperation::Mix { other, amount } => Ok(
                MixColorOperationValues { other: Box::new((**other).clone()), amount: *amount },
            ),
            _ => Err(ValueConversionError::new("Not a mix color operation")),
        }
    }
}

impl ColorView {
    /// The kind of the color.
    pub open spec fn color_type(self) -> ColorType {
        match self {
            ColorView::Empty => ColorType::Empty,
            ColorView::Rgba { .. } => ColorType::Rgba,
            ColorView::Custom { .. } => ColorType::Custom,
            ColorView::Modified { .. } => ColorType::Modified,
        }
    }
}

impl Color {
    /// The kind of the color.
    pub fn color_type(&self) -> (kind: ColorType)
        ensures
            kind == self.deep_view().color_type(),
    {
        match self {
            Color::Empty => ColorType::Empty,
            Color::Rgba { .. } => ColorType::Rgba,
            Color::Custom { .. } => ColorType::Custom,
            Color::Modified { .. } => ColorType::Modified,
        }
    }

    /// The four channels of a concrete color.
    pub fn to_rgba(&self) -> (outcome: Result<Rgba, ValueConversionError>)
        ensures
            match self.deep_view() {
                ColorView::Rgba { r, g, b, a } => outcome == Ok::<Rgba, ValueConversionError>(
                    Rgba { r, g, b, a },
                ),
                _ => outcome is Err,
            },
    {
        match self {
            Color::Rgba { r, g, b, a } => Ok(Rgba { r: *r, g: *g, b: *b, a: *a }),
            _ => Err(ValueConversionError::new("Not an RGBA color")),
        }
    }

    /// What a color that the embedder interprets holds.
    pub fn to_custom(&self) -> (outcome: Result<CustomColor, ValueConversionError>)
        ensures
            match self.deep_view() {
                ColorView::Custom { source, arguments } => outcome matches Ok(custom)
                    && custom.source@ == source && custom.arguments.deep_view() == arguments,
                _ => outcome is Err,
            },
    {
        match self {
            Color::Custom { source, arguments } => Ok(
                CustomColor { source: source.clone(), arguments: clone_strings(arguments) },
            ),
            _ => Err(ValueConversionError::new("Not a custom color")),
        }
    }

    /// What a modified color holds.
    pub fn to_modified(&self) -> (outcome: Result<ModifiedColor, ValueConversionError>)
        ensures
            match self.deep_view() {
                ColorView::Modified { color, operation } => outcome matches Ok(modified)
                    && modified.color.deep_view() == *color && modified.operation.deep_view()
                    == operation,
                _ => outcome is Err,
            },
    {
        match self {
            Color::Modified { color, operation } => Ok(
                ModifiedColor {
                    color: Box::new((**color).clone()),
                    operation: Box::new(operation.clone()),
                },
            ),
            _ => Err(ValueConversionError::new("Not a modified color")),
        }
    }
}

impl Value {
    /// The dimension that the value holds.
    pub fn to_dimension(&self) -> (outcome: Result<Dimension, ValueConversionError>)
        ensures
            match self.deep_view() {
                ValueView::Dimension(dimension) => outcome == Ok::<
                    Dimension,
                    ValueConversionError,
                >(dimension),
                _ => outcome is Err,
            },
    {
        match &self.data {
            ValueData::Dimension(dimension) => Ok(*dimension),
            _ => Err(ValueConversionError::new("Not a dimension value")),
        }
    }

    /// The color that the value holds.
    pub fn to_color(&self) -> (outcome: Result<Box<Color>, ValueConversionError>)
        ensures
            match self.deep_view() {
                ValueView::Color(color) => outcome matches Ok(held) && held.deep_view() == color,
                _ => outcome is Err,
            },
    {
        match &self.data {
            ValueData::Color(color) => Ok(Box::new(color.clone())),
            _ => Err(ValueConversionError::new("Not a color value")),
        }
    }

    /// The integer that the value holds.
    pub fn to_integer(&self) -> (outcome: Result<i32, ValueConversionError>)
        ensures
            match self.deep_view() {
                ValueView::Integer(number) => outcome == Ok::<i32, ValueConversionError>(number),
                _ => outcome is Err,
            },
    {
        match &self.data {
            ValueData::Integer(number) => Ok(*number),
            _ => Err(ValueConversionError::new("Not an integer value")),
        }
    }

    /// The image that the value holds. No value can be read as an image
    /// yet.
    pub fn to_image(&self) -> (outcome: Result<String, ValueConversionError>)
        ensures
            outcome is Err,
    {
        Err(ValueConversionError::new("Unimplemented"))
    }

    /// The URL that the value holds.
    pub fn to_url(&self) -> (outcome: Result<String, ValueConversionError>)
        ensures
            match self.deep_view() {
                ValueView::Url(url) => outcome matches Ok(held) && held@ == url,
                _ => outcome is Err,
            },
    {
        match &self.data {
            ValueData::Url(url) => Ok(url.clone()),
            _ => Err(ValueConversionError::new("Not a URL")),
        }
    }
}

} // verus!

verus! {

impl From<Value> for Color {
    fn from(value: Value) -> (made: Color)
    {
        match value.data {
            ValueData::Color(color) => color,
            _ => Color::Empty,
        }
    }
}

impl vstd::std_specs::convert::FromSpecImpl<Value> for Color {
    open spec fn obeys_from_spec() -> bool {
        true
    }

    /// The color that the value holds; the empty color for any other value.
    open spec fn from_spec(value: Value) -> Color {
        match value.data {
            ValueData::Color(color) => color,
            _ => Color::Empty,
        }
    }
}

impl From<Value> for Dimension {
    fn from(value: Value) -> (made: Dimension)
    {
        match value.data {
            ValueData::Dimension(dimension) => dimension,
            _ => Dimension { value: 0, unit: Unit::Unknown },
        }
    }
}

impl vstd::std_specs::convert::FromSpecImpl<Value> for Dimension {
    open spec fn obeys_from_spec() -> bool {
        true
    }

    /// The dimension that the value holds; zero of an unknown unit for any
    /// other value.
    open spec fn from_spec(value: Value) -> Dimension {
        match value.data {
            ValueData::Dimension(dimension) => dimension,
            _ => Dimension { value: 0, unit: Unit::Unknown },
        }
    }
}

} // verus!
