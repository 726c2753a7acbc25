//! The grammar that a property's values must follow: its syntax tree, the
//! reading of a syntax descriptor, and the check of a value list against it.

use vstd::prelude::*;
use crate::details::{ParseError, ParseErrorKind, SourceLocation};
use crate::value::{Value, ValueData, ValueView};

verus! {

/// The data types that a syntax descriptor can name.
#[derive(Debug, Clone, Copy, PartialEq, Eq, Structural)]
pub enum DataType {
    Length,
    Number,
    Percentage,
    LengthPercentage,
    String,
    Color,
    Url,
    Integer,
    Angle,
    Time,
    Resolution,
    TransformFunction,
    CustomIdent,
}

/// One terminal of the grammar.
#[derive(Debug, PartialEq)]
pub enum SyntaxComponent {
    DataType(DataType),
    Keyword(String),
    SpaceSeparatedList(DataType),
    CommaSeparatedList(DataType),
    Repeat { data_type: DataType, minimum: usize, maximum: usize },
    Comma,
}

/// A component, or an expression in parentheses.
#[derive(Debug, PartialEq)]
pub enum SyntaxGroup {
    Component(SyntaxComponent),
    Expression(Vec<SyntaxAlternatives>),
}

/// One step of an expression: a component, a group, or a choice of groups.
#[derive(Debug, PartialEq)]
pub enum SyntaxAlternatives {
    Component(SyntaxComponent),
    Group(SyntaxGroup),
    Alternatives(Vec<SyntaxGroup>),
}

/// A parsed syntax descriptor.
#[derive(Debug, PartialEq)]
pub enum ParsedPropertySyntax {
    Empty,
    Universal,
    Expression(Vec<SyntaxAlternatives>),
}

/// The mathematical value of a [`SyntaxComponent`].
pub enum SyntaxComponentView {
    DataType(DataType),
    Keyword(Seq<char>),
    SpaceSeparatedList(DataType),
    CommaSeparatedList(DataType),
    Repeat { data_type: DataType, minimum: usize, maximum: usize },
    Comma,
}

/// The mathematical value of a [`SyntaxGroup`].
pub enum SyntaxGroupView {
    Component(SyntaxComponentView),
    Expression(Seq<SyntaxAlternativesView>),
}

/// The mathematical value of a [`SyntaxAlternatives`].
pub enum SyntaxAlternativesView {
    Component(SyntaxComponentView),
    Group(SyntaxGroupView),
    Alternatives(Seq<SyntaxGroupView>),
}

/// The mathematical value of a [`ParsedPropertySyntax`].
pub enum ParsedPropertySyntaxView {
    Empty,
    Universal,
    Expression(Seq<SyntaxAlternativesView>),
}

impl DeepView for SyntaxComponent {
    type V = SyntaxComponentView;

    open spec fn deep_view(&self) -> SyntaxComponentView {
        match *self {
            SyntaxComponent::DataType(data_type) => SyntaxComponentView::DataType(data_type),
            SyntaxComponent::Keyword(word) => SyntaxComponentView::Keyword(word@),
            SyntaxComponent::SpaceSeparatedList(data_type) => SyntaxComponentView::SpaceSeparatedList(
                data_type,
            ),
            SyntaxComponent::CommaSeparatedList(data_type) => SyntaxComponentView::CommaSeparatedList(
                data_type,
            ),
            SyntaxComponent::Repeat { data_type, minimum, maximum } => SyntaxComponentView::Repeat {
                data_type,
                minimum,
                maximum,
            },
            SyntaxComponent::Comma => SyntaxComponentView::Comma,
        }
    }
}

pub open spec fn group_view(group: SyntaxGroup) -> SyntaxGroupView
    decreases group,
{
    match group {
        SyntaxGroup::Component(component) => SyntaxGroupView::Component(component.deep_view()),
        SyntaxGroup::Expression(list) => SyntaxGroupView::Expression(
            Seq::new(
                list.len() as nat,
                |i: int|
                    if 0 <= i < list.len() {
                        alternatives_view(list[i])
                    } else {
                        arbitrary()
                    },
            ),
        ),
    }
}

pub open spec fn alternatives_view(alternatives: SyntaxAlternatives) -> SyntaxAlternativesView
    decreases alternatives,
{
    match alternatives {
        SyntaxAlternatives::Component(component) => SyntaxAlternativesView::Component(
            component.deep_view(),
        ),
        SyntaxAlternatives::Group(group) => SyntaxAlternativesView::Group(group_view(group)),
        SyntaxAlternatives::Alternatives(list) => SyntaxAlternativesView::Alternatives(
            Seq::new(
                list.len() as nat,
                |i: int|
                    if 0 <= i < list.len() {
                        group_view(list[i])
                    } else {
                        arbitrary()
                    },
            ),
        ),
    }
}

impl DeepView for SyntaxGroup {
    type V = SyntaxGroupView;

    open spec fn deep_view(&self) -> SyntaxGroupView {
        group_view(*self)
    }
}

impl DeepView for SyntaxAlternatives {
    type V = SyntaxAlternativesView;

    open spec fn deep_view(&self) -> SyntaxAlternativesView {
        alternatives_view(*self)
    }
}

impl DeepView for ParsedPropertySyntax {
    type V = ParsedPropertySyntaxView;

    open spec fn deep_view(&self) -> ParsedPropertySyntaxView {
        match *self {
            ParsedPropertySyntax::Empty => ParsedPropertySyntaxView::Empty,
            ParsedPropertySyntax::Universal => ParsedPropertySyntaxView::Universal,
            ParsedPropertySyntax::Expression(list) => ParsedPropertySyntaxView::Expression(
                list.deep_view(),
            ),
        }
    }
}

/// The view of a group that holds an expression is the list of the views of
/// its steps.
pub proof fn lemma_group_expression_view(list: Vec<SyntaxAlternatives>)
    ensures
        group_view(SyntaxGroup::Expression(list)) == SyntaxGroupView::Expression(list.deep_view()),
{
    match group_view(SyntaxGroup::Expression(list)) {
        SyntaxGroupView::Expression(steps) => {
            assert(steps =~= list.deep_view());
        },
        _ => {},
    }
}

/// The view of a choice of groups is the list of the views of the groups.
pub proof fn lemma_alternatives_list_view(list: Vec<SyntaxGroup>)
    ensures
        alternatives_view(SyntaxAlternatives::Alternatives(list))
            == SyntaxAlternativesView::Alternatives(list.deep_view()),
{
    match alternatives_view(SyntaxAlternatives::Alternatives(list)) {
        SyntaxAlternativesView::Alternatives(groups) => {
            assert(groups =~= list.deep_view());
        },
        _ => {},
    }
}

impl Clone for SyntaxComponent {
    fn clone(&self) -> (copy: SyntaxComponent)
        ensures
            copy.deep_view() == self.deep_view(),
    {
        match self {
            SyntaxComponent::DataType(data_type) => SyntaxComponent::DataType(*data_type),
            SyntaxComponent::Keyword(word) => SyntaxComponent::Keyword(word.clone()),
            SyntaxComponent::SpaceSeparatedList(data_type) => SyntaxComponent::SpaceSeparatedList(
                *data_type,
            ),
            SyntaxComponent::CommaSeparatedList(data_type) => SyntaxComponent::CommaSeparatedList(
                *data_type,
            ),
            SyntaxComponent::Repeat { data_type, minimum, maximum } => SyntaxComponent::Repeat {
                data_type: *data_type,
                minimum: *minimum,
                maximum: *maximum,
            },
            SyntaxComponent::Comma => SyntaxComponent::Comma,
        }
    }
}

impl Clone for SyntaxGroup {
    fn clone(&self) -> (copy: SyntaxGroup)
        ensures
            copy.deep_view() == self.deep_view(),
        decreases self,
    {
        match self {
            SyntaxGroup::Component(component) => SyntaxGroup::Component(component.clone()),
            SyntaxGroup::Expression(list) => {
                let mut copy: Vec<SyntaxAlternatives> = Vec::new();
                let mut i: usize = 0;
                while i < list.len()
                    invariant
                        i <= list.len(),
                        copy.len() == i,
                        forall|k: int| 0 <= k < i ==> copy[k].deep_view() == list[k].deep_view(),
                        decreases_to!(self => list),
                    decreases list.len() - i,
                {
                    assert(decreases_to!(list => list[i as int]));
                    copy.push(list[i].clone());
                    i += 1;
                }
                proof {
                    assert(copy.deep_view() =~= list.deep_view());
                    lemma_group_expression_view(copy);
                    lemma_group_expression_view(*list);
                }
                SyntaxGroup::Expression(copy)
            },
        }
    }
}

impl Clone for SyntaxAlternatives {
    fn clone(&self) -> (copy: SyntaxAlternatives)
        ensures
            copy.deep_view() == self.deep_view(),
        decreases self,
    {
        match self {
            SyntaxAlternatives::Component(component) => SyntaxAlternatives::Component(
                component.clone(),
            ),
            SyntaxAlternatives::Group(group) => SyntaxAlternatives::Group(group.clone()),
            SyntaxAlternatives::Alternatives(list) => {
                let mut copy: Vec<SyntaxGroup> = Vec::new();
                let mut i: usize = 0;
                while i < list.len()
                    invariant
                        i <= list.len(),
                        copy.len() == i,
                        forall|k: int| 0 <= k < i ==> copy[k].deep_view() == list[k].deep_view(),
                        decreases_to!(self => list),
                    decreases list.len() - i,
                {
                    assert(decreases_to!(list => list[i as int]));
                    copy.push(list[i].clone());
                    i += 1;
                }
                proof {
                    assert(copy.deep_view() =~= list.deep_view());
                    lemma_alternatives_list_view(copy);
                    lemma_alternatives_list_view(*list);
                }
                SyntaxAlternatives::Alternatives(copy)
            },
        }
    }
}

impl Clone for ParsedPropertySyntax {
    fn clone(&self) -> (copy: ParsedPropertySyntax)
        ensures
            copy.deep_view() == self.deep_view(),
    {
        match self {
            ParsedPropertySyntax::Empty => ParsedPropertySyntax::Empty,
            ParsedPropertySyntax::Universal => ParsedPropertySyntax::Universal,
            ParsedPropertySyntax::Expression(list) => {
                let mut copy: Vec<SyntaxAlternatives> = Vec::new();
                let mut i: usize = 0;
                while i < list.len()
                    invariant
                        i <= list.len(),
                        copy.len() == i,
                        forall|k: int| 0 <= k < i ==> copy[k].deep_view() == list[k].deep_view(),
                    decreases list.len() - i,
                {
                    copy.push(list[i].clone());
                    i += 1;
                }
                assert(copy.deep_view() =~= list.deep_view());
                ParsedPropertySyntax::Expression(copy)
            },
        }
    }
}

} // verus!

verus! {

/// How the values of a list were separated.
#[derive(Debug, Clone, Copy, PartialEq, Eq, Structural)]
pub enum ListType {
    NotAList,
    SpaceSeparated,
    CommaSeparated,
}

/// Whether values can be checked against the data type. The grammar knows
/// four data types that no value can be checked against yet.
pub open spec fn is_implemented(data_type: DataType) -> bool {
    !(data_type is Time || data_type is Resolution || data_type is TransformFunction
        || data_type is CustomIdent)
}

/// Whether a value is of the data type.
pub open spec fn value_has_type(data_type: DataType, value: ValueView) -> bool {
    match data_type {
        DataType::Length => value matches ValueView::Dimension(d) && d.spec_is_length(),
        DataType::Number => value matches ValueView::Dimension(d) && d.spec_is_number(),
        DataType::Percentage => value matches ValueView::Dimension(d) && d.spec_is_percent(),
        DataType::LengthPercentage => value matches ValueView::Dimension(d) && (d.spec_is_length()
            || d.spec_is_percent()),
        DataType::String => value is String,
        DataType::Color => value is Color,
        DataType::Angle => value matches ValueView::Dimension(d) && d.spec_is_angle(),
        DataType::Integer => value is Integer,
        DataType::Url => value is Url,
        _ => false,
    }
}

/// One value of a data type at `at`: the index after it, or why not.
pub open spec fn checked_datatype(
    data_type: DataType,
    values: Seq<ValueView>,
    at: int,
) -> Result<int, ParseErrorKind> {
    if at >= values.len() {
        Err(ParseErrorKind::PropertyValueDoesNotMatchSyntax)
    } else if !is_implemented(data_type) {
        Err(ParseErrorKind::Unimplemented)
    } else if value_has_type(data_type, values[at]) {
        Ok(at + 1)
    } else {
        Err(ParseErrorKind::PropertyValueDoesNotMatchSyntax)
    }
}

/// One string value equal to the keyword at `at`: the index after it, or why
/// not.
pub open spec fn checked_keyword(
    keyword: Seq<char>,
    values: Seq<ValueView>,
    at: int,
) -> Result<int, ParseErrorKind> {
    if at < values.len() && values[at] == ValueView::String(keyword) {
        Ok(at + 1)
    } else {
        Err(ParseErrorKind::PropertyValueDoesNotMatchSyntax)
    }
}

/// How many values from `at` on are of the data type, one after the other,
/// counting no more than `limit`.
pub open spec fn matching_run(
    data_type: DataType,
    values: Seq<ValueView>,
    at: int,
    limit: int,
) -> int
    decreases values.len() - at,
{
    if at < 0 || at >= values.len() || limit <= 0 || !value_has_type(data_type, values[at]) {
        0
    } else {
        1 + matching_run(data_type, values, at + 1, limit - 1)
    }
}

/// A run of values of a data type at `at`, taken greedily up to `maximum`
/// values: the index after the run, or why not.
pub open spec fn checked_list(
    data_type: DataType,
    values: Seq<ValueView>,
    at: int,
    minimum: int,
    maximum: int,
) -> Result<int, ParseErrorKind> {
    if at < values.len() && !is_implemented(data_type) {
        Err(ParseErrorKind::Unimplemented)
    } else if matching_run(data_type, values, at, maximum) < minimum {
        Err(ParseErrorKind::PropertyValueDoesNotMatchSyntax)
    } else {
        Ok(at + matching_run(data_type, values, at, maximum))
    }
}

/// The values that a component takes at `at`: the index after them, or why
/// the values do not fit.
pub open spec fn checked_component(
    component: SyntaxComponentView,
    values: Seq<ValueView>,
    at: int,
    list_type: ListType,
) -> Result<int, ParseErrorKind> {
    match component {
        SyntaxComponentView::DataType(data_type) => checked_datatype(data_type, values, at),
        SyntaxComponentView::Keyword(keyword) => checked_keyword(keyword, values, at),
        SyntaxComponentView::Comma => Ok(at),
        SyntaxComponentView::SpaceSeparatedList(data_type) => if list_type
            == ListType::CommaSeparated {
            Err(ParseErrorKind::PropertyValueDoesNotMatchSyntax)
        } else {
            checked_list(data_type, values, at, 0, usize::MAX as int)
        },
        SyntaxComponentView::CommaSeparatedList(data_type) => if list_type
            == ListType::SpaceSeparated {
            Err(ParseErrorKind::PropertyValueDoesNotMatchSyntax)
        } else {
            checked_list(data_type, values, at, 0, usize::MAX as int)
        },
        SyntaxComponentView::Repeat { data_type, minimum, maximum } => if list_type
            == ListType::CommaSeparated {
            Err(ParseErrorKind::PropertyValueDoesNotMatchSyntax)
        } else {
            checked_list(data_type, values, at, minimum as int, maximum as int)
        },
    }
}

/// The values that a group takes at `at`.
pub open spec fn checked_group(
    group: SyntaxGroupView,
    values: Seq<ValueView>,
    at: int,
    list_type: ListType,
) -> Result<int, ParseErrorKind>
    decreases group, 0nat,
{
    match group {
        SyntaxGroupView::Component(component) => checked_component(
            component,
            values,
            at,
            list_type,
        ),
        SyntaxGroupView::Expression(steps) => checked_expression(steps, 0, values, at, list_type),
    }
}

/// The values that the first fitting group from `from` on takes at `at`.
pub open spec fn checked_choice(
    groups: Seq<SyntaxGroupView>,
    from: int,
    values: Seq<ValueView>,
    at: int,
    list_type: ListType,
) -> Result<int, ParseErrorKind>
    decreases groups, groups.len() - from,
{
    if from < 0 || from >= groups.len() {
        Err(ParseErrorKind::PropertyValueDoesNotMatchSyntax)
    } else {
        match checked_group(groups[from], values, at, list_type) {
            Ok(next) => Ok(next),
            Err(_) => checked_choice(groups, from + 1, values, at, list_type),
        }
    }
}

/// The values that one step of an expression takes at `at`. Of a choice of
/// groups the first that fits decides.
pub open spec fn checked_alternatives(
    alternatives: SyntaxAlternativesView,
    values: Seq<ValueView>,
    at: int,
    list_type: ListType,
) -> Result<int, ParseErrorKind>
    decreases alternatives, 0nat,
{
    match alternatives {
        SyntaxAlternativesView::Component(component) => checked_component(
            component,
            values,
            at,
            list_type,
        ),
        SyntaxAlternativesView::Group(group) => checked_group(group, values, at, list_type),
        SyntaxAlternativesView::Alternatives(groups) => checked_choice(
            groups,
            0,
            values,
            at,
            list_type,
        ),
    }
}

/// The values that the steps of an expression from `from` on take at `at`,
/// step by step from left to right. The walk ends when the steps or the values
/// run out; steps that are then left over make it fail.
pub open spec fn checked_expression(
    steps: Seq<SyntaxAlternativesView>,
    from: int,
    values: Seq<ValueView>,
    at: int,
    list_type: ListType,
) -> Result<int, ParseErrorKind>
    decreases steps, steps.len() - from,
{
    if from < 0 || from >= steps.len() {
        Ok(at)
    } else if at >= values.len() {
        Err(ParseErrorKind::PropertyValueDoesNotMatchSyntax)
    } else {
        match checked_alternatives(steps[from], values, at, list_type) {
            Ok(next) => checked_expression(steps, from + 1, values, next, list_type),
            Err(kind) => Err(kind),
        }
    }
}

/// Whether a list of values fits a syntax: `None` if it does, else the kind
/// of the error. The empty and the universal syntax take anything; an
/// expression must take every value.
pub open spec fn syntax_verdict(
    syntax: ParsedPropertySyntaxView,
    values: Seq<ValueView>,
    list_type: ListType,
) -> Option<ParseErrorKind> {
    match syntax {
        ParsedPropertySyntaxView::Empty => None,
        ParsedPropertySyntaxView::Universal => None,
        ParsedPropertySyntaxView::Expression(steps) => match checked_expression(
            steps,
            0,
            values,
            0,
            list_type,
        ) {
            Ok(next) => if next == values.len() {
                None
            } else {
                Some(ParseErrorKind::PropertyValueDoesNotMatchSyntax)
            },
            Err(kind) => Some(kind),
        },
    }
}

} // verus!

verus! {

/// A list of values together with how they were separated.
#[derive(Debug, PartialEq)]
pub enum ParseValuesResult {
    Single(Vec<Value>),
    SpaceSeparated(Vec<Value>),
    CommaSeparated(Vec<Value>),
}

impl ParseValuesResult {
    /// The values, whatever separated them.
    pub open spec fn spec_values(&self) -> Vec<Value> {
        match *self {
            ParseValuesResult::Single(values) => values,
            ParseValuesResult::SpaceSeparated(values) => values,
            ParseValuesResult::CommaSeparated(values) => values,
        }
    }

    /// How the values were separated.
    pub open spec fn spec_list_type(&self) -> ListType {
        match *self {
            ParseValuesResult::Single(_) => ListType::NotAList,
            ParseValuesResult::SpaceSeparated(_) => ListType::SpaceSeparated,
            ParseValuesResult::CommaSeparated(_) => ListType::CommaSeparated,
        }
    }

    /// The values, whatever separated them.
    pub fn values(&self) -> (values: &Vec<Value>)
        ensures
            *values == self.spec_values(),
    {
        match self {
            ParseValuesResult::Single(values) => values,
            ParseValuesResult::SpaceSeparated(values) => values,
            ParseValuesResult::CommaSeparated(values) => values,
        }
    }

    /// How the values were separated.
    pub fn list_type(&self) -> (list_type: ListType)
        ensures
            list_type == self.spec_list_type(),
    {
        match self {
            ParseValuesResult::Single(_) => ListType::NotAList,
            ParseValuesResult::SpaceSeparated(_) => ListType::SpaceSeparated,
            ParseValuesResult::CommaSeparated(_) => ListType::CommaSeparated,
        }
    }

    /// Gives the values up, whatever separated them.
    pub fn into_values(self) -> (values: Vec<Value>)
        ensures
            values == self.spec_values(),
    {
        match self {
            ParseValuesResult::Single(values) => values,
            ParseValuesResult::SpaceSeparated(values) => values,
            ParseValuesResult::CommaSeparated(values) => values,
        }
    }
}

/// The mathematical value of an outcome of the validators: the index into
/// the values as an integer.
pub open spec fn as_position(outcome: Result<usize, ParseErrorKind>) -> Result<int, ParseErrorKind> {
    match outcome {
        Ok(next) => Ok(next as int),
        Err(kind) => Err(kind),
    }
}

/// Whether values can be checked against the data type.
pub fn data_type_is_implemented(data_type: DataType) -> (yes: bool)
    ensures
        yes == is_implemented(data_type),
{
    match data_type {
        DataType::Time | DataType::Resolution | DataType::TransformFunction
        | DataType::CustomIdent => false,
        _ => true,
    }
}

/// Whether `value` is of the data type.
pub fn value_matches_datatype(data_type: DataType, value: &Value) -> (yes: bool)
    ensures
        yes == value_has_type(data_type, value.deep_view()),
{
    match data_type {
        DataType::Length => match &value.data {
            ValueData::Dimension(dimension) => dimension.is_length(),
            _ => false,
        },
        DataType::Number => match &value.data {
            ValueData::Dimension(dimension) => dimension.is_number(),
            _ => false,
        },
        DataType::Percentage => match &value.data {
            ValueData::Dimension(dimension) => dimension.is_percent(),
            _ => false,
        },
        DataType::LengthPercentage => match &value.data {
            ValueData::Dimension(dimension) => dimension.is_length() || dimension.is_percent(),
            _ => false,
        },
        DataType::String => match &value.data {
            ValueData::String(_) => true,
            _ => false,
        },
        DataType::Color => match &value.data {
            ValueData::Color(_) => true,
            _ => false,
        },
        DataType::Angle => match &value.data {
            ValueData::Dimension(dimension) => dimension.is_angle(),
            _ => false,
        },
        DataType::Integer => match &value.data {
            ValueData::Integer(_) => true,
            _ => false,
        },
        DataType::Url => match &value.data {
            ValueData::Url(_) => true,
            _ => false,
        },
        _ => false,
    }
}

/// Checks that the value at `at` is of the data type.
pub fn validate_datatype(data_type: DataType, values: &Vec<Value>, at: usize) -> (outcome: Result<
    usize,
    ParseErrorKind,
>)
    ensures
        as_position(outcome) == checked_datatype(data_type, values.deep_view(), at as int),
{
    if at >= values.len() {
        Err(ParseErrorKind::PropertyValueDoesNotMatchSyntax)
    } else if !data_type_is_implemented(data_type) {
        Err(ParseErrorKind::Unimplemented)
    } else if value_matches_datatype(data_type, &values[at]) {
        Ok(at + 1)
    } else {
        Err(ParseErrorKind::PropertyValueDoesNotMatchSyntax)
    }
}

/// Checks that the value at `at` is the keyword.
pub fn validate_keyword(keyword: &String, values: &Vec<Value>, at: usize) -> (outcome: Result<
    usize,
    ParseErrorKind,
>)
    ensures
        as_position(outcome) == checked_keyword(keyword@, values.deep_view(), at as int),
{
    if at >= values.len() {
        return Err(ParseErrorKind::PropertyValueDoesNotMatchSyntax);
    }
    match &values[at].data {
        ValueData::String(text) => {
            if *text == *keyword {
                Ok(at + 1)
            } else {
                Err(ParseErrorKind::PropertyValueDoesNotMatchSyntax)
            }
        },
        _ => Err(ParseErrorKind::PropertyValueDoesNotMatchSyntax),
    }
}

/// Takes values of the data type from `at` on while they fit, up to `maximum`
/// of them, and checks that there are at least `minimum`.
pub fn validate_list(
    data_type: DataType,
    values: &Vec<Value>,
    at: usize,
    minimum: usize,
    maximum: usize,
) -> (outcome: Result<usize, ParseErrorKind>)
    ensures
        as_position(outcome) == checked_list(
            data_type,
            values.deep_view(),
            at as int,
            minimum as int,
            maximum as int,
        ),
{
    if at < values.len() && !data_type_is_implemented(data_type) {
        return Err(ParseErrorKind::Unimplemented);
    }
    let mut count: usize = 0;
    let mut next: usize = at;
    while next < values.len() && count < maximum && value_matches_datatype(
        data_type,
        &values[next],
    )
        invariant
            at <= next,
            next == at + count,
            count <= maximum,
            matching_run(data_type, values.deep_view(), at as int, maximum as int) == count
                + matching_run(
                data_type,
                values.deep_view(),
                next as int,
                maximum as int - count as int,
            ),
        decreases values.len() - next,
    {
        count += 1;
        next += 1;
    }
    if count < minimum {
        Err(ParseErrorKind::PropertyValueDoesNotMatchSyntax)
    } else {
        Ok(next)
    }
}

/// Checks the values at `at` against a component.
pub fn validate_component(
    component: &SyntaxComponent,
    values: &Vec<Value>,
    at: usize,
    list_type: ListType,
) -> (outcome: Result<usize, ParseErrorKind>)
    ensures
        as_position(outcome) == checked_component(
            component.deep_view(),
            values.deep_view(),
            at as int,
            list_type,
        ),
{
    match component {
        SyntaxComponent::DataType(data_type) => validate_datatype(*data_type, values, at),
        SyntaxComponent::Keyword(keyword) => validate_keyword(keyword, values, at),
        SyntaxComponent::Comma => Ok(at),
        SyntaxComponent::SpaceSeparatedList(data_type) => {
            match list_type {
                ListType::CommaSeparated => Err(ParseErrorKind::PropertyValueDoesNotMatchSyntax),
                _ => validate_list(*data_type, values, at, 0, usize::MAX),
            }
        },
        SyntaxComponent::CommaSeparatedList(data_type) => {
            match list_type {
                ListType::SpaceSeparated => Err(ParseErrorKind::PropertyValueDoesNotMatchSyntax),
                _ => validate_list(*data_type, values, at, 0, usize::MAX),
            }
        },
        SyntaxComponent::Repeat { data_type, minimum, maximum } => {
            match list_type {
                ListType::CommaSeparated => Err(ParseErrorKind::PropertyValueDoesNotMatchSyntax),
                _ => validate_list(*data_type, values, at, *minimum, *maximum),
            }
        },
    }
}

/// Checks the values at `at` against a group.
pub fn validate_group(group: &SyntaxGroup, values: &Vec<Value>, at: usize, list_type: ListType) -> (outcome:
    Result<usize, ParseErrorKind>)
    ensures
        as_position(outcome) == checked_group(
            group.deep_view(),
            values.deep_view(),
            at as int,
            list_type,
        ),
    decreases group, 0nat,
{
    match group {
        SyntaxGroup::Component(component) => validate_component(component, values, at, list_type),
        SyntaxGroup::Expression(steps) => {
            proof {
                lemma_group_expression_view(*steps);
            }
            validate_expression(steps, values, at, list_type)
        },
    }
}

/// Checks the values at `at` against one step of an expression.
pub fn validate_alternatives(
    alternatives: &SyntaxAlternatives,
    values: &Vec<Value>,
    at: usize,
    list_type: ListType,
) -> (outcome: Result<usize, ParseErrorKind>)
    ensures
        as_position(outcome) == checked_alternatives(
            alternatives.deep_view(),
            values.deep_view(),
            at as int,
            list_type,
        ),
    decreases alternatives, 0nat,
{
    match alternatives {
        SyntaxAlternatives::Component(component) => validate_component(
            component,
            values,
            at,
            list_type,
        ),
        SyntaxAlternatives::Group(group) => validate_group(group, values, at, list_type),
        SyntaxAlternatives::Alternatives(groups) => {
            proof {
                lemma_alternatives_list_view(*groups);
            }
            let mut from: usize = 0;
            while from < groups.len()
                invariant
                    from <= groups.len(),
                    decreases_to!(alternatives => groups),
                    alternatives.deep_view() == SyntaxAlternativesView::Alternatives(
                        groups.deep_view(),
                    ),
                    checked_choice(groups.deep_view(), 0, values.deep_view(), at as int, list_type)
                        == checked_choice(
                        groups.deep_view(),
                        from as int,
                        values.deep_view(),
                        at as int,
                        list_type,
                    ),
                decreases groups.len() - from,
            {
                assert(decreases_to!(groups => groups[from as int]));
                match validate_group(&groups[from], values, at, list_type) {
                    Ok(next) => {
                        return Ok(next);
                    },
                    Err(_) => {},
                }
                from += 1;
            }
            Err(ParseErrorKind::PropertyValueDoesNotMatchSyntax)
        },
    }
}

/// Checks the values at `at` against the steps of an expression, from left to
/// right.
pub fn validate_expression(
    steps: &Vec<SyntaxAlternatives>,
    values: &Vec<Value>,
    at: usize,
    list_type: ListType,
) -> (outcome: Result<usize, ParseErrorKind>)
    ensures
        as_position(outcome) == checked_expression(
            steps.deep_view(),
            0,
            values.deep_view(),
            at as int,
            list_type,
        ),
    decreases steps, 1nat,
{
    let mut from: usize = 0;
    let mut next: usize = at;
    while from < steps.len() && next < values.len()
        invariant
            from <= steps.len(),
            checked_expression(steps.deep_view(), 0, values.deep_view(), at as int, list_type)
                == checked_expression(
                steps.deep_view(),
                from as int,
                values.deep_view(),
                next as int,
                list_type,
            ),
        decreases steps.len() - from,
    {
        assert(decreases_to!(steps => steps[from as int]));
        match validate_alternatives(&steps[from], values, next, list_type) {
            Ok(after) => {
                next = after;
            },
            Err(kind) => {
                return Err(kind);
            },
        }
        from += 1;
    }
    if from >= steps.len() {
        Ok(next)
    } else {
        Err(ParseErrorKind::PropertyValueDoesNotMatchSyntax)
    }
}

} // verus!

verus! {

/// Checks a list of values against a syntax. The error, if there is one, is
/// placed at `location`.
pub fn validate_syntax(
    syntax: &ParsedPropertySyntax,
    values_result: &ParseValuesResult,
    location: SourceLocation,
) -> (outcome: Result<(), ParseError>)
    ensures
        match outcome {
            Ok(_) => syntax_verdict(
                syntax.deep_view(),
                values_result.spec_values().deep_view(),
                values_result.spec_list_type(),
            ) is None,
            Err(error) => {
                &&& syntax_verdict(
                    syntax.deep_view(),
                    values_result.spec_values().deep_view(),
                    values_result.spec_list_type(),
                ) == Some(error.kind)
                &&& error.location.deep_view() == location.deep_view()
            },
        },
{
    let steps = match syntax {
        ParsedPropertySyntax::Empty => {
            return Ok(());
        },
        ParsedPropertySyntax::Universal => {
            return Ok(());
        },
        ParsedPropertySyntax::Expression(steps) => steps,
    };
    let values = values_result.values();
    match validate_expression(steps, values, 0, values_result.list_type()) {
        Ok(next) => {
            if next == values.len() {
                Ok(())
            } else {
                Err(
                    ParseError::new(
                        ParseErrorKind::PropertyValueDoesNotMatchSyntax,
                        "Received too many values",
                        location,
                    ),
                )
            }
        },
        Err(ParseErrorKind::Unimplemented) => Err(
            ParseError::new(
                ParseErrorKind::Unimplemented,
                "Values of this data type cannot be checked yet",
                location,
            ),
        ),
        Err(kind) => Err(ParseError::new(kind, "The values do not match the syntax", location)),
    }
}

} // verus!
