//! From the components that a selector library yields to selectors in the
//! order in which they were written.
//!
//! The selector library hands out the components of a selector from left to
//! right, but inside a compound selector, between two combinators, from right
//! to left. A selector of this library holds its parts from left to right
//! throughout.

use vstd::prelude::*;
use crate::selector::{
    AttributeOperator, Selector, SelectorKind, SelectorPart, SelectorPartView, SelectorValueView,
};
use crate::text::lemma_deep_view_push;
use crate::value::{Value, ValueView};

verus! {

/// Whether a selector is read as the selector of a nested rule.
#[derive(Debug, Clone, Copy, PartialEq, Eq, Structural)]
pub enum ParseRelative {
    No,
    Nested,
}

/// One component of a selector, as the selector library yields it.
#[derive(Debug, PartialEq, Eq)]
pub enum SelectorComponent {
    LocalName(String),
    Id(String),
    Class(String),
    PseudoClass(String),
    ParentSelector,
    Root,
    ExplicitUniversalType,
    AttributeExists { name: String },
    Attribute { name: String, operator: AttributeOperator, value: String },
    DescendantCombinator,
    ChildCombinator,
    /// A combinator that this library has no part for.
    OtherCombinator,
    /// A component that this library has no part for.
    Other,
}

/// The mathematical value of a [`SelectorComponent`].
pub enum SelectorComponentView {
    LocalName(Seq<char>),
    Id(Seq<char>),
    Class(Seq<char>),
    PseudoClass(Seq<char>),
    ParentSelector,
    Root,
    ExplicitUniversalType,
    AttributeExists { name: Seq<char> },
    Attribute { name: Seq<char>, operator: AttributeOperator, value: Seq<char> },
    DescendantCombinator,
    ChildCombinator,
    OtherCombinator,
    Other,
}

impl DeepView for SelectorComponent {
    type V = SelectorComponentView;

    open spec fn deep_view(&self) -> SelectorComponentView {
        match *self {
            SelectorComponent::LocalName(name) => SelectorComponentView::LocalName(name@),
            SelectorComponent::Id(name) => SelectorComponentView::Id(name@),
            SelectorComponent::Class(name) => SelectorComponentView::Class(name@),
            SelectorComponent::PseudoClass(name) => SelectorComponentView::PseudoClass(name@),
            SelectorComponent::ParentSelector => SelectorComponentView::ParentSelector,
            SelectorComponent::Root => SelectorComponentView::Root,
            SelectorComponent::ExplicitUniversalType => SelectorComponentView::ExplicitUniversalType,
            SelectorComponent::AttributeExists { name } => SelectorComponentView::AttributeExists {
                name: name@,
            },
            SelectorComponent::Attribute { name, operator, value } => SelectorComponentView::Attribute {
                name: name@,
                operator,
                value: value@,
            },
            SelectorComponent::DescendantCombinator => SelectorComponentView::DescendantCombinator,
            SelectorComponent::ChildCombinator => SelectorComponentView::ChildCombinator,
            SelectorComponent::OtherCombinator => SelectorComponentView::OtherCombinator,
            SelectorComponent::Other => SelectorComponentView::Other,
        }
    }
}

impl Clone for SelectorComponent {
    fn clone(&self) -> (copy: SelectorComponent)
        ensures
            copy.deep_view() == self.deep_view(),
    {
        match self {
            SelectorComponent::LocalName(name) => SelectorComponent::LocalName(name.clone()),
            SelectorComponent::Id(name) => SelectorComponent::Id(name.clone()),
            SelectorComponent::Class(name) => SelectorComponent::Class(name.clone()),
            SelectorComponent::PseudoClass(name) => SelectorComponent::PseudoClass(name.clone()),
            SelectorComponent::ParentSelector => SelectorComponent::ParentSelector,
            SelectorComponent::Root => SelectorComponent::Root,
            SelectorComponent::ExplicitUniversalType => SelectorComponent::ExplicitUniversalType,
            SelectorComponent::AttributeExists { name } => SelectorComponent::AttributeExists {
                name: name.clone(),
            },
            SelectorComponent::Attribute { name, operator, value } => SelectorComponent::Attribute {
                name: name.clone(),
                operator: *operator,
                value: value.clone(),
            },
            SelectorComponent::DescendantCombinator => SelectorComponent::DescendantCombinator,
            SelectorComponent::ChildCombinator => SelectorComponent::ChildCombinator,
            SelectorComponent::OtherCombinator => SelectorComponent::OtherCombinator,
            SelectorComponent::Other => SelectorComponent::Other,
        }
    }
}

/// Whether the component stands between two compound selectors.
pub open spec fn is_combinator(component: SelectorComponentView) -> bool {
    component is DescendantCombinator || component is ChildCombinator
        || component is OtherCombinator
}

/// A part that carries a text.
pub open spec fn text_part(kind: SelectorKind, text: Seq<char>) -> SelectorPartView {
    SelectorPartView { kind, value: SelectorValueView::Value(ValueView::String(text)) }
}

/// A part that carries nothing.
pub open spec fn bare_part(kind: SelectorKind) -> SelectorPartView {
    SelectorPartView { kind, value: SelectorValueView::Empty }
}

/// The part that a component becomes; `None` for a component that this
/// library has no part for.
pub open spec fn part_of(component: SelectorComponentView) -> Option<SelectorPartView> {
    match component {
        SelectorComponentView::LocalName(name) => Some(text_part(SelectorKind::Type, name)),
        SelectorComponentView::Id(name) => Some(text_part(SelectorKind::Id, name)),
        SelectorComponentView::Class(name) => Some(text_part(SelectorKind::Class, name)),
        SelectorComponentView::PseudoClass(name) => Some(
            text_part(SelectorKind::PseudoClass, name),
        ),
        SelectorComponentView::ParentSelector => Some(bare_part(SelectorKind::RelativeParent)),
        SelectorComponentView::Root => Some(bare_part(SelectorKind::DocumentRoot)),
        SelectorComponentView::ExplicitUniversalType => Some(bare_part(SelectorKind::AnyElement)),
        SelectorComponentView::AttributeExists { name } => Some(
            SelectorPartView {
                kind: SelectorKind::Attribute,
                value: SelectorValueView::Attribute {
                    name,
                    operator: AttributeOperator::Exists,
                    value: ValueView::Empty,
                },
            },
        ),
        SelectorComponentView::Attribute { name, operator, value } => Some(
            SelectorPartView {
                kind: SelectorKind::Attribute,
                value: SelectorValueView::Attribute {
                    name,
                    operator,
                    value: ValueView::String(value),
                },
            },
        ),
        SelectorComponentView::DescendantCombinator => Some(
            bare_part(SelectorKind::DescendantCombinator),
        ),
        SelectorComponentView::ChildCombinator => Some(bare_part(SelectorKind::ChildCombinator)),
        SelectorComponentView::OtherCombinator => None,
        SelectorComponentView::Other => None,
    }
}

/// The parts of the compound selector that the last of the components
/// belongs to, from left to right: the parts of the components after the
/// last combinator, last component first.
pub open spec fn pending_parts(components: Seq<SelectorComponentView>) -> Seq<SelectorPartView>
    decreases components.len(),
{
    if components.len() == 0 || is_combinator(components.last()) {
        Seq::empty()
    } else {
        match part_of(components.last()) {
            Some(part) => seq![part] + pending_parts(components.drop_last()),
            None => pending_parts(components.drop_last()),
        }
    }
}

/// The parts of everything up to and with the last combinator among the
/// components, from left to right.
pub open spec fn settled_parts(components: Seq<SelectorComponentView>) -> Seq<SelectorPartView>
    decreases components.len(),
{
    if components.len() == 0 {
        Seq::empty()
    } else if is_combinator(components.last()) {
        let before = settled_parts(components.drop_last()) + pending_parts(components.drop_last());
        match part_of(components.last()) {
            Some(part) => before.push(part),
            None => before,
        }
    } else {
        settled_parts(components.drop_last())
    }
}

/// The parts of a selector from left to right, from its components as the
/// selector library yields them.
pub open spec fn normalized(components: Seq<SelectorComponentView>) -> Seq<SelectorPartView> {
    settled_parts(components) + pending_parts(components)
}

/// The part of a component as a sequence: no part for a component that this
/// library has no part for.
pub open spec fn parts_of(component: SelectorComponentView) -> Seq<SelectorPartView> {
    match part_of(component) {
        Some(part) => seq![part],
        None => Seq::empty(),
    }
}

/// The components of a compound selector come out in the reverse of the
/// order in which the selector library yields them: where none of the
/// components is a combinator and each has a part, the part at a place is the
/// part of the component at the same place from the end.
pub proof fn lemma_compound_is_reversed(components: Seq<SelectorComponentView>)
    requires
        forall|i: int|
            0 <= i < components.len() ==> !is_combinator(#[trigger] components[i]) && part_of(
                components[i],
            ) is Some,
    ensures
        normalized(components).len() == components.len(),
        forall|i: int|
            0 <= i < components.len() ==> Some(#[trigger] normalized(components)[i]) == part_of(
                components[components.len() - 1 - i],
            ),
    decreases components.len(),
{
    if components.len() > 0 {
        let rest = components.drop_last();
        assert forall|i: int| 0 <= i < rest.len() implies !is_combinator(#[trigger] rest[i])
            && part_of(rest[i]) is Some by {
            assert(rest[i] == components[i]);
        }
        lemma_compound_is_reversed(rest);
        lemma_compound_settles_nothing(components);
        lemma_compound_settles_nothing(rest);
        let part = part_of(components.last())->0;
        assert(pending_parts(components) == seq![part] + pending_parts(rest));
        assert(normalized(components) =~= seq![part] + normalized(rest));
        assert forall|i: int| 0 <= i < components.len() implies Some(
            #[trigger] normalized(components)[i],
        ) == part_of(components[components.len() - 1 - i]) by {
            if i > 0 {
                assert(normalized(components)[i] == normalized(rest)[i - 1]);
                assert(rest[rest.len() - 1 - (i - 1)] == components[components.len() - 1 - i]);
            }
        }
    }
}

/// Where none of the components is a combinator, no part is settled.
pub proof fn lemma_compound_settles_nothing(components: Seq<SelectorComponentView>)
    requires
        forall|i: int| 0 <= i < components.len() ==> !is_combinator(#[trigger] components[i]),
    ensures
        settled_parts(components) == Seq::<SelectorPartView>::empty(),
    decreases components.len(),
{
    if components.len() > 0 {
        let rest = components.drop_last();
        assert forall|i: int| 0 <= i < rest.len() implies !is_combinator(#[trigger] rest[i]) by {
            assert(rest[i] == components[i]);
        }
        lemma_compound_settles_nothing(rest);
    }
}

/// A combinator parts what stands before it from what stands after it: the
/// parts of the components before it, then its own part, then the parts of
/// the components after it.
pub proof fn lemma_combinator_keeps_sides_apart(
    before: Seq<SelectorComponentView>,
    combinator: SelectorComponentView,
    after: Seq<SelectorComponentView>,
)
    requires
        is_combinator(combinator),
    ensures
        settled_parts(before.push(combinator) + after) == normalized(before) + parts_of(
            combinator,
        ) + settled_parts(after),
        pending_parts(before.push(combinator) + after) == pending_parts(after),
        normalized(before.push(combinator) + after) == normalized(before) + parts_of(combinator)
            + normalized(after),
    decreases after.len(),
{
    let head = before.push(combinator);
    let all = head + after;
    let left = normalized(before) + parts_of(combinator);
    assert(head.drop_last() =~= before);
    assert(settled_parts(head) =~= left);
    if after.len() == 0 {
        assert(all =~= head);
        assert(left + settled_parts(after) =~= left);
    } else {
        let rest = after.drop_last();
        assert(all.drop_last() =~= head + rest);
        assert(all.last() == after.last());
        lemma_combinator_keeps_sides_apart(before, combinator, rest);
        if is_combinator(after.last()) {
            assert(settled_parts(all) =~= left + settled_parts(after));
        }
    }
    assert(normalized(all) =~= left + normalized(after));
}

/// Whether one of the components stands for the selector of the rule around.
pub open spec fn names_parent(components: Seq<SelectorComponentView>) -> bool {
    exists|i: int| 0 <= i < components.len() && (#[trigger] components[i]) is ParentSelector
}

/// The parts of a selector from left to right, read as `relative` says. The
/// selector of a nested rule that does not name the selector of the rule
/// around it stands under that selector: it gets a relative-parent marker and
/// a descendant combinator at its head.
pub open spec fn normalized_as(
    components: Seq<SelectorComponentView>,
    relative: ParseRelative,
) -> Seq<SelectorPartView> {
    if relative == ParseRelative::Nested && !names_parent(components) {
        seq![
            bare_part(SelectorKind::RelativeParent),
            bare_part(SelectorKind::DescendantCombinator),
        ] + normalized(components)
    } else {
        normalized(components)
    }
}

/// The selectors of a list, each from left to right.
pub open spec fn normalized_list(
    list: Seq<Seq<SelectorComponentView>>,
    relative: ParseRelative,
) -> Seq<Seq<SelectorPartView>> {
    Seq::new(list.len(), |i: int| normalized_as(list[i], relative))
}

/// The part that a component becomes.
pub fn component_part(component: &SelectorComponent) -> (part: Option<SelectorPart>)
    ensures
        part.deep_view() == part_of(component.deep_view()),
{
    match component {
        SelectorComponent::LocalName(name) => Some(
            SelectorPart::new_with_value(SelectorKind::Type, Value::from(name.as_str())),
        ),
        SelectorComponent::Id(name) => Some(
            SelectorPart::new_with_value(SelectorKind::Id, Value::from(name.as_str())),
        ),
        SelectorComponent::Class(name) => Some(
            SelectorPart::new_with_value(SelectorKind::Class, Value::from(name.as_str())),
        ),
        SelectorComponent::PseudoClass(name) => Some(
            SelectorPart::new_with_value(SelectorKind::PseudoClass, Value::from(name.as_str())),
        ),
        SelectorComponent::ParentSelector => Some(
            SelectorPart::new_with_empty(SelectorKind::RelativeParent),
        ),
        SelectorComponent::Root => Some(SelectorPart::new_with_empty(SelectorKind::DocumentRoot)),
        SelectorComponent::ExplicitUniversalType => Some(
            SelectorPart::new_with_empty(SelectorKind::AnyElement),
        ),
        SelectorComponent::AttributeExists { name } => Some(
            SelectorPart::new_attribute(name.as_str(), AttributeOperator::Exists, Value::empty()),
        ),
        SelectorComponent::Attribute { name, operator, value } => Some(
            SelectorPart::new_attribute(name.as_str(), *operator, Value::from(value.as_str())),
        ),
        SelectorComponent::DescendantCombinator => Some(
            SelectorPart::new_with_empty(SelectorKind::DescendantCombinator),
        ),
        SelectorComponent::ChildCombinator => Some(
            SelectorPart::new_with_empty(SelectorKind::ChildCombinator),
        ),
        SelectorComponent::OtherCombinator => None,
        SelectorComponent::Other => None,
    }
}

/// Whether the component stands between two compound selectors.
pub fn component_is_combinator(component: &SelectorComponent) -> (yes: bool)
    ensures
        yes == is_combinator(component.deep_view()),
{
    match component {
        SelectorComponent::DescendantCombinator => true,
        SelectorComponent::ChildCombinator => true,
        SelectorComponent::OtherCombinator => true,
        _ => false,
    }
}

/// The reader of selectors.
#[derive(Debug, Clone, Copy, PartialEq, Eq)]
pub struct SelectorParser;

impl SelectorParser {
    /// The selector that the components of one selector write, with its
    /// parts from left to right.
    pub fn selector(&self, components: &Vec<SelectorComponent>) -> (selector: Selector)
        ensures
            selector.deep_view() == normalized(components.deep_view()),
    {
        let mut settled: Vec<SelectorPart> = Vec::new();
        let mut pending: Vec<SelectorPart> = Vec::new();
        let mut i: usize = 0;
        proof {
            assert(components.deep_view().take(0) =~= Seq::empty());
            assert(settled.deep_view() =~= Seq::empty());
            assert(pending.deep_view() =~= Seq::empty());
        }
        while i < components.len()
            invariant
                i <= components.len(),
                settled.deep_view() == settled_parts(components.deep_view().take(i as int)),
                pending.deep_view() == pending_parts(components.deep_view().take(i as int)),
            decreases components.len() - i,
        {
            let ghost seen = components.deep_view().take(i as int);
            let ghost longer = components.deep_view().take(i as int + 1);
            proof {
                assert(longer.drop_last() =~= seen);
                assert(longer.last() == components[i as int].deep_view());
            }
            let part = component_part(&components[i]);
            if component_is_combinator(&components[i]) {
                let ghost first = settled.deep_view();
                let ghost second = pending.deep_view();
                settled.append(&mut pending);
                proof {
                    assert(settled.deep_view() =~= first + second);
                    assert(pending.deep_view() =~= Seq::empty());
                }
                match part {
                    Some(part) => {
                        let ghost before = settled;
                        settled.push(part);
                        proof {
                            lemma_deep_view_push(before, settled, part);
                        }
                    },
                    None => {},
                }
            } else {
                match part {
                    Some(part) => {
                        let ghost before = pending.deep_view();
                        pending.insert(0, part);
                        proof {
                            assert(pending.deep_view() =~= seq![part.deep_view()] + before);
                        }
                    },
                    None => {},
                }
            }
            i += 1;
        }
        proof {
            assert(components.deep_view().take(components.len() as int) =~= components.deep_view());
        }
        let ghost first = settled.deep_view();
        let ghost second = pending.deep_view();
        settled.append(&mut pending);
        proof {
            assert(settled.deep_view() =~= first + second);
        }
        Selector { parts: settled }
    }

    /// Whether one of the components stands for the selector of the rule
    /// around.
    pub fn names_parent(&self, components: &Vec<SelectorComponent>) -> (found: bool)
        ensures
            found == names_parent(components.deep_view()),
    {
        let mut i: usize = 0;
        while i < components.len()
            invariant
                i <= components.len(),
                forall|k: int|
                    0 <= k < i ==> !((#[trigger] components.deep_view()[k]) is ParentSelector),
            decreases components.len() - i,
        {
            match &components[i] {
                SelectorComponent::ParentSelector => {
                    assert(components.deep_view()[i as int] is ParentSelector);
                    return true;
                },
                _ => {},
            }
            i += 1;
        }
        false
    }

    /// The selector that the components of one selector write, read as
    /// `relative` says.
    pub fn selector_as(&self, components: &Vec<SelectorComponent>, relative: ParseRelative) -> (selector:
        Selector)
        ensures
            selector.deep_view() == normalized_as(components.deep_view(), relative),
    {
        let written = self.selector(components);
        match relative {
            ParseRelative::No => written,
            ParseRelative::Nested => {
                if self.names_parent(components) {
                    written
                } else {
                    let mut parts: Vec<SelectorPart> = Vec::new();
                    parts.push(SelectorPart::new_with_empty(SelectorKind::RelativeParent));
                    parts.push(SelectorPart::new_with_empty(SelectorKind::DescendantCombinator));
                    let ghost head = parts.deep_view();
                    let ghost tail = written.parts.deep_view();
                    let mut written = written;
                    parts.append(&mut written.parts);
                    proof {
                        assert(head =~= seq![
                            bare_part(SelectorKind::RelativeParent),
                            bare_part(SelectorKind::DescendantCombinator),
                        ]);
                        assert(parts.deep_view() =~= head + tail);
                    }
                    Selector { parts }
                }
            },
        }
    }

    /// The selectors that the components of a selector list write, in the
    /// order of the list, read as `relative` says.
    pub fn parse(&self, list: &Vec<Vec<SelectorComponent>>, relative: ParseRelative) -> (selectors:
        Vec<Selector>)
        ensures
            selectors.deep_view() == normalized_list(list.deep_view(), relative),
    {
        let mut selectors: Vec<Selector> = Vec::new();
        let mut i: usize = 0;
        while i < list.len()
            invariant
                i <= list.len(),
                selectors.len() == i,
                forall|k: int|
                    0 <= k < i ==> selectors[k].deep_view() == normalized_as(
                        list[k].deep_view(),
                        relative,
                    ),
            decreases list.len() - i,
        {
            selectors.push(self.selector_as(&list[i], relative));
            i += 1;
        }
        assert(selectors.deep_view() =~= normalized_list(list.deep_view(), relative));
        selectors
    }
}

} // verus!
