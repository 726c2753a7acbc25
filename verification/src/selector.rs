//! Selectors: ordered sequences of parts, and how the selector of a nested
//! rule is combined with the selector of the rule around it.

use vstd::prelude::*;
use crate::text::{lemma_deep_view_push, owned};
use crate::value::{Value, ValueView};

verus! {

/// How an attribute selector compares the attribute with its value.
#[derive(Debug, Clone, Copy, PartialEq, Eq, Structural)]
pub enum AttributeOperator {
    /// The part is no attribute selector.
    Unset,
    Exists,
    Equals,
    Includes,
    Prefixed,
    Suffixed,
    Substring,
    DashMatch,
}

/// What a part of a selector is.
#[derive(Debug, Clone, Copy, PartialEq, Eq, Structural)]
pub enum SelectorKind {
    Unknown,
    AnyElement,
    Type,
    Class,
    Id,
    PseudoClass,
    Attribute,
    RelativeParent,
    DocumentRoot,
    DescendantCombinator,
    ChildCombinator,
}

/// What a part of a selector carries.
#[derive(Debug, PartialEq)]
pub enum SelectorValue {
    Empty,
    Value(Value),
    Attribute { name: String, operator: AttributeOperator, value: Value },
}

/// One part of a selector.
#[derive(Debug, PartialEq)]
pub struct SelectorPart {
    pub kind: SelectorKind,
    pub value: SelectorValue,
}

/// An ordered sequence of parts, in the order in which they were written.
#[derive(Debug, PartialEq)]
pub struct Selector {
    pub parts: Vec<SelectorPart>,
}

/// The mathematical value of a [`SelectorValue`].
pub enum SelectorValueView {
    Empty,
    Value(ValueView),
    Attribute { name: Seq<char>, operator: AttributeOperator, value: ValueView },
}

/// The mathematical value of a [`SelectorPart`].
pub struct SelectorPartView {
    pub kind: SelectorKind,
    pub value: SelectorValueView,
}

impl DeepView for SelectorValue {
    type V = SelectorValueView;

    open spec fn deep_view(&self) -> SelectorValueView {
        match *self {
            SelectorValue::Empty => SelectorValueView::Empty,
            SelectorValue::Value(value) => SelectorValueView::Value(value.deep_view()),
            SelectorValue::Attribute { name, operator, value } => SelectorValueView::Attribute {
                name: name@,
                operator,
                value: value.deep_view(),
            },
        }
    }
}

impl DeepView for SelectorPart {
    type V = SelectorPartView;

    open spec fn deep_view(&self) -> SelectorPartView {
        SelectorPartView { kind: self.kind, value: self.value.deep_view() }
    }
}

impl DeepView for Selector {
    type V = Seq<SelectorPartView>;

    open spec fn deep_view(&self) -> Seq<SelectorPartView> {
        self.parts.deep_view()
    }
}

impl Clone for SelectorValue {
    fn clone(&self) -> (copy: SelectorValue)
        ensures
            copy.deep_view() == self.deep_view(),
    {
        match self {
            SelectorValue::Empty => SelectorValue::Empty,
            SelectorValue::Value(value) => SelectorValue::Value(value.clone()),
            SelectorValue::Attribute { name, operator, value } => SelectorValue::Attribute {
                name: name.clone(),
                operator: *operator,
                value: value.clone(),
            },
        }
    }
}

impl Clone for SelectorPart {
    fn clone(&self) -> (copy: SelectorPart)
        ensures
            copy.deep_view() == self.deep_view(),
    {
        SelectorPart { kind: self.kind, value: self.value.clone() }
    }
}

impl Clone for Selector {
    fn clone(&self) -> (copy: Selector)
        ensures
            copy.deep_view() == self.deep_view(),
    {
        Selector::from_parts(self.parts.as_slice())
    }
}

impl SelectorPart {
    /// A part that carries nothing.
    pub fn new_with_empty(kind: SelectorKind) -> (part: SelectorPart)
        ensures
            part.deep_view() == (SelectorPartView { kind, value: SelectorValueView::Empty }),
    {
        SelectorPart { kind, value: SelectorValue::Empty }
    }

    /// A part that carries a value.
    pub fn new_with_value(kind: SelectorKind, value: Value) -> (part: SelectorPart)
        ensures
            part.deep_view() == (SelectorPartView {
                kind,
                value: SelectorValueView::Value(value.deep_view()),
            }),
    {
        SelectorPart { kind, value: SelectorValue::Value(value) }
    }

    /// An attribute part.
    pub fn new_attribute(name: &str, operator: AttributeOperator, value: Value) -> (part:
        SelectorPart)
        ensures
            part.deep_view() == (SelectorPartView {
                kind: SelectorKind::Attribute,
                value: SelectorValueView::Attribute {
                    name: name@,
                    operator,
                    value: value.deep_view(),
                },
            }),
    {
        SelectorPart {
            kind: SelectorKind::Attribute,
            value: SelectorValue::Attribute { name: owned(name), operator, value },
        }
    }
}

/// Whether a part marks the place of the selector of the rule around it.
pub open spec fn is_relative_parent(part: SelectorPartView) -> bool {
    part.kind == SelectorKind::RelativeParent
}

/// Whether any part marks the place of the selector of the rule around it.
pub open spec fn has_relative_parent(parts: Seq<SelectorPartView>) -> bool {
    exists|i: int| 0 <= i < parts.len() && is_relative_parent(#[trigger] parts[i])
}

/// `child` with `parent` put in the place of each relative-parent marker.
pub open spec fn substitute_parent(
    child: Seq<SelectorPartView>,
    parent: Seq<SelectorPartView>,
) -> Seq<SelectorPartView>
    decreases child.len(),
{
    if child.len() == 0 {
        Seq::empty()
    } else if is_relative_parent(child.last()) {
        substitute_parent(child.drop_last(), parent) + parent
    } else {
        substitute_parent(child.drop_last(), parent).push(child.last())
    }
}

/// The selector of a nested rule: an empty `child` gives `parent`; a `child`
/// with relative-parent markers has `parent` put in the place of each; any
/// other `child` is followed by `parent`.
pub open spec fn combined(
    child: Seq<SelectorPartView>,
    parent: Seq<SelectorPartView>,
) -> Seq<SelectorPartView> {
    if child.len() == 0 {
        parent
    } else if has_relative_parent(child) {
        substitute_parent(child, parent)
    } else {
        child + parent
    }
}

/// Substitution puts nothing but `parent` in: if `parent` holds no marker,
/// the result holds none.
pub proof fn lemma_substitute_removes_markers(
    child: Seq<SelectorPartView>,
    parent: Seq<SelectorPartView>,
)
    requires
        !has_relative_parent(parent),
    ensures
        !has_relative_parent(substitute_parent(child, parent)),
    decreases child.len(),
{
    if child.len() > 0 {
        lemma_substitute_removes_markers(child.drop_last(), parent);
        let before = substitute_parent(child.drop_last(), parent);
        let after = substitute_parent(child, parent);
        assert forall|i: int| 0 <= i < after.len() implies !is_relative_parent(
            #[trigger] after[i],
        ) by {
            if i < before.len() {
                assert(after[i] == before[i]);
            } else if is_relative_parent(child.last()) {
                assert(after[i] == parent[i - before.len()]);
            }
        }
    }
}

/// The selector of a nested rule holds no relative-parent marker when the
/// selector of the rule around it holds none, whatever the nested rule's own
/// selector is.
pub proof fn lemma_combined_has_no_relative_parent(
    child: Seq<SelectorPartView>,
    parent: Seq<SelectorPartView>,
)
    requires
        !has_relative_parent(parent),
    ensures
        !has_relative_parent(combined(child, parent)),
{
    if child.len() == 0 {
    } else if has_relative_parent(child) {
        lemma_substitute_removes_markers(child, parent);
    } else {
        let joined = child + parent;
        assert forall|i: int| 0 <= i < joined.len() implies !is_relative_parent(
            #[trigger] joined[i],
        ) by {
            if i < child.len() {
                assert(joined[i] == child[i]);
            } else {
                assert(joined[i] == parent[i - child.len()]);
            }
        }
    }
}

impl Selector {
    /// The selector without parts.
    pub fn new() -> (selector: Selector)
        ensures
            selector.deep_view() == Seq::<SelectorPartView>::empty(),
    {
        let selector = Selector { parts: Vec::new() };
        assert(selector.deep_view() =~= Seq::<SelectorPartView>::empty());
        selector
    }

    /// The selector that holds copies of `parts`, in their order.
    pub fn from_parts(parts: &[SelectorPart]) -> (selector: Selector)
        ensures
            selector.deep_view() == parts.deep_view(),
    {
        let mut copy: Vec<SelectorPart> = Vec::new();
        let mut i: usize = 0;
        while i < parts.len()
            invariant
                i <= parts.len(),
                copy.len() == i,
                forall|k: int| 0 <= k < i ==> copy[k].deep_view() == parts[k].deep_view(),
            decreases parts.len() - i,
        {
            copy.push(parts[i].clone());
            i += 1;
        }
        assert(copy.deep_view() =~= parts.deep_view());
        Selector { parts: copy }
    }

    /// Adds a part that carries nothing.
    pub fn push_with_empty(&mut self, kind: SelectorKind)
        ensures
            final(self).deep_view() == old(self).deep_view().push(
                SelectorPartView { kind, value: SelectorValueView::Empty },
            ),
    {
        let part = SelectorPart::new_with_empty(kind);
        self.parts.push(part);
        assert(self.parts.deep_view() =~= old(self).parts.deep_view().push(part.deep_view()));
    }

    /// Adds a part that carries a value.
    pub fn push_with_value(&mut self, kind: SelectorKind, value: Value)
        ensures
            final(self).deep_view() == old(self).deep_view().push(
                SelectorPartView { kind, value: SelectorValueView::Value(value.deep_view()) },
            ),
    {
        let part = SelectorPart::new_with_value(kind, value);
        self.parts.push(part);
        assert(self.parts.deep_view() =~= old(self).parts.deep_view().push(part.deep_view()));
    }

    /// Whether the selector holds a relative-parent marker.
    pub fn has_relative_parent(&self) -> (found: bool)
        ensures
            found == has_relative_parent(self.deep_view()),
    {
        let mut i: usize = 0;
        while i < self.parts.len()
            invariant
                i <= self.parts.len(),
                forall|k: int| 0 <= k < i ==> !is_relative_parent(#[trigger] self.deep_view()[k]),
            decreases self.parts.len() - i,
        {
            match self.parts[i].kind {
                SelectorKind::RelativeParent => {
                    assert(is_relative_parent(self.deep_view()[i as int]));
                    return true;
                },
                _ => {},
            }
            i += 1;
        }
        false
    }

    /// The selector of a nested rule whose own selector is `first`, inside a
    /// rule whose selector is `second`.
    pub fn combine(first: &Selector, second: &Selector) -> (selector: Selector)
        ensures
            selector.deep_view() == combined(first.deep_view(), second.deep_view()),
    {
        if first.parts.len() == 0 {
            return second.clone();
        }
        let substitute = first.has_relative_parent();
        let mut parts: Vec<SelectorPart> = Vec::new();
        let mut i: usize = 0;
        while i < first.parts.len()
            invariant
                i <= first.parts.len(),
                substitute ==> parts.deep_view() == substitute_parent(
                    first.deep_view().take(i as int),
                    second.deep_view(),
                ),
                !substitute ==> parts.deep_view() == first.deep_view().take(i as int),
            decreases first.parts.len() - i,
        {
            let ghost before = parts.deep_view();
            let ghost prefix = first.deep_view().take(i as int + 1);
            proof {
                assert(prefix.drop_last() =~= first.deep_view().take(i as int));
                assert(prefix.last() == first.deep_view()[i as int]);
            }
            let marker = match first.parts[i].kind {
                SelectorKind::RelativeParent => true,
                _ => false,
            };
            if substitute && marker {
                let mut k: usize = 0;
                while k < second.parts.len()
                    invariant
                        k <= second.parts.len(),
                        parts.deep_view() == before + second.deep_view().take(k as int),
                    decreases second.parts.len() - k,
                {
                    let part = second.parts[k].clone();
                    let ghost earlier = parts;
                    parts.push(part);
                    proof {
                        lemma_deep_view_push(earlier, parts, part);
                        assert(second.deep_view().take(k as int + 1) =~= second.deep_view().take(
                            k as int,
                        ).push(second.deep_view()[k as int]));
                    }
                    assert(parts.deep_view() =~= before + second.deep_view().take(k as int + 1));
                    k += 1;
                }
                assert(second.deep_view().take(second.parts.len() as int) =~= second.deep_view());
            } else {
                let part = first.parts[i].clone();
                parts.push(part);
                assert(parts.deep_view() =~= before.push(first.deep_view()[i as int]));
                proof {
                    if !substitute {
                        assert(before.push(first.deep_view()[i as int]) =~= prefix);
                    }
                }
            }
            i += 1;
        }
        assert(first.deep_view().take(first.parts.len() as int) =~= first.deep_view());
        if !substitute {
            let mut k: usize = 0;
            while k < second.parts.len()
                invariant
                    k <= second.parts.len(),
                    parts.deep_view() == first.deep_view() + second.deep_view().take(k as int),
                decreases second.parts.len() - k,
            {
                let part = second.parts[k].clone();
                let ghost earlier = parts;
                parts.push(part);
                proof {
                    lemma_deep_view_push(earlier, parts, part);
                    assert(second.deep_view().take(k as int + 1) =~= second.deep_view().take(
                        k as int,
                    ).push(second.deep_view()[k as int]));
                }
                assert(parts.deep_view() =~= first.deep_view() + second.deep_view().take(
                    k as int + 1,
                ));
                k += 1;
            }
            assert(second.deep_view().take(second.parts.len() as int) =~= second.deep_view());
        }
        Selector { parts }
    }
}

} // verus!

verus! {

impl SelectorPartView {
    /// The value that the part carries; the empty value where it carries
    /// none.
    pub open spec fn carried(self) -> ValueView {
        match self.value {
            SelectorValueView::Value(value) => value,
            _ => ValueView::Empty,
        }
    }

    /// The name of the attribute; the empty text where the part is no
    /// attribute.
    pub open spec fn attribute_name(self) -> Seq<char> {
        match self.value {
            SelectorValueView::Attribute { name, .. } => name,
            _ => Seq::empty(),
        }
    }

    /// How the attribute is compared; `Unset` where the part is no
    /// attribute.
    pub open spec fn attribute_operator(self) -> AttributeOperator {
        match self.value {
            SelectorValueView::Attribute { operator, .. } => operator,
            _ => AttributeOperator::Unset,
        }
    }

    /// The value that the attribute is compared with; the empty value where
    /// the part is no attribute.
    pub open spec fn attribute_value(self) -> ValueView {
        match self.value {
            SelectorValueView::Attribute { value, .. } => value,
            _ => ValueView::Empty,
        }
    }
}

impl SelectorPart {
    /// What the part is.
    pub fn kind(&self) -> (kind: SelectorKind)
        ensures
            kind == self.kind,
    {
        self.kind
    }

    /// The value that the part carries; the empty value where it carries
    /// none.
    pub fn value(&self) -> (value: &Value)
        ensures
            value.deep_view() == self.deep_view().carried(),
    {
        match &self.value {
            SelectorValue::Value(value) => value,
            _ => Value::empty_ref(),
        }
    }

    /// The name of the attribute; the empty text where the part is no
    /// attribute.
    pub fn attribute_name(&self) -> (name: String)
        ensures
            name@ == self.deep_view().attribute_name(),
    {
        match &self.value {
            SelectorValue::Attribute { name, .. } => name.clone(),
            _ => String::new(),
        }
    }

    /// How the attribute is compared; `Unset` where the part is no
    /// attribute.
    pub fn attribute_operator(&self) -> (operator: AttributeOperator)
        ensures
            operator == self.deep_view().attribute_operator(),
    {
        match &self.value {
            SelectorValue::Attribute { operator, .. } => *operator,
            _ => AttributeOperator::Unset,
        }
    }

    /// The value that the attribute is compared with; the empty value where
    /// the part is no attribute.
    pub fn attribute_value(&self) -> (value: &Value)
        ensures
            value.deep_view() == self.deep_view().attribute_value(),
    {
        match &self.value {
            SelectorValue::Attribute { value, .. } => value,
            _ => Value::empty_ref(),
        }
    }
}

impl Selector {
    /// A copy of the parts.
    pub fn parts(&self) -> (parts: Vec<SelectorPart>)
        ensures
            parts.deep_view() == self.deep_view(),
    {
        self.clone().parts
    }
}

} // verus!
