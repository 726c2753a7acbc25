//! Style rules, and how a rule with nested rules becomes a flat list of them.

use vstd::prelude::*;
use crate::property::{clone_properties, Property, PropertyView};
use crate::selector::{combined, Selector, SelectorPartView};
use crate::text::lemma_deep_view_push;

verus! {

/// A rule as it was written: the selectors of its prelude, its declarations,
/// and the rules nested in its block.
#[derive(Debug, PartialEq)]
pub struct ParsedRule {
    pub selectors: Vec<Selector>,
    pub properties: Vec<Property>,
    pub nested_rules: Vec<ParsedRule>,
}

/// The mathematical value of a [`ParsedRule`].
pub struct ParsedRuleView {
    pub selectors: Seq<Seq<SelectorPartView>>,
    pub properties: Seq<PropertyView>,
    pub nested_rules: Seq<ParsedRuleView>,
}

pub open spec fn parsed_rule_view(rule: ParsedRule) -> ParsedRuleView
    decreases rule,
{
    ParsedRuleView {
        selectors: rule.selectors.deep_view(),
        properties: rule.properties.deep_view(),
        nested_rules: Seq::new(
            rule.nested_rules.len() as nat,
            |i: int|
                if 0 <= i < rule.nested_rules.len() {
                    parsed_rule_view(rule.nested_rules[i])
                } else {
                    arbitrary()
                },
        ),
    }
}

impl DeepView for ParsedRule {
    type V = ParsedRuleView;

    open spec fn deep_view(&self) -> ParsedRuleView {
        parsed_rule_view(*self)
    }
}

/// The view of a rule holds the views of its nested rules.
pub proof fn lemma_parsed_rule_view(rule: ParsedRule)
    ensures
        rule.deep_view().selectors == rule.selectors.deep_view(),
        rule.deep_view().properties == rule.properties.deep_view(),
        rule.deep_view().nested_rules == rule.nested_rules.deep_view(),
{
    assert(parsed_rule_view(rule).nested_rules =~= rule.nested_rules.deep_view());
}

/// One selector with the declarations that hold for what it selects.
#[derive(Debug, PartialEq)]
pub struct StyleRule {
    pub selector: Selector,
    pub properties: Vec<Property>,
}

/// The mathematical value of a [`StyleRule`].
pub struct StyleRuleView {
    pub selector: Seq<SelectorPartView>,
    pub properties: Seq<PropertyView>,
}

impl DeepView for StyleRule {
    type V = StyleRuleView;

    open spec fn deep_view(&self) -> StyleRuleView {
        StyleRuleView {
            selector: self.selector.deep_view(),
            properties: self.properties.deep_view(),
        }
    }
}

impl Clone for StyleRule {
    fn clone(&self) -> (copy: StyleRule)
        ensures
            copy.deep_view() == self.deep_view(),
    {
        StyleRule { selector: self.selector.clone(), properties: clone_properties(&self.properties) }
    }
}

/// The rules of a nested rule, each with its selector combined with the
/// selector of the rule around it.
pub open spec fn recombined(rules: Seq<StyleRuleView>, parent: Seq<SelectorPartView>) -> Seq<
    StyleRuleView,
> {
    Seq::new(
        rules.len(),
        |k: int|
            StyleRuleView {
                selector: combined(rules[k].selector, parent),
                properties: rules[k].properties,
            },
    )
}

/// The flat rules of the first `count` nested rules under the selector
/// `parent`, in the order of the nested rules.
pub open spec fn nested_expansion(
    nested: Seq<ParsedRuleView>,
    count: int,
    parent: Seq<SelectorPartView>,
) -> Seq<StyleRuleView>
    decreases nested, 0nat, count,
{
    if count <= 0 || count > nested.len() {
        Seq::empty()
    } else {
        nested_expansion(nested, count - 1, parent) + recombined(
            flattened(nested[count - 1]),
            parent,
        )
    }
}

/// The flat rules that one selector of a prelude gives: the rule of the
/// selector itself, then the flat rules of the nested rules. A selector
/// without parts gives nothing where there are no declarations.
pub open spec fn expansion(
    selector: Seq<SelectorPartView>,
    properties: Seq<PropertyView>,
    nested: Seq<ParsedRuleView>,
) -> Seq<StyleRuleView>
    decreases nested, 1nat, 0int,
{
    if selector.len() == 0 && properties.len() == 0 {
        Seq::empty()
    } else {
        seq![StyleRuleView { selector, properties }] + nested_expansion(
            nested,
            nested.len() as int,
            selector,
        )
    }
}

/// The flat rules that the selectors of a prelude give, selector by selector
/// in the order of the prelude.
pub open spec fn flattened_selectors(
    selectors: Seq<Seq<SelectorPartView>>,
    properties: Seq<PropertyView>,
    nested: Seq<ParsedRuleView>,
) -> Seq<StyleRuleView>
    decreases nested, 2nat, selectors.len(),
{
    if selectors.len() == 0 {
        Seq::empty()
    } else {
        flattened_selectors(selectors.drop_last(), properties, nested) + expansion(
            selectors.last(),
            properties,
            nested,
        )
    }
}

/// The flat rules of a rule.
pub open spec fn flattened(rule: ParsedRuleView) -> Seq<StyleRuleView>
    decreases rule,
{
    flattened_selectors(rule.selectors, rule.properties, rule.nested_rules)
}

/// Flattening goes through the selectors of a prelude in the order in which
/// they were written: a prelude of two lists of selectors gives the flat rules
/// of the first list, then those of the second.
pub proof fn lemma_flattened_in_prelude_order(
    first: Seq<Seq<SelectorPartView>>,
    second: Seq<Seq<SelectorPartView>>,
    properties: Seq<PropertyView>,
    nested: Seq<ParsedRuleView>,
)
    ensures
        flattened_selectors(first + second, properties, nested) == flattened_selectors(
            first,
            properties,
            nested,
        ) + flattened_selectors(second, properties, nested),
    decreases second.len(),
{
    if second.len() == 0 {
        assert(first + second =~= first);
        assert(flattened_selectors(first, properties, nested) + Seq::<StyleRuleView>::empty()
            =~= flattened_selectors(first, properties, nested));
    } else {
        let all = first + second;
        assert(all.drop_last() =~= first + second.drop_last());
        assert(all.last() == second.last());
        lemma_flattened_in_prelude_order(first, second.drop_last(), properties, nested);
        let a = flattened_selectors(first, properties, nested);
        let b = flattened_selectors(second.drop_last(), properties, nested);
        let c = expansion(second.last(), properties, nested);
        assert((a + b) + c =~= a + (b + c));
    }
}

/// A rule whose prelude holds two selectors, neither without parts, gives the
/// rule of the first selector with the nested rules under it, then the rule
/// of the second with the nested rules under it.
pub proof fn lemma_flattened_pair(
    a: Seq<SelectorPartView>,
    b: Seq<SelectorPartView>,
    properties: Seq<PropertyView>,
    nested: Seq<ParsedRuleView>,
)
    ensures
        flattened(ParsedRuleView { selectors: seq![a, b], properties, nested_rules: nested })
            == expansion(a, properties, nested) + expansion(b, properties, nested),
{
    let empty = Seq::<Seq<SelectorPartView>>::empty();
    lemma_flattened_in_prelude_order(seq![a], seq![b], properties, nested);
    assert(seq![a] + seq![b] =~= seq![a, b]);
    assert(seq![a].drop_last() =~= empty);
    assert(seq![b].drop_last() =~= empty);
    assert(Seq::<StyleRuleView>::empty() + expansion(a, properties, nested) =~= expansion(
        a,
        properties,
        nested,
    ));
    assert(Seq::<StyleRuleView>::empty() + expansion(b, properties, nested) =~= expansion(
        b,
        properties,
        nested,
    ));
}

/// Moves the rules of `more` to the end of `list`.
pub fn extend_rules(list: &mut Vec<StyleRule>, more: Vec<StyleRule>)
    ensures
        final(list).deep_view() == old(list).deep_view() + more.deep_view(),
{
    let mut more = more;
    let ghost first = list.deep_view();
    let ghost second = more.deep_view();
    list.append(&mut more);
    assert(list.deep_view() =~= first + second);
}

impl StyleRule {
    /// The flat rules of a rule: for each selector of its prelude, in order,
    /// the rule of the selector and then the flat rules of each nested rule,
    /// with the selectors combined.
    pub fn from_parsed_rule(parsed: &ParsedRule) -> (rules: Vec<StyleRule>)
        ensures
            rules.deep_view() == flattened(parsed.deep_view()),
        decreases parsed,
    {
        proof {
            lemma_parsed_rule_view(*parsed);
        }
        let mut result: Vec<StyleRule> = Vec::new();
        let mut i: usize = 0;
        proof {
            assert(parsed.selectors.deep_view().take(0) =~= Seq::empty());
            assert(result.deep_view() =~= Seq::empty());
        }
        while i < parsed.selectors.len()
            invariant
                i <= parsed.selectors.len(),
                parsed.deep_view().selectors == parsed.selectors.deep_view(),
                parsed.deep_view().properties == parsed.properties.deep_view(),
                parsed.deep_view().nested_rules == parsed.nested_rules.deep_view(),
                result.deep_view() == flattened_selectors(
                    parsed.selectors.deep_view().take(i as int),
                    parsed.properties.deep_view(),
                    parsed.nested_rules.deep_view(),
                ),
            decreases parsed.selectors.len() - i,
        {
            let selector = &parsed.selectors[i];
            let ghost before = result.deep_view();
            let ghost prefix = parsed.selectors.deep_view().take(i as int + 1);
            proof {
                assert(prefix.drop_last() =~= parsed.selectors.deep_view().take(i as int));
                assert(prefix.last() == selector.deep_view());
                assert(flattened_selectors(
                    prefix,
                    parsed.properties.deep_view(),
                    parsed.nested_rules.deep_view(),
                ) == before + expansion(
                    selector.deep_view(),
                    parsed.properties.deep_view(),
                    parsed.nested_rules.deep_view(),
                ));
                assert(selector.deep_view().len() == selector.parts.len());
                assert(parsed.properties.deep_view().len() == parsed.properties.len());
            }
            if selector.parts.len() == 0 && parsed.properties.len() == 0 {
                proof {
                    assert(before + Seq::<StyleRuleView>::empty() =~= before);
                }
            } else {
                let own = StyleRule {
                    selector: selector.clone(),
                    properties: clone_properties(&parsed.properties),
                };
                let ghost earlier = result;
                result.push(own);
                proof {
                    lemma_deep_view_push(earlier, result, own);
                }
                let ghost head = result.deep_view();
                let mut j: usize = 0;
                while j < parsed.nested_rules.len()
                    invariant
                        j <= parsed.nested_rules.len(),
                        parsed.deep_view().nested_rules == parsed.nested_rules.deep_view(),
                        result.deep_view() == head + nested_expansion(
                            parsed.nested_rules.deep_view(),
                            j as int,
                            selector.deep_view(),
                        ),
                    decreases parsed.nested_rules.len() - j,
                {
                    assert(decreases_to!(parsed => parsed.nested_rules));
                    assert(decreases_to!(parsed.nested_rules => parsed.nested_rules[j as int]));
                    let inner = StyleRule::from_parsed_rule(&parsed.nested_rules[j]);
                    let ghost so_far = result.deep_view();
                    let mut k: usize = 0;
                    while k < inner.len()
                        invariant
                            k <= inner.len(),
                            result.deep_view() == so_far + recombined(
                                inner.deep_view(),
                                selector.deep_view(),
                            ).take(k as int),
                        decreases inner.len() - k,
                    {
                        let combined_rule = StyleRule {
                            selector: Selector::combine(&inner[k].selector, selector),
                            properties: clone_properties(&inner[k].properties),
                        };
                        let ghost previous = result;
                        result.push(combined_rule);
                        proof {
                            lemma_deep_view_push(previous, result, combined_rule);
                            let all = recombined(inner.deep_view(), selector.deep_view());
                            assert(all.take(k as int + 1) =~= all.take(k as int).push(
                                all[k as int],
                            ));
                            assert(result.deep_view() =~= so_far + all.take(k as int + 1));
                        }
                        k += 1;
                    }
                    proof {
                        let all = recombined(inner.deep_view(), selector.deep_view());
                        assert(all.take(inner.len() as int) =~= all);
                        assert(so_far + all =~= head + (nested_expansion(
                            parsed.nested_rules.deep_view(),
                            j as int,
                            selector.deep_view(),
                        ) + all));
                    }
                    j += 1;
                }
                proof {
                    assert(head =~= before + seq![own.deep_view()]);
                    let tail = nested_expansion(
                        parsed.nested_rules.deep_view(),
                        parsed.nested_rules.len() as int,
                        selector.deep_view(),
                    );
                    assert(result.deep_view() =~= before + (seq![own.deep_view()] + tail));
                    assert(expansion(
                        selector.deep_view(),
                        parsed.properties.deep_view(),
                        parsed.nested_rules.deep_view(),
                    ) == seq![own.deep_view()] + tail);
                }
            }
            i += 1;
        }
        proof {
            assert(parsed.selectors.deep_view().take(parsed.selectors.len() as int)
                =~= parsed.selectors.deep_view());
        }
        result
    }
}

} // verus!

verus! {

impl StyleRule {
    /// The selector.
    pub fn selector(&self) -> (selector: &Selector)
        ensures
            *selector == self.selector,
    {
        &self.selector
    }

    /// A copy of the declarations.
    pub fn properties(&self) -> (properties: Vec<Property>)
        ensures
            properties.deep_view() == self.properties.deep_view(),
    {
        clone_properties(&self.properties)
    }
}

} // verus!
