//! The registry of the functions that can stand in the place of a value.

use vstd::prelude::*;
use crate::text::{owned, str_eq};

verus! {

/// What a registered function does with its arguments.
#[derive(Debug, Clone, Copy, PartialEq, Eq, Structural)]
pub enum PropertyFunction {
    /// `var(<ident>, <declaration-value>?)`: the initial values of a
    /// registered property, or else the values after the comma.
    Var,
    /// `mix(<color>, <color>, <number>)`: the first color, to be blended
    /// towards the second.
    Mix,
    /// `custom-color(<string>, <string>#)`: a color that the embedder
    /// interprets.
    CustomColor,
    /// `modify-color(<color> <operation> <color|number|percentage>)`: the
    /// color with the operation applied to it.
    ModifyColor,
    /// A function of the embedder: what it gives for its arguments is asked
    /// for from outside.
    External,
}

/// A name bound to a function.
#[derive(Debug, PartialEq, Eq)]
pub struct FunctionEntry {
    pub name: String,
    pub function: PropertyFunction,
}

/// The mathematical value of a [`FunctionEntry`].
pub struct FunctionEntryView {
    pub name: Seq<char>,
    pub function: PropertyFunction,
}

impl DeepView for FunctionEntry {
    type V = FunctionEntryView;

    open spec fn deep_view(&self) -> FunctionEntryView {
        FunctionEntryView { name: self.name@, function: self.function }
    }
}

/// The function that the first entry with the name binds it to.
pub open spec fn function_of(entries: Seq<FunctionEntryView>, name: Seq<char>) -> Option<
    PropertyFunction,
>
    decreases entries.len(),
{
    if entries.len() == 0 {
        None
    } else if entries[0].name == name {
        Some(entries[0].function)
    } else {
        function_of(entries.drop_first(), name)
    }
}

/// Looking a name up after another entry was added at the end finds what it
/// found before, or the new entry if it found nothing.
pub proof fn lemma_function_of_push(
    entries: Seq<FunctionEntryView>,
    entry: FunctionEntryView,
    name: Seq<char>,
)
    ensures
        function_of(entries.push(entry), name) == (match function_of(entries, name) {
            Some(found) => Some(found),
            None => if entry.name == name {
                Some(entry.function)
            } else {
                None
            },
        }),
    decreases entries.len(),
{
    let longer = entries.push(entry);
    if entries.len() == 0 {
        assert(longer.drop_first() =~= Seq::empty());
    } else {
        assert(longer.drop_first() =~= entries.drop_first().push(entry));
        if entries[0].name != name {
            lemma_function_of_push(entries.drop_first(), entry, name);
        }
    }
}

/// The entries that every registry starts with.
pub open spec fn built_in_functions() -> Seq<FunctionEntryView> {
    seq![
        FunctionEntryView { name: "var"@, function: PropertyFunction::Var },
        FunctionEntryView { name: "mix"@, function: PropertyFunction::Mix },
        FunctionEntryView { name: "custom-color"@, function: PropertyFunction::CustomColor },
        FunctionEntryView { name: "modify-color"@, function: PropertyFunction::ModifyColor },
    ]
}

/// The registry of functions: a name is bound once, and stays bound to what
/// it was bound to first.
#[derive(Debug, PartialEq, Eq)]
pub struct FunctionRegistry {
    pub entries: Vec<FunctionEntry>,
}

impl DeepView for FunctionRegistry {
    type V = Seq<FunctionEntryView>;

    open spec fn deep_view(&self) -> Seq<FunctionEntryView> {
        self.entries.deep_view()
    }
}

impl FunctionRegistry {
    /// The registry that holds the built-in functions.
    pub fn new() -> (registry: FunctionRegistry)
        ensures
            registry.deep_view() == built_in_functions(),
    {
        let mut entries: Vec<FunctionEntry> = Vec::new();
        entries.push(FunctionEntry { name: owned("var"), function: PropertyFunction::Var });
        entries.push(FunctionEntry { name: owned("mix"), function: PropertyFunction::Mix });
        entries.push(
            FunctionEntry { name: owned("custom-color"), function: PropertyFunction::CustomColor },
        );
        entries.push(
            FunctionEntry { name: owned("modify-color"), function: PropertyFunction::ModifyColor },
        );
        assert(entries.deep_view() =~= built_in_functions());
        FunctionRegistry { entries }
    }

    /// The function that `name` is bound to, if it is bound.
    pub fn property_function(&self, name: &str) -> (found: Option<PropertyFunction>)
        ensures
            found == function_of(self.deep_view(), name@),
    {
        let mut i: usize = 0;
        assert(self.deep_view().skip(0) =~= self.deep_view());
        while i < self.entries.len()
            invariant
                i <= self.entries.len(),
                function_of(self.deep_view(), name@) == function_of(
                    self.deep_view().skip(i as int),
                    name@,
                ),
            decreases self.entries.len() - i,
        {
            let ghost rest = self.deep_view().skip(i as int);
            assert(rest[0] == self.entries[i as int].deep_view());
            assert(rest.drop_first() =~= self.deep_view().skip(i as int + 1));
            if str_eq(self.entries[i].name.as_str(), name) {
                return Some(self.entries[i].function);
            }
            i += 1;
        }
        assert(self.deep_view().skip(i as int).len() == 0);
        None
    }

    /// Binds `name` to `function` unless the name is bound already. Says
    /// whether it was bound now.
    pub fn add_property_function(&mut self, name: &str, function: PropertyFunction) -> (added: bool)
        ensures
            added == (function_of(old(self).deep_view(), name@) is None),
            added ==> final(self).deep_view() == old(self).deep_view().push(
                FunctionEntryView { name: name@, function },
            ),
            !added ==> final(self).deep_view() == old(self).deep_view(),
            forall|other: Seq<char>|
                function_of(old(self).deep_view(), other) is Some ==> function_of(
                    final(self).deep_view(),
                    other,
                ) == function_of(old(self).deep_view(), other),
    {
        match self.property_function(name) {
            Some(_) => false,
            None => {
                let ghost before = self.entries;
                let entry = FunctionEntry { name: owned(name), function };
                self.entries.push(entry);
                proof {
                    crate::text::lemma_deep_view_push(before, self.entries, entry);
                    assert forall|other: Seq<char>|
                        function_of(before.deep_view(), other) is Some implies function_of(
                        self.entries.deep_view(),
                        other,
                    ) == function_of(before.deep_view(), other) by {
                        lemma_function_of_push(before.deep_view(), entry.deep_view(), other);
                    }
                }
                true
            },
        }
    }
}

} // verus!
