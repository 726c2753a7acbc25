//! Property definitions, the registry that binds property names to them, and
//! properties as rules use them.

use vstd::prelude::*;
use crate::details::{ParseError, ParseErrorKind, SourceLocation, SourceLocationView};
use crate::grammar::{parse_syntax, syntax_of};
use crate::syntax::{ParsedPropertySyntax, ParsedPropertySyntaxView};
use crate::text::{lemma_deep_view_push, owned, str_eq};
use crate::value::{clone_values, Value, ValueView};

verus! {

/// What is known of a property: its name, the grammar of its values, whether
/// it is inherited, and the values it starts with.
#[derive(Debug, PartialEq)]
pub struct PropertyDefinition {
    pub name: String,
    pub syntax: ParsedPropertySyntax,
    pub inherit: bool,
    pub initial: Vec<Value>,
}

/// The mathematical value of a [`PropertyDefinition`].
pub struct PropertyDefinitionView {
    pub name: Seq<char>,
    pub syntax: ParsedPropertySyntaxView,
    pub inherit: bool,
    pub initial: Seq<ValueView>,
}

impl DeepView for PropertyDefinition {
    type V = PropertyDefinitionView;

    open spec fn deep_view(&self) -> PropertyDefinitionView {
        PropertyDefinitionView {
            name: self.name@,
            syntax: self.syntax.deep_view(),
            inherit: self.inherit,
            initial: self.initial.deep_view(),
        }
    }
}

impl Clone for PropertyDefinition {
    fn clone(&self) -> (copy: PropertyDefinition)
        ensures
            copy.deep_view() == self.deep_view(),
    {
        PropertyDefinition {
            name: self.name.clone(),
            syntax: self.syntax.clone(),
            inherit: self.inherit,
            initial: clone_values(&self.initial),
        }
    }
}

impl PropertyDefinition {
    /// The definition that says nothing: no name, the empty syntax, not
    /// inherited, no initial values.
    pub fn empty() -> (definition: PropertyDefinition)
        ensures
            definition.deep_view() == (PropertyDefinitionView {
                name: Seq::empty(),
                syntax: ParsedPropertySyntaxView::Empty,
                inherit: false,
                initial: Seq::empty(),
            }),
    {
        let definition = PropertyDefinition {
            name: String::new(),
            syntax: ParsedPropertySyntax::Empty,
            inherit: false,
            initial: Vec::new(),
        };
        assert(definition.initial.deep_view() =~= Seq::empty());
        definition
    }

    /// The definition of `name` with the syntax that the descriptor `syntax`
    /// writes, not inherited, with no initial values. A descriptor that writes
    /// no syntax gives an error placed at `line` and `column` of `file`.
    pub fn from_name_syntax(name: &str, syntax: &str, file: &str, line: u32, column: u32) -> (outcome:
        Result<PropertyDefinition, ParseError>)
        ensures
            match outcome {
                Ok(definition) => syntax_of(syntax@) == Some(definition.syntax.deep_view())
                    && definition.deep_view() == (PropertyDefinitionView {
                    name: name@,
                    syntax: definition.syntax.deep_view(),
                    inherit: false,
                    initial: Seq::empty(),
                }),
                Err(error) => {
                    &&& syntax_of(syntax@) is None
                    &&& error.kind == ParseErrorKind::InvalidPropertySyntax
                    &&& error.location.deep_view() == (SourceLocationView {
                        file: file@,
                        line,
                        column,
                    })
                },
            },
    {
        let initial: Vec<Value> = Vec::new();
        let none = initial.as_slice();
        assert(none.deep_view() =~= Seq::empty());
        PropertyDefinition::from_name_syntax_initial(name, syntax, none, file, line, column)
    }

    /// As [`PropertyDefinition::from_name_syntax`], with initial values.
    pub fn from_name_syntax_initial(
        name: &str,
        syntax: &str,
        initial: &[Value],
        file: &str,
        line: u32,
        column: u32,
    ) -> (outcome: Result<PropertyDefinition, ParseError>)
        ensures
            match outcome {
                Ok(definition) => syntax_of(syntax@) == Some(definition.syntax.deep_view())
                    && definition.deep_view() == (PropertyDefinitionView {
                    name: name@,
                    syntax: definition.syntax.deep_view(),
                    inherit: false,
                    initial: initial.deep_view(),
                }),
                Err(error) => {
                    &&& syntax_of(syntax@) is None
                    &&& error.kind == ParseErrorKind::InvalidPropertySyntax
                    &&& error.location.deep_view() == (SourceLocationView {
                        file: file@,
                        line,
                        column,
                    })
                },
            },
    {
        let location = SourceLocation::from_file_location(owned(file), line, column);
        match parse_syntax(syntax, location) {
            Ok(parsed) => {
                let mut values: Vec<Value> = Vec::new();
                let mut i: usize = 0;
                while i < initial.len()
                    invariant
                        i <= initial.len(),
                        values.len() == i,
                        forall|k: int|
                            0 <= k < i ==> values[k].deep_view() == initial[k].deep_view(),
                    decreases initial.len() - i,
                {
                    values.push(initial[i].clone());
                    i += 1;
                }
                assert(values.deep_view() =~= initial.deep_view());
                Ok(
                    PropertyDefinition {
                        name: owned(name),
                        syntax: parsed,
                        inherit: false,
                        initial: values,
                    },
                )
            },
            Err(error) => Err(error),
        }
    }
}

/// A property as a rule uses it: its name, its definition at the time, and
/// its values.
#[derive(Debug, PartialEq)]
pub struct Property {
    pub name: String,
    pub definition: PropertyDefinition,
    pub values: Vec<Value>,
}

/// The mathematical value of a [`Property`].
pub struct PropertyView {
    pub name: Seq<char>,
    pub definition: PropertyDefinitionView,
    pub values: Seq<ValueView>,
}

impl DeepView for Property {
    type V = PropertyView;

    open spec fn deep_view(&self) -> PropertyView {
        PropertyView {
            name: self.name@,
            definition: self.definition.deep_view(),
            values: self.values.deep_view(),
        }
    }
}

impl Clone for Property {
    fn clone(&self) -> (copy: Property)
        ensures
            copy.deep_view() == self.deep_view(),
    {
        Property {
            name: self.name.clone(),
            definition: self.definition.clone(),
            values: clone_values(&self.values),
        }
    }
}

/// A copy of a list of properties.
pub fn clone_properties(list: &Vec<Property>) -> (copy: Vec<Property>)
    ensures
        copy.deep_view() == list.deep_view(),
{
    let mut copy: Vec<Property> = Vec::new();
    let mut i: usize = 0;
    while i < list.len()
        invariant
            i <= list.len(),
            copy.len() == i,
            forall|k: int| 0 <= k < i ==> copy[k].deep_view() == list[k].deep_view(),
        decreases list.len() - i,
    {
        copy.push(list[i].clone());
        i += 1;
    }
    assert(copy.deep_view() =~= list.deep_view());
    copy
}

/// Whether one of the definitions has the name.
pub open spec fn has_definition(definitions: Seq<PropertyDefinitionView>, name: Seq<char>) -> bool {
    exists|i: int| 0 <= i < definitions.len() && (#[trigger] definitions[i]).name == name
}

/// The first definition that has the name.
pub open spec fn definition_of(
    definitions: Seq<PropertyDefinitionView>,
    name: Seq<char>,
) -> Option<PropertyDefinitionView>
    decreases definitions.len(),
{
    if definitions.len() == 0 {
        None
    } else if definitions[0].name == name {
        Some(definitions[0])
    } else {
        definition_of(definitions.drop_first(), name)
    }
}

/// The definitions after `definition` was registered: unchanged where its
/// name is taken, else with `definition` at the end.
pub open spec fn registered(
    definitions: Seq<PropertyDefinitionView>,
    definition: PropertyDefinitionView,
) -> Seq<PropertyDefinitionView> {
    if has_definition(definitions, definition.name) {
        definitions
    } else {
        definitions.push(definition)
    }
}

/// A name has a definition exactly when looking it up finds one, and what is
/// found has the name.
pub proof fn lemma_definition_of(definitions: Seq<PropertyDefinitionView>, name: Seq<char>)
    ensures
        has_definition(definitions, name) <==> definition_of(definitions, name) is Some,
        definition_of(definitions, name) matches Some(found) ==> found.name == name,
    decreases definitions.len(),
{
    if definitions.len() > 0 {
        let rest = definitions.drop_first();
        lemma_definition_of(rest, name);
        if definitions[0].name != name {
            if has_definition(definitions, name) {
                let i = choose|i: int|
                    0 <= i < definitions.len() && (#[trigger] definitions[i]).name == name;
                assert(rest[i - 1].name == name);
            }
            if has_definition(rest, name) {
                let i = choose|i: int| 0 <= i < rest.len() && (#[trigger] rest[i]).name == name;
                assert(definitions[i + 1].name == name);
            }
        }
    }
}

/// Looking a name up after another definition was added at the end finds
/// what it found before, or the new definition if it found nothing.
pub proof fn lemma_definition_of_push(
    definitions: Seq<PropertyDefinitionView>,
    definition: PropertyDefinitionView,
    name: Seq<char>,
)
    ensures
        definition_of(definitions.push(definition), name) == (match definition_of(
            definitions,
            name,
        ) {
            Some(found) => Some(found),
            None => if definition.name == name {
                Some(definition)
            } else {
                None
            },
        }),
    decreases definitions.len(),
{
    let longer = definitions.push(definition);
    if definitions.len() == 0 {
        assert(longer.drop_first() =~= Seq::empty());
    } else {
        assert(longer.drop_first() =~= definitions.drop_first().push(definition));
        if definitions[0].name != name {
            lemma_definition_of_push(definitions.drop_first(), definition, name);
        }
    }
}

/// Registering a name twice changes nothing the second time, and the name
/// keeps the definition it got first.
pub proof fn lemma_register_twice(
    definitions: Seq<PropertyDefinitionView>,
    first: PropertyDefinitionView,
    second: PropertyDefinitionView,
)
    requires
        first.name == second.name,
    ensures
        registered(registered(definitions, first), second) == registered(definitions, first),
        definition_of(registered(registered(definitions, first), second), first.name)
            == definition_of(registered(definitions, first), first.name),
        !has_definition(definitions, first.name) ==> definition_of(
            registered(registered(definitions, first), second),
            first.name,
        ) == Some(first),
{
    let once = registered(definitions, first);
    if !has_definition(definitions, first.name) {
        assert(once[definitions.len() as int].name == first.name);
        lemma_definition_of(definitions, first.name);
        lemma_definition_of_push(definitions, first, first.name);
    }
    assert(has_definition(once, second.name));
}

/// Registering a definition leaves every definition that was there in its
/// place.
pub proof fn lemma_register_keeps(
    definitions: Seq<PropertyDefinitionView>,
    definition: PropertyDefinitionView,
    name: Seq<char>,
)
    requires
        has_definition(definitions, name),
    ensures
        definition_of(registered(definitions, definition), name) == definition_of(
            definitions,
            name,
        ),
{
    lemma_definition_of(definitions, name);
    lemma_definition_of_push(definitions, definition, name);
}

/// The registry of property definitions: at most one definition for a name,
/// and the one that came first stays.
#[derive(Debug, PartialEq)]
pub struct PropertyRegistry {
    pub definitions: Vec<PropertyDefinition>,
}

impl DeepView for PropertyRegistry {
    type V = Seq<PropertyDefinitionView>;

    open spec fn deep_view(&self) -> Seq<PropertyDefinitionView> {
        self.definitions.deep_view()
    }
}

impl Clone for PropertyRegistry {
    fn clone(&self) -> (copy: PropertyRegistry)
        ensures
            copy.deep_view() == self.deep_view(),
    {
        let mut definitions: Vec<PropertyDefinition> = Vec::new();
        let mut i: usize = 0;
        while i < self.definitions.len()
            invariant
                i <= self.definitions.len(),
                definitions.len() == i,
                forall|k: int|
                    0 <= k < i ==> definitions[k].deep_view() == self.definitions[k].deep_view(),
            decreases self.definitions.len() - i,
        {
            definitions.push(self.definitions[i].clone());
            i += 1;
        }
        assert(definitions.deep_view() =~= self.definitions.deep_view());
        PropertyRegistry { definitions }
    }
}

impl PropertyRegistry {
    /// The registry without definitions.
    pub fn new() -> (registry: PropertyRegistry)
        ensures
            registry.deep_view() == Seq::<PropertyDefinitionView>::empty(),
    {
        let registry = PropertyRegistry { definitions: Vec::new() };
        assert(registry.deep_view() =~= Seq::<PropertyDefinitionView>::empty());
        registry
    }

    /// Where the definition of `name` stands, if there is one.
    fn position(&self, name: &str) -> (found: Option<usize>)
        ensures
            match found {
                Some(i) => i < self.definitions.len() && definition_of(self.deep_view(), name@)
                    == Some(self.definitions[i as int].deep_view()),
                None => definition_of(self.deep_view(), name@) is None,
            },
    {
        let mut i: usize = 0;
        assert(self.deep_view().skip(0) =~= self.deep_view());
        while i < self.definitions.len()
            invariant
                i <= self.definitions.len(),
                definition_of(self.deep_view(), name@) == definition_of(
                    self.deep_view().skip(i as int),
                    name@,
                ),
            decreases self.definitions.len() - i,
        {
            let ghost rest = self.deep_view().skip(i as int);
            assert(rest[0] == self.definitions[i as int].deep_view());
            assert(rest.drop_first() =~= self.deep_view().skip(i as int + 1));
            if str_eq(self.definitions[i].name.as_str(), name) {
                return Some(i);
            }
            i += 1;
        }
        assert(self.deep_view().skip(i as int).len() == 0);
        None
    }

    /// The definition of `name`, if there is one.
    pub fn property_definition(&self, name: &str) -> (found: Option<PropertyDefinition>)
        ensures
            found.deep_view() == definition_of(self.deep_view(), name@),
    {
        match self.position(name) {
            Some(i) => Some(self.definitions[i].clone()),
            None => None,
        }
    }

    /// Registers `definition` unless its name is taken. Says whether it was
    /// registered.
    pub fn add_property_definition(&mut self, definition: PropertyDefinition) -> (added: bool)
        ensures
            added == !has_definition(old(self).deep_view(), definition.name@),
            final(self).deep_view() == registered(old(self).deep_view(), definition.deep_view()),
    {
        proof {
            lemma_definition_of(self.deep_view(), definition.name@);
        }
        match self.position(definition.name.as_str()) {
            Some(_) => false,
            None => {
                let ghost before = self.definitions;
                self.definitions.push(definition);
                proof {
                    lemma_deep_view_push(before, self.definitions, definition);
                }
                true
            },
        }
    }
}

} // verus!

verus! {

impl Property {
    /// A copy of the name.
    pub fn name(&self) -> (name: String)
        ensures
            name@ == self.name@,
    {
        self.name.clone()
    }

    /// A copy of the values.
    pub fn values(&self) -> (values: Vec<Value>)
        ensures
            values.deep_view() == self.values.deep_view(),
    {
        clone_values(&self.values)
    }
}

} // verus!
