//! What a stylesheet needs from outside while it is parsed, and the answers.
//!
//! Three things are not this library's to do: to read the selectors of a
//! prelude, which is the work of a selector library; to load the file that an
//! `@import` names; and to work out the values of a function that the
//! embedder has registered. The parser asks for each with a [`Request`]. Its
//! caller finds the answer, adds it to the [`Answers`] and parses again. The
//! same answers always give the same result, and a request is always for
//! something that the answers do not hold yet.

use vstd::prelude::*;
use crate::selectorparser::{ParseRelative, SelectorComponent, SelectorComponentView};
use crate::text::{lemma_deep_view_push, owned, str_eq};
use crate::value::{Value, ValueView};

verus! {

/// What the parser needs to go on.
#[derive(Debug, PartialEq, Eq)]
pub enum Request {
    /// The components of the selectors that a prelude writes.
    Selectors { prelude: String, relative: ParseRelative },
    /// The content of the file that an `@import` names.
    File { name: String },
    /// The values that a function of the embedder gives for its arguments,
    /// the text between its parentheses.
    Function { name: String, arguments: String },
}

/// The mathematical value of a [`Request`].
pub enum RequestView {
    Selectors { prelude: Seq<char>, relative: ParseRelative },
    File { name: Seq<char> },
    Function { name: Seq<char>, arguments: Seq<char> },
}

impl DeepView for Request {
    type V = RequestView;

    open spec fn deep_view(&self) -> RequestView {
        match *self {
            Request::Selectors { prelude, relative } => RequestView::Selectors {
                prelude: prelude@,
                relative,
            },
            Request::File { name } => RequestView::File { name: name@ },
            Request::Function { name, arguments } => RequestView::Function {
                name: name@,
                arguments: arguments@,
            },
        }
    }
}

/// What the selector library made of a prelude: for each selector of the
/// list its components, or the reason why the prelude writes no selectors.
#[derive(Debug, PartialEq, Eq)]
pub struct SelectorAnswer {
    pub prelude: String,
    pub relative: ParseRelative,
    pub outcome: Result<Vec<Vec<SelectorComponent>>, String>,
}

/// The mathematical value of a [`SelectorAnswer`].
pub struct SelectorAnswerView {
    pub prelude: Seq<char>,
    pub relative: ParseRelative,
    pub outcome: Result<Seq<Seq<SelectorComponentView>>, Seq<char>>,
}

impl DeepView for SelectorAnswer {
    type V = SelectorAnswerView;

    open spec fn deep_view(&self) -> SelectorAnswerView {
        SelectorAnswerView {
            prelude: self.prelude@,
            relative: self.relative,
            outcome: match self.outcome {
                Ok(list) => Ok(list.deep_view()),
                Err(message) => Err(message@),
            },
        }
    }
}

/// A file that was loaded: the name under which errors in it are reported,
/// and its content.
#[derive(Debug, PartialEq, Eq)]
pub struct LoadedFile {
    pub origin: String,
    pub contents: String,
}

/// What became of loading the file that an `@import` names: the file, or the
/// reason why it could not be loaded.
#[derive(Debug, PartialEq, Eq)]
pub struct FileAnswer {
    pub name: String,
    pub outcome: Result<LoadedFile, String>,
}

/// The mathematical value of a [`FileAnswer`]. A loaded file is its origin
/// and its content.
pub struct FileAnswerView {
    pub name: Seq<char>,
    pub outcome: Result<(Seq<char>, Seq<char>), Seq<char>>,
}

impl DeepView for FileAnswer {
    type V = FileAnswerView;

    open spec fn deep_view(&self) -> FileAnswerView {
        FileAnswerView {
            name: self.name@,
            outcome: match self.outcome {
                Ok(file) => Ok((file.origin@, file.contents@)),
                Err(message) => Err(message@),
            },
        }
    }
}

/// What a function of the embedder gave for its arguments: values, or the
/// reason why it gave none.
#[derive(Debug, PartialEq)]
pub struct FunctionAnswer {
    pub name: String,
    pub arguments: String,
    pub outcome: Result<Vec<Value>, String>,
}

/// The mathematical value of a [`FunctionAnswer`].
pub struct FunctionAnswerView {
    pub name: Seq<char>,
    pub arguments: Seq<char>,
    pub outcome: Result<Seq<ValueView>, Seq<char>>,
}

impl DeepView for FunctionAnswer {
    type V = FunctionAnswerView;

    open spec fn deep_view(&self) -> FunctionAnswerView {
        FunctionAnswerView {
            name: self.name@,
            arguments: self.arguments@,
            outcome: match self.outcome {
                Ok(values) => Ok(values.deep_view()),
                Err(message) => Err(message@),
            },
        }
    }
}

/// The answers that the caller of the parser has found so far.
#[derive(Debug, PartialEq)]
pub struct Answers {
    pub selectors: Vec<SelectorAnswer>,
    pub files: Vec<FileAnswer>,
    pub functions: Vec<FunctionAnswer>,
}

/// The mathematical value of [`Answers`].
pub struct AnswersView {
    pub selectors: Seq<SelectorAnswerView>,
    pub files: Seq<FileAnswerView>,
    pub functions: Seq<FunctionAnswerView>,
}

impl DeepView for Answers {
    type V = AnswersView;

    open spec fn deep_view(&self) -> AnswersView {
        AnswersView {
            selectors: self.selectors.deep_view(),
            files: self.files.deep_view(),
            functions: self.functions.deep_view(),
        }
    }
}

/// The first answer for a function and its arguments.
pub open spec fn function_answer(
    answers: Seq<FunctionAnswerView>,
    name: Seq<char>,
    arguments: Seq<char>,
) -> Option<Result<Seq<ValueView>, Seq<char>>>
    decreases answers.len(),
{
    if answers.len() == 0 {
        None
    } else if answers[0].name == name && answers[0].arguments == arguments {
        Some(answers[0].outcome)
    } else {
        function_answer(answers.drop_first(), name, arguments)
    }
}

/// The first answer for a prelude, read as `relative` says.
pub open spec fn selectors_answer(
    answers: Seq<SelectorAnswerView>,
    prelude: Seq<char>,
    relative: ParseRelative,
) -> Option<Result<Seq<Seq<SelectorComponentView>>, Seq<char>>>
    decreases answers.len(),
{
    if answers.len() == 0 {
        None
    } else if answers[0].prelude == prelude && answers[0].relative == relative {
        Some(answers[0].outcome)
    } else {
        selectors_answer(answers.drop_first(), prelude, relative)
    }
}

/// The first answer for the file of a name.
pub open spec fn file_answer(answers: Seq<FileAnswerView>, name: Seq<char>) -> Option<
    Result<(Seq<char>, Seq<char>), Seq<char>>,
>
    decreases answers.len(),
{
    if answers.len() == 0 {
        None
    } else if answers[0].name == name {
        Some(answers[0].outcome)
    } else {
        file_answer(answers.drop_first(), name)
    }
}

/// Whether the answers hold no answer to a request.
pub open spec fn unanswered(answers: AnswersView, request: RequestView) -> bool {
    match request {
        RequestView::Selectors { prelude, relative } => selectors_answer(
            answers.selectors,
            prelude,
            relative,
        ) is None,
        RequestView::File { name } => file_answer(answers.files, name) is None,
        RequestView::Function { name, arguments } => function_answer(
            answers.functions,
            name,
            arguments,
        ) is None,
    }
}

impl Answers {
    /// No answers.
    pub fn new() -> (answers: Answers)
        ensures
            answers.deep_view() == (AnswersView {
                selectors: Seq::empty(),
                files: Seq::empty(),
                functions: Seq::empty(),
            }),
    {
        let answers = Answers { selectors: Vec::new(), files: Vec::new(), functions: Vec::new() };
        assert(answers.selectors.deep_view() =~= Seq::empty());
        assert(answers.files.deep_view() =~= Seq::empty());
        assert(answers.functions.deep_view() =~= Seq::empty());
        answers
    }

    /// Adds what the selector library made of a prelude.
    pub fn add_selectors(
        &mut self,
        prelude: &str,
        relative: ParseRelative,
        outcome: Result<Vec<Vec<SelectorComponent>>, String>,
    )
        ensures
            final(self).deep_view().files == old(self).deep_view().files,
            final(self).deep_view().functions == old(self).deep_view().functions,
            final(self).deep_view().selectors == old(self).deep_view().selectors.push(
                SelectorAnswerView {
                    prelude: prelude@,
                    relative,
                    outcome: match outcome {
                        Ok(list) => Ok(list.deep_view()),
                        Err(message) => Err(message@),
                    },
                },
            ),
    {
        let answer = SelectorAnswer { prelude: owned(prelude), relative, outcome };
        let ghost before = self.selectors;
        self.selectors.push(answer);
        proof {
            lemma_deep_view_push(before, self.selectors, answer);
        }
    }

    /// Adds what became of loading the file of a name.
    pub fn add_file(&mut self, name: &str, outcome: Result<LoadedFile, String>)
        ensures
            final(self).deep_view().selectors == old(self).deep_view().selectors,
            final(self).deep_view().functions == old(self).deep_view().functions,
            final(self).deep_view().files == old(self).deep_view().files.push(
                FileAnswerView {
                    name: name@,
                    outcome: match outcome {
                        Ok(file) => Ok((file.origin@, file.contents@)),
                        Err(message) => Err(message@),
                    },
                },
            ),
    {
        let answer = FileAnswer { name: owned(name), outcome };
        let ghost before = self.files;
        self.files.push(answer);
        proof {
            lemma_deep_view_push(before, self.files, answer);
        }
    }

    /// Adds what a function of the embedder gave for its arguments.
    pub fn add_function(&mut self, name: &str, arguments: &str, outcome: Result<Vec<Value>, String>)
        ensures
            final(self).deep_view().selectors == old(self).deep_view().selectors,
            final(self).deep_view().files == old(self).deep_view().files,
            final(self).deep_view().functions == old(self).deep_view().functions.push(
                FunctionAnswerView {
                    name: name@,
                    arguments: arguments@,
                    outcome: match outcome {
                        Ok(values) => Ok(values.deep_view()),
                        Err(message) => Err(message@),
                    },
                },
            ),
    {
        let answer = FunctionAnswer { name: owned(name), arguments: owned(arguments), outcome };
        let ghost before = self.functions;
        self.functions.push(answer);
        proof {
            lemma_deep_view_push(before, self.functions, answer);
        }
    }

    /// The first answer for a function and its arguments.
    pub fn function(&self, name: &str, arguments: &str) -> (found: Option<&FunctionAnswer>)
        ensures
            match found {
                Some(answer) => function_answer(self.deep_view().functions, name@, arguments@)
                    == Some(answer.deep_view().outcome),
                None => function_answer(self.deep_view().functions, name@, arguments@) is None,
            },
    {
        let mut i: usize = 0;
        assert(self.functions.deep_view().skip(0) =~= self.functions.deep_view());
        while i < self.functions.len()
            invariant
                i <= self.functions.len(),
                function_answer(self.functions.deep_view(), name@, arguments@) == function_answer(
                    self.functions.deep_view().skip(i as int),
                    name@,
                    arguments@,
                ),
            decreases self.functions.len() - i,
        {
            let ghost rest = self.functions.deep_view().skip(i as int);
            assert(rest[0] == self.functions[i as int].deep_view());
            assert(rest.drop_first() =~= self.functions.deep_view().skip(i as int + 1));
            let answer = &self.functions[i];
            if str_eq(answer.name.as_str(), name) && str_eq(answer.arguments.as_str(), arguments) {
                return Some(answer);
            }
            i += 1;
        }
        assert(self.functions.deep_view().skip(i as int).len() == 0);
        None
    }

    /// The first answer for a prelude, read as `relative` says.
    pub fn selectors_for(&self, prelude: &str, relative: ParseRelative) -> (found: Option<
        &SelectorAnswer,
    >)
        ensures
            match found {
                Some(answer) => selectors_answer(self.deep_view().selectors, prelude@, relative)
                    == Some(answer.deep_view().outcome),
                None => selectors_answer(self.deep_view().selectors, prelude@, relative) is None,
            },
    {
        let mut i: usize = 0;
        assert(self.selectors.deep_view().skip(0) =~= self.selectors.deep_view());
        while i < self.selectors.len()
            invariant
                i <= self.selectors.len(),
                selectors_answer(self.selectors.deep_view(), prelude@, relative)
                    == selectors_answer(
                    self.selectors.deep_view().skip(i as int),
                    prelude@,
                    relative,
                ),
            decreases self.selectors.len() - i,
        {
            let ghost rest = self.selectors.deep_view().skip(i as int);
            assert(rest[0] == self.selectors[i as int].deep_view());
            assert(rest.drop_first() =~= self.selectors.deep_view().skip(i as int + 1));
            let answer = &self.selectors[i];
            let same_mode = match (answer.relative, relative) {
                (ParseRelative::No, ParseRelative::No) => true,
                (ParseRelative::Nested, ParseRelative::Nested) => true,
                _ => false,
            };
            if same_mode && str_eq(answer.prelude.as_str(), prelude) {
                return Some(answer);
            }
            i += 1;
        }
        assert(self.selectors.deep_view().skip(i as int).len() == 0);
        None
    }

    /// The first answer for the file of a name.
    pub fn file(&self, name: &str) -> (found: Option<&FileAnswer>)
        ensures
            match found {
                Some(answer) => file_answer(self.deep_view().files, name@) == Some(
                    answer.deep_view().outcome,
                ),
                None => file_answer(self.deep_view().files, name@) is None,
            },
    {
        let mut i: usize = 0;
        assert(self.files.deep_view().skip(0) =~= self.files.deep_view());
        while i < self.files.len()
            invariant
                i <= self.files.len(),
                file_answer(self.files.deep_view(), name@) == file_answer(
                    self.files.deep_view().skip(i as int),
                    name@,
                ),
            decreases self.files.len() - i,
        {
            let ghost rest = self.files.deep_view().skip(i as int);
            assert(rest[0] == self.files[i as int].deep_view());
            assert(rest.drop_first() =~= self.files.deep_view().skip(i as int + 1));
            let answer = &self.files[i];
            if str_eq(answer.name.as_str(), name) {
                return Some(answer);
            }
            i += 1;
        }
        assert(self.files.deep_view().skip(i as int).len() == 0);
        None
    }
}

} // verus!
