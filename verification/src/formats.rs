//! Templates for the sentences and names that describe a character.
//!
//! A template is the source of a function in the `gluon` language. Rendering
//! compiles the source in a `gluon` virtual machine and applies the function
//! to the values to interpolate. What a template renders to is up to its
//! source and to the machine it runs in; nothing here claims to know it.

use gluon::vm::api::OwnedFunction;
use gluon::ThreadExt;
use vstd::prelude::*;

verus! {

/// The virtual machine of `gluon`, carried through as an opaque value.
#[verifier::external_type_specification]
#[verifier::external_body]
pub struct ExRootedThread(gluon::RootedThread);

/// The error of `gluon`, carried through as an opaque value.
#[verifier::external_type_specification]
#[verifier::external_body]
pub struct ExGluonError(gluon::Error);

/// The source of a template.
#[derive(Debug, PartialEq, Eq)]
pub struct FormatString {
    source: String,
}

impl View for FormatString {
    type V = Seq<char>;

    closed spec fn view(&self) -> Seq<char> {
        self.source@
    }
}

impl Clone for FormatString {
    fn clone(&self) -> (copy: Self)
        ensures
            copy@ == self@,
    {
        FormatString { source: self.source.clone() }
    }
}

impl Default for FormatString {
    fn default() -> (empty: Self)
        ensures
            empty@ == Seq::<char>::empty(),
    {
        FormatString { source: String::new() }
    }
}

impl FormatString {
    /// The empty template.
    pub fn new() -> (empty: Self)
        ensures
            empty@ == Seq::<char>::empty(),
    {
        FormatString { source: String::new() }
    }

    /// The template with the given source.
    pub fn from_text(value: &str) -> (template: Self)
        ensures
            template@ == value@,
    {
        FormatString { source: String::from_str(value) }
    }

    /// The template with the given source.
    pub fn from_string(value: String) -> (template: Self)
        ensures
            template@ == value@,
    {
        FormatString { source: value }
    }

    /// The source.
    pub fn as_ref(&self) -> (source: &str)
        ensures
            source@ == self@,
    {
        self.source.as_str()
    }

    /// The source as an owned string.
    pub fn to_string(&self) -> (source: String)
        ensures
            source@ == self@,
    {
        self.source.clone()
    }

    /// The source, taken out of the template.
    pub fn into_string(self) -> (source: String)
        ensures
            source@ == self@,
    {
        self.source
    }
}

/// A template that could not be rendered.
#[derive(Debug, Clone, PartialEq, Eq)]
pub struct FormatError {
    /// What the template engine reported.
    pub message: String,
}

/// The templates of an ancestry.
#[derive(Debug, PartialEq, Eq)]
pub struct Formats {
    /// Builds a full name from a first name, a surname and further names.
    pub full_name: FormatString,
}

/// The templates of a heritage.
#[derive(Debug, PartialEq, Eq)]
pub struct HeritageFormats {
    /// Builds the sentence that names a lineage.
    pub lineage_line: FormatString,
}

/// The source of the template that joins a first name and a surname with a space.
pub open spec fn default_full_name_source() -> Seq<char> {
    "\\first_name surname additional_names -> first_name ++ \" \" ++ surname"@
}

/// The source of the template that names a lineage in one sentence.
pub open spec fn default_lineage_line_source() -> Seq<char> {
    "\\lineage -> \"They are of the \" ++ lineage ++ \" lineage.\""@
}

impl Clone for Formats {
    fn clone(&self) -> (copy: Self)
        ensures
            copy.full_name@ == self.full_name@,
    {
        Formats { full_name: self.full_name.clone() }
    }
}

impl Clone for HeritageFormats {
    fn clone(&self) -> (copy: Self)
        ensures
            copy.lineage_line@ == self.lineage_line@,
    {
        HeritageFormats { lineage_line: self.lineage_line.clone() }
    }
}

impl Default for Formats {
    fn default() -> (formats: Self)
        ensures
            formats.full_name@ == default_full_name_source(),
    {
        Formats {
            full_name: FormatString::from_text(
                "\\first_name surname additional_names -> first_name ++ \" \" ++ surname",
            ),
        }
    }
}

impl Default for HeritageFormats {
    fn default() -> (formats: Self)
        ensures
            formats.lineage_line@ == default_lineage_line_source(),
    {
        HeritageFormats {
            lineage_line: FormatString::from_text(
                "\\lineage -> \"They are of the \" ++ lineage ++ \" lineage.\"",
            ),
        }
    }
}

/// Starts a virtual machine in which templates can be rendered.
///
/// Trusted: `gluon::new_vm` builds a machine with the language's primitives
/// loaded. Nothing is claimed of the machine.
#[verifier::external_body]
pub(crate) fn create_format_vm() -> (vm: gluon::RootedThread) {
    gluon::new_vm()
}

/// Puts into words why the template engine refused a template.
///
/// Trusted: the text is the engine's own message, through `Display`.
#[verifier::external_body]
fn error_message(error: &gluon::Error) -> (message: String) {
    format!("{}", error)
}

/// Compiles a full-name template and applies it.
///
/// Trusted: `ThreadExt::run_expr` compiles the source into a function of two
/// strings and a list of strings, and `Function::call` applies it. Either may
/// fail; nothing is claimed of what comes back.
#[verifier::external_body]
fn run_full_name<'a>(
    vm: &gluon::RootedThread,
    source: &str,
    first_name: &'a str,
    surname: &'a str,
    additional_names: Vec<&'a str>,
) -> (rendered: Result<String, gluon::Error>) {
    let (mut function, _) = vm.run_expr::<
        OwnedFunction<fn(&'a str, &'a str, Vec<&'a str>) -> String>,
    >("formatter", source)?;
    Ok(function.call(first_name, surname, additional_names)?)
}

/// Compiles a lineage-line template and applies it.
///
/// Trusted: `ThreadExt::run_expr` compiles the source into a function of one
/// string, and `Function::call` applies it. Either may fail; nothing is
/// claimed of what comes back.
#[verifier::external_body]
fn run_lineage_line<'a>(vm: &gluon::RootedThread, source: &str, lineage: &'a str) -> (rendered:
    Result<String, gluon::Error>) {
    let (mut function, _) = vm.run_expr::<OwnedFunction<fn(&'a str) -> String>>(
        "formatter",
        source,
    )?;
    Ok(function.call(lineage)?)
}

/// Turns what the engine returned into the library's own result.
fn rendered_or_error(rendered: Result<String, gluon::Error>) -> (result: Result<
    String,
    FormatError,
>)
    ensures
        rendered is Ok <==> result is Ok,
        rendered matches Ok(text) ==> result == Ok::<String, FormatError>(text),
{
    match rendered {
        Ok(text) => Ok(text),
        Err(error) => Err(FormatError { message: error_message(&error) }),
    }
}

impl Formats {
    /// Renders a full name through the `full_name` template.
    ///
    /// Whether the template renders, and to what, is decided by the template
    /// engine alone.
    pub fn format_full_name(
        &self,
        vm: &gluon::RootedThread,
        first_name: &str,
        surname: &str,
        additional_names: Vec<&str>,
    ) -> (rendered: Result<String, FormatError>) {
        rendered_or_error(
            run_full_name(vm, self.full_name.as_ref(), first_name, surname, additional_names),
        )
    }
}

impl HeritageFormats {
    /// Renders the sentence that names a lineage through the `lineage_line`
    /// template.
    ///
    /// Whether the template renders, and to what, is decided by the template
    /// engine alone.
    pub fn format_lineage_line(&self, vm: &gluon::RootedThread, lineage: &str) -> (rendered:
        Result<String, FormatError>) {
        rendered_or_error(run_lineage_line(vm, self.lineage_line.as_ref(), lineage))
    }
}

} // verus!
