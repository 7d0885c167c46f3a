use vstd::prelude::*;

verus! {

/// What the option tokenizer objected to.
#[derive(Clone, Copy, Debug, PartialEq, Eq, Structural)]
pub enum FailKind {
    /// The option requires an argument but none was passed.
    ArgumentMissing,
    /// The passed option is not declared among the possible options.
    UnrecognizedOption,
    /// A required option is not present.
    OptionMissing,
    /// A single-occurrence option was used more than once.
    OptionDuplicated,
    /// An argument was passed to an option that takes none.
    UnexpectedArgument,
}

/// A syntax error reported by the option tokenizer: its kind and the option
/// text it concerns.
#[derive(Clone, Debug)]
pub struct SyntaxError {
    pub kind: FailKind,
    pub option: String,
}

impl View for SyntaxError {
    type V = (FailKind, Seq<char>);

    open spec fn view(&self) -> (FailKind, Seq<char>) {
        (self.kind, self.option@)
    }
}

impl SyntaxError {
    pub fn new(kind: FailKind, option: String) -> (r: SyntaxError)
        ensures
            r@ == (kind, option@),
    {
        SyntaxError { kind, option }
    }

    /// The message the tokenizer gives for this error.
    pub fn message(&self) -> (r: String)
        ensures
            r@ == syntax_text(self@),
    {
        getopts_message(self)
    }
}

impl PartialEq for SyntaxError {
    fn eq(&self, o: &SyntaxError) -> (r: bool)
        ensures
            r == (self@ == o@),
    {
        self.kind == o.kind && self.option == o.option
    }
}

impl vstd::std_specs::cmp::PartialEqSpecImpl for SyntaxError {
    open spec fn obeys_eq_spec() -> bool {
        true
    }

    open spec fn eq_spec(&self, o: &SyntaxError) -> bool {
        self@ == o@
    }
}

/// The text of a tokenizer error, as the tokenizer words it.
pub open spec fn syntax_text(e: (FailKind, Seq<char>)) -> Seq<char> {
    let name = e.1;
    match e.0 {
        FailKind::ArgumentMissing => "Argument to option '"@ + name + "' missing"@,
        FailKind::UnrecognizedOption => "Unrecognized option: '"@ + name + "'"@,
        FailKind::OptionMissing => "Required option '"@ + name + "' missing"@,
        FailKind::OptionDuplicated => "Option '"@ + name + "' given more than once"@,
        FailKind::UnexpectedArgument => "Option '"@ + name + "' does not take an argument"@,
    }
}

/// Relies on the `Display` impl of `getopts::Fail`: one fixed sentence per
/// kind of failure, with the option text quoted inside it.
#[verifier::external_body]
fn getopts_message(e: &SyntaxError) -> (r: String)
    ensures
        r@ == syntax_text(e@),
{
    let name = e.option.clone();
    let fail = match e.kind {
        FailKind::ArgumentMissing => getopts::Fail::ArgumentMissing(name),
        FailKind::UnrecognizedOption => getopts::Fail::UnrecognizedOption(name),
        FailKind::OptionMissing => getopts::Fail::OptionMissing(name),
        FailKind::OptionDuplicated => getopts::Fail::OptionDuplicated(name),
        FailKind::UnexpectedArgument => getopts::Fail::UnexpectedArgument(name),
    };
    fail.to_string()
}

} // verus!
