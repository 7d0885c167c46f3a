use vstd::prelude::*;
use crate::options::same_str;
use crate::syntax::{syntax_text, FailKind, SyntaxError};

verus! {

/// A misfire is what happens instead of listing files: anything outside the
/// program's normal run, from a bad option to a request for help.
#[derive(Clone, Debug)]
pub enum Misfire {
    /// The option tokenizer rejected the arguments.
    InvalidOptions(SyntaxError),
    /// The user asked for help; this carries the usage text.
    Help(String),
    /// The user asked for the version.
    Version,
    /// Two options were given that exclude one another.
    Conflict(&'static str, &'static str),
    /// An option was given that does nothing when another one is absent
    /// (`false`) or present (`true`).
    Useless(&'static str, bool, &'static str),
    /// An option was given that does nothing unless one of two others is.
    Useless2(&'static str, &'static str, &'static str),
    /// A numeric option's value is not a number; this carries the parser's
    /// own message.
    FailedParse(String),
}

/// The mathematical content of a [`Misfire`].
pub enum MisfireView {
    InvalidOptions((FailKind, Seq<char>)),
    Help(Seq<char>),
    Version,
    Conflict(Seq<char>, Seq<char>),
    Useless(Seq<char>, bool, Seq<char>),
    Useless2(Seq<char>, Seq<char>, Seq<char>),
    FailedParse(Seq<char>),
}

impl View for Misfire {
    type V = MisfireView;

    open spec fn view(&self) -> MisfireView {
        match self {
            Misfire::InvalidOptions(e) => MisfireView::InvalidOptions(e@),
            Misfire::Help(t) => MisfireView::Help(t@),
            Misfire::Version => MisfireView::Version,
            Misfire::Conflict(a, b) => MisfireView::Conflict(a@, b@),
            Misfire::Useless(a, given, b) => MisfireView::Useless(a@, *given, b@),
            Misfire::Useless2(a, b1, b2) => MisfireView::Useless2(a@, b1@, b2@),
            Misfire::FailedParse(m) => MisfireView::FailedParse(m@),
        }
    }
}

/// What the version line is made of: the program's name, its version and the
/// identifier of the build.
#[derive(Clone, Debug)]
pub struct BuildInfo {
    pub program: String,
    pub version: String,
    pub commit: String,
}

impl View for BuildInfo {
    type V = (Seq<char>, Seq<char>, Seq<char>);

    open spec fn view(&self) -> (Seq<char>, Seq<char>, Seq<char>) {
        (self.program@, self.version@, self.commit@)
    }
}

/// The exit code of a misfire: 2 for a help request, 3 for everything else.
pub open spec fn exit_code(m: MisfireView) -> i32 {
    match m {
        MisfireView::Help(_) => 2,
        _ => 3,
    }
}

/// The one line of text that reports a misfire.
pub open spec fn misfire_text(m: MisfireView, build: (Seq<char>, Seq<char>, Seq<char>)) -> Seq<char> {
    match m {
        MisfireView::InvalidOptions(e) => syntax_text(e),
        MisfireView::Help(t) => t,
        MisfireView::Version => build.0 + " "@ + build.1 + " "@ + build.2,
        MisfireView::Conflict(a, b) => "Option --"@ + a + " conflicts with option "@ + b + "."@,
        MisfireView::Useless(a, given, b) => if given {
            "Option --"@ + a + " is useless given option --"@ + b + "."@
        } else {
            "Option --"@ + a + " is useless without option --"@ + b + "."@
        },
        MisfireView::Useless2(a, b1, b2) => "Option --"@ + a + " is useless without options --"@
            + b1 + " or --"@ + b2 + "."@,
        MisfireView::FailedParse(e) => "Failed to parse number: "@ + e,
    }
}

/// Whether a misfire is reported on standard output (a help or version
/// request) rather than on standard error.
pub open spec fn on_stdout(m: MisfireView) -> bool {
    m is Help || m is Version
}

impl Misfire {
    /// The exit code this misfire should signify.
    pub fn error_code(&self) -> (r: i32)
        ensures
            r == exit_code(self@),
            r == (if self is Help { 2i32 } else { 3i32 }),
    {
        if let Misfire::Help(_) = self {
            2
        } else {
            3
        }
    }

    /// The misfire for an option that was given a value it cannot take:
    /// reported through the tokenizer's channel, as an unrecognised option
    /// whose text is `--<option> <otherwise>`.
    pub fn bad_argument(option: &str, otherwise: &str) -> (r: Misfire)
        ensures
            r@ == MisfireView::InvalidOptions(
                (FailKind::UnrecognizedOption, "--"@ + option@ + " "@ + otherwise@),
            ),
    {
        let mut text = String::from_str("--");
        text.append(option);
        text.append(" ");
        text.append(otherwise);
        Misfire::InvalidOptions(SyntaxError::new(FailKind::UnrecognizedOption, text))
    }

    /// Whether this misfire goes to standard output rather than standard error.
    pub fn to_stdout(&self) -> (r: bool)
        ensures
            r == on_stdout(self@),
    {
        match self {
            Misfire::Help(_) | Misfire::Version => true,
            _ => false,
        }
    }

    /// The text that reports this misfire.
    pub fn render(&self, build: &BuildInfo) -> (r: String)
        ensures
            r@ == misfire_text(self@, build@),
    {
        match self {
            Misfire::InvalidOptions(e) => e.message(),
            Misfire::Help(text) => text.clone(),
            Misfire::Version => {
                let mut s = build.program.clone();
                s.append(" ");
                s.append(build.version.as_str());
                s.append(" ");
                s.append(build.commit.as_str());
                s
            },
            Misfire::Conflict(a, b) => {
                let mut s = String::from_str("Option --");
                s.append(a);
                s.append(" conflicts with option ");
                s.append(b);
                s.append(".");
                s
            },
            Misfire::Useless(a, given, b) => {
                let mut s = String::from_str("Option --");
                s.append(a);
                if *given {
                    s.append(" is useless given option --");
                } else {
                    s.append(" is useless without option --");
                }
                s.append(b);
                s.append(".");
                s
            },
            Misfire::Useless2(a, b1, b2) => {
                let mut s = String::from_str("Option --");
                s.append(a);
                s.append(" is useless without options --");
                s.append(b1);
                s.append(" or --");
                s.append(b2);
                s.append(".");
                s
            },
            Misfire::FailedParse(e) => {
                let mut s = String::from_str("Failed to parse number: ");
                s.append(e.as_str());
                s
            },
        }
    }
}

impl PartialEq for Misfire {
    fn eq(&self, o: &Misfire) -> (r: bool)
        ensures
            r == (self@ == o@),
    {
        match (self, o) {
            (Misfire::InvalidOptions(x), Misfire::InvalidOptions(y)) => x.eq(y),
            (Misfire::Help(x), Misfire::Help(y)) => x.eq(y),
            (Misfire::Version, Misfire::Version) => true,
            (Misfire::Conflict(a, b), Misfire::Conflict(c, d)) => same_str(a, c) && same_str(b, d),
            (Misfire::Useless(a, g, b), Misfire::Useless(c, h, d)) => {
                same_str(a, c) && *g == *h && same_str(b, d)
            },
            (Misfire::Useless2(a, b, c), Misfire::Useless2(d, e, f)) => {
                same_str(a, d) && same_str(b, e) && same_str(c, f)
            },
            (Misfire::FailedParse(x), Misfire::FailedParse(y)) => x.eq(y),
            _ => false,
        }
    }
}

impl vstd::std_specs::cmp::PartialEqSpecImpl for Misfire {
    open spec fn obeys_eq_spec() -> bool {
        true
    }

    open spec fn eq_spec(&self, o: &Misfire) -> bool {
        self@ == o@
    }
}

} // verus!
