use vstd::prelude::*;
use crate::misfire::{Misfire, MisfireView};
use crate::number::{int_error_text, numeral_value, parse_u64, reads_as_u64};
use crate::options::{entry, is_given, OptionSet};
use crate::syntax::{FailKind, SyntaxError};

verus! {

/// The rules between options, each list checked in its own order.
#[derive(Clone, Debug)]
pub struct Constraints {
    /// Options whose value must be a number, in the order they are read.
    pub numeric: Vec<&'static str>,
    /// Pairs of options that exclude one another.
    pub conflicts: Vec<(&'static str, &'static str)>,
    /// `(a, given, b)`: `a` does nothing when `b` is absent (`given` false)
    /// or when `b` is present (`given` true).
    pub useless: Vec<(&'static str, bool, &'static str)>,
    /// `(a, b1, b2)`: `a` does nothing unless `b1` or `b2` is given.
    pub useless2: Vec<(&'static str, &'static str, &'static str)>,
}

impl Constraints {
    /// A table with no rules.
    pub fn new() -> (r: Constraints)
        ensures
            r.numeric@.len() == 0,
            r.conflicts@.len() == 0,
            r.useless@.len() == 0,
            r.useless2@.len() == 0,
    {
        Constraints { numeric: Vec::new(), conflicts: Vec::new(), useless: Vec::new(), useless2: Vec::new() }
    }

    /// Declares `name` a numeric option, read after those declared before it.
    pub fn add_numeric(&mut self, name: &'static str)
        ensures
            final(self).numeric@ == old(self).numeric@.push(name),
            final(self).conflicts@ == old(self).conflicts@,
            final(self).useless@ == old(self).useless@,
            final(self).useless2@ == old(self).useless2@,
    {
        self.numeric.push(name);
    }

    /// Declares that `a` and `b` exclude one another.
    pub fn add_conflict(&mut self, a: &'static str, b: &'static str)
        ensures
            final(self).numeric@ == old(self).numeric@,
            final(self).conflicts@ == old(self).conflicts@.push((a, b)),
            final(self).useless@ == old(self).useless@,
            final(self).useless2@ == old(self).useless2@,
    {
        self.conflicts.push((a, b));
    }

    /// Declares that `a` does nothing when `b` is absent (`given` false) or
    /// present (`given` true).
    pub fn add_useless(&mut self, a: &'static str, given: bool, b: &'static str)
        ensures
            final(self).numeric@ == old(self).numeric@,
            final(self).conflicts@ == old(self).conflicts@,
            final(self).useless@ == old(self).useless@.push((a, given, b)),
            final(self).useless2@ == old(self).useless2@,
    {
        self.useless.push((a, given, b));
    }

    /// Declares that `a` does nothing unless `b1` or `b2` is given.
    pub fn add_useless2(&mut self, a: &'static str, b1: &'static str, b2: &'static str)
        ensures
            final(self).numeric@ == old(self).numeric@,
            final(self).conflicts@ == old(self).conflicts@,
            final(self).useless@ == old(self).useless@,
            final(self).useless2@ == old(self).useless2@.push((a, b1, b2)),
    {
        self.useless2.push((a, b1, b2));
    }
}

/// A run whose options passed every check: the numeric options that were
/// given a value, in the table's order, with their numbers.
#[derive(Clone, Debug)]
pub struct Validated {
    pub numbers: Vec<(&'static str, u64)>,
}

/// A set of options as plain values.
pub type Opts = Seq<(Seq<char>, Option<Seq<char>>)>;

/// Numeric options with the numbers read from them, in table order.
pub type Numbers = Seq<(Seq<char>, u64)>;

/// A list of numbers read as plain values.
pub open spec fn numbers_view(v: Seq<(&'static str, u64)>) -> Numbers {
    v.map_values(|e: (&'static str, u64)| (e.0@, e.1))
}

impl View for Validated {
    type V = Numbers;

    open spec fn view(&self) -> Numbers {
        numbers_view(self.numbers@)
    }
}

/// The tokenizer's result as plain values.
pub open spec fn parsed_view(p: Result<OptionSet, SyntaxError>) -> Result<Opts, (FailKind, Seq<char>)> {
    match p {
        Ok(o) => Ok(o@),
        Err(e) => Err(e@),
    }
}

/// A validation outcome as plain values.
pub open spec fn outcome_view(r: Result<Validated, Misfire>) -> Result<Numbers, MisfireView> {
    match r {
        Ok(v) => Ok(v@),
        Err(m) => Err(m@),
    }
}

/// The numbers read from the first `i` numeric options, or the parser's
/// message for the first of them whose value is not a `u64`.
pub open spec fn numbers_upto(o: Opts, ns: Seq<&'static str>, i: int) -> Result<Numbers, Seq<char>>
    decreases i,
{
    if i <= 0 {
        Ok(Seq::empty())
    } else {
        match numbers_upto(o, ns, i - 1) {
            Err(m) => Err(m),
            Ok(acc) => match entry(o, ns[i - 1]@) {
                Some(Some(v)) => if reads_as_u64(v) {
                    Ok(acc.push((ns[i - 1]@, numeral_value(v) as u64)))
                } else {
                    Err(int_error_text(v))
                },
                _ => Ok(acc),
            },
        }
    }
}

/// Whether both options of a conflict were given.
pub open spec fn conflict_fires(o: Opts, c: (&'static str, &'static str)) -> bool {
    is_given(o, c.0@) && is_given(o, c.1@)
}

/// Whether a useless-rule applies: its option was given and the other one
/// is present exactly when the rule names presence.
pub open spec fn useless_fires(o: Opts, u: (&'static str, bool, &'static str)) -> bool {
    is_given(o, u.0@) && is_given(o, u.2@) == u.1
}

/// Whether a two-option useless-rule applies: its option was given and
/// neither of the others was.
pub open spec fn useless2_fires(o: Opts, u: (&'static str, &'static str, &'static str)) -> bool {
    is_given(o, u.0@) && !is_given(o, u.1@) && !is_given(o, u.2@)
}

/// The first conflict at position `i` or later that the options break.
pub open spec fn first_conflict(o: Opts, cs: Seq<(&'static str, &'static str)>, i: int) -> Option<int>
    decreases cs.len() - i,
{
    if i < 0 || i >= cs.len() {
        None
    } else if conflict_fires(o, cs[i]) {
        Some(i)
    } else {
        first_conflict(o, cs, i + 1)
    }
}

/// The first useless-rule at position `i` or later that the options break.
pub open spec fn first_useless(o: Opts, us: Seq<(&'static str, bool, &'static str)>, i: int) -> Option<int>
    decreases us.len() - i,
{
    if i < 0 || i >= us.len() {
        None
    } else if useless_fires(o, us[i]) {
        Some(i)
    } else {
        first_useless(o, us, i + 1)
    }
}

/// The first two-option useless-rule at position `i` or later that the
/// options break.
pub open spec fn first_useless2(
    o: Opts,
    us: Seq<(&'static str, &'static str, &'static str)>,
    i: int,
) -> Option<int>
    decreases us.len() - i,
{
    if i < 0 || i >= us.len() {
        None
    } else if useless2_fires(o, us[i]) {
        Some(i)
    } else {
        first_useless2(o, us, i + 1)
    }
}

/// The outcome of the rule checks, which come after the numbers are read.
pub open spec fn rules_verdict(o: Opts, t: Constraints, nums: Numbers) -> Result<Numbers, MisfireView> {
    let cs = t.conflicts@;
    let us = t.useless@;
    let u2 = t.useless2@;
    match first_conflict(o, cs, 0) {
        Some(i) => Err(MisfireView::Conflict(cs[i].0@, cs[i].1@)),
        None => match first_useless(o, us, 0) {
            Some(i) => Err(MisfireView::Useless(us[i].0@, us[i].1, us[i].2@)),
            None => match first_useless2(o, u2, 0) {
                Some(i) => Err(MisfireView::Useless2(u2[i].0@, u2[i].1@, u2[i].2@)),
                None => Ok(nums),
            },
        },
    }
}

/// The outcome of validating a set of options: help, then version, then the
/// numbers, then conflicts, useless rules and two-option useless rules, each
/// in table order; the first one that applies decides.
pub open spec fn options_verdict(o: Opts, t: Constraints, usage: Seq<char>) -> Result<Numbers, MisfireView> {
    if is_given(o, "help"@) {
        Err(MisfireView::Help(usage))
    } else if is_given(o, "version"@) {
        Err(MisfireView::Version)
    } else {
        match numbers_upto(o, t.numeric@, t.numeric@.len() as int) {
            Err(m) => Err(MisfireView::FailedParse(m)),
            Ok(nums) => rules_verdict(o, t, nums),
        }
    }
}

/// The outcome of validating what the tokenizer returned: its syntax error
/// comes before everything else.
pub open spec fn verdict(
    p: Result<Opts, (FailKind, Seq<char>)>,
    t: Constraints,
    usage: Seq<char>,
) -> Result<Numbers, MisfireView> {
    match p {
        Err(e) => Err(MisfireView::InvalidOptions(e)),
        Ok(o) => options_verdict(o, t, usage),
    }
}

/// Once a numeric value has failed to read, later options change nothing.
proof fn lemma_numbers_err_stays(o: Opts, ns: Seq<&'static str>, i: int, j: int)
    requires
        i <= j,
        numbers_upto(o, ns, i) is Err,
    ensures
        numbers_upto(o, ns, j) == numbers_upto(o, ns, i),
    decreases j - i,
{
    if i < j {
        lemma_numbers_err_stays(o, ns, i, j - 1);
    }
}


/// Reads every numeric option that was given a value, in table order.
pub fn check_numbers(o: &OptionSet, t: &Constraints) -> (r: Result<Vec<(&'static str, u64)>, Misfire>)
    ensures
        match numbers_upto(o@, t.numeric@, t.numeric@.len() as int) {
            Ok(nums) => r matches Ok(v) && numbers_view(v@) == nums,
            Err(m) => r matches Err(f) && f@ == MisfireView::FailedParse(m),
        },
{
    let ghost ns = t.numeric@;
    let mut out: Vec<(&'static str, u64)> = Vec::new();
    let mut i: usize = 0;
    assert(numbers_view(out@) =~= Seq::<(Seq<char>, u64)>::empty());
    while i < t.numeric.len()
        invariant
            i <= ns.len(),
            ns == t.numeric@,
            numbers_upto(o@, ns, i as int) == Ok::<Numbers, Seq<char>>(numbers_view(out@)),
        decreases ns.len() - i,
    {
        let name = t.numeric[i];
        match o.lookup(name) {
            Some(j) => {
                match &o.given[j].1 {
                    Some(v) => match parse_u64(v.as_str()) {
                        Ok(n) => {
                            let ghost before = out@;
                            out.push((name, n));
                            assert(numbers_view(out@) =~= numbers_view(before).push((name@, n)));
                        },
                        Err(m) => {
                            proof {
                                lemma_numbers_err_stays(o@, ns, i + 1, ns.len() as int);
                            }
                            return Err(Misfire::FailedParse(m));
                        },
                    },
                    None => {},
                }
            },
            None => {},
        }
        i = i + 1;
    }
    Ok(out)
}


/// The first conflict in the table whose two options were both given.
pub fn find_conflict(o: &OptionSet, t: &Constraints) -> (r: Option<usize>)
    ensures
        match first_conflict(o@, t.conflicts@, 0) {
            Some(k) => r matches Some(j) && j as int == k,
            None => r is None,
        },        r matches Some(k) ==> k < t.conflicts@.len(),
{
    let mut i: usize = 0;
    while i < t.conflicts.len()
        invariant
            i <= t.conflicts@.len(),
            first_conflict(o@, t.conflicts@, 0) == first_conflict(o@, t.conflicts@, i as int),
        decreases t.conflicts@.len() - i,
    {
        let (a, b) = t.conflicts[i];
        if o.is_given(a) && o.is_given(b) {
            return Some(i);
        }
        i = i + 1;
    }
    None
}

/// The first useless-rule in the table that the options break.
pub fn find_useless(o: &OptionSet, t: &Constraints) -> (r: Option<usize>)
    ensures
        match first_useless(o@, t.useless@, 0) {
            Some(k) => r matches Some(j) && j as int == k,
            None => r is None,
        },        r matches Some(k) ==> k < t.useless@.len(),
{
    let mut i: usize = 0;
    while i < t.useless.len()
        invariant
            i <= t.useless@.len(),
            first_useless(o@, t.useless@, 0) == first_useless(o@, t.useless@, i as int),
        decreases t.useless@.len() - i,
    {
        let (a, given, b) = t.useless[i];
        if o.is_given(a) && o.is_given(b) == given {
            return Some(i);
        }
        i = i + 1;
    }
    None
}

/// The first two-option useless-rule in the table that the options break.
pub fn find_useless2(o: &OptionSet, t: &Constraints) -> (r: Option<usize>)
    ensures
        match first_useless2(o@, t.useless2@, 0) {
            Some(k) => r matches Some(j) && j as int == k,
            None => r is None,
        },        r matches Some(k) ==> k < t.useless2@.len(),
{
    let mut i: usize = 0;
    while i < t.useless2.len()
        invariant
            i <= t.useless2@.len(),
            first_useless2(o@, t.useless2@, 0) == first_useless2(o@, t.useless2@, i as int),
        decreases t.useless2@.len() - i,
    {
        let (a, b1, b2) = t.useless2[i];
        if o.is_given(a) && !o.is_given(b1) && !o.is_given(b2) {
            return Some(i);
        }
        i = i + 1;
    }
    None
}

/// Checks a set of options against the table.
pub fn validate_options(o: &OptionSet, t: &Constraints, usage: &String) -> (r: Result<Validated, Misfire>)
    ensures
        outcome_view(r) == options_verdict(o@, *t, usage@),
{
    if o.is_given("help") {
        return Err(Misfire::Help(usage.clone()));
    }
    if o.is_given("version") {
        return Err(Misfire::Version);
    }
    let numbers = match check_numbers(o, t) {
        Ok(v) => v,
        Err(m) => return Err(m),
    };
    if let Some(i) = find_conflict(o, t) {
        let (a, b) = t.conflicts[i];
        return Err(Misfire::Conflict(a, b));
    }
    if let Some(i) = find_useless(o, t) {
        let (a, given, b) = t.useless[i];
        return Err(Misfire::Useless(a, given, b));
    }
    if let Some(i) = find_useless2(o, t) {
        let (a, b1, b2) = t.useless2[i];
        return Err(Misfire::Useless2(a, b1, b2));
    }
    Ok(Validated { numbers })
}

/// Validates what the tokenizer returned: its syntax error, if any, and
/// otherwise the checks of [`validate_options`].
pub fn validate(parsed: &Result<OptionSet, SyntaxError>, t: &Constraints, usage: &String) -> (r: Result<
    Validated,
    Misfire,
>)
    ensures
        outcome_view(r) == verdict(parsed_view(*parsed), *t, usage@),
{
    match parsed {
        Err(e) => Err(Misfire::InvalidOptions(SyntaxError::new(e.kind, e.option.clone()))),
        Ok(o) => validate_options(o, t, usage),
    }
}


/// A syntax error from the tokenizer is reported before anything else,
/// whatever rules the options would otherwise break.
pub proof fn syntax_error_comes_first(e: (FailKind, Seq<char>), t: Constraints, usage: Seq<char>)
    ensures
        verdict(Err(e), t, usage) == Err::<Numbers, MisfireView>(MisfireView::InvalidOptions(e)),
{
}

/// A help request is answered even when the options also break a conflict
/// of the table.
pub proof fn help_comes_before_conflicts(o: Opts, t: Constraints, usage: Seq<char>, i: int)
    requires
        is_given(o, "help"@),
        0 <= i < t.conflicts@.len(),
        conflict_fires(o, t.conflicts@[i]),
    ensures
        verdict(Ok(o), t, usage) == Err::<Numbers, MisfireView>(MisfireView::Help(usage)),
{
}

/// Validating the same tokenizer result twice, with the same table and usage
/// text, gives the same outcome: the same misfire or the same numbers.
pub proof fn validation_is_deterministic(
    p: Result<Opts, (FailKind, Seq<char>)>,
    t: Constraints,
    usage: Seq<char>,
    r1: Result<Validated, Misfire>,
    r2: Result<Validated, Misfire>,
)
    requires
        outcome_view(r1) == verdict(p, t, usage),
        outcome_view(r2) == verdict(p, t, usage),
    ensures
        outcome_view(r1) == outcome_view(r2),
        r1 is Ok <==> r2 is Ok,
        r1 is Err ==> r1->Err_0@ == r2->Err_0@,
{
}

} // verus!
