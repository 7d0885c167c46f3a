use vstd::prelude::*;

verus! {

/// The options that the tokenizer found, in the order it found them: each
/// name with its value, or with none for a flag.
#[derive(Clone, Debug)]
pub struct OptionSet {
    pub given: Vec<(String, Option<String>)>,
}

/// One entry of an option set as plain values.
pub open spec fn entry_view(e: (String, Option<String>)) -> (Seq<char>, Option<Seq<char>>) {
    (
        e.0@,
        match e.1 {
            Some(v) => Some(v@),
            None => None,
        },
    )
}

impl View for OptionSet {
    type V = Seq<(Seq<char>, Option<Seq<char>>)>;

    open spec fn view(&self) -> Seq<(Seq<char>, Option<Seq<char>>)> {
        self.given@.map_values(|e: (String, Option<String>)| entry_view(e))
    }
}

/// The first entry for `name` at position `j` or later: `None` when there is
/// none, else the value it carries (`None` for a flag).
pub open spec fn entry_from(
    opts: Seq<(Seq<char>, Option<Seq<char>>)>,
    name: Seq<char>,
    j: int,
) -> Option<Option<Seq<char>>>
    decreases opts.len() - j,
{
    if j >= opts.len() {
        None
    } else if opts[j].0 == name {
        Some(opts[j].1)
    } else {
        entry_from(opts, name, j + 1)
    }
}

/// What was given for `name`: `None` when it is absent.
pub open spec fn entry(opts: Seq<(Seq<char>, Option<Seq<char>>)>, name: Seq<char>) -> Option<
    Option<Seq<char>>,
> {
    entry_from(opts, name, 0)
}

/// Whether `name` was given at all.
pub open spec fn is_given(opts: Seq<(Seq<char>, Option<Seq<char>>)>, name: Seq<char>) -> bool {
    entry(opts, name) is Some
}

/// Whether two option names are the same text.
pub fn same_str(a: &str, b: &str) -> (r: bool)
    ensures
        r == (a@ == b@),
{
    let x = String::from_str(a);
    let y = String::from_str(b);
    x == y
}

impl OptionSet {
    /// An empty option set.
    pub fn new() -> (r: OptionSet)
        ensures
            r@ == Seq::<(Seq<char>, Option<Seq<char>>)>::empty(),
    {
        OptionSet { given: Vec::new() }
    }

    /// Records a flag given without a value.
    pub fn push_flag(&mut self, name: String)
        ensures
            final(self)@ == old(self)@.push((name@, None)),
    {
        self.given.push((name, None));
        assert(final(self)@ =~= old(self)@.push((name@, None)));
    }

    /// Records an option given with a value.
    pub fn push_value(&mut self, name: String, value: String)
        ensures
            final(self)@ == old(self)@.push((name@, Some(value@))),
    {
        self.given.push((name, Some(value)));
        assert(final(self)@ =~= old(self)@.push((name@, Some(value@))));
    }

    /// The position of the first entry for `name`, if there is one.
    pub fn lookup(&self, name: &str) -> (r: Option<usize>)
        ensures
            match r {
                Some(j) => j < self@.len() && self@[j as int].0 == name@ && entry(self@, name@)
                    == Some(self@[j as int].1),
                None => entry(self@, name@) is None,
            },
    {
        let mut j: usize = 0;
        while j < self.given.len()
            invariant
                j <= self.given@.len(),
                entry(self@, name@) == entry_from(self@, name@, j as int),
            decreases self.given@.len() - j,
        {
            if same_str(self.given[j].0.as_str(), name) {
                return Some(j);
            }
            j = j + 1;
        }
        None
    }

    /// Whether `name` was given.
    pub fn is_given(&self, name: &str) -> (r: bool)
        ensures
            r == is_given(self@, name@),
    {
        self.lookup(name).is_some()
    }
}

} // verus!
