//! Regular expressions over property names, compiled by the `regex` crate.
use vstd::prelude::*;

verus! {

#[verifier::external_type_specification]
#[verifier::external_body]
pub struct ExRegex(regex::Regex);

/// Whether the `regex` crate accepts `pattern`.
pub uninterp spec fn regex_accepts(pattern: Seq<char>) -> bool;

/// Whether the regular expression `pattern` matches somewhere in `text`.
pub uninterp spec fn regex_matches(pattern: Seq<char>, text: Seq<char>) -> bool;

/// A compiled regular expression, together with its source text.
pub struct Pattern {
    source: String,
    regex: regex::Regex,
}

impl Pattern {
    /// The source text the pattern was compiled from.
    pub closed spec fn source(&self) -> Seq<char> {
        self.source@
    }

    /// Compiles `source`; `None` where it is not a valid regular expression.
    /// Relies on regex::Regex::new.
    #[verifier::external_body]
    pub(crate) fn new(source: &String) -> (r: Option<Pattern>)
        ensures
            r is Some <==> regex_accepts(source@),
            r matches Some(p) ==> p.source() == source@,
    {
        match regex::Regex::new(source) {
            Ok(regex) => Some(Pattern { source: source.clone(), regex }),
            Err(_) => None,
        }
    }

    /// Whether the pattern matches somewhere in `text`.
    /// Relies on regex::Regex::is_match.
    #[verifier::external_body]
    pub(crate) fn is_match(&self, text: &str) -> (r: bool)
        ensures
            r == regex_matches(self.source(), text@),
    {
        self.regex.is_match(text)
    }

    /// The source text of the pattern.
    pub fn as_str(&self) -> (r: &str)
        ensures
            r@ == self.source(),
    {
        self.source.as_str()
    }
}

/// The alternation of `names`: the names joined by `|`.
pub open spec fn spec_alternation(names: Seq<Seq<char>>) -> Seq<char>
    decreases names.len(),
{
    if names.len() == 0 {
        Seq::empty()
    } else if names.len() == 1 {
        names[0]
    } else {
        spec_alternation(names.drop_last()) + "|"@ + names.last()
    }
}

/// Joins `names` with `|` into one alternation.
pub fn alternation(names: &Vec<String>) -> (r: String)
    ensures
        r@ == spec_alternation(names@.map_values(|n: String| n@)),
{
    let ghost views = names@.map_values(|n: String| n@);
    let mut out = String::new();
    let mut i: usize = 0;
    while i < names.len()
        invariant
            0 <= i <= names@.len(),
            views == names@.map_values(|n: String| n@),
            out@ == spec_alternation(views.take(i as int)),
        decreases names@.len() - i,
    {
        proof {
            assert(views.take(i + 1).drop_last() =~= views.take(i as int));
            reveal_strlit("|");
        }
        if i > 0 {
            out.append("|");
        }
        out.append(names[i].as_str());
        i = i + 1;
    }
    assert(views.take(i as int) =~= views);
    out
}

} // verus!
