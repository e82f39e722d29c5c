//! Case-insensitive regular expressions for the subdomain name blacklist.
use vstd::prelude::*;
use crate::settings::ExtensionSettingsData;
use crate::text::{chars_of, extend_chars, string_of};

verus! {

#[verifier::external_type_specification]
#[verifier::external_body]
pub struct ExRegex(regex::Regex);

/// What building `pattern` with `regex::RegexBuilder::new(pattern)
/// .case_insensitive(true).build()` gives: `None` when it compiles, else the
/// error's `Display` text.
pub uninterp spec fn regex_ci_build_error(pattern: Seq<char>) -> Option<Seq<char>>;

/// What `Regex::is_match(text)` gives for the case-insensitive regex built
/// from `pattern`.
pub uninterp spec fn regex_ci_match(pattern: Seq<char>, text: Seq<char>) -> bool;

/// A pattern together with the case-insensitive regex compiled from it.
/// Only [`compile_ci`] creates values of this type.
pub struct CompiledPattern {
    source: String,
    regex: regex::Regex,
}

impl CompiledPattern {
    /// The pattern this regex was compiled from.
    pub closed spec fn spec_source(&self) -> Seq<char> {
        self.source@
    }

    /// The pattern text.
    pub fn source(&self) -> (res: &str)
        ensures
            res@ == self.spec_source(),
    {
        self.source.as_str()
    }
}

/// Compiles a pattern case-insensitively with `regex::RegexBuilder`; the
/// contract names whether it compiles and the error text, without stating
/// the regex syntax.
#[verifier::external_body]
pub(crate) fn compile_ci(pattern: &str) -> (res: Result<CompiledPattern, String>)
    ensures
        match res {
            Ok(c) => regex_ci_build_error(pattern@) is None && c.spec_source() == pattern@,
            Err(e) => regex_ci_build_error(pattern@) == Some(e@),
        },
{
    match regex::RegexBuilder::new(pattern).case_insensitive(true).build() {
        Ok(regex) => Ok(CompiledPattern { source: pattern.to_string(), regex }),
        Err(err) => Err(err.to_string()),
    }
}

/// `Regex::is_match` of a compiled pattern; the contract names the outcome
/// without stating the matching rules.
#[verifier::external_body]
pub(crate) fn pattern_matches(pattern: &CompiledPattern, text: &str) -> (res: bool)
    ensures
        res == regex_ci_match(pattern.spec_source(), text@),
{
    pattern.regex.is_match(text)
}

/// The patterns of a list that compile, in order.
pub open spec fn valid_patterns(patterns: Seq<Seq<char>>) -> Seq<Seq<char>>
    decreases patterns.len(),
{
    if patterns.len() == 0 {
        seq![]
    } else {
        let rest = valid_patterns(patterns.drop_last());
        if regex_ci_build_error(patterns.last()) is None {
            rest.push(patterns.last())
        } else {
            rest
        }
    }
}

/// Law: the compiled blacklist holds every entry that compiles, and only
/// entries of the list that compile - an entry is never dropped for another
/// reason.
pub proof fn law_valid_patterns_keep_every_compiling_entry(patterns: Seq<Seq<char>>)
    ensures
        forall|i: int|
            0 <= i < patterns.len() && regex_ci_build_error(#[trigger] patterns[i]) is None
                ==> valid_patterns(patterns).contains(patterns[i]),
        forall|k: int|
            0 <= k < valid_patterns(patterns).len() ==> patterns.contains(
                #[trigger] valid_patterns(patterns)[k],
            ) && regex_ci_build_error(valid_patterns(patterns)[k]) is None,
    decreases patterns.len(),
{
    if patterns.len() > 0 {
        let rest = patterns.drop_last();
        law_valid_patterns_keep_every_compiling_entry(rest);
        let v = valid_patterns(patterns);
        let rv = valid_patterns(rest);
        assert forall|i: int|
            0 <= i < patterns.len() && regex_ci_build_error(#[trigger] patterns[i]) is None
                implies v.contains(patterns[i]) by {
            if i < patterns.len() - 1 {
                assert(rest[i] == patterns[i]);
                let j = choose|j: int| 0 <= j < rv.len() && rv[j] == rest[i];
                if regex_ci_build_error(patterns.last()) is None {
                    assert(v[j] == rv[j]);
                } else {
                    assert(v[j] == rv[j]);
                }
            } else {
                assert(v[v.len() - 1] == patterns.last());
            }
        }
        assert forall|k: int| 0 <= k < v.len() implies patterns.contains(#[trigger] v[k])
            && regex_ci_build_error(v[k]) is None by {
            if k < rv.len() {
                assert(v[k] == rv[k]);
                let j = choose|j: int| 0 <= j < rest.len() && rest[j] == rv[k];
                assert(patterns[j] == rest[j]);
            } else {
                assert(v[k] == patterns.last());
                assert(patterns[patterns.len() - 1] == patterns.last());
            }
        }
    }
}

/// The sources of compiled patterns.
pub open spec fn sources(v: Seq<CompiledPattern>) -> Seq<Seq<char>> {
    v.map_values(|c: CompiledPattern| c.spec_source())
}

/// The views of a list of strings.
pub open spec fn views(v: Seq<String>) -> Seq<Seq<char>> {
    v.map_values(|s: String| s@)
}

impl ExtensionSettingsData {
    /// Compiles the configured blacklist patterns. Invalid patterns are
    /// skipped here - they are rejected at write time by the settings route.
    pub fn compiled_blacklist(&self) -> (res: Vec<CompiledPattern>)
        ensures
            sources(res@) == valid_patterns(views(self.blacklist@)),
    {
        let mut res: Vec<CompiledPattern> = Vec::new();
        let mut i: usize = 0;
        while i < self.blacklist.len()
            invariant
                i <= self.blacklist@.len(),
                sources(res@) == valid_patterns(views(self.blacklist@).take(i as int)),
            decreases self.blacklist@.len() - i,
        {
            let ghost all = views(self.blacklist@);
            assert(all.take(i + 1).drop_last() == all.take(i as int));
            assert(all.take(i + 1).last() == self.blacklist@[i as int]@);
            let ghost before = res@;
            match compile_ci(self.blacklist[i].as_str()) {
                Ok(c) => {
                    res.push(c);
                    assert(sources(res@) =~= sources(before).push(self.blacklist@[i as int]@));
                },
                Err(_) => {},
            }
            i = i + 1;
        }
        assert(views(self.blacklist@).take(self.blacklist@.len() as int) == views(
            self.blacklist@,
        ));
        res
    }
}

/// Whether a name matches any blacklist pattern.
pub fn is_blacklisted(patterns: &[CompiledPattern], name: &str) -> (res: bool)
    ensures
        res == exists|i: int|
            0 <= i < patterns@.len() && regex_ci_match(#[trigger] patterns@[i].spec_source(), name@),
{
    let mut i: usize = 0;
    while i < patterns.len()
        invariant
            i <= patterns@.len(),
            forall|j: int| 0 <= j < i ==> !regex_ci_match(#[trigger] patterns@[j].spec_source(), name@),
        decreases patterns@.len() - i,
    {
        if pattern_matches(&patterns[i], name) {
            return true;
        }
        i = i + 1;
    }
    false
}

/// The complaint about one blacklist entry that does not compile.
pub open spec fn invalid_entry_message(pattern: Seq<char>, error: Seq<char>) -> Seq<char> {
    "blacklist entry `"@ + pattern + "` is not a valid regex: "@ + error
}

/// Complaints about the entries that do not compile, in order.
pub open spec fn invalid_entry_messages(patterns: Seq<Seq<char>>) -> Seq<Seq<char>>
    decreases patterns.len(),
{
    if patterns.len() == 0 {
        seq![]
    } else {
        let rest = invalid_entry_messages(patterns.drop_last());
        match regex_ci_build_error(patterns.last()) {
            Some(e) => rest.push(invalid_entry_message(patterns.last(), e)),
            None => rest,
        }
    }
}

} // verus!

verus! {

/// One complaint for every blacklist entry that is not a valid regex.
pub fn blacklist_errors(blacklist: &[String]) -> (res: Vec<String>)
    ensures
        views(res@) == invalid_entry_messages(views(blacklist@)),
{
    let mut res: Vec<String> = Vec::new();
    let mut i: usize = 0;
    while i < blacklist.len()
        invariant
            i <= blacklist@.len(),
            views(res@) == invalid_entry_messages(views(blacklist@).take(i as int)),
        decreases blacklist@.len() - i,
    {
        let ghost all = views(blacklist@);
        assert(all.take(i + 1).drop_last() == all.take(i as int));
        assert(all.take(i + 1).last() == blacklist@[i as int]@);
        let ghost before = res@;
        match compile_ci(blacklist[i].as_str()) {
            Ok(_) => {},
            Err(e) => {
                let mut text = chars_of("blacklist entry `");
                extend_chars(&mut text, &chars_of(blacklist[i].as_str()));
                extend_chars(&mut text, &chars_of("` is not a valid regex: "));
                extend_chars(&mut text, &chars_of(e.as_str()));
                res.push(string_of(&text));
                assert(views(res@) =~= views(before).push(
                    invalid_entry_message(blacklist@[i as int]@, e@),
                ));
            },
        }
        i = i + 1;
    }
    assert(views(blacklist@).take(blacklist@.len() as int) == views(blacklist@));
    res
}

} // verus!
