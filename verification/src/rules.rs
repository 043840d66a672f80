//! The rule table: what to do with the windows of one application.
//!
//! A rule is found by the application's name, without regard to case. The
//! first rule that matches decides; where none matches, the default rule
//! does, which records the application when its window is fullscreen.

use vstd::prelude::*;

verus! {

/// The policy for one application.
#[derive(Debug)]
pub struct RuleEntry {
    /// The application's name, compared without regard to case.
    pub name: String,
    /// Never record this application.
    pub ignore: bool,
    /// Record only while the window covers its whole monitor.
    pub needs_fullscreen: bool,
    /// File the pictures under the window's title.
    pub use_window_name: bool,
    /// File the pictures under this name, whatever the window says.
    pub override_name: Option<String>,
}

/// A rule as a mathematical value.
pub struct RuleView {
    pub name: Seq<char>,
    pub ignore: bool,
    pub needs_fullscreen: bool,
    pub use_window_name: bool,
    pub override_name: Option<Seq<char>>,
}

/// The view of a string that may be absent.
pub open spec fn text_view(text: Option<String>) -> Option<Seq<char>> {
    match text {
        Some(s) => Some(s@),
        None => None,
    }
}

impl View for RuleEntry {
    type V = RuleView;

    open spec fn view(&self) -> RuleView {
        RuleView {
            name: self.name@,
            ignore: self.ignore,
            needs_fullscreen: self.needs_fullscreen,
            use_window_name: self.use_window_name,
            override_name: text_view(self.override_name),
        }
    }
}

/// The rule for an application that the table does not name: record it, but
/// only while it is fullscreen, under its own name.
pub open spec fn default_rule() -> RuleView {
    RuleView {
        name: Seq::empty(),
        ignore: false,
        needs_fullscreen: true,
        use_window_name: false,
        override_name: None,
    }
}

impl Default for RuleEntry {
    fn default() -> (r: RuleEntry)
        ensures
            r@ == default_rule(),
    {
        RuleEntry {
            name: String::new(),
            ignore: false,
            needs_fullscreen: true,
            use_window_name: false,
            override_name: None,
        }
    }
}

impl Clone for RuleEntry {
    fn clone(&self) -> (r: RuleEntry)
        ensures
            r@ == self@,
    {
        let override_name = match &self.override_name {
            Some(s) => Some(s.clone()),
            None => None,
        };
        RuleEntry {
            name: self.name.clone(),
            ignore: self.ignore,
            needs_fullscreen: self.needs_fullscreen,
            use_window_name: self.use_window_name,
            override_name,
        }
    }
}

/// The settings of the journal, fixed once they are loaded.
#[derive(Debug)]
pub struct Config {
    /// The folder under which all pictures are filed.
    pub target_folder: String,
    /// The seconds between two looks at the foreground window.
    pub screenshot_delay: u64,
    /// The rule table, in order of precedence.
    pub rules: Vec<RuleEntry>,
}

/// The settings as a mathematical value.
pub struct ConfigView {
    pub target_folder: Seq<char>,
    pub screenshot_delay: u64,
    pub rules: Seq<RuleView>,
}

/// The views of a table of rules, in the table's order.
pub open spec fn rules_view(rules: Seq<RuleEntry>) -> Seq<RuleView> {
    rules.map_values(|r: RuleEntry| r@)
}

impl View for Config {
    type V = ConfigView;

    open spec fn view(&self) -> ConfigView {
        ConfigView {
            target_folder: self.target_folder@,
            screenshot_delay: self.screenshot_delay,
            rules: rules_view(self.rules@),
        }
    }
}

/// The lowercase form of a text, as `str::to_lowercase` of the standard
/// library gives it.
pub uninterp spec fn lowercase_of(text: Seq<char>) -> Seq<char>;

/// `str::to_lowercase` returns the lowercase equivalent of the text as a new
/// string. The result is a function of the characters alone; this contract
/// gives it the name [`lowercase_of`] and claims no more of it.
pub assume_specification[ str::to_lowercase ](text: &str) -> (r: String)
    ensures
        r@ == lowercase_of(text@),
;

/// Whether two names are the same without regard to case.
pub open spec fn same_name(a: Seq<char>, b: Seq<char>) -> bool {
    lowercase_of(a) == lowercase_of(b)
}

/// The rule that decides for `identity`: the first one of `rules` whose name
/// is `identity` without regard to case, or the default rule.
pub open spec fn rule_for(rules: Seq<RuleView>, identity: Seq<char>) -> RuleView
    decreases rules.len(),
{
    if rules.len() == 0 {
        default_rule()
    } else if same_name(rules[0].name, identity) {
        rules[0]
    } else {
        rule_for(rules.drop_first(), identity)
    }
}

/// Whether some rule of `rules` is named `identity`.
pub open spec fn has_rule(rules: Seq<RuleView>, identity: Seq<char>) -> bool {
    exists|i: int| 0 <= i < rules.len() && same_name(#[trigger] rules[i].name, identity)
}

/// Looks up the rule for `identity` in `rules`.
pub fn find_rule(rules: &Vec<RuleEntry>, identity: &str) -> (r: RuleEntry)
    ensures
        r@ == rule_for(rules_view(rules@), identity@),
{
    let wanted = identity.to_lowercase();
    let ghost table = rules_view(rules@);
    let mut i: usize = 0;
    proof {
        assert(table.skip(0) =~= table);
    }
    while i < rules.len()
        invariant
            i <= rules.len(),
            table == rules_view(rules@),
            wanted@ == lowercase_of(identity@),
            rule_for(table, identity@) == rule_for(table.skip(i as int), identity@),
        decreases rules.len() - i,
    {
        let candidate = rules[i].name.as_str().to_lowercase();
        proof {
            assert(table.skip(i as int)[0] == rules@[i as int]@);
            assert(table.skip(i as int).drop_first() =~= table.skip(i as int + 1));
        }
        if candidate == wanted {
            return rules[i].clone();
        }
        i += 1;
    }
    RuleEntry::default()
}

/// The lookup's result is the first matching rule: the one at index `i`,
/// where no rule before `i` matches.
pub proof fn lemma_rule_for_first_match(rules: Seq<RuleView>, identity: Seq<char>, i: int)
    requires
        0 <= i < rules.len(),
        same_name(rules[i].name, identity),
        forall|j: int| 0 <= j < i ==> !same_name(#[trigger] rules[j].name, identity),
    ensures
        rule_for(rules, identity) == rules[i],
    decreases rules.len(),
{
    if i > 0 {
        assert(!same_name(rules[0].name, identity));
        let rest = rules.drop_first();
        assert forall|j: int| 0 <= j < i - 1 implies !same_name(
            #[trigger] rest[j].name,
            identity,
        ) by {
            assert(rest[j] == rules[j + 1]);
        }
        lemma_rule_for_first_match(rest, identity, i - 1);
    }
}

/// Where no rule matches, the lookup gives the default rule, which never
/// ignores and always asks for fullscreen.
pub proof fn lemma_rule_for_no_match(rules: Seq<RuleView>, identity: Seq<char>)
    requires
        !has_rule(rules, identity),
    ensures
        rule_for(rules, identity) == default_rule(),
        !rule_for(rules, identity).ignore,
        rule_for(rules, identity).needs_fullscreen,
    decreases rules.len(),
{
    if rules.len() > 0 {
        assert(!same_name(rules[0].name, identity));
        let rest = rules.drop_first();
        assert forall|j: int| 0 <= j < rest.len() implies !same_name(
            #[trigger] rest[j].name,
            identity,
        ) by {
            assert(rest[j] == rules[j + 1]);
        }
        lemma_rule_for_no_match(rest, identity);
    }
}

/// The lookup gives either a rule of the table that is named `identity`, or
/// the default rule.
pub proof fn lemma_rule_for_is_match_or_default(rules: Seq<RuleView>, identity: Seq<char>)
    ensures
        has_rule(rules, identity) ==> rules.contains(rule_for(rules, identity)) && same_name(
            rule_for(rules, identity).name,
            identity,
        ),
        !has_rule(rules, identity) ==> rule_for(rules, identity) == default_rule(),
    decreases rules.len(),
{
    if has_rule(rules, identity) {
        let i = choose|i: int| 0 <= i < rules.len() && same_name(#[trigger] rules[i].name, identity);
        if same_name(rules[0].name, identity) {
            assert(rules[0] == rule_for(rules, identity));
        } else {
            let rest = rules.drop_first();
            assert(rest[i - 1] == rules[i]);
            lemma_rule_for_is_match_or_default(rest, identity);
            let found = rule_for(rest, identity);
            let k = choose|k: int| 0 <= k < rest.len() && rest[k] == found;
            assert(rules[k + 1] == found);
        }
    } else {
        lemma_rule_for_no_match(rules, identity);
    }
}

/// The lookup does not tell apart two identities that differ in case only.
pub proof fn lemma_rule_for_ignores_case(rules: Seq<RuleView>, a: Seq<char>, b: Seq<char>)
    requires
        same_name(a, b),
    ensures
        rule_for(rules, a) == rule_for(rules, b),
    decreases rules.len(),
{
    if rules.len() > 0 {
        lemma_rule_for_ignores_case(rules.drop_first(), a, b);
    }
}

} // verus!
