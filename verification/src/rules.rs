//! The rule engine: ordered rule sets of regular expressions evaluated
//! against an account's profile fields.
//!
//! A rule ([`RegexReason`]) is a list of regular expressions that must all
//! match the same normalized field value, plus an optional human-readable
//! reason.  A rule set ([`Expr`]) holds, per profile field, an ordered list
//! of rules; the first rule in the first matching field wins, with the
//! fields tried in a fixed priority order.

use vstd::prelude::*;
use vstd::string::StrSliceExecFns;
use vstd::string::StringExecFns;

use crate::account::Account;

verus! {

#[verifier::external_type_specification]
#[verifier::external_body]
pub struct ExRegex(regex::Regex);

/// What `regex::Regex::is_match` returns: whether the regular expression
/// compiled from `pattern` matches somewhere inside `hay`.  The result is a
/// function of the two strings alone.
pub uninterp spec fn regex_accepts(pattern: Seq<char>, hay: Seq<char>) -> bool;

/// Whether `regex::Regex::new` accepts `pattern` as a valid regular
/// expression.  Compilation success is a function of the pattern alone.
pub uninterp spec fn regex_compiles(pattern: Seq<char>) -> bool;

/// Relies on `regex::Regex::clone`: the clone runs the same regular
/// expression as the original.
pub assume_specification[ <regex::Regex as Clone>::clone ](re: &regex::Regex) -> regex::Regex;

/// A compiled regular expression together with the pattern text it was
/// compiled from.  Contracts speak of the pattern text; the compiled form
/// is what the regex engine runs.  The two fields always belong together:
/// every constructor compiles `re` from `src`.
pub struct Pattern {
    re: regex::Regex,
    src: String,
}

impl View for Pattern {
    type V = Seq<char>;

    closed spec fn view(&self) -> Seq<char> {
        self.src@
    }
}

impl Pattern {
    /// Relies on `regex::Regex::new`: it compiles the pattern, failing
    /// exactly on pattern strings that are not valid regular expressions.
    #[verifier::external_body]
    pub fn compile(src: &str) -> (r: Option<Pattern>)
        ensures
            r matches Some(p) ==> p@ == src@ && regex_compiles(src@),
            r is None ==> !regex_compiles(src@),
    {
        regex::Regex::new(src).ok().map(|re| Pattern { re, src: src.to_owned() })
    }

    /// Relies on `regex::Regex::is_match`: the result depends on the pattern
    /// this value was compiled from and on the haystack alone.
    #[verifier::external_body]
    pub fn is_match(&self, hay: &str) -> (r: bool)
        ensures
            r == regex_accepts(self@, hay@),
    {
        self.re.is_match(hay)
    }

    /// The pattern text this value was compiled from.
    pub fn as_str(&self) -> (r: &str)
        ensures
            r@ == self@,
    {
        self.src.as_str()
    }
}

impl Clone for Pattern {
    /// Cloning keeps the pattern text, and clones the compiled form through
    /// the regex engine.
    fn clone(&self) -> (r: Self)
        ensures
            r@ == self@,
    {
        Pattern { re: self.re.clone(), src: self.src.clone() }
    }
}

/// The profile field a rule matched in; `Unknown` before any match.
#[derive(Clone, Copy, Debug, PartialEq, Eq, Structural)]
pub enum Locations {
    Unknown,
    Username,
    FullName,
    Biographie,
    Email,
    Website,
    Location,
}

impl Locations {
    /// A plain word for the field, for display by a front end.
    pub fn as_str(&self) -> (r: &str)
        ensures
            *self is Username ==> r@ == "username"@,
            *self is FullName ==> r@ == "full name"@,
            *self is Biographie ==> r@ == "biography"@,
            *self is Email ==> r@ == "email"@,
            *self is Website ==> r@ == "website"@,
            *self is Location ==> r@ == "location"@,
            *self is Unknown ==> r@ == "N/A"@,
    {
        match self {
            Self::Unknown => "N/A",
            Self::Username => "username",
            Self::FullName => "full name",
            Self::Biographie => "biography",
            Self::Email => "email",
            Self::Website => "website",
            Self::Location => "location",
        }
    }
}

/// The mathematical content of a rule: its pattern texts, its reason, and
/// the field it is attributed to.
pub struct RuleView {
    pub pats: Seq<Seq<char>>,
    pub reason: Option<Seq<char>>,
    pub location: Locations,
}

/// A rule: regular expressions that must all match the same normalized
/// field value, an optional reason, and — once matched — the field the
/// match was found in.
pub struct RegexReason {
    /// The regular expressions; all of them must match.
    pub re_vec: Vec<Pattern>,
    /// Optional human-readable reason.
    pub reason: Option<String>,
    /// The field the rule matched in; `Unknown` until a match is attributed.
    pub location: Locations,
}

impl View for RegexReason {
    type V = RuleView;

    open spec fn view(&self) -> RuleView {
        RuleView {
            pats: self.re_vec@.map_values(|p: Pattern| p@),
            reason: match self.reason {
                Some(s) => Some(s@),
                None => None,
            },
            location: self.location,
        }
    }
}

impl RegexReason {
    /// A new rule with no attributed field.
    pub fn new(re: Vec<Pattern>, reason: Option<String>) -> (r: Self)
        ensures
            r@.pats == re@.map_values(|p: Pattern| p@),
            r@.reason == (match reason {
                Some(s) => Some(s@),
                None => None::<Seq<char>>,
            }),
            r@.location is Unknown,
    {
        Self { re_vec: re, reason, location: Locations::Unknown }
    }

    /// Attribute the rule to the field it matched in.
    pub fn location(self, location: Locations) -> (r: Self)
        ensures
            r@.pats == self@.pats,
            r@.reason == self@.reason,
            r@.location == location,
    {
        Self { location, ..self }
    }

    /// Whether every regular expression of this rule matches `hay`, which
    /// the caller has already normalized.
    fn matches_all(&self, hay: &str) -> (r: bool)
        ensures
            r == all_accept(self@.pats, hay@),
    {
        let n = self.re_vec.len();
        for i in 0..n
            invariant
                n == self.re_vec@.len(),
                forall|j: int| 0 <= j < i ==> regex_accepts(self@.pats[j], hay@),
        {
            proof {
                assert(self@.pats[i as int] == self.re_vec@[i as int]@);
            }
            if !self.re_vec[i].is_match(hay) {
                proof {
                    assert(!regex_accepts(self@.pats[i as int], hay@));
                }
                return false;
            }
        }
        true
    }
}

impl Clone for RegexReason {
    fn clone(&self) -> (r: Self)
        ensures
            r@ == self@,
    {
        let reason = match &self.reason {
            Some(s) => Some(s.clone()),
            None => None,
        };
        let r = RegexReason {
            re_vec: clone_pattern_vec(&self.re_vec),
            reason,
            location: self.location,
        };
        r
    }
}

/// Clone a list of patterns, keeping each pattern text.
fn clone_pattern_vec(v: &Vec<Pattern>) -> (r: Vec<Pattern>)
    ensures
        r@.map_values(|p: Pattern| p@) == v@.map_values(|p: Pattern| p@),
{
    let n = v.len();
    let mut out: Vec<Pattern> = Vec::new();
    for i in 0..n
        invariant
            n == v@.len(),
            out@.len() == i,
            forall|j: int| 0 <= j < i ==> out@[j]@ == v@[j]@,
    {
        out.push(v[i].clone());
    }
    proof {
        assert(out@.map_values(|p: Pattern| p@) =~= v@.map_values(|p: Pattern| p@));
    }
    out
}

/// A field value with every line break replaced by a space: biographies
/// commonly span several lines, which would otherwise defeat whole-field
/// patterns.
pub open spec fn normalized(s: Seq<char>) -> Seq<char> {
    s.map_values(|c: char| if c == '\n' { ' ' } else { c })
}

/// Whether every pattern of `pats` matches `hay`.
pub open spec fn all_accept(pats: Seq<Seq<char>>, hay: Seq<char>) -> bool {
    forall|i: int| 0 <= i < pats.len() ==> regex_accepts(pats[i], hay)
}

/// Whether a rule with patterns `pats` matches the raw field value `value`:
/// all patterns must match the normalized value.
pub open spec fn rule_matches(pats: Seq<Seq<char>>, value: Seq<char>) -> bool {
    all_accept(pats, normalized(value))
}

/// The first rule of `rules` that matches `value`, if any.
pub open spec fn first_match(rules: Seq<RegexReason>, value: Seq<char>) -> Option<RuleView>
    decreases rules.len(),
{
    if rules.len() == 0 {
        None
    } else if rule_matches(rules[0]@.pats, value) {
        Some(rules[0]@)
    } else {
        first_match(rules.drop_first(), value)
    }
}

/// Replace every line break of `value` by a space.
pub fn normalize(value: &str) -> (r: String)
    ensures
        r@ == normalized(value@),
{
    let n = value.unicode_len();
    let mut out = String::new();
    for i in 0..n
        invariant
            n == value@.len(),
            out@ == normalized(value@.take(i as int)),
    {
        let c = value.get_char(i);
        if c == '\n' {
            out.append(" ");
            proof {
                reveal_strlit(" ");
                assert(" "@ =~= seq![' ']);
            }
        } else {
            let piece = value.substring_char(i, i + 1);
            out.append(piece);
            proof {
                assert(piece@ =~= seq![value@[i as int]]);
            }
        }
        proof {
            assert(normalized(value@.take(i as int + 1)) =~= normalized(value@.take(i as int)).push(
                if value@[i as int] == '\n' {
                    ' '
                } else {
                    value@[i as int]
                },
            ));
        }
    }
    proof {
        assert(value@.take(n as int) =~= value@);
    }
    out
}

proof fn lemma_first_match_at(rules: Seq<RegexReason>, value: Seq<char>, i: int)
    requires
        0 <= i < rules.len(),
        forall|j: int| 0 <= j < i ==> !rule_matches(rules[j]@.pats, value),
        rule_matches(rules[i]@.pats, value),
    ensures
        first_match(rules, value) == Some(rules[i]@),
    decreases i,
{
    if i > 0 {
        lemma_first_match_at(rules.drop_first(), value, i - 1);
    }
}

proof fn lemma_first_match_none(rules: Seq<RegexReason>, value: Seq<char>)
    requires
        forall|j: int| 0 <= j < rules.len() ==> !rule_matches(rules[j]@.pats, value),
    ensures
        first_match(rules, value) is None,
    decreases rules.len(),
{
    if rules.len() > 0 {
        lemma_first_match_none(rules.drop_first(), value);
    }
}

/// The first rule of `rules` matching `value`, as the engine computes it.
fn one_of(rules: &Vec<RegexReason>, value: &str) -> (r: Option<RegexReason>)
    ensures
        match r {
            Some(m) => first_match(rules@, value@) == Some(m@),
            None => first_match(rules@, value@) is None,
        },
{
    let hay = normalize(value);
    let n = rules.len();
    for i in 0..n
        invariant
            hay@ == normalized(value@),
            n == rules@.len(),
            forall|j: int| 0 <= j < i ==> !rule_matches(rules@[j]@.pats, value@),
    {
        if rules[i].matches_all(hay.as_str()) {
            proof {
                lemma_first_match_at(rules@, value@, i as int);
            }
            return Some(rules[i].clone());
        }
    }
    proof {
        lemma_first_match_none(rules@, value@);
    }
    None
}

/// A rule set: per profile field, an ordered list of rules.  Disabled rule
/// sets never match.
pub struct Expr {
    /// Whether the rule set is considered at all.
    pub enabled: bool,
    /// Rules on the username.
    pub usernames: Vec<RegexReason>,
    /// Rules on the full name.
    pub full_names: Vec<RegexReason>,
    /// Rules on the biography.
    pub biographies: Vec<RegexReason>,
    /// Rules on the email address.
    pub emails: Vec<RegexReason>,
    /// Rules on the website.
    pub websites: Vec<RegexReason>,
    /// Rules on the location.
    pub locations: Vec<RegexReason>,
}

/// The first rule of `rules` matching `value`, attributed to field `loc`.
pub open spec fn eval_field(rules: Seq<RegexReason>, value: Seq<char>, loc: Locations) -> Option<
    RuleView,
> {
    match first_match(rules, value) {
        Some(rv) => Some(RuleView { location: loc, ..rv }),
        None => None,
    }
}

impl Expr {
    /// What evaluating this rule set against `user` yields: the first
    /// matching rule of the first matching field, the fields tried in the
    /// priority order username, full name, biography, email, website,
    /// location.  A disabled rule set yields nothing.
    pub open spec fn eval(&self, user: Account) -> Option<RuleView> {
        if !self.enabled {
            None
        } else if eval_field(self.usernames@, user.username@, Locations::Username) is Some {
            eval_field(self.usernames@, user.username@, Locations::Username)
        } else if eval_field(self.full_names@, user.full_name@, Locations::FullName) is Some {
            eval_field(self.full_names@, user.full_name@, Locations::FullName)
        } else if eval_field(self.biographies@, user.biography@, Locations::Biographie) is Some {
            eval_field(self.biographies@, user.biography@, Locations::Biographie)
        } else if eval_field(self.emails@, user.email@, Locations::Email) is Some {
            eval_field(self.emails@, user.email@, Locations::Email)
        } else if eval_field(self.websites@, user.website@, Locations::Website) is Some {
            eval_field(self.websites@, user.website@, Locations::Website)
        } else if eval_field(self.locations@, user.location@, Locations::Location) is Some {
            eval_field(self.locations@, user.location@, Locations::Location)
        } else {
            None
        }
    }

    /// Evaluate this rule set against `user`, returning the first matching
    /// rule annotated with the field it matched in.
    pub fn is_match(&self, user: &Account) -> (r: Option<RegexReason>)
        ensures
            match r {
                Some(m) => self.eval(*user) == Some(m@),
                None => self.eval(*user) is None,
            },
    {
        if !self.enabled {
            return None;
        }
        if let Some(m) = one_of(&self.usernames, user.username.as_str()) {
            return Some(m.location(Locations::Username));
        }
        if let Some(m) = one_of(&self.full_names, user.full_name.as_str()) {
            return Some(m.location(Locations::FullName));
        }
        if let Some(m) = one_of(&self.biographies, user.biography.as_str()) {
            return Some(m.location(Locations::Biographie));
        }
        if let Some(m) = one_of(&self.emails, user.email.as_str()) {
            return Some(m.location(Locations::Email));
        }
        if let Some(m) = one_of(&self.websites, user.website.as_str()) {
            return Some(m.location(Locations::Website));
        }
        if let Some(m) = one_of(&self.locations, user.location.as_str()) {
            return Some(m.location(Locations::Location));
        }
        None
    }
}

impl Default for Expr {
    /// A disabled rule set with no rules: absent configuration matches
    /// nothing.
    fn default() -> (r: Self)
        ensures
            !r.enabled,
            r.usernames@.len() == 0,
            r.full_names@.len() == 0,
            r.biographies@.len() == 0,
            r.emails@.len() == 0,
            r.websites@.len() == 0,
            r.locations@.len() == 0,
    {
        Expr {
            enabled: false,
            usernames: Vec::new(),
            full_names: Vec::new(),
            biographies: Vec::new(),
            emails: Vec::new(),
            websites: Vec::new(),
            locations: Vec::new(),
        }
    }
}

/// First match wins: when the first rule of a list matches a value, the
/// list's evaluation returns exactly that rule, whatever the later rules
/// would say of the same value.
pub proof fn lemma_first_match_wins(rules: Seq<RegexReason>, value: Seq<char>)
    requires
        rules.len() > 0,
        rule_matches(rules[0]@.pats, value),
    ensures
        first_match(rules, value) == Some(rules[0]@),
{
}

/// Every regular expression of a rule must match: if any one of them
/// rejects the normalized value, the rule as a whole does not match.
pub proof fn lemma_rule_needs_all(pats: Seq<Seq<char>>, value: Seq<char>, i: int)
    requires
        0 <= i < pats.len(),
        !regex_accepts(pats[i], normalized(value)),
    ensures
        !rule_matches(pats, value),
{
}

/// Field priority: when an enabled rule set has a matching username rule,
/// the evaluation reports that rule in the username field, whatever the
/// other fields would match.
pub proof fn lemma_field_priority(e: Expr, user: Account)
    requires
        e.enabled,
        first_match(e.usernames@, user.username@) is Some,
    ensures
        e.eval(user) is Some,
        e.eval(user)->Some_0.location is Username,
        e.eval(user)->Some_0.pats == first_match(e.usernames@, user.username@)->Some_0.pats,
        e.eval(user)->Some_0.reason == first_match(e.usernames@, user.username@)->Some_0.reason,
{
}

} // verus!
