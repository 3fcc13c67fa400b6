//! Routing rules and their one-line text form.
use vstd::prelude::*;
use vstd::string::*;
use crate::text::{concat, concat3, text_eq};

verus! {

/// What a routing rule matches on.
#[derive(Clone, Copy, Debug, PartialEq, Eq, Structural)]
pub enum RuleTag {
    Domain,
    DomainSuffix,
    DomainRegex,
    DomainKeyword,
    IpCIDR,
    IpCIDR6,
    IpAsn,
    RuleSet,
    GeoIp,
    Match,
}

impl DeepView for RuleTag {
    type V = RuleTag;

    open spec fn deep_view(&self) -> RuleTag {
        *self
    }
}

impl RuleTag {
    /// The keyword that opens a rule line of this kind.
    pub open spec fn spec_keyword(self) -> Seq<char> {
        match self {
            RuleTag::Domain => "DOMAIN"@,
            RuleTag::DomainSuffix => "DOMAIN-SUFFIX"@,
            RuleTag::DomainRegex => "DOMAIN-REGEX"@,
            RuleTag::DomainKeyword => "DOMAIN-KEYWORD"@,
            RuleTag::IpCIDR => "IP-CIDR"@,
            RuleTag::IpCIDR6 => "IP-CIDR6"@,
            RuleTag::IpAsn => "IP-ASN"@,
            RuleTag::RuleSet => "RULE-SET"@,
            RuleTag::GeoIp => "GEOIP"@,
            RuleTag::Match => "MATCH"@,
        }
    }

    /// The keyword that opens a rule line of this kind.
    pub fn keyword(&self) -> (r: &'static str)
        ensures
            r@ == self.spec_keyword(),
    {
        match self {
            RuleTag::Domain => "DOMAIN",
            RuleTag::DomainSuffix => "DOMAIN-SUFFIX",
            RuleTag::DomainRegex => "DOMAIN-REGEX",
            RuleTag::DomainKeyword => "DOMAIN-KEYWORD",
            RuleTag::IpCIDR => "IP-CIDR",
            RuleTag::IpCIDR6 => "IP-CIDR6",
            RuleTag::IpAsn => "IP-ASN",
            RuleTag::RuleSet => "RULE-SET",
            RuleTag::GeoIp => "GEOIP",
            RuleTag::Match => "MATCH",
        }
    }
}

/// One routing rule: traffic that matches `value` under `tag` goes to
/// `target`. A `Match` rule matches everything and its value is unused.
#[derive(Clone, Debug)]
pub struct Rule {
    pub tag: RuleTag,
    pub value: String,
    pub target: String,
}

/// A rule with its texts as character sequences.
pub struct RuleView {
    pub tag: RuleTag,
    pub value: Seq<char>,
    pub target: Seq<char>,
}

impl DeepView for Rule {
    type V = RuleView;

    open spec fn deep_view(&self) -> RuleView {
        RuleView { tag: self.tag, value: self.value@, target: self.target@ }
    }
}

/// The line that stands for a rule in the generated document:
/// `TAG,value,target`, or `MATCH,target` for the catch-all rule.
pub open spec fn rule_line(r: RuleView) -> Seq<char> {
    if r.tag == RuleTag::Match {
        r.tag.spec_keyword() + ","@ + r.target
    } else {
        r.tag.spec_keyword() + ","@ + r.value + ","@ + r.target
    }
}

impl Rule {
    /// The line that stands for this rule in the generated document.
    pub fn to_line(&self) -> (r: String)
        ensures
            r@ == rule_line(self.deep_view()),
    {
        let head = concat(self.tag.keyword(), ",");
        if self.tag == RuleTag::Match {
            concat(head.as_str(), self.target.as_str())
        } else {
            concat3(head.as_str(), self.value.as_str(), ",")
                .concat(self.target.as_str())
        }
    }
}

/// The fields of a line: the texts between commas, in order. A line with
/// no comma is one field.
pub open spec fn split_fields(s: Seq<char>) -> Seq<Seq<char>>
    decreases s.len(),
{
    if s.len() == 0 {
        seq![Seq::empty()]
    } else {
        let earlier = split_fields(s.drop_last());
        if s.last() == ',' {
            earlier.push(Seq::empty())
        } else {
            earlier.update(earlier.len() - 1, earlier.last().push(s.last()))
        }
    }
}

/// The kind of rule that a line keyword opens, if it is one.
pub open spec fn tag_of_keyword(k: Seq<char>) -> Option<RuleTag> {
    if k == "DOMAIN"@ {
        Some(RuleTag::Domain)
    } else if k == "DOMAIN-SUFFIX"@ {
        Some(RuleTag::DomainSuffix)
    } else if k == "DOMAIN-REGEX"@ {
        Some(RuleTag::DomainRegex)
    } else if k == "DOMAIN-KEYWORD"@ {
        Some(RuleTag::DomainKeyword)
    } else if k == "IP-CIDR"@ {
        Some(RuleTag::IpCIDR)
    } else if k == "IP-CIDR6"@ {
        Some(RuleTag::IpCIDR6)
    } else if k == "IP-ASN"@ {
        Some(RuleTag::IpAsn)
    } else if k == "RULE-SET"@ {
        Some(RuleTag::RuleSet)
    } else if k == "GEOIP"@ {
        Some(RuleTag::GeoIp)
    } else if k == "MATCH"@ {
        Some(RuleTag::Match)
    } else {
        None
    }
}

/// The rule that a line stands for: a known keyword, then the value and
/// the target (the target alone for `MATCH`); further fields are ignored.
/// A line with an unknown keyword or too few fields stands for none.
pub open spec fn parse_rule_line(s: Seq<char>) -> Option<RuleView> {
    let f = split_fields(s);
    match tag_of_keyword(f[0]) {
        None => None,
        Some(RuleTag::Match) => if f.len() >= 2 {
            Some(RuleView { tag: RuleTag::Match, value: Seq::empty(), target: f[1] })
        } else {
            None
        },
        Some(t) => if f.len() >= 3 {
            Some(RuleView { tag: t, value: f[1], target: f[2] })
        } else {
            None
        },
    }
}

/// A line always has at least one field.
pub proof fn lemma_split_nonempty(s: Seq<char>)
    ensures
        split_fields(s).len() >= 1,
    decreases s.len(),
{
    if s.len() > 0 {
        lemma_split_nonempty(s.drop_last());
    }
}

/// A text without a comma is a single field.
pub proof fn lemma_split_no_comma(s: Seq<char>)
    requires
        !s.contains(','),
    ensures
        split_fields(s) == seq![s],
    decreases s.len(),
{
    if s.len() > 0 {
        assert(!s.drop_last().contains(',')) by {
            if s.drop_last().contains(',') {
                let j = choose|j: int| 0 <= j < s.drop_last().len() && s.drop_last()[j] == ',';
                assert(s[j] == ',');
            }
        }
        lemma_split_no_comma(s.drop_last());
        assert(s.last() != ',') by {
            assert(s[s.len() - 1] == s.last());
        }
        assert(s.drop_last().push(s.last()) =~= s);
        assert(split_fields(s) =~= seq![s]);
    } else {
        assert(s =~= Seq::<char>::empty());
    }
}

/// Joining two texts with a comma joins their fields.
pub proof fn lemma_split_concat(a: Seq<char>, b: Seq<char>)
    ensures
        split_fields(a + seq![','] + b) == split_fields(a) + split_fields(b),
    decreases b.len(),
{
    lemma_split_nonempty(a);
    if b.len() == 0 {
        assert((a + seq![','] + b).drop_last() =~= a);
        assert(split_fields(a) + split_fields(b) =~= split_fields(a).push(Seq::empty()));
    } else {
        let c = b.last();
        lemma_split_concat(a, b.drop_last());
        lemma_split_nonempty(b.drop_last());
        assert((a + seq![','] + b).drop_last() =~= a + seq![','] + b.drop_last());
        assert((a + seq![','] + b).last() == c);
        let sa = split_fields(a);
        let sb = split_fields(b.drop_last());
        if c == ',' {
            assert(split_fields(a + seq![','] + b) =~= (sa + sb).push(Seq::empty()));
            assert((sa + sb).push(Seq::empty()) =~= sa + sb.push(Seq::empty()));
        } else {
            assert((sa + sb).update((sa + sb).len() - 1, (sa + sb).last().push(c)) =~= sa + sb.update(
                sb.len() - 1,
                sb.last().push(c),
            ));
        }
    }
}

/// Every keyword leads back to its kind of rule, and holds no comma.
pub proof fn lemma_keyword(t: RuleTag)
    ensures
        tag_of_keyword(t.spec_keyword()) == Some(t),
        !t.spec_keyword().contains(','),
{
    reveal_strlit("DOMAIN");
    reveal_strlit("DOMAIN-SUFFIX");
    reveal_strlit("DOMAIN-REGEX");
    reveal_strlit("DOMAIN-KEYWORD");
    reveal_strlit("IP-CIDR");
    reveal_strlit("IP-CIDR6");
    reveal_strlit("IP-ASN");
    reveal_strlit("RULE-SET");
    reveal_strlit("GEOIP");
    reveal_strlit("MATCH");
    let k = t.spec_keyword();
    assert(!k.contains(',')) by {
        if k.contains(',') {
            let j = choose|j: int| 0 <= j < k.len() && k[j] == ',';
            assert(k[j] == ',');
        }
    }
    match t {
        RuleTag::Domain => {
            assert(tag_of_keyword(k) == Some(t));
        },
        RuleTag::DomainSuffix => {
            assert(k.len() != "DOMAIN"@.len());
            assert(tag_of_keyword(k) == Some(t));
        },
        RuleTag::DomainRegex => {
            assert(k.len() != "DOMAIN"@.len());
            assert(k.len() != "DOMAIN-SUFFIX"@.len());
            assert(tag_of_keyword(k) == Some(t));
        },
        RuleTag::DomainKeyword => {
            assert(k.len() != "DOMAIN"@.len());
            assert(k.len() != "DOMAIN-SUFFIX"@.len());
            assert(k.len() != "DOMAIN-REGEX"@.len());
            assert(tag_of_keyword(k) == Some(t));
        },
        RuleTag::IpCIDR => {
            assert(k.len() != "DOMAIN"@.len());
            assert(k.len() != "DOMAIN-SUFFIX"@.len());
            assert(k.len() != "DOMAIN-REGEX"@.len());
            assert(k.len() != "DOMAIN-KEYWORD"@.len());
            assert(tag_of_keyword(k) == Some(t));
        },
        RuleTag::IpCIDR6 => {
            assert(k.len() != "DOMAIN"@.len());
            assert(k.len() != "DOMAIN-SUFFIX"@.len());
            assert(k.len() != "DOMAIN-REGEX"@.len());
            assert(k.len() != "DOMAIN-KEYWORD"@.len());
            assert(k.len() != "IP-CIDR"@.len());
            assert(tag_of_keyword(k) == Some(t));
        },
        RuleTag::IpAsn => {
            assert(k[0] != "DOMAIN"@[0]);
            assert(k.len() != "DOMAIN-SUFFIX"@.len());
            assert(k.len() != "DOMAIN-REGEX"@.len());
            assert(k.len() != "DOMAIN-KEYWORD"@.len());
            assert(k.len() != "IP-CIDR"@.len());
            assert(k.len() != "IP-CIDR6"@.len());
            assert(tag_of_keyword(k) == Some(t));
        },
        RuleTag::RuleSet => {
            assert(k.len() != "DOMAIN"@.len());
            assert(k.len() != "DOMAIN-SUFFIX"@.len());
            assert(k.len() != "DOMAIN-REGEX"@.len());
            assert(k.len() != "DOMAIN-KEYWORD"@.len());
            assert(k.len() != "IP-CIDR"@.len());
            assert(k[0] != "IP-CIDR6"@[0]);
            assert(k.len() != "IP-ASN"@.len());
            assert(tag_of_keyword(k) == Some(t));
        },
        RuleTag::GeoIp => {
            assert(k.len() != "DOMAIN"@.len());
            assert(k.len() != "DOMAIN-SUFFIX"@.len());
            assert(k.len() != "DOMAIN-REGEX"@.len());
            assert(k.len() != "DOMAIN-KEYWORD"@.len());
            assert(k.len() != "IP-CIDR"@.len());
            assert(k.len() != "IP-CIDR6"@.len());
            assert(k.len() != "IP-ASN"@.len());
            assert(k.len() != "RULE-SET"@.len());
            assert(tag_of_keyword(k) == Some(t));
        },
        RuleTag::Match => {
            assert(k.len() != "DOMAIN"@.len());
            assert(k.len() != "DOMAIN-SUFFIX"@.len());
            assert(k.len() != "DOMAIN-REGEX"@.len());
            assert(k.len() != "DOMAIN-KEYWORD"@.len());
            assert(k.len() != "IP-CIDR"@.len());
            assert(k.len() != "IP-CIDR6"@.len());
            assert(k.len() != "IP-ASN"@.len());
            assert(k.len() != "RULE-SET"@.len());
            assert(k[0] != "GEOIP"@[0]);
            assert(tag_of_keyword(k) == Some(t));
        },
    }
}

/// Reading back the line of a rule gives the rule, when its value and
/// target hold no comma (and a catch-all rule has an empty value, which
/// its line does not carry).
pub proof fn lemma_line_round_trip(r: RuleView)
    requires
        !r.value.contains(','),
        !r.target.contains(','),
        r.tag == RuleTag::Match ==> r.value.len() == 0,
    ensures
        parse_rule_line(rule_line(r)) == Some(r),
{
    reveal_strlit(",");
    assert(","@ =~= seq![',']);
    let k = r.tag.spec_keyword();
    lemma_keyword(r.tag);
    lemma_split_no_comma(k);
    lemma_split_no_comma(r.value);
    lemma_split_no_comma(r.target);
    if r.tag == RuleTag::Match {
        lemma_split_concat(k, r.target);
        assert(split_fields(rule_line(r)) =~= seq![k, r.target]);
        assert(r.value =~= Seq::<char>::empty());
    } else {
        lemma_split_concat(k, r.value);
        lemma_split_concat(k + seq![','] + r.value, r.target);
        assert(split_fields(rule_line(r)) =~= seq![k, r.value, r.target]);
    }
}

impl RuleTag {
    /// The kind of rule that a line keyword opens, if it is one.
    pub fn from_keyword(k: &str) -> (r: Option<RuleTag>)
        ensures
            r == tag_of_keyword(k@),
    {
        if text_eq(k, "DOMAIN") {
            Some(RuleTag::Domain)
        } else if text_eq(k, "DOMAIN-SUFFIX") {
            Some(RuleTag::DomainSuffix)
        } else if text_eq(k, "DOMAIN-REGEX") {
            Some(RuleTag::DomainRegex)
        } else if text_eq(k, "DOMAIN-KEYWORD") {
            Some(RuleTag::DomainKeyword)
        } else if text_eq(k, "IP-CIDR") {
            Some(RuleTag::IpCIDR)
        } else if text_eq(k, "IP-CIDR6") {
            Some(RuleTag::IpCIDR6)
        } else if text_eq(k, "IP-ASN") {
            Some(RuleTag::IpAsn)
        } else if text_eq(k, "RULE-SET") {
            Some(RuleTag::RuleSet)
        } else if text_eq(k, "GEOIP") {
            Some(RuleTag::GeoIp)
        } else if text_eq(k, "MATCH") {
            Some(RuleTag::Match)
        } else {
            None
        }
    }
}

/// The fields of a line, split at each comma.
fn split_line(s: &str) -> (r: Vec<String>)
    ensures
        r.deep_view() == split_fields(s@),
{
    let n = s.unicode_len();
    let mut fields: Vec<String> = Vec::new();
    let mut start: usize = 0;
    let mut i: usize = 0;
    assert(s@.subrange(0, 0) =~= Seq::<char>::empty());
    assert(fields.deep_view().push(s@.subrange(0, 0)) =~= split_fields(s@.subrange(0, 0)));
    while i < n
        invariant
            n == s@.len(),
            start <= i <= n,
            fields.deep_view().push(s@.subrange(start as int, i as int)) == split_fields(
                s@.subrange(0, i as int),
            ),
        decreases n - i,
    {
        let c = s.get_char(i);
        let ghost before = fields.deep_view();
        assert(s@.subrange(0, i + 1).drop_last() =~= s@.subrange(0, i as int));
        assert(s@.subrange(0, i + 1).last() == c);
        if c == ',' {
            let ghost old_start = start;
            let field = String::from_str(s.substring_char(start, i));
            fields.push(field);
            assert(fields.deep_view() =~= before.push(s@.subrange(start as int, i as int)));
            start = i + 1;
            assert(s@.subrange(start as int, i + 1) =~= Seq::<char>::empty());
            assert(fields.deep_view().push(s@.subrange(start as int, i + 1)) =~= before.push(
                s@.subrange(old_start as int, i as int),
            ).push(Seq::empty()));
        } else {
            assert(s@.subrange(start as int, i + 1) =~= s@.subrange(start as int, i as int).push(c));
            assert(before.push(s@.subrange(start as int, i + 1)) =~= before.push(
                s@.subrange(start as int, i as int),
            ).update(before.len() as int, s@.subrange(start as int, i as int).push(c)));
        }
        i += 1;
    }
    let last = String::from_str(s.substring_char(start, n));
    fields.push(last);
    assert(s@.subrange(0, n as int) =~= s@);
    fields
}

impl Rule {
    /// The rule that a line stands for: the inverse of `to_line` for rules
    /// whose texts hold no comma. `None` for an unknown keyword or a line
    /// with too few fields.
    pub fn parse_line(line: &str) -> (r: Option<Rule>)
        ensures
            r.deep_view() == parse_rule_line(line@),
    {
        let fields = split_line(line);
        proof {
            lemma_split_nonempty(line@);
        }
        match RuleTag::from_keyword(fields[0].as_str()) {
            None => None,
            Some(RuleTag::Match) => {
                if fields.len() >= 2 {
                    Some(Rule { tag: RuleTag::Match, value: String::new(), target: fields[1].clone() })
                } else {
                    None
                }
            },
            Some(tag) => {
                if fields.len() >= 3 {
                    Some(Rule { tag, value: fields[1].clone(), target: fields[2].clone() })
                } else {
                    None
                }
            },
        }
    }
}

} // verus!
